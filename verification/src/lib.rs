//! Humanoid avatar anatomy for VRM models: bone-name vocabularies, reading
//! the VRM extensions (humanoid bones, expressions, spring bones), skeleton
//! hierarchies and animation retargeting.

pub mod table;
pub mod text;
pub mod bone_class;
pub mod names;
pub mod expression;
pub mod expressions;
pub mod json;
pub mod vrm;
pub mod spring_bone;
pub mod bone_alias;
pub mod skeleton;
pub mod topology;
pub mod vrm_skeleton;
pub mod skin_skeleton;
pub mod mixamo;
pub mod animation;
pub mod loader;
pub mod bone_direction;
pub mod humanoid;
pub mod texture;
