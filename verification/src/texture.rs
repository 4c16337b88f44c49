//! Texture data of a model part.

use vstd::prelude::*;

verus! {

/// A decoded base-color texture: `width` by `height` pixels of RGBA bytes.
#[derive(Debug, Clone)]
pub struct VrmTexture {
    pub width: u32,
    pub height: u32,
    pub rgba: Vec<u8>,
}

} // verus!
