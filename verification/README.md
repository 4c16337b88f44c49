# vrm_anatomy

Humanoid avatar anatomy for VRM models, with its decision logic verified by
Verus.

`src/` is the verified library:

- bone-name vocabularies: Mixamo, VRM 0.x / 1.0 and glTF joint names, the
  alias tables that resolve them to anatomical bones, and the physics preset
  class of every bone (`names`, `bone_alias`, `bone_class`);
- the glTF extensions a VRM model carries, read from a JSON tree: the
  humanoid bone maps, the expressions and the spring bones (`json`, `vrm`,
  `expression`, `expressions`, `spring_bone`);
- skeleton hierarchies: the 144-bone anatomical skeleton, and skeletons built
  from a humanoid or a glTF skin over the glTF node tree, each with its parents
  before its bones (`skeleton`, `topology`, `humanoid`, `vrm_skeleton`,
  `skin_skeleton`, `bone_direction`, `loader`);
- retargeting of Mixamo animation samples onto VRM nodes (`mixamo`).

Everything numeric (node transforms, bone geometry, joint limits and masses,
keyframe interpolation, skinning), the serde derives and the glTF loader live
in `app/`, which calls the library for every decision.

`tests/` exercises the library on concrete values.
