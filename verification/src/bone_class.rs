//! Classification of humanoid bones by name: which bones are driven
//! kinematically, and which joint, mass, stiffness and radius preset each bone gets.
//! The physical values of each preset are floating-point data kept outside this crate.

use vstd::prelude::*;
use crate::table::{assoc, assoc_exec, contains_any, has_any_substring, list_contains, list_view, table_view};
use crate::text::{contains, ends_with, has_substring, starts_with, str_eq};

verus! {

/// Joint preset of a humanoid bone.
#[derive(Clone, Copy, Debug, PartialEq, Eq)]
pub enum JointClass {
    /// Elbow hinge.
    LowerArm,
    /// Knee hinge.
    LowerLeg,
    /// Finger hinge.
    Finger,
    /// Shoulder ball joint.
    UpperArm,
    /// Hip ball joint.
    UpperLeg,
    /// Ankle ball joint.
    Foot,
    /// Toe hinge.
    Toes,
    /// Wrist ball joint.
    Hand,
    /// Shoulder girdle ball joint.
    Shoulder,
    /// Spine / chest ball joint.
    Trunk,
    /// Neck ball joint.
    Neck,
    /// Head ball joint.
    Head,
    /// Jaw hinge.
    Jaw,
    /// Fixed root.
    Root,
    /// Default ball joint.
    Other,
}

/// Mass preset of a humanoid bone.
#[derive(Clone, Copy, Debug, PartialEq, Eq)]
pub enum MassClass {
    Hips,
    Spine,
    Chest,
    UpperChest,
    Neck,
    Head,
    Jaw,
    Shoulder,
    UpperArm,
    LowerArm,
    Hand,
    UpperLeg,
    LowerLeg,
    Foot,
    Toes,
    /// Distal finger phalanx.
    Distal,
    /// Intermediate finger phalanx.
    Intermediate,
    /// Proximal finger phalanx.
    Proximal,
    /// Unknown bone: the mass follows from the bone length.
    ByLength,
}

/// Pose-motor stiffness preset of a humanoid bone.
#[derive(Clone, Copy, Debug, PartialEq, Eq)]
pub enum StiffnessClass {
    Hips,
    Trunk,
    Neck,
    Head,
    Shoulder,
    UpperArm,
    LowerArm,
    UpperLeg,
    LowerLeg,
    Hand,
    Foot,
    Toes,
    Finger,
    Default,
}

/// Capsule radius preset of a humanoid bone.
#[derive(Clone, Copy, Debug, PartialEq, Eq)]
pub enum RadiusClass {
    Hips,
    Head,
    UpperLeg,
    UpperArm,
    LowerLeg,
    Finger,
    /// Unknown bone: the radius follows from the bone length.
    ByLength,
}

impl View for JointClass {
    type V = JointClass;

    open spec fn view(&self) -> JointClass {
        *self
    }
}

impl View for MassClass {
    type V = MassClass;

    open spec fn view(&self) -> MassClass {
        *self
    }
}

impl View for StiffnessClass {
    type V = StiffnessClass;

    open spec fn view(&self) -> StiffnessClass {
        *self
    }
}

impl View for RadiusClass {
    type V = RadiusClass;

    open spec fn view(&self) -> RadiusClass {
        *self
    }
}

/// Trunk, shoulder girdle, hand, foot and toe bones (VRM and Mixamo names): always kinematic.
pub open spec fn kinematic_base_names() -> Seq<Seq<char>> {
    seq![
        "hips"@,
        "spine"@,
        "chest"@,
        "upperChest"@,
        "neck"@,
        "head"@,
        "jaw"@,
        "leftShoulder"@,
        "rightShoulder"@,
        "Hips"@,
        "Spine"@,
        "Spine1"@,
        "Spine2"@,
        "Neck"@,
        "Head"@,
        "Jaw"@,
        "LeftShoulder"@,
        "RightShoulder"@,
        "leftHand"@,
        "rightHand"@,
        "leftFoot"@,
        "rightFoot"@,
        "leftToes"@,
        "rightToes"@,
        "LeftHand"@,
        "RightHand"@,
        "LeftFoot"@,
        "RightFoot"@,
        "LeftToes"@,
        "RightToes"@,
        "LeftToeBase"@,
        "RightToeBase"@,
    ]
}
/// Words that mark a finger bone.
pub open spec fn finger_words() -> Seq<Seq<char>> {
    seq![
        "Thumb"@,
        "Index"@,
        "Middle"@,
        "Ring"@,
        "Little"@,
        "thumb"@,
        "index"@,
        "middle"@,
        "ring"@,
        "little"@,
    ]
}
/// The humanoid arm and leg bones (VRM and Mixamo names) that physics drives.
pub open spec fn dynamic_limb_names() -> Seq<Seq<char>> {
    seq![
        "leftUpperArm"@,
        "rightUpperArm"@,
        "leftLowerArm"@,
        "rightLowerArm"@,
        "leftUpperLeg"@,
        "rightUpperLeg"@,
        "leftLowerLeg"@,
        "rightLowerLeg"@,
        "LeftArm"@,
        "RightArm"@,
        "LeftForeArm"@,
        "RightForeArm"@,
        "LeftUpLeg"@,
        "RightUpLeg"@,
        "LeftLeg"@,
        "RightLeg"@,
    ]
}
/// Words that mark a VRM finger bone.
pub open spec fn phalanx_words() -> Seq<Seq<char>> {
    seq![
        "Distal"@,
        "Intermediate"@,
        "Proximal"@,
        "Metacarpal"@,
    ]
}
/// Finger words of Mixamo hand bones.
pub open spec fn mixamo_finger_words() -> Seq<Seq<char>> {
    seq![
        "Thumb"@,
        "Index"@,
        "Middle"@,
        "Ring"@,
        "Pinky"@,
    ]
}
/// Words that mark a finger phalanx.
pub open spec fn radius_finger_words() -> Seq<Seq<char>> {
    seq![
        "Distal"@,
        "Intermediate"@,
        "Proximal"@,
    ]
}
/// Elbow and knee bones.
pub open spec fn hinge_limb_table() -> Seq<(Seq<char>, JointClass)> {
    seq![
        ("leftLowerArm"@, JointClass::LowerArm),
        ("rightLowerArm"@, JointClass::LowerArm),
        ("LeftLowerArm"@, JointClass::LowerArm),
        ("RightLowerArm"@, JointClass::LowerArm),
        ("leftLowerLeg"@, JointClass::LowerLeg),
        ("rightLowerLeg"@, JointClass::LowerLeg),
        ("LeftLowerLeg"@, JointClass::LowerLeg),
        ("RightLowerLeg"@, JointClass::LowerLeg),
    ]
}
/// The other bones with a dedicated joint preset.
pub open spec fn joint_table() -> Seq<(Seq<char>, JointClass)> {
    seq![
        ("leftUpperArm"@, JointClass::UpperArm),
        ("rightUpperArm"@, JointClass::UpperArm),
        ("LeftUpperArm"@, JointClass::UpperArm),
        ("RightUpperArm"@, JointClass::UpperArm),
        ("leftUpperLeg"@, JointClass::UpperLeg),
        ("rightUpperLeg"@, JointClass::UpperLeg),
        ("LeftUpperLeg"@, JointClass::UpperLeg),
        ("RightUpperLeg"@, JointClass::UpperLeg),
        ("leftFoot"@, JointClass::Foot),
        ("rightFoot"@, JointClass::Foot),
        ("LeftFoot"@, JointClass::Foot),
        ("RightFoot"@, JointClass::Foot),
        ("leftToes"@, JointClass::Toes),
        ("rightToes"@, JointClass::Toes),
        ("LeftToes"@, JointClass::Toes),
        ("RightToes"@, JointClass::Toes),
        ("leftHand"@, JointClass::Hand),
        ("rightHand"@, JointClass::Hand),
        ("LeftHand"@, JointClass::Hand),
        ("RightHand"@, JointClass::Hand),
        ("leftShoulder"@, JointClass::Shoulder),
        ("rightShoulder"@, JointClass::Shoulder),
        ("LeftShoulder"@, JointClass::Shoulder),
        ("RightShoulder"@, JointClass::Shoulder),
        ("spine"@, JointClass::Trunk),
        ("chest"@, JointClass::Trunk),
        ("upperChest"@, JointClass::Trunk),
        ("Spine"@, JointClass::Trunk),
        ("Chest"@, JointClass::Trunk),
        ("UpperChest"@, JointClass::Trunk),
        ("neck"@, JointClass::Neck),
        ("Neck"@, JointClass::Neck),
        ("head"@, JointClass::Head),
        ("Head"@, JointClass::Head),
        ("jaw"@, JointClass::Jaw),
        ("Jaw"@, JointClass::Jaw),
        ("hips"@, JointClass::Root),
        ("Hips"@, JointClass::Root),
    ]
}
/// Bones with a dedicated mass preset.
pub open spec fn mass_table() -> Seq<(Seq<char>, MassClass)> {
    seq![
        ("hips"@, MassClass::Hips),
        ("Hips"@, MassClass::Hips),
        ("spine"@, MassClass::Spine),
        ("Spine"@, MassClass::Spine),
        ("chest"@, MassClass::Chest),
        ("Chest"@, MassClass::Chest),
        ("upperChest"@, MassClass::UpperChest),
        ("UpperChest"@, MassClass::UpperChest),
        ("neck"@, MassClass::Neck),
        ("Neck"@, MassClass::Neck),
        ("head"@, MassClass::Head),
        ("Head"@, MassClass::Head),
        ("jaw"@, MassClass::Jaw),
        ("Jaw"@, MassClass::Jaw),
        ("leftShoulder"@, MassClass::Shoulder),
        ("rightShoulder"@, MassClass::Shoulder),
        ("LeftShoulder"@, MassClass::Shoulder),
        ("RightShoulder"@, MassClass::Shoulder),
        ("leftUpperArm"@, MassClass::UpperArm),
        ("rightUpperArm"@, MassClass::UpperArm),
        ("LeftUpperArm"@, MassClass::UpperArm),
        ("RightUpperArm"@, MassClass::UpperArm),
        ("leftLowerArm"@, MassClass::LowerArm),
        ("rightLowerArm"@, MassClass::LowerArm),
        ("LeftLowerArm"@, MassClass::LowerArm),
        ("RightLowerArm"@, MassClass::LowerArm),
        ("leftHand"@, MassClass::Hand),
        ("rightHand"@, MassClass::Hand),
        ("LeftHand"@, MassClass::Hand),
        ("RightHand"@, MassClass::Hand),
        ("leftUpperLeg"@, MassClass::UpperLeg),
        ("rightUpperLeg"@, MassClass::UpperLeg),
        ("LeftUpperLeg"@, MassClass::UpperLeg),
        ("RightUpperLeg"@, MassClass::UpperLeg),
        ("leftLowerLeg"@, MassClass::LowerLeg),
        ("rightLowerLeg"@, MassClass::LowerLeg),
        ("LeftLowerLeg"@, MassClass::LowerLeg),
        ("RightLowerLeg"@, MassClass::LowerLeg),
        ("leftFoot"@, MassClass::Foot),
        ("rightFoot"@, MassClass::Foot),
        ("LeftFoot"@, MassClass::Foot),
        ("RightFoot"@, MassClass::Foot),
        ("leftToes"@, MassClass::Toes),
        ("rightToes"@, MassClass::Toes),
        ("LeftToes"@, MassClass::Toes),
        ("RightToes"@, MassClass::Toes),
    ]
}
/// Bones with a dedicated stiffness preset.
pub open spec fn stiffness_table() -> Seq<(Seq<char>, StiffnessClass)> {
    seq![
        ("hips"@, StiffnessClass::Hips),
        ("Hips"@, StiffnessClass::Hips),
        ("spine"@, StiffnessClass::Trunk),
        ("chest"@, StiffnessClass::Trunk),
        ("upperChest"@, StiffnessClass::Trunk),
        ("Spine"@, StiffnessClass::Trunk),
        ("Chest"@, StiffnessClass::Trunk),
        ("UpperChest"@, StiffnessClass::Trunk),
        ("neck"@, StiffnessClass::Neck),
        ("Neck"@, StiffnessClass::Neck),
        ("head"@, StiffnessClass::Head),
        ("Head"@, StiffnessClass::Head),
        ("leftShoulder"@, StiffnessClass::Shoulder),
        ("rightShoulder"@, StiffnessClass::Shoulder),
        ("LeftShoulder"@, StiffnessClass::Shoulder),
        ("RightShoulder"@, StiffnessClass::Shoulder),
        ("leftUpperArm"@, StiffnessClass::UpperArm),
        ("rightUpperArm"@, StiffnessClass::UpperArm),
        ("LeftUpperArm"@, StiffnessClass::UpperArm),
        ("RightUpperArm"@, StiffnessClass::UpperArm),
        ("leftLowerArm"@, StiffnessClass::LowerArm),
        ("rightLowerArm"@, StiffnessClass::LowerArm),
        ("LeftLowerArm"@, StiffnessClass::LowerArm),
        ("RightLowerArm"@, StiffnessClass::LowerArm),
        ("leftUpperLeg"@, StiffnessClass::UpperLeg),
        ("rightUpperLeg"@, StiffnessClass::UpperLeg),
        ("LeftUpperLeg"@, StiffnessClass::UpperLeg),
        ("RightUpperLeg"@, StiffnessClass::UpperLeg),
        ("leftLowerLeg"@, StiffnessClass::LowerLeg),
        ("rightLowerLeg"@, StiffnessClass::LowerLeg),
        ("LeftLowerLeg"@, StiffnessClass::LowerLeg),
        ("RightLowerLeg"@, StiffnessClass::LowerLeg),
        ("leftHand"@, StiffnessClass::Hand),
        ("rightHand"@, StiffnessClass::Hand),
        ("LeftHand"@, StiffnessClass::Hand),
        ("RightHand"@, StiffnessClass::Hand),
        ("leftFoot"@, StiffnessClass::Foot),
        ("rightFoot"@, StiffnessClass::Foot),
        ("LeftFoot"@, StiffnessClass::Foot),
        ("RightFoot"@, StiffnessClass::Foot),
        ("leftToes"@, StiffnessClass::Toes),
        ("rightToes"@, StiffnessClass::Toes),
        ("LeftToes"@, StiffnessClass::Toes),
        ("RightToes"@, StiffnessClass::Toes),
    ]
}
/// Bones with a dedicated radius preset.
pub open spec fn radius_table() -> Seq<(Seq<char>, RadiusClass)> {
    seq![
        ("hips"@, RadiusClass::Hips),
        ("Hips"@, RadiusClass::Hips),
        ("head"@, RadiusClass::Head),
        ("Head"@, RadiusClass::Head),
        ("leftUpperLeg"@, RadiusClass::UpperLeg),
        ("rightUpperLeg"@, RadiusClass::UpperLeg),
        ("LeftUpperLeg"@, RadiusClass::UpperLeg),
        ("RightUpperLeg"@, RadiusClass::UpperLeg),
        ("leftUpperArm"@, RadiusClass::UpperArm),
        ("rightUpperArm"@, RadiusClass::UpperArm),
        ("LeftUpperArm"@, RadiusClass::UpperArm),
        ("RightUpperArm"@, RadiusClass::UpperArm),
        ("leftLowerLeg"@, RadiusClass::LowerLeg),
        ("rightLowerLeg"@, RadiusClass::LowerLeg),
        ("LeftLowerLeg"@, RadiusClass::LowerLeg),
        ("RightLowerLeg"@, RadiusClass::LowerLeg),
    ]
}
/// Whether physics should leave the bone to kinematic (positional) control:
/// every bone but the humanoid arms and legs, with end bones and fingers always kinematic.
pub open spec fn kinematic_bone(name: Seq<char>) -> bool {
    ||| kinematic_base_names().contains(name)
    ||| "_End"@.is_suffix_of(name)
    ||| "Top_End"@.is_suffix_of(name)
    ||| "Toe_End"@.is_suffix_of(name)
    ||| has_any_substring(name, finger_words())
    ||| !dynamic_limb_names().contains(name)
}

/// Whether the name denotes a finger bone for the joint presets: a VRM
/// phalanx / metacarpal, or a Mixamo hand bone that names a finger.
pub open spec fn finger_joint_name(name: Seq<char>) -> bool {
    ||| has_any_substring(name, phalanx_words())
    ||| ("RightHand"@.is_prefix_of(name) || "LeftHand"@.is_prefix_of(name)) && has_any_substring(
        name,
        mixamo_finger_words(),
    )
}

/// The joint preset of a bone: elbows and knees first, then fingers, then the
/// other named bones, else the default ball joint.
pub open spec fn joint_class(name: Seq<char>) -> JointClass {
    match assoc(hinge_limb_table(), name) {
        Some(c) => c,
        None => if finger_joint_name(name) {
            JointClass::Finger
        } else {
            match assoc(joint_table(), name) {
                Some(c) => c,
                None => JointClass::Other,
            }
        },
    }
}

/// The mass preset of a bone: named bones, then finger phalanges, else by length.
pub open spec fn mass_class(name: Seq<char>) -> MassClass {
    match assoc(mass_table(), name) {
        Some(c) => c,
        None => if crate::text::has_substring(name, "Distal"@) {
            MassClass::Distal
        } else if crate::text::has_substring(name, "Intermediate"@) {
            MassClass::Intermediate
        } else if crate::text::has_substring(name, "Proximal"@) {
            MassClass::Proximal
        } else {
            MassClass::ByLength
        },
    }
}

/// The stiffness preset of a bone: named bones, then fingers, else the default.
pub open spec fn stiffness_class(name: Seq<char>) -> StiffnessClass {
    match assoc(stiffness_table(), name) {
        Some(c) => c,
        None => if has_any_substring(name, finger_words()) {
            StiffnessClass::Finger
        } else {
            StiffnessClass::Default
        },
    }
}

/// The radius preset of a bone: named bones, then finger phalanges, else by length.
pub open spec fn radius_class(name: Seq<char>) -> RadiusClass {
    match assoc(radius_table(), name) {
        Some(c) => c,
        None => if has_any_substring(name, radius_finger_words()) {
            RadiusClass::Finger
        } else {
            RadiusClass::ByLength
        },
    }
}

/// The always-kinematic names as an array.
fn kinematic_base_list() -> (r: [&'static str; 32])
    ensures
        list_view(r@) == kinematic_base_names(),
{
    let r = [
        "hips",
        "spine",
        "chest",
        "upperChest",
        "neck",
        "head",
        "jaw",
        "leftShoulder",
        "rightShoulder",
        "Hips",
        "Spine",
        "Spine1",
        "Spine2",
        "Neck",
        "Head",
        "Jaw",
        "LeftShoulder",
        "RightShoulder",
        "leftHand",
        "rightHand",
        "leftFoot",
        "rightFoot",
        "leftToes",
        "rightToes",
        "LeftHand",
        "RightHand",
        "LeftFoot",
        "RightFoot",
        "LeftToes",
        "RightToes",
        "LeftToeBase",
        "RightToeBase",
    ];
    assert(list_view(r@) =~= kinematic_base_names());
    r
}
/// The finger words as an array.
fn finger_word_list() -> (r: [&'static str; 10])
    ensures
        list_view(r@) == finger_words(),
{
    let r = [
        "Thumb",
        "Index",
        "Middle",
        "Ring",
        "Little",
        "thumb",
        "index",
        "middle",
        "ring",
        "little",
    ];
    assert(list_view(r@) =~= finger_words());
    r
}
/// The physics-driven limb names as an array.
fn dynamic_limb_list() -> (r: [&'static str; 16])
    ensures
        list_view(r@) == dynamic_limb_names(),
{
    let r = [
        "leftUpperArm",
        "rightUpperArm",
        "leftLowerArm",
        "rightLowerArm",
        "leftUpperLeg",
        "rightUpperLeg",
        "leftLowerLeg",
        "rightLowerLeg",
        "LeftArm",
        "RightArm",
        "LeftForeArm",
        "RightForeArm",
        "LeftUpLeg",
        "RightUpLeg",
        "LeftLeg",
        "RightLeg",
    ];
    assert(list_view(r@) =~= dynamic_limb_names());
    r
}
/// The VRM finger words as an array.
fn phalanx_word_list() -> (r: [&'static str; 4])
    ensures
        list_view(r@) == phalanx_words(),
{
    let r = [
        "Distal",
        "Intermediate",
        "Proximal",
        "Metacarpal",
    ];
    assert(list_view(r@) =~= phalanx_words());
    r
}
/// The Mixamo finger words as an array.
fn mixamo_finger_word_list() -> (r: [&'static str; 5])
    ensures
        list_view(r@) == mixamo_finger_words(),
{
    let r = [
        "Thumb",
        "Index",
        "Middle",
        "Ring",
        "Pinky",
    ];
    assert(list_view(r@) =~= mixamo_finger_words());
    r
}
/// The phalanx words as an array.
fn radius_finger_word_list() -> (r: [&'static str; 3])
    ensures
        list_view(r@) == radius_finger_words(),
{
    let r = [
        "Distal",
        "Intermediate",
        "Proximal",
    ];
    assert(list_view(r@) =~= radius_finger_words());
    r
}
/// The elbow and knee table as an array.
fn hinge_limb_pairs() -> (r: [(&'static str, JointClass); 8])
    ensures
        table_view(r@) == hinge_limb_table(),
{
    let r = [
        ("leftLowerArm", JointClass::LowerArm),
        ("rightLowerArm", JointClass::LowerArm),
        ("LeftLowerArm", JointClass::LowerArm),
        ("RightLowerArm", JointClass::LowerArm),
        ("leftLowerLeg", JointClass::LowerLeg),
        ("rightLowerLeg", JointClass::LowerLeg),
        ("LeftLowerLeg", JointClass::LowerLeg),
        ("RightLowerLeg", JointClass::LowerLeg),
    ];
    assert(table_view(r@) =~= hinge_limb_table());
    r
}
/// The joint table as an array.
fn joint_pairs() -> (r: [(&'static str, JointClass); 38])
    ensures
        table_view(r@) == joint_table(),
{
    let r = [
        ("leftUpperArm", JointClass::UpperArm),
        ("rightUpperArm", JointClass::UpperArm),
        ("LeftUpperArm", JointClass::UpperArm),
        ("RightUpperArm", JointClass::UpperArm),
        ("leftUpperLeg", JointClass::UpperLeg),
        ("rightUpperLeg", JointClass::UpperLeg),
        ("LeftUpperLeg", JointClass::UpperLeg),
        ("RightUpperLeg", JointClass::UpperLeg),
        ("leftFoot", JointClass::Foot),
        ("rightFoot", JointClass::Foot),
        ("LeftFoot", JointClass::Foot),
        ("RightFoot", JointClass::Foot),
        ("leftToes", JointClass::Toes),
        ("rightToes", JointClass::Toes),
        ("LeftToes", JointClass::Toes),
        ("RightToes", JointClass::Toes),
        ("leftHand", JointClass::Hand),
        ("rightHand", JointClass::Hand),
        ("LeftHand", JointClass::Hand),
        ("RightHand", JointClass::Hand),
        ("leftShoulder", JointClass::Shoulder),
        ("rightShoulder", JointClass::Shoulder),
        ("LeftShoulder", JointClass::Shoulder),
        ("RightShoulder", JointClass::Shoulder),
        ("spine", JointClass::Trunk),
        ("chest", JointClass::Trunk),
        ("upperChest", JointClass::Trunk),
        ("Spine", JointClass::Trunk),
        ("Chest", JointClass::Trunk),
        ("UpperChest", JointClass::Trunk),
        ("neck", JointClass::Neck),
        ("Neck", JointClass::Neck),
        ("head", JointClass::Head),
        ("Head", JointClass::Head),
        ("jaw", JointClass::Jaw),
        ("Jaw", JointClass::Jaw),
        ("hips", JointClass::Root),
        ("Hips", JointClass::Root),
    ];
    assert(table_view(r@) =~= joint_table());
    r
}
/// The mass table as an array.
fn mass_pairs() -> (r: [(&'static str, MassClass); 46])
    ensures
        table_view(r@) == mass_table(),
{
    let r = [
        ("hips", MassClass::Hips),
        ("Hips", MassClass::Hips),
        ("spine", MassClass::Spine),
        ("Spine", MassClass::Spine),
        ("chest", MassClass::Chest),
        ("Chest", MassClass::Chest),
        ("upperChest", MassClass::UpperChest),
        ("UpperChest", MassClass::UpperChest),
        ("neck", MassClass::Neck),
        ("Neck", MassClass::Neck),
        ("head", MassClass::Head),
        ("Head", MassClass::Head),
        ("jaw", MassClass::Jaw),
        ("Jaw", MassClass::Jaw),
        ("leftShoulder", MassClass::Shoulder),
        ("rightShoulder", MassClass::Shoulder),
        ("LeftShoulder", MassClass::Shoulder),
        ("RightShoulder", MassClass::Shoulder),
        ("leftUpperArm", MassClass::UpperArm),
        ("rightUpperArm", MassClass::UpperArm),
        ("LeftUpperArm", MassClass::UpperArm),
        ("RightUpperArm", MassClass::UpperArm),
        ("leftLowerArm", MassClass::LowerArm),
        ("rightLowerArm", MassClass::LowerArm),
        ("LeftLowerArm", MassClass::LowerArm),
        ("RightLowerArm", MassClass::LowerArm),
        ("leftHand", MassClass::Hand),
        ("rightHand", MassClass::Hand),
        ("LeftHand", MassClass::Hand),
        ("RightHand", MassClass::Hand),
        ("leftUpperLeg", MassClass::UpperLeg),
        ("rightUpperLeg", MassClass::UpperLeg),
        ("LeftUpperLeg", MassClass::UpperLeg),
        ("RightUpperLeg", MassClass::UpperLeg),
        ("leftLowerLeg", MassClass::LowerLeg),
        ("rightLowerLeg", MassClass::LowerLeg),
        ("LeftLowerLeg", MassClass::LowerLeg),
        ("RightLowerLeg", MassClass::LowerLeg),
        ("leftFoot", MassClass::Foot),
        ("rightFoot", MassClass::Foot),
        ("LeftFoot", MassClass::Foot),
        ("RightFoot", MassClass::Foot),
        ("leftToes", MassClass::Toes),
        ("rightToes", MassClass::Toes),
        ("LeftToes", MassClass::Toes),
        ("RightToes", MassClass::Toes),
    ];
    assert(table_view(r@) =~= mass_table());
    r
}
/// The stiffness table as an array.
fn stiffness_pairs() -> (r: [(&'static str, StiffnessClass); 44])
    ensures
        table_view(r@) == stiffness_table(),
{
    let r = [
        ("hips", StiffnessClass::Hips),
        ("Hips", StiffnessClass::Hips),
        ("spine", StiffnessClass::Trunk),
        ("chest", StiffnessClass::Trunk),
        ("upperChest", StiffnessClass::Trunk),
        ("Spine", StiffnessClass::Trunk),
        ("Chest", StiffnessClass::Trunk),
        ("UpperChest", StiffnessClass::Trunk),
        ("neck", StiffnessClass::Neck),
        ("Neck", StiffnessClass::Neck),
        ("head", StiffnessClass::Head),
        ("Head", StiffnessClass::Head),
        ("leftShoulder", StiffnessClass::Shoulder),
        ("rightShoulder", StiffnessClass::Shoulder),
        ("LeftShoulder", StiffnessClass::Shoulder),
        ("RightShoulder", StiffnessClass::Shoulder),
        ("leftUpperArm", StiffnessClass::UpperArm),
        ("rightUpperArm", StiffnessClass::UpperArm),
        ("LeftUpperArm", StiffnessClass::UpperArm),
        ("RightUpperArm", StiffnessClass::UpperArm),
        ("leftLowerArm", StiffnessClass::LowerArm),
        ("rightLowerArm", StiffnessClass::LowerArm),
        ("LeftLowerArm", StiffnessClass::LowerArm),
        ("RightLowerArm", StiffnessClass::LowerArm),
        ("leftUpperLeg", StiffnessClass::UpperLeg),
        ("rightUpperLeg", StiffnessClass::UpperLeg),
        ("LeftUpperLeg", StiffnessClass::UpperLeg),
        ("RightUpperLeg", StiffnessClass::UpperLeg),
        ("leftLowerLeg", StiffnessClass::LowerLeg),
        ("rightLowerLeg", StiffnessClass::LowerLeg),
        ("LeftLowerLeg", StiffnessClass::LowerLeg),
        ("RightLowerLeg", StiffnessClass::LowerLeg),
        ("leftHand", StiffnessClass::Hand),
        ("rightHand", StiffnessClass::Hand),
        ("LeftHand", StiffnessClass::Hand),
        ("RightHand", StiffnessClass::Hand),
        ("leftFoot", StiffnessClass::Foot),
        ("rightFoot", StiffnessClass::Foot),
        ("LeftFoot", StiffnessClass::Foot),
        ("RightFoot", StiffnessClass::Foot),
        ("leftToes", StiffnessClass::Toes),
        ("rightToes", StiffnessClass::Toes),
        ("LeftToes", StiffnessClass::Toes),
        ("RightToes", StiffnessClass::Toes),
    ];
    assert(table_view(r@) =~= stiffness_table());
    r
}
/// The radius table as an array.
fn radius_pairs() -> (r: [(&'static str, RadiusClass); 16])
    ensures
        table_view(r@) == radius_table(),
{
    let r = [
        ("hips", RadiusClass::Hips),
        ("Hips", RadiusClass::Hips),
        ("head", RadiusClass::Head),
        ("Head", RadiusClass::Head),
        ("leftUpperLeg", RadiusClass::UpperLeg),
        ("rightUpperLeg", RadiusClass::UpperLeg),
        ("LeftUpperLeg", RadiusClass::UpperLeg),
        ("RightUpperLeg", RadiusClass::UpperLeg),
        ("leftUpperArm", RadiusClass::UpperArm),
        ("rightUpperArm", RadiusClass::UpperArm),
        ("LeftUpperArm", RadiusClass::UpperArm),
        ("RightUpperArm", RadiusClass::UpperArm),
        ("leftLowerLeg", RadiusClass::LowerLeg),
        ("rightLowerLeg", RadiusClass::LowerLeg),
        ("LeftLowerLeg", RadiusClass::LowerLeg),
        ("RightLowerLeg", RadiusClass::LowerLeg),
    ];
    assert(table_view(r@) =~= radius_table());
    r
}
/// Whether the VRM / Mixamo bone is kinematic (position-driven) rather than
/// dynamic (motor-driven): only the humanoid arms and legs are dynamic.
pub fn is_kinematic_bone(vrm_bone_name: &str) -> (r: bool)
    ensures
        r == kinematic_bone(vrm_bone_name@),
{
    if list_contains(&kinematic_base_list(), vrm_bone_name) {
        return true;
    }
    if ends_with(vrm_bone_name, "_End") || ends_with(vrm_bone_name, "Top_End") || ends_with(
        vrm_bone_name,
        "Toe_End",
    ) {
        return true;
    }
    if contains_any(vrm_bone_name, &finger_word_list()) {
        return true;
    }
    if list_contains(&dynamic_limb_list(), vrm_bone_name) {
        return false;
    }
    true
}

/// The joint preset of a VRM / Mixamo bone.
pub fn vrm_bone_joint_class(vrm_bone_name: &str) -> (r: JointClass)
    ensures
        r == joint_class(vrm_bone_name@),
{
    if let Some(c) = assoc_exec(&hinge_limb_pairs(), vrm_bone_name) {
        return c;
    }
    let finger = contains_any(vrm_bone_name, &phalanx_word_list()) || ((starts_with(
        vrm_bone_name,
        "RightHand",
    ) || starts_with(vrm_bone_name, "LeftHand")) && contains_any(
        vrm_bone_name,
        &mixamo_finger_word_list(),
    ));
    if finger {
        return JointClass::Finger;
    }
    match assoc_exec(&joint_pairs(), vrm_bone_name) {
        Some(c) => c,
        None => JointClass::Other,
    }
}

/// The mass preset of a VRM / Mixamo bone.
pub fn vrm_bone_mass_class(vrm_bone_name: &str) -> (r: MassClass)
    ensures
        r == mass_class(vrm_bone_name@),
{
    if let Some(c) = assoc_exec(&mass_pairs(), vrm_bone_name) {
        return c;
    }
    if crate::text::contains(vrm_bone_name, "Distal") {
        MassClass::Distal
    } else if crate::text::contains(vrm_bone_name, "Intermediate") {
        MassClass::Intermediate
    } else if crate::text::contains(vrm_bone_name, "Proximal") {
        MassClass::Proximal
    } else {
        MassClass::ByLength
    }
}

/// The stiffness preset of a VRM / Mixamo bone.
pub fn vrm_bone_stiffness_class(vrm_bone_name: &str) -> (r: StiffnessClass)
    ensures
        r == stiffness_class(vrm_bone_name@),
{
    if let Some(c) = assoc_exec(&stiffness_pairs(), vrm_bone_name) {
        return c;
    }
    if contains_any(vrm_bone_name, &finger_word_list()) {
        StiffnessClass::Finger
    } else {
        StiffnessClass::Default
    }
}

/// The radius preset of a VRM / Mixamo bone.
pub fn vrm_bone_radius_class(vrm_bone_name: &str) -> (r: RadiusClass)
    ensures
        r == radius_class(vrm_bone_name@),
{
    if let Some(c) = assoc_exec(&radius_pairs(), vrm_bone_name) {
        return c;
    }
    if contains_any(vrm_bone_name, &radius_finger_word_list()) {
        RadiusClass::Finger
    } else {
        RadiusClass::ByLength
    }
}

/// The characters of the humanoid arm and leg bone names.
spec fn limb_char(c: char) -> bool {
    c == 'A' || c == 'F' || c == 'L' || c == 'R' || c == 'U' || c == 'e' || c == 'f' || c == 'g' || c == 'h' || c == 'i' || c == 'l' || c == 'm' || c == 'o' || c == 'p' || c == 'r' || c == 't' || c == 'w'
}

/// Text made of arm and leg name characters, with no `oo` and no `Li` / `li`.
spec fn limb_text(s: Seq<char>) -> bool {
    forall|i: int| 0 <= i < s.len() ==> {
        &&& limb_char(#[trigger] s[i])
        &&& i + 1 < s.len() ==> !(s[i] == 'o' && s[i + 1] == 'o')
        &&& i + 1 < s.len() ==> !((s[i] == 'L' || s[i] == 'l') && s[i + 1] == 'i')
    }
}

/// Limb text from position `i` on, checked character by character.
spec fn limb_text_from(s: Seq<char>, i: int) -> bool
    decreases s.len() - i,
{
    if i < 0 || i >= s.len() {
        true
    } else {
        &&& limb_char(s[i])
        &&& i + 1 < s.len() ==> !(s[i] == 'o' && s[i + 1] == 'o')
        &&& i + 1 < s.len() ==> !((s[i] == 'L' || s[i] == 'l') && s[i + 1] == 'i')
        &&& limb_text_from(s, i + 1)
    }
}

/// Text that is limb text from its start on is limb text.
proof fn lemma_limb_text_from(s: Seq<char>, i: int)
    requires
        0 <= i <= s.len(),
        limb_text_from(s, i),
    ensures
        forall|j: int| i <= j < s.len() ==> {
            &&& limb_char(#[trigger] s[j])
            &&& j + 1 < s.len() ==> !(s[j] == 'o' && s[j + 1] == 'o')
            &&& j + 1 < s.len() ==> !((s[j] == 'L' || s[j] == 'l') && s[j + 1] == 'i')
        },
    decreases s.len() - i,
{
    if i < s.len() {
        lemma_limb_text_from(s, i + 1);
    }
}

/// Each arm and leg bone name is limb text.
proof fn lemma_limb_names_are_limb_text(k: int)
    requires
        0 <= k < dynamic_limb_names().len(),
    ensures
        limb_text(dynamic_limb_names()[k]),
{
    reveal_strlit("leftUpperArm");
    reveal_strlit("rightUpperArm");
    reveal_strlit("leftLowerArm");
    reveal_strlit("rightLowerArm");
    reveal_strlit("leftUpperLeg");
    reveal_strlit("rightUpperLeg");
    reveal_strlit("leftLowerLeg");
    reveal_strlit("rightLowerLeg");
    reveal_strlit("LeftArm");
    reveal_strlit("RightArm");
    reveal_strlit("LeftForeArm");
    reveal_strlit("RightForeArm");
    reveal_strlit("LeftUpLeg");
    reveal_strlit("RightUpLeg");
    reveal_strlit("LeftLeg");
    reveal_strlit("RightLeg");
    let s = dynamic_limb_names()[k];
    reveal_with_fuel(limb_text_from, 14);
    assert(limb_text_from(s, 0));
    lemma_limb_text_from(s, 0);
}

/// Text with, from position `i` on, a character that no limb name has, or an `oo`.
spec fn not_limb_text_from(s: Seq<char>, i: int) -> bool
    decreases s.len() - i,
{
    if i < 0 || i >= s.len() {
        false
    } else {
        ||| !limb_char(s[i])
        ||| i + 1 < s.len() && s[i] == 'o' && s[i + 1] == 'o'
        ||| not_limb_text_from(s, i + 1)
    }
}

/// Text that is not limb text from some position on is no limb text.
proof fn lemma_not_limb_text_from(s: Seq<char>, i: int)
    requires
        0 <= i,
        not_limb_text_from(s, i),
    ensures
        !limb_text(s),
    decreases s.len() - i,
{
    if limb_char(s[i]) && !(i + 1 < s.len() && s[i] == 'o' && s[i + 1] == 'o') {
        lemma_not_limb_text_from(s, i + 1);
    }
}

/// Limb text is none of the always-kinematic bone names.
proof fn lemma_limb_text_not_base(s: Seq<char>)
    requires
        limb_text(s),
    ensures
        !kinematic_base_names().contains(s),
{
    reveal_strlit("hips");
    reveal_strlit("spine");
    reveal_strlit("chest");
    reveal_strlit("upperChest");
    reveal_strlit("neck");
    reveal_strlit("head");
    reveal_strlit("jaw");
    reveal_strlit("leftShoulder");
    reveal_strlit("rightShoulder");
    reveal_strlit("Hips");
    reveal_strlit("Spine");
    reveal_strlit("Spine1");
    reveal_strlit("Spine2");
    reveal_strlit("Neck");
    reveal_strlit("Head");
    reveal_strlit("Jaw");
    reveal_strlit("LeftShoulder");
    reveal_strlit("RightShoulder");
    reveal_strlit("leftHand");
    reveal_strlit("rightHand");
    reveal_strlit("leftFoot");
    reveal_strlit("rightFoot");
    reveal_strlit("leftToes");
    reveal_strlit("rightToes");
    reveal_strlit("LeftHand");
    reveal_strlit("RightHand");
    reveal_strlit("LeftFoot");
    reveal_strlit("RightFoot");
    reveal_strlit("LeftToes");
    reveal_strlit("RightToes");
    reveal_strlit("LeftToeBase");
    reveal_strlit("RightToeBase");
    let t = kinematic_base_names();
    assert forall|j: int| 0 <= j < t.len() implies #[trigger] t[j] != s by {
        reveal_with_fuel(not_limb_text_from, 14);
        assert(not_limb_text_from(t[j], 0));
        lemma_not_limb_text_from(t[j], 0);
    }
}


/// Limb text holds no text that has a character other than limb characters.
proof fn lemma_limb_text_lacks(s: Seq<char>, p: Seq<char>, d: int)
    requires
        limb_text(s),
        0 <= d < p.len(),
        !limb_char(p[d]),
    ensures
        !has_substring(s, p),
        !p.is_suffix_of(s),
{
    if has_substring(s, p) {
        let i = choose|i: int| 0 <= i <= s.len() - p.len() && #[trigger] s.subrange(i, i + p.len()) == p;
        assert(s[i + d] == p[d]);
        assert(limb_char(s[i + d]));
    }
    if p.is_suffix_of(s) {
        let i = s.len() - p.len();
        assert(s[i + d] == s.subrange(i, s.len() as int)[d]);
        assert(limb_char(s[i + d]));
    }
}

/// Limb text holds no text that starts with `Li` or `li`.
proof fn lemma_limb_text_lacks_li(s: Seq<char>, p: Seq<char>)
    requires
        limb_text(s),
        p.len() >= 2,
        p[0] == 'L' || p[0] == 'l',
        p[1] == 'i',
    ensures
        !has_substring(s, p),
{
    if has_substring(s, p) {
        let i = choose|i: int| 0 <= i <= s.len() - p.len() && #[trigger] s.subrange(i, i + p.len()) == p;
        assert(s[i] == p[0]);
        assert(s[i + 1] == p[1]);
        assert(limb_char(s[i]));
    }
}

/// A bone is dynamic (driven by physics) exactly when it is one of the humanoid
/// arm and leg bones; every other bone is kinematic.
pub proof fn lemma_dynamic_bones_are_the_limbs(name: Seq<char>)
    ensures
        !kinematic_bone(name) <==> dynamic_limb_names().contains(name),
{
    if dynamic_limb_names().contains(name) {
        let k = choose|k: int| 0 <= k < dynamic_limb_names().len() && dynamic_limb_names()[k] == name;
        lemma_limb_names_are_limb_text(k);
        lemma_limb_text_not_base(name);
        reveal_strlit("_End");
        reveal_strlit("Top_End");
        reveal_strlit("Toe_End");
        lemma_limb_text_lacks(name, "_End"@, 0);
        lemma_limb_text_lacks(name, "Top_End"@, 3);
        lemma_limb_text_lacks(name, "Toe_End"@, 3);
        let w = finger_words();
        reveal_strlit("Thumb");
        reveal_strlit("Index");
        reveal_strlit("Middle");
        reveal_strlit("Ring");
        reveal_strlit("Little");
        reveal_strlit("thumb");
        reveal_strlit("index");
        reveal_strlit("middle");
        reveal_strlit("ring");
        reveal_strlit("little");
        assert forall|i: int| 0 <= i < w.len() implies !has_substring(name, #[trigger] w[i]) by {
            if i == 0 {
                lemma_limb_text_lacks(name, w[i], 0);
            } else if i == 1 {
                lemma_limb_text_lacks(name, w[i], 0);
            } else if i == 2 {
                lemma_limb_text_lacks(name, w[i], 0);
            } else if i == 3 {
                lemma_limb_text_lacks(name, w[i], 2);
            } else if i == 4 {
                lemma_limb_text_lacks_li(name, w[i]);
            } else if i == 5 {
                lemma_limb_text_lacks(name, w[i], 2);
            } else if i == 6 {
                lemma_limb_text_lacks(name, w[i], 1);
            } else if i == 7 {
                lemma_limb_text_lacks(name, w[i], 2);
            } else if i == 8 {
                lemma_limb_text_lacks(name, w[i], 2);
            } else {
                lemma_limb_text_lacks_li(name, w[i]);
            }
        }
    }
}

} // verus!

verus! {

/// The default length class of a bone that has no humanoid bone below it.
#[derive(Debug, Clone, Copy, PartialEq, Eq)]
pub enum EndBoneLength {
    Head,
    Distal,
    Toes,
    Other,
}

/// The default length class of an end bone by its name: the head, a distal
/// phalanx, the toes, or any other.
pub open spec fn end_bone_length_of(name: Seq<char>) -> EndBoneLength {
    if name == "head"@ || name == "Head"@ {
        EndBoneLength::Head
    } else if has_substring(name, "Distal"@) {
        EndBoneLength::Distal
    } else if has_substring(name, "Toes"@) || has_substring(name, "toes"@) {
        EndBoneLength::Toes
    } else {
        EndBoneLength::Other
    }
}

/// The default length class of an end bone (see [`end_bone_length_of`]).
pub fn end_bone_length(name: &str) -> (r: EndBoneLength)
    ensures
        r == end_bone_length_of(name@),
{
    if str_eq(name, "head") || str_eq(name, "Head") {
        EndBoneLength::Head
    } else if contains(name, "Distal") {
        EndBoneLength::Distal
    } else if contains(name, "Toes") || contains(name, "toes") {
        EndBoneLength::Toes
    } else {
        EndBoneLength::Other
    }
}

} // verus!
