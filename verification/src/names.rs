//! Bone-name vocabularies: Mixamo, VRM 0.x, VRM 1.0 and generic glTF joint names.

use vstd::prelude::*;
use crate::table::{assoc, assoc_exec, lemma_assoc_found, rename, rename_exec, table_view};
use crate::text::{
    begins_with_chars, capitalize, capitalized, head_matches, lemma_begins_with_chars, starts_with,
    str_eq, strip_prefix,
};

verus! {

/// Mixamo / Ready Player Me body bone names and their VRM humanoid names.
pub open spec fn mixamo_vrm_table() -> Seq<(Seq<char>, Seq<char>)> {
    seq![
        ("Hips"@, "hips"@),
        ("Spine"@, "spine"@),
        ("Spine1"@, "chest"@),
        ("Spine2"@, "upperChest"@),
        ("Neck"@, "neck"@),
        ("Head"@, "head"@),
        ("LeftShoulder"@, "leftShoulder"@),
        ("LeftArm"@, "leftUpperArm"@),
        ("LeftForeArm"@, "leftLowerArm"@),
        ("LeftHand"@, "leftHand"@),
        ("RightShoulder"@, "rightShoulder"@),
        ("RightArm"@, "rightUpperArm"@),
        ("RightForeArm"@, "rightLowerArm"@),
        ("RightHand"@, "rightHand"@),
        ("LeftUpLeg"@, "leftUpperLeg"@),
        ("LeftLeg"@, "leftLowerLeg"@),
        ("LeftFoot"@, "leftFoot"@),
        ("LeftToeBase"@, "leftToes"@),
        ("RightUpLeg"@, "rightUpperLeg"@),
        ("RightLeg"@, "rightLowerLeg"@),
        ("RightFoot"@, "rightFoot"@),
        ("RightToeBase"@, "rightToes"@),
    ]
}
/// Mixamo / Ready Player Me body and finger joint names and their VRM humanoid names.
pub open spec fn gltf_vrm_all_table() -> Seq<(Seq<char>, Seq<char>)> {
    seq![
        ("Hips"@, "hips"@),
        ("Spine"@, "spine"@),
        ("Spine1"@, "chest"@),
        ("Spine2"@, "upperChest"@),
        ("Neck"@, "neck"@),
        ("Head"@, "head"@),
        ("LeftShoulder"@, "leftShoulder"@),
        ("RightShoulder"@, "rightShoulder"@),
        ("LeftArm"@, "leftUpperArm"@),
        ("RightArm"@, "rightUpperArm"@),
        ("LeftForeArm"@, "leftLowerArm"@),
        ("RightForeArm"@, "rightLowerArm"@),
        ("LeftHand"@, "leftHand"@),
        ("RightHand"@, "rightHand"@),
        ("LeftUpLeg"@, "leftUpperLeg"@),
        ("RightUpLeg"@, "rightUpperLeg"@),
        ("LeftLeg"@, "leftLowerLeg"@),
        ("RightLeg"@, "rightLowerLeg"@),
        ("LeftFoot"@, "leftFoot"@),
        ("RightFoot"@, "rightFoot"@),
        ("LeftToeBase"@, "leftToes"@),
        ("RightToeBase"@, "rightToes"@),
        ("LeftHandThumb1"@, "leftThumbMetacarpal"@),
        ("LeftHandThumb2"@, "leftThumbProximal"@),
        ("LeftHandThumb3"@, "leftThumbDistal"@),
        ("LeftHandIndex1"@, "leftIndexProximal"@),
        ("LeftHandIndex2"@, "leftIndexIntermediate"@),
        ("LeftHandIndex3"@, "leftIndexDistal"@),
        ("LeftHandMiddle1"@, "leftMiddleProximal"@),
        ("LeftHandMiddle2"@, "leftMiddleIntermediate"@),
        ("LeftHandMiddle3"@, "leftMiddleDistal"@),
        ("LeftHandRing1"@, "leftRingProximal"@),
        ("LeftHandRing2"@, "leftRingIntermediate"@),
        ("LeftHandRing3"@, "leftRingDistal"@),
        ("LeftHandPinky1"@, "leftLittleProximal"@),
        ("LeftHandPinky2"@, "leftLittleIntermediate"@),
        ("LeftHandPinky3"@, "leftLittleDistal"@),
        ("RightHandThumb1"@, "rightThumbMetacarpal"@),
        ("RightHandThumb2"@, "rightThumbProximal"@),
        ("RightHandThumb3"@, "rightThumbDistal"@),
        ("RightHandIndex1"@, "rightIndexProximal"@),
        ("RightHandIndex2"@, "rightIndexIntermediate"@),
        ("RightHandIndex3"@, "rightIndexDistal"@),
        ("RightHandMiddle1"@, "rightMiddleProximal"@),
        ("RightHandMiddle2"@, "rightMiddleIntermediate"@),
        ("RightHandMiddle3"@, "rightMiddleDistal"@),
        ("RightHandRing1"@, "rightRingProximal"@),
        ("RightHandRing2"@, "rightRingIntermediate"@),
        ("RightHandRing3"@, "rightRingDistal"@),
        ("RightHandPinky1"@, "rightLittleProximal"@),
        ("RightHandPinky2"@, "rightLittleIntermediate"@),
        ("RightHandPinky3"@, "rightLittleDistal"@),
    ]
}
/// The VRM 0.x bone names that VRM 1.0 renamed (the thumb chain); every other name is shared.
pub open spec fn vrm0_renamed_bones() -> Seq<(Seq<char>, Seq<char>)> {
    seq![
        ("leftThumbProximal"@, "leftThumbMetacarpal"@),
        ("leftThumbIntermediate"@, "leftThumbProximal"@),
        ("rightThumbProximal"@, "rightThumbMetacarpal"@),
        ("rightThumbIntermediate"@, "rightThumbProximal"@),
    ]
}
/// The prefix that Mixamo exports put before every joint name.
pub open spec fn mixamo_prefix() -> Seq<char> {
    "mixamorig:"@
}

/// `name` without a leading Mixamo prefix.
pub open spec fn without_mixamo_prefix(name: Seq<char>) -> Seq<char> {
    if mixamo_prefix().is_prefix_of(name) {
        name.skip(mixamo_prefix().len() as int)
    } else {
        name
    }
}

/// The VRM-equivalent name of a glTF joint: Mixamo body and finger names, with or
/// without the Mixamo prefix, map to VRM humanoid names; other names are kept.
pub open spec fn gltf_joint_vrm_name(name: Seq<char>) -> Seq<char> {
    match assoc(gltf_vrm_all_table(), without_mixamo_prefix(name)) {
        Some(v) => v,
        None => name,
    }
}

/// The Mixamo body table as an array.
fn mixamo_vrm_pairs() -> (r: [(&'static str, &'static str); 22])
    ensures
        table_view(r@) == mixamo_vrm_table(),
{
    let r = [
        ("Hips", "hips"),
        ("Spine", "spine"),
        ("Spine1", "chest"),
        ("Spine2", "upperChest"),
        ("Neck", "neck"),
        ("Head", "head"),
        ("LeftShoulder", "leftShoulder"),
        ("LeftArm", "leftUpperArm"),
        ("LeftForeArm", "leftLowerArm"),
        ("LeftHand", "leftHand"),
        ("RightShoulder", "rightShoulder"),
        ("RightArm", "rightUpperArm"),
        ("RightForeArm", "rightLowerArm"),
        ("RightHand", "rightHand"),
        ("LeftUpLeg", "leftUpperLeg"),
        ("LeftLeg", "leftLowerLeg"),
        ("LeftFoot", "leftFoot"),
        ("LeftToeBase", "leftToes"),
        ("RightUpLeg", "rightUpperLeg"),
        ("RightLeg", "rightLowerLeg"),
        ("RightFoot", "rightFoot"),
        ("RightToeBase", "rightToes"),
    ];
    assert(table_view(r@) =~= mixamo_vrm_table());
    r
}
/// The glTF joint table as an array.
fn gltf_vrm_pairs_body_and_fingers() -> (r: [(&'static str, &'static str); 52])
    ensures
        table_view(r@) == gltf_vrm_all_table(),
{
    let r = [
        ("Hips", "hips"),
        ("Spine", "spine"),
        ("Spine1", "chest"),
        ("Spine2", "upperChest"),
        ("Neck", "neck"),
        ("Head", "head"),
        ("LeftShoulder", "leftShoulder"),
        ("RightShoulder", "rightShoulder"),
        ("LeftArm", "leftUpperArm"),
        ("RightArm", "rightUpperArm"),
        ("LeftForeArm", "leftLowerArm"),
        ("RightForeArm", "rightLowerArm"),
        ("LeftHand", "leftHand"),
        ("RightHand", "rightHand"),
        ("LeftUpLeg", "leftUpperLeg"),
        ("RightUpLeg", "rightUpperLeg"),
        ("LeftLeg", "leftLowerLeg"),
        ("RightLeg", "rightLowerLeg"),
        ("LeftFoot", "leftFoot"),
        ("RightFoot", "rightFoot"),
        ("LeftToeBase", "leftToes"),
        ("RightToeBase", "rightToes"),
        ("LeftHandThumb1", "leftThumbMetacarpal"),
        ("LeftHandThumb2", "leftThumbProximal"),
        ("LeftHandThumb3", "leftThumbDistal"),
        ("LeftHandIndex1", "leftIndexProximal"),
        ("LeftHandIndex2", "leftIndexIntermediate"),
        ("LeftHandIndex3", "leftIndexDistal"),
        ("LeftHandMiddle1", "leftMiddleProximal"),
        ("LeftHandMiddle2", "leftMiddleIntermediate"),
        ("LeftHandMiddle3", "leftMiddleDistal"),
        ("LeftHandRing1", "leftRingProximal"),
        ("LeftHandRing2", "leftRingIntermediate"),
        ("LeftHandRing3", "leftRingDistal"),
        ("LeftHandPinky1", "leftLittleProximal"),
        ("LeftHandPinky2", "leftLittleIntermediate"),
        ("LeftHandPinky3", "leftLittleDistal"),
        ("RightHandThumb1", "rightThumbMetacarpal"),
        ("RightHandThumb2", "rightThumbProximal"),
        ("RightHandThumb3", "rightThumbDistal"),
        ("RightHandIndex1", "rightIndexProximal"),
        ("RightHandIndex2", "rightIndexIntermediate"),
        ("RightHandIndex3", "rightIndexDistal"),
        ("RightHandMiddle1", "rightMiddleProximal"),
        ("RightHandMiddle2", "rightMiddleIntermediate"),
        ("RightHandMiddle3", "rightMiddleDistal"),
        ("RightHandRing1", "rightRingProximal"),
        ("RightHandRing2", "rightRingIntermediate"),
        ("RightHandRing3", "rightRingDistal"),
        ("RightHandPinky1", "rightLittleProximal"),
        ("RightHandPinky2", "rightLittleIntermediate"),
        ("RightHandPinky3", "rightLittleDistal"),
    ];
    assert(table_view(r@) =~= gltf_vrm_all_table());
    r
}
/// The VRM 0.x renames as an array.
fn vrm0_renamed_pairs() -> (r: [(&'static str, &'static str); 4])
    ensures
        table_view(r@) == vrm0_renamed_bones(),
{
    let r = [
        ("leftThumbProximal", "leftThumbMetacarpal"),
        ("leftThumbIntermediate", "leftThumbProximal"),
        ("rightThumbProximal", "rightThumbMetacarpal"),
        ("rightThumbIntermediate", "rightThumbProximal"),
    ];
    assert(table_view(r@) =~= vrm0_renamed_bones());
    r
}
/// Maps a Mixamo / Ready Player Me bone name to its VRM humanoid bone name.
pub fn mixamo_to_vrm_name(name: &str) -> (r: Option<&'static str>)
    ensures
        match r {
            Some(v) => assoc(mixamo_vrm_table(), name@) == Some(v@),
            None => assoc(mixamo_vrm_table(), name@) is None,
        },
{
    let table = mixamo_vrm_pairs();
    assoc_exec(&table, name)
}

/// Whether `vrm_name` names an upper leg.
pub fn is_upper_leg(vrm_name: &str) -> (r: bool)
    ensures
        r == (vrm_name@ == "leftUpperLeg"@ || vrm_name@ == "rightUpperLeg"@),
{
    str_eq(vrm_name, "leftUpperLeg") || str_eq(vrm_name, "rightUpperLeg")
}

/// Whether `vrm_name` names an upper arm.
pub fn is_arm_bone(vrm_name: &str) -> (r: bool)
    ensures
        r == (vrm_name@ == "leftUpperArm"@ || vrm_name@ == "rightUpperArm"@),
{
    str_eq(vrm_name, "leftUpperArm") || str_eq(vrm_name, "rightUpperArm")
}

/// Converts a VRM 0.x humanoid bone name to its VRM 1.0 name.
pub fn vrm0_to_vrm1_bone_name(vrm0_name: &str) -> (r: String)
    ensures
        r@ == rename(vrm0_renamed_bones(), vrm0_name@),
{
    let table = vrm0_renamed_pairs();
    rename_exec(&table, vrm0_name)
}

/// Normalises a glTF joint name (Mixamo / Ready Player Me, with or without the
/// Mixamo prefix) to the equivalent VRM humanoid bone name; other names are kept.
pub fn gltf_joint_to_vrm_name(joint_name: &str) -> (r: String)
    ensures
        r@ == gltf_joint_vrm_name(joint_name@),
{
    let table = gltf_vrm_pairs_body_and_fingers();
    proof {
        reveal_strlit("mixamorig:");
    }
    let base = match strip_prefix(joint_name, "mixamorig:") {
        Some(rest) => rest,
        None => joint_name,
    };
    assert(base@ == without_mixamo_prefix(joint_name@));
    match assoc_exec(&table, base) {
        Some(v) => v.to_owned(),
        None => joint_name.to_owned(),
    }
}

/// The anatomical name of a VRM bone: the camelCase VRM name in PascalCase,
/// with a `left` / `right` side prefix moved to an `_L` / `_R` suffix
/// (`leftUpperArm` is `UpperArm_L`, `hips` is `Hips`).
pub open spec fn anatomical_name(n: Seq<char>) -> Seq<char> {
    if "left"@.is_prefix_of(n) && n.len() > 4 {
        capitalized(n.skip(4)) + "_L"@
    } else if "right"@.is_prefix_of(n) && n.len() > 5 {
        capitalized(n.skip(5)) + "_R"@
    } else {
        capitalized(n)
    }
}

/// Maps a VRM bone name to its anatomical name (see [`anatomical_name`]).
pub fn vrm_to_anatomical_bone_name(vrm_name: &str) -> (r: String)
    ensures
        r@ == anatomical_name(vrm_name@),
{
    proof {
        reveal_strlit("left");
        reveal_strlit("right");
    }
    if let Some(rest) = strip_prefix(vrm_name, "left") {
        if rest.unicode_len() > 0 {
            let mut out = capitalize(rest);
            out.append("_L");
            assert(rest@ == vrm_name@.skip(4));
            return out;
        }
    }
    if let Some(rest) = strip_prefix(vrm_name, "right") {
        if rest.unicode_len() > 0 {
            let mut out = capitalize(rest);
            out.append("_R");
            assert(rest@ == vrm_name@.skip(5));
            return out;
        }
    }
    capitalize(vrm_name)
}

} // verus!

verus! {

/// A Mixamo bone name and a VRM humanoid bone name name the same side: `Left…` exactly
/// when `left…`, and `Right…` exactly when `right…`.
pub open spec fn maps_same_side(mixamo: Seq<char>, vrm: Seq<char>) -> bool {
    &&& "Left"@.is_prefix_of(mixamo) <==> "left"@.is_prefix_of(vrm)
    &&& "Right"@.is_prefix_of(mixamo) <==> "right"@.is_prefix_of(vrm)
}

/// [`maps_same_side`] checked character by character.
proof fn lemma_maps_same_side_by_chars(mixamo: Seq<char>, vrm: Seq<char>)
    ensures
        maps_same_side(mixamo, vrm) <==> {
            &&& begins_with_chars(mixamo, "Left"@) <==> begins_with_chars(vrm, "left"@)
            &&& begins_with_chars(mixamo, "Right"@) <==> begins_with_chars(vrm, "right"@)
        },
{
    lemma_begins_with_chars("Left"@, mixamo);
    lemma_begins_with_chars("left"@, vrm);
    lemma_begins_with_chars("Right"@, mixamo);
    lemma_begins_with_chars("right"@, vrm);
}

/// Entries 0 to 21 of [`mixamo_vrm_table`] keep the side.
proof fn lemma_mixamo_vrm_sides_0_22()
    ensures
        forall|i: int| 0 <= i < 22 ==> maps_same_side(#[trigger] mixamo_vrm_table()[i].0, mixamo_vrm_table()[i].1),
{
    reveal_strlit("Head");
    reveal_strlit("Hips");
    reveal_strlit("Left");
    reveal_strlit("LeftArm");
    reveal_strlit("LeftFoot");
    reveal_strlit("LeftForeArm");
    reveal_strlit("LeftHand");
    reveal_strlit("LeftLeg");
    reveal_strlit("LeftShoulder");
    reveal_strlit("LeftToeBase");
    reveal_strlit("LeftUpLeg");
    reveal_strlit("Neck");
    reveal_strlit("Right");
    reveal_strlit("RightArm");
    reveal_strlit("RightFoot");
    reveal_strlit("RightForeArm");
    reveal_strlit("RightHand");
    reveal_strlit("RightLeg");
    reveal_strlit("RightShoulder");
    reveal_strlit("RightToeBase");
    reveal_strlit("RightUpLeg");
    reveal_strlit("Spine");
    reveal_strlit("Spine1");
    reveal_strlit("Spine2");
    reveal_strlit("chest");
    reveal_strlit("head");
    reveal_strlit("hips");
    reveal_strlit("left");
    reveal_strlit("leftFoot");
    reveal_strlit("leftHand");
    reveal_strlit("leftLowerArm");
    reveal_strlit("leftLowerLeg");
    reveal_strlit("leftShoulder");
    reveal_strlit("leftToes");
    reveal_strlit("leftUpperArm");
    reveal_strlit("leftUpperLeg");
    reveal_strlit("neck");
    reveal_strlit("right");
    reveal_strlit("rightFoot");
    reveal_strlit("rightHand");
    reveal_strlit("rightLowerArm");
    reveal_strlit("rightLowerLeg");
    reveal_strlit("rightShoulder");
    reveal_strlit("rightToes");
    reveal_strlit("rightUpperArm");
    reveal_strlit("rightUpperLeg");
    reveal_strlit("spine");
    reveal_strlit("upperChest");
    reveal_with_fuel(head_matches, 6);
    let t = mixamo_vrm_table();
    assert forall|i: int| 0 <= i < 22 implies maps_same_side(#[trigger] t[i].0, t[i].1) by {
        lemma_maps_same_side_by_chars(t[i].0, t[i].1);
        if i == 0 {
            assert(t[i] == ("Hips"@, "hips"@));
        } else if i == 1 {
            assert(t[i] == ("Spine"@, "spine"@));
        } else if i == 2 {
            assert(t[i] == ("Spine1"@, "chest"@));
        } else if i == 3 {
            assert(t[i] == ("Spine2"@, "upperChest"@));
        } else if i == 4 {
            assert(t[i] == ("Neck"@, "neck"@));
        } else if i == 5 {
            assert(t[i] == ("Head"@, "head"@));
        } else if i == 6 {
            assert(t[i] == ("LeftShoulder"@, "leftShoulder"@));
        } else if i == 7 {
            assert(t[i] == ("LeftArm"@, "leftUpperArm"@));
        } else if i == 8 {
            assert(t[i] == ("LeftForeArm"@, "leftLowerArm"@));
        } else if i == 9 {
            assert(t[i] == ("LeftHand"@, "leftHand"@));
        } else if i == 10 {
            assert(t[i] == ("RightShoulder"@, "rightShoulder"@));
        } else if i == 11 {
            assert(t[i] == ("RightArm"@, "rightUpperArm"@));
        } else if i == 12 {
            assert(t[i] == ("RightForeArm"@, "rightLowerArm"@));
        } else if i == 13 {
            assert(t[i] == ("RightHand"@, "rightHand"@));
        } else if i == 14 {
            assert(t[i] == ("LeftUpLeg"@, "leftUpperLeg"@));
        } else if i == 15 {
            assert(t[i] == ("LeftLeg"@, "leftLowerLeg"@));
        } else if i == 16 {
            assert(t[i] == ("LeftFoot"@, "leftFoot"@));
        } else if i == 17 {
            assert(t[i] == ("LeftToeBase"@, "leftToes"@));
        } else if i == 18 {
            assert(t[i] == ("RightUpLeg"@, "rightUpperLeg"@));
        } else if i == 19 {
            assert(t[i] == ("RightLeg"@, "rightLowerLeg"@));
        } else if i == 20 {
            assert(t[i] == ("RightFoot"@, "rightFoot"@));
        } else if i == 21 {
            assert(t[i] == ("RightToeBase"@, "rightToes"@));
        }
    }
}

/// Every entry of [`mixamo_vrm_table`] keeps the side.
proof fn lemma_mixamo_table_sides(i: int)
    requires
        0 <= i < mixamo_vrm_table().len(),
    ensures
        maps_same_side(mixamo_vrm_table()[i].0, mixamo_vrm_table()[i].1),
{
    lemma_mixamo_vrm_sides_0_22();
}

/// Entries 0 to 25 of [`gltf_vrm_all_table`] keep the side.
proof fn lemma_gltf_vrm_all_sides_0_26()
    ensures
        forall|i: int| 0 <= i < 26 ==> maps_same_side(#[trigger] gltf_vrm_all_table()[i].0, gltf_vrm_all_table()[i].1),
{
    reveal_strlit("Head");
    reveal_strlit("Hips");
    reveal_strlit("Left");
    reveal_strlit("LeftArm");
    reveal_strlit("LeftFoot");
    reveal_strlit("LeftForeArm");
    reveal_strlit("LeftHand");
    reveal_strlit("LeftHandIndex1");
    reveal_strlit("LeftHandThumb1");
    reveal_strlit("LeftHandThumb2");
    reveal_strlit("LeftHandThumb3");
    reveal_strlit("LeftLeg");
    reveal_strlit("LeftShoulder");
    reveal_strlit("LeftToeBase");
    reveal_strlit("LeftUpLeg");
    reveal_strlit("Neck");
    reveal_strlit("Right");
    reveal_strlit("RightArm");
    reveal_strlit("RightFoot");
    reveal_strlit("RightForeArm");
    reveal_strlit("RightHand");
    reveal_strlit("RightLeg");
    reveal_strlit("RightShoulder");
    reveal_strlit("RightToeBase");
    reveal_strlit("RightUpLeg");
    reveal_strlit("Spine");
    reveal_strlit("Spine1");
    reveal_strlit("Spine2");
    reveal_strlit("chest");
    reveal_strlit("head");
    reveal_strlit("hips");
    reveal_strlit("left");
    reveal_strlit("leftFoot");
    reveal_strlit("leftHand");
    reveal_strlit("leftIndexProximal");
    reveal_strlit("leftLowerArm");
    reveal_strlit("leftLowerLeg");
    reveal_strlit("leftShoulder");
    reveal_strlit("leftThumbDistal");
    reveal_strlit("leftThumbMetacarpal");
    reveal_strlit("leftThumbProximal");
    reveal_strlit("leftToes");
    reveal_strlit("leftUpperArm");
    reveal_strlit("leftUpperLeg");
    reveal_strlit("neck");
    reveal_strlit("right");
    reveal_strlit("rightFoot");
    reveal_strlit("rightHand");
    reveal_strlit("rightLowerArm");
    reveal_strlit("rightLowerLeg");
    reveal_strlit("rightShoulder");
    reveal_strlit("rightToes");
    reveal_strlit("rightUpperArm");
    reveal_strlit("rightUpperLeg");
    reveal_strlit("spine");
    reveal_strlit("upperChest");
    reveal_with_fuel(head_matches, 6);
    let t = gltf_vrm_all_table();
    assert forall|i: int| 0 <= i < 26 implies maps_same_side(#[trigger] t[i].0, t[i].1) by {
        lemma_maps_same_side_by_chars(t[i].0, t[i].1);
        if i == 0 {
            assert(t[i] == ("Hips"@, "hips"@));
        } else if i == 1 {
            assert(t[i] == ("Spine"@, "spine"@));
        } else if i == 2 {
            assert(t[i] == ("Spine1"@, "chest"@));
        } else if i == 3 {
            assert(t[i] == ("Spine2"@, "upperChest"@));
        } else if i == 4 {
            assert(t[i] == ("Neck"@, "neck"@));
        } else if i == 5 {
            assert(t[i] == ("Head"@, "head"@));
        } else if i == 6 {
            assert(t[i] == ("LeftShoulder"@, "leftShoulder"@));
        } else if i == 7 {
            assert(t[i] == ("RightShoulder"@, "rightShoulder"@));
        } else if i == 8 {
            assert(t[i] == ("LeftArm"@, "leftUpperArm"@));
        } else if i == 9 {
            assert(t[i] == ("RightArm"@, "rightUpperArm"@));
        } else if i == 10 {
            assert(t[i] == ("LeftForeArm"@, "leftLowerArm"@));
        } else if i == 11 {
            assert(t[i] == ("RightForeArm"@, "rightLowerArm"@));
        } else if i == 12 {
            assert(t[i] == ("LeftHand"@, "leftHand"@));
        } else if i == 13 {
            assert(t[i] == ("RightHand"@, "rightHand"@));
        } else if i == 14 {
            assert(t[i] == ("LeftUpLeg"@, "leftUpperLeg"@));
        } else if i == 15 {
            assert(t[i] == ("RightUpLeg"@, "rightUpperLeg"@));
        } else if i == 16 {
            assert(t[i] == ("LeftLeg"@, "leftLowerLeg"@));
        } else if i == 17 {
            assert(t[i] == ("RightLeg"@, "rightLowerLeg"@));
        } else if i == 18 {
            assert(t[i] == ("LeftFoot"@, "leftFoot"@));
        } else if i == 19 {
            assert(t[i] == ("RightFoot"@, "rightFoot"@));
        } else if i == 20 {
            assert(t[i] == ("LeftToeBase"@, "leftToes"@));
        } else if i == 21 {
            assert(t[i] == ("RightToeBase"@, "rightToes"@));
        } else if i == 22 {
            assert(t[i] == ("LeftHandThumb1"@, "leftThumbMetacarpal"@));
        } else if i == 23 {
            assert(t[i] == ("LeftHandThumb2"@, "leftThumbProximal"@));
        } else if i == 24 {
            assert(t[i] == ("LeftHandThumb3"@, "leftThumbDistal"@));
        } else if i == 25 {
            assert(t[i] == ("LeftHandIndex1"@, "leftIndexProximal"@));
        }
    }
}

/// Entries 26 to 51 of [`gltf_vrm_all_table`] keep the side.
proof fn lemma_gltf_vrm_all_sides_26_52()
    ensures
        forall|i: int| 26 <= i < 52 ==> maps_same_side(#[trigger] gltf_vrm_all_table()[i].0, gltf_vrm_all_table()[i].1),
{
    reveal_strlit("Left");
    reveal_strlit("LeftHandIndex2");
    reveal_strlit("LeftHandIndex3");
    reveal_strlit("LeftHandMiddle1");
    reveal_strlit("LeftHandMiddle2");
    reveal_strlit("LeftHandMiddle3");
    reveal_strlit("LeftHandPinky1");
    reveal_strlit("LeftHandPinky2");
    reveal_strlit("LeftHandPinky3");
    reveal_strlit("LeftHandRing1");
    reveal_strlit("LeftHandRing2");
    reveal_strlit("LeftHandRing3");
    reveal_strlit("Right");
    reveal_strlit("RightHandIndex1");
    reveal_strlit("RightHandIndex2");
    reveal_strlit("RightHandIndex3");
    reveal_strlit("RightHandMiddle1");
    reveal_strlit("RightHandMiddle2");
    reveal_strlit("RightHandMiddle3");
    reveal_strlit("RightHandPinky1");
    reveal_strlit("RightHandPinky2");
    reveal_strlit("RightHandPinky3");
    reveal_strlit("RightHandRing1");
    reveal_strlit("RightHandRing2");
    reveal_strlit("RightHandRing3");
    reveal_strlit("RightHandThumb1");
    reveal_strlit("RightHandThumb2");
    reveal_strlit("RightHandThumb3");
    reveal_strlit("left");
    reveal_strlit("leftIndexDistal");
    reveal_strlit("leftIndexIntermediate");
    reveal_strlit("leftLittleDistal");
    reveal_strlit("leftLittleIntermediate");
    reveal_strlit("leftLittleProximal");
    reveal_strlit("leftMiddleDistal");
    reveal_strlit("leftMiddleIntermediate");
    reveal_strlit("leftMiddleProximal");
    reveal_strlit("leftRingDistal");
    reveal_strlit("leftRingIntermediate");
    reveal_strlit("leftRingProximal");
    reveal_strlit("right");
    reveal_strlit("rightIndexDistal");
    reveal_strlit("rightIndexIntermediate");
    reveal_strlit("rightIndexProximal");
    reveal_strlit("rightLittleDistal");
    reveal_strlit("rightLittleIntermediate");
    reveal_strlit("rightLittleProximal");
    reveal_strlit("rightMiddleDistal");
    reveal_strlit("rightMiddleIntermediate");
    reveal_strlit("rightMiddleProximal");
    reveal_strlit("rightRingDistal");
    reveal_strlit("rightRingIntermediate");
    reveal_strlit("rightRingProximal");
    reveal_strlit("rightThumbDistal");
    reveal_strlit("rightThumbMetacarpal");
    reveal_strlit("rightThumbProximal");
    reveal_with_fuel(head_matches, 6);
    let t = gltf_vrm_all_table();
    assert forall|i: int| 26 <= i < 52 implies maps_same_side(#[trigger] t[i].0, t[i].1) by {
        lemma_maps_same_side_by_chars(t[i].0, t[i].1);
        if i == 26 {
            assert(t[i] == ("LeftHandIndex2"@, "leftIndexIntermediate"@));
        } else if i == 27 {
            assert(t[i] == ("LeftHandIndex3"@, "leftIndexDistal"@));
        } else if i == 28 {
            assert(t[i] == ("LeftHandMiddle1"@, "leftMiddleProximal"@));
        } else if i == 29 {
            assert(t[i] == ("LeftHandMiddle2"@, "leftMiddleIntermediate"@));
        } else if i == 30 {
            assert(t[i] == ("LeftHandMiddle3"@, "leftMiddleDistal"@));
        } else if i == 31 {
            assert(t[i] == ("LeftHandRing1"@, "leftRingProximal"@));
        } else if i == 32 {
            assert(t[i] == ("LeftHandRing2"@, "leftRingIntermediate"@));
        } else if i == 33 {
            assert(t[i] == ("LeftHandRing3"@, "leftRingDistal"@));
        } else if i == 34 {
            assert(t[i] == ("LeftHandPinky1"@, "leftLittleProximal"@));
        } else if i == 35 {
            assert(t[i] == ("LeftHandPinky2"@, "leftLittleIntermediate"@));
        } else if i == 36 {
            assert(t[i] == ("LeftHandPinky3"@, "leftLittleDistal"@));
        } else if i == 37 {
            assert(t[i] == ("RightHandThumb1"@, "rightThumbMetacarpal"@));
        } else if i == 38 {
            assert(t[i] == ("RightHandThumb2"@, "rightThumbProximal"@));
        } else if i == 39 {
            assert(t[i] == ("RightHandThumb3"@, "rightThumbDistal"@));
        } else if i == 40 {
            assert(t[i] == ("RightHandIndex1"@, "rightIndexProximal"@));
        } else if i == 41 {
            assert(t[i] == ("RightHandIndex2"@, "rightIndexIntermediate"@));
        } else if i == 42 {
            assert(t[i] == ("RightHandIndex3"@, "rightIndexDistal"@));
        } else if i == 43 {
            assert(t[i] == ("RightHandMiddle1"@, "rightMiddleProximal"@));
        } else if i == 44 {
            assert(t[i] == ("RightHandMiddle2"@, "rightMiddleIntermediate"@));
        } else if i == 45 {
            assert(t[i] == ("RightHandMiddle3"@, "rightMiddleDistal"@));
        } else if i == 46 {
            assert(t[i] == ("RightHandRing1"@, "rightRingProximal"@));
        } else if i == 47 {
            assert(t[i] == ("RightHandRing2"@, "rightRingIntermediate"@));
        } else if i == 48 {
            assert(t[i] == ("RightHandRing3"@, "rightRingDistal"@));
        } else if i == 49 {
            assert(t[i] == ("RightHandPinky1"@, "rightLittleProximal"@));
        } else if i == 50 {
            assert(t[i] == ("RightHandPinky2"@, "rightLittleIntermediate"@));
        } else if i == 51 {
            assert(t[i] == ("RightHandPinky3"@, "rightLittleDistal"@));
        }
    }
}

/// Every entry of [`gltf_vrm_all_table`] keeps the side.
proof fn lemma_gltf_vrm_table_sides(i: int)
    requires
        0 <= i < gltf_vrm_all_table().len(),
    ensures
        maps_same_side(gltf_vrm_all_table()[i].0, gltf_vrm_all_table()[i].1),
{
    lemma_gltf_vrm_all_sides_0_26();
    lemma_gltf_vrm_all_sides_26_52();
}

/// Every Mixamo body bone maps to the VRM humanoid bone of its own side: the
/// `Left…` bones to `left…` bones, the `Right…` bones to `right…` bones, and
/// the trunk bones to trunk bones.
pub proof fn lemma_mixamo_name_keeps_side(name: Seq<char>)
    ensures
        assoc(mixamo_vrm_table(), name) matches Some(vrm) ==> maps_same_side(name, vrm),
{
    lemma_assoc_found(mixamo_vrm_table(), name);
    if let Some(vrm) = assoc(mixamo_vrm_table(), name) {
        let j = choose|j: int|
            0 <= j < mixamo_vrm_table().len() && #[trigger] mixamo_vrm_table()[j] == (name, vrm);
        lemma_mixamo_table_sides(j);
    }
}

/// Every Mixamo body and finger joint maps to the VRM humanoid bone of its own
/// side: the `Left…` joints to `left…` bones, the `Right…` joints to `right…`
/// bones, and the trunk joints to trunk bones.
pub proof fn lemma_gltf_joint_name_keeps_side(name: Seq<char>)
    ensures
        assoc(gltf_vrm_all_table(), name) matches Some(vrm) ==> maps_same_side(name, vrm),
{
    lemma_assoc_found(gltf_vrm_all_table(), name);
    if let Some(vrm) = assoc(gltf_vrm_all_table(), name) {
        let j = choose|j: int|
            0 <= j < gltf_vrm_all_table().len() && #[trigger] gltf_vrm_all_table()[j] == (name, vrm);
        lemma_gltf_vrm_table_sides(j);
    }
}

} // verus!

verus! {

/// The anatomical name of a VRM humanoid bone carries its side: a `left…`
/// bone's name ends in `_L` and a `right…` bone's in `_R`.
pub proof fn lemma_anatomical_name_keeps_side(n: Seq<char>)
    ensures
        "left"@.is_prefix_of(n) && n.len() > 4 ==> "_L"@.is_suffix_of(anatomical_name(n)),
        "right"@.is_prefix_of(n) && n.len() > 5 ==> "_R"@.is_suffix_of(anatomical_name(n)),
{
    reveal_strlit("left");
    reveal_strlit("right");
    reveal_strlit("_L");
    reveal_strlit("_R");
    if "right"@.is_prefix_of(n) {
        assert(n.subrange(0, 5)[0] == n[0]);
        if "left"@.is_prefix_of(n) {
            assert(n.subrange(0, 4)[0] == n[0]);
        }
    }
    let a = anatomical_name(n);
    if "left"@.is_prefix_of(n) && n.len() > 4 {
        let c = capitalized(n.skip(4));
        assert(a.subrange(a.len() - 2, a.len() as int) =~= "_L"@) by {
            assert(a == c + "_L"@);
        }
    }
    if "right"@.is_prefix_of(n) && n.len() > 5 {
        let c = capitalized(n.skip(5));
        assert(a.subrange(a.len() - 2, a.len() as int) =~= "_R"@) by {
            assert(a == c + "_R"@);
        }
    }
}

} // verus!
