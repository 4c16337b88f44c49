//! Alias tables that relate anatomical bone names to the names used by
//! Mixamo, Ready Player Me, Rigify and VRM rigs.

use vstd::prelude::*;
use crate::table::table_view;
use crate::text::{begins_with_chars, ends_with_chars, head_matches, lemma_begins_with_chars, lemma_ends_with_chars, tail_matches};

verus! {

/// Alternative names to try for a bone name, in order of preference: anatomical names to their Mixamo / Ready Player Me / Rigify names, and Mixamo finger names to their VRM and anatomical names.
pub open spec fn forward_alias_table() -> Seq<(Seq<char>, Seq<char>)> {
    seq![
        ("Head"@, "head"@),
        ("Head"@, "Head"@),
        ("Head"@, "mixamorig:Head"@),
        ("C4"@, "Neck"@),
        ("C4"@, "neck"@),
        ("C4"@, "spine.005"@),
        ("C4"@, "Spine.005"@),
        ("C4"@, "mixamorig:Neck"@),
        ("C2"@, "spine.006"@),
        ("C2"@, "Spine.006"@),
        ("T1"@, "Spine2"@),
        ("T1"@, "spine.004"@),
        ("T1"@, "Spine.004"@),
        ("T1"@, "mixamorig:Spine2"@),
        ("T6"@, "Spine1"@),
        ("T6"@, "spine.003"@),
        ("T6"@, "Spine.003"@),
        ("T6"@, "mixamorig:Spine1"@),
        ("T10"@, "spine.002"@),
        ("T10"@, "Spine.002"@),
        ("L3"@, "spine.001"@),
        ("L3"@, "Spine.001"@),
        ("L5"@, "Spine"@),
        ("L5"@, "spine"@),
        ("L5"@, "mixamorig:Spine"@),
        ("Pelvis"@, "Hips"@),
        ("Pelvis"@, "hips"@),
        ("Pelvis"@, "mixamorig:Hips"@),
        ("Clavicle_L"@, "LeftShoulder"@),
        ("Clavicle_L"@, "shoulder.L"@),
        ("Clavicle_L"@, "Shoulder.L"@),
        ("Clavicle_L"@, "mixamorig:LeftShoulder"@),
        ("Clavicle_R"@, "RightShoulder"@),
        ("Clavicle_R"@, "shoulder.R"@),
        ("Clavicle_R"@, "Shoulder.R"@),
        ("Clavicle_R"@, "mixamorig:RightShoulder"@),
        ("UpperArm_L"@, "LeftArm"@),
        ("UpperArm_L"@, "upper_arm.L"@),
        ("UpperArm_L"@, "UpperArm.L"@),
        ("UpperArm_L"@, "mixamorig:LeftArm"@),
        ("UpperArm_R"@, "RightArm"@),
        ("UpperArm_R"@, "upper_arm.R"@),
        ("UpperArm_R"@, "UpperArm.R"@),
        ("UpperArm_R"@, "mixamorig:RightArm"@),
        ("Radius_L"@, "LeftForeArm"@),
        ("Radius_L"@, "forearm.L"@),
        ("Radius_L"@, "LowerArm.L"@),
        ("Radius_L"@, "mixamorig:LeftForeArm"@),
        ("Radius_R"@, "RightForeArm"@),
        ("Radius_R"@, "forearm.R"@),
        ("Radius_R"@, "LowerArm.R"@),
        ("Radius_R"@, "mixamorig:RightForeArm"@),
        ("Hand_L"@, "LeftHand"@),
        ("Hand_L"@, "hand.L"@),
        ("Hand_L"@, "Hand.L"@),
        ("Hand_L"@, "mixamorig:LeftHand"@),
        ("Hand_R"@, "RightHand"@),
        ("Hand_R"@, "hand.R"@),
        ("Hand_R"@, "Hand.R"@),
        ("Hand_R"@, "mixamorig:RightHand"@),
        ("Femur_L"@, "LeftUpLeg"@),
        ("Femur_L"@, "thigh.L"@),
        ("Femur_L"@, "UpperLeg.L"@),
        ("Femur_L"@, "mixamorig:LeftUpLeg"@),
        ("Femur_R"@, "RightUpLeg"@),
        ("Femur_R"@, "thigh.R"@),
        ("Femur_R"@, "UpperLeg.R"@),
        ("Femur_R"@, "mixamorig:RightUpLeg"@),
        ("Tibia_L"@, "LeftLeg"@),
        ("Tibia_L"@, "shin.L"@),
        ("Tibia_L"@, "LowerLeg.L"@),
        ("Tibia_L"@, "mixamorig:LeftLeg"@),
        ("Tibia_R"@, "RightLeg"@),
        ("Tibia_R"@, "shin.R"@),
        ("Tibia_R"@, "LowerLeg.R"@),
        ("Tibia_R"@, "mixamorig:RightLeg"@),
        ("Foot_L"@, "LeftFoot"@),
        ("Foot_L"@, "foot.L"@),
        ("Foot_L"@, "Foot.L"@),
        ("Foot_L"@, "mixamorig:LeftFoot"@),
        ("Foot_R"@, "RightFoot"@),
        ("Foot_R"@, "foot.R"@),
        ("Foot_R"@, "Foot.R"@),
        ("Foot_R"@, "mixamorig:RightFoot"@),
        ("MT_Hallux_L"@, "LeftToeBase"@),
        ("MT_Hallux_L"@, "toe.L"@),
        ("MT_Hallux_L"@, "Toes.L"@),
        ("MT_Hallux_L"@, "mixamorig:LeftToeBase"@),
        ("MT_Hallux_R"@, "RightToeBase"@),
        ("MT_Hallux_R"@, "toe.R"@),
        ("MT_Hallux_R"@, "Toes.R"@),
        ("MT_Hallux_R"@, "mixamorig:RightToeBase"@),
        ("MC_Thumb_R"@, "RightHandThumb1"@),
        ("MC_Thumb_R"@, "thumb.01.R"@),
        ("MC_Thumb_R"@, "mixamorig:RightHandThumb1"@),
        ("PP_Thumb_R"@, "RightHandThumb2"@),
        ("PP_Thumb_R"@, "thumb.02.R"@),
        ("PP_Thumb_R"@, "mixamorig:RightHandThumb2"@),
        ("DP_Thumb_R"@, "RightHandThumb3"@),
        ("DP_Thumb_R"@, "thumb.03.R"@),
        ("DP_Thumb_R"@, "mixamorig:RightHandThumb3"@),
        ("PP_Index_R"@, "RightHandIndex1"@),
        ("PP_Index_R"@, "f_index.01.R"@),
        ("PP_Index_R"@, "mixamorig:RightHandIndex1"@),
        ("MP_Index_R"@, "RightHandIndex2"@),
        ("MP_Index_R"@, "f_index.02.R"@),
        ("MP_Index_R"@, "mixamorig:RightHandIndex2"@),
        ("DP_Index_R"@, "RightHandIndex3"@),
        ("DP_Index_R"@, "f_index.03.R"@),
        ("DP_Index_R"@, "mixamorig:RightHandIndex3"@),
        ("PP_Middle_R"@, "RightHandMiddle1"@),
        ("PP_Middle_R"@, "f_middle.01.R"@),
        ("PP_Middle_R"@, "mixamorig:RightHandMiddle1"@),
        ("MP_Middle_R"@, "RightHandMiddle2"@),
        ("MP_Middle_R"@, "f_middle.02.R"@),
        ("MP_Middle_R"@, "mixamorig:RightHandMiddle2"@),
        ("DP_Middle_R"@, "RightHandMiddle3"@),
        ("DP_Middle_R"@, "f_middle.03.R"@),
        ("DP_Middle_R"@, "mixamorig:RightHandMiddle3"@),
        ("PP_Ring_R"@, "RightHandRing1"@),
        ("PP_Ring_R"@, "f_ring.01.R"@),
        ("PP_Ring_R"@, "mixamorig:RightHandRing1"@),
        ("MP_Ring_R"@, "RightHandRing2"@),
        ("MP_Ring_R"@, "f_ring.02.R"@),
        ("MP_Ring_R"@, "mixamorig:RightHandRing2"@),
        ("DP_Ring_R"@, "RightHandRing3"@),
        ("DP_Ring_R"@, "f_ring.03.R"@),
        ("DP_Ring_R"@, "mixamorig:RightHandRing3"@),
        ("PP_Pinky_R"@, "RightHandPinky1"@),
        ("PP_Pinky_R"@, "f_pinky.01.R"@),
        ("PP_Pinky_R"@, "mixamorig:RightHandPinky1"@),
        ("MP_Pinky_R"@, "RightHandPinky2"@),
        ("MP_Pinky_R"@, "f_pinky.02.R"@),
        ("MP_Pinky_R"@, "mixamorig:RightHandPinky2"@),
        ("DP_Pinky_R"@, "RightHandPinky3"@),
        ("DP_Pinky_R"@, "f_pinky.03.R"@),
        ("DP_Pinky_R"@, "mixamorig:RightHandPinky3"@),
        ("MC_Thumb_L"@, "LeftHandThumb1"@),
        ("MC_Thumb_L"@, "thumb.01.L"@),
        ("MC_Thumb_L"@, "mixamorig:LeftHandThumb1"@),
        ("PP_Thumb_L"@, "LeftHandThumb2"@),
        ("PP_Thumb_L"@, "thumb.02.L"@),
        ("PP_Thumb_L"@, "mixamorig:LeftHandThumb2"@),
        ("DP_Thumb_L"@, "LeftHandThumb3"@),
        ("DP_Thumb_L"@, "thumb.03.L"@),
        ("DP_Thumb_L"@, "mixamorig:LeftHandThumb3"@),
        ("PP_Index_L"@, "LeftHandIndex1"@),
        ("PP_Index_L"@, "f_index.01.L"@),
        ("PP_Index_L"@, "mixamorig:LeftHandIndex1"@),
        ("MP_Index_L"@, "LeftHandIndex2"@),
        ("MP_Index_L"@, "f_index.02.L"@),
        ("MP_Index_L"@, "mixamorig:LeftHandIndex2"@),
        ("DP_Index_L"@, "LeftHandIndex3"@),
        ("DP_Index_L"@, "f_index.03.L"@),
        ("DP_Index_L"@, "mixamorig:LeftHandIndex3"@),
        ("PP_Middle_L"@, "LeftHandMiddle1"@),
        ("PP_Middle_L"@, "f_middle.01.L"@),
        ("PP_Middle_L"@, "mixamorig:LeftHandMiddle1"@),
        ("MP_Middle_L"@, "LeftHandMiddle2"@),
        ("MP_Middle_L"@, "f_middle.02.L"@),
        ("MP_Middle_L"@, "mixamorig:LeftHandMiddle2"@),
        ("DP_Middle_L"@, "LeftHandMiddle3"@),
        ("DP_Middle_L"@, "f_middle.03.L"@),
        ("DP_Middle_L"@, "mixamorig:LeftHandMiddle3"@),
        ("PP_Ring_L"@, "LeftHandRing1"@),
        ("PP_Ring_L"@, "f_ring.01.L"@),
        ("PP_Ring_L"@, "mixamorig:LeftHandRing1"@),
        ("MP_Ring_L"@, "LeftHandRing2"@),
        ("MP_Ring_L"@, "f_ring.02.L"@),
        ("MP_Ring_L"@, "mixamorig:LeftHandRing2"@),
        ("DP_Ring_L"@, "LeftHandRing3"@),
        ("DP_Ring_L"@, "f_ring.03.L"@),
        ("DP_Ring_L"@, "mixamorig:LeftHandRing3"@),
        ("PP_Pinky_L"@, "LeftHandPinky1"@),
        ("PP_Pinky_L"@, "f_pinky.01.L"@),
        ("PP_Pinky_L"@, "mixamorig:LeftHandPinky1"@),
        ("MP_Pinky_L"@, "LeftHandPinky2"@),
        ("MP_Pinky_L"@, "f_pinky.02.L"@),
        ("MP_Pinky_L"@, "mixamorig:LeftHandPinky2"@),
        ("DP_Pinky_L"@, "LeftHandPinky3"@),
        ("DP_Pinky_L"@, "f_pinky.03.L"@),
        ("DP_Pinky_L"@, "mixamorig:LeftHandPinky3"@),
        ("RightHandThumb1"@, "rightThumbMetacarpal"@),
        ("RightHandThumb1"@, "MC_Thumb_R"@),
        ("RightHandThumb2"@, "rightThumbProximal"@),
        ("RightHandThumb2"@, "PP_Thumb_R"@),
        ("RightHandThumb3"@, "rightThumbDistal"@),
        ("RightHandThumb3"@, "DP_Thumb_R"@),
        ("RightHandIndex1"@, "rightIndexProximal"@),
        ("RightHandIndex1"@, "PP_Index_R"@),
        ("RightHandIndex2"@, "rightIndexIntermediate"@),
        ("RightHandIndex2"@, "MP_Index_R"@),
        ("RightHandIndex3"@, "rightIndexDistal"@),
        ("RightHandIndex3"@, "DP_Index_R"@),
        ("RightHandMiddle1"@, "rightMiddleProximal"@),
        ("RightHandMiddle1"@, "PP_Middle_R"@),
        ("RightHandMiddle2"@, "rightMiddleIntermediate"@),
        ("RightHandMiddle2"@, "MP_Middle_R"@),
        ("RightHandMiddle3"@, "rightMiddleDistal"@),
        ("RightHandMiddle3"@, "DP_Middle_R"@),
        ("RightHandRing1"@, "rightRingProximal"@),
        ("RightHandRing1"@, "PP_Ring_R"@),
        ("RightHandRing2"@, "rightRingIntermediate"@),
        ("RightHandRing2"@, "MP_Ring_R"@),
        ("RightHandRing3"@, "rightRingDistal"@),
        ("RightHandRing3"@, "DP_Ring_R"@),
        ("RightHandPinky1"@, "rightLittleProximal"@),
        ("RightHandPinky1"@, "PP_Pinky_R"@),
        ("RightHandPinky2"@, "rightLittleIntermediate"@),
        ("RightHandPinky2"@, "MP_Pinky_R"@),
        ("RightHandPinky3"@, "rightLittleDistal"@),
        ("RightHandPinky3"@, "DP_Pinky_R"@),
        ("LeftHandThumb1"@, "leftThumbMetacarpal"@),
        ("LeftHandThumb1"@, "MC_Thumb_L"@),
        ("LeftHandThumb2"@, "leftThumbProximal"@),
        ("LeftHandThumb2"@, "PP_Thumb_L"@),
        ("LeftHandThumb3"@, "leftThumbDistal"@),
        ("LeftHandThumb3"@, "DP_Thumb_L"@),
        ("LeftHandIndex1"@, "leftIndexProximal"@),
        ("LeftHandIndex1"@, "PP_Index_L"@),
        ("LeftHandIndex2"@, "leftIndexIntermediate"@),
        ("LeftHandIndex2"@, "MP_Index_L"@),
        ("LeftHandIndex3"@, "leftIndexDistal"@),
        ("LeftHandIndex3"@, "DP_Index_L"@),
        ("LeftHandMiddle1"@, "leftMiddleProximal"@),
        ("LeftHandMiddle1"@, "PP_Middle_L"@),
        ("LeftHandMiddle2"@, "leftMiddleIntermediate"@),
        ("LeftHandMiddle2"@, "MP_Middle_L"@),
        ("LeftHandMiddle3"@, "leftMiddleDistal"@),
        ("LeftHandMiddle3"@, "DP_Middle_L"@),
        ("LeftHandRing1"@, "leftRingProximal"@),
        ("LeftHandRing1"@, "PP_Ring_L"@),
        ("LeftHandRing2"@, "leftRingIntermediate"@),
        ("LeftHandRing2"@, "MP_Ring_L"@),
        ("LeftHandRing3"@, "leftRingDistal"@),
        ("LeftHandRing3"@, "DP_Ring_L"@),
        ("LeftHandPinky1"@, "leftLittleProximal"@),
        ("LeftHandPinky1"@, "PP_Pinky_L"@),
        ("LeftHandPinky2"@, "leftLittleIntermediate"@),
        ("LeftHandPinky2"@, "MP_Pinky_L"@),
        ("LeftHandPinky3"@, "leftLittleDistal"@),
        ("LeftHandPinky3"@, "DP_Pinky_L"@),
    ]
}
/// Anatomical bone names and the Mixamo / Ready Player Me / Rigify names that denote them.
pub open spec fn reverse_alias_table() -> Seq<(Seq<char>, Seq<char>)> {
    seq![
        ("Pelvis"@, "Hips"@),
        ("Pelvis"@, "hips"@),
        ("Pelvis"@, "mixamorig:Hips"@),
        ("L5"@, "Spine"@),
        ("L5"@, "spine"@),
        ("L5"@, "mixamorig:Spine"@),
        ("L3"@, "spine.001"@),
        ("L3"@, "Spine.001"@),
        ("T10"@, "spine.002"@),
        ("T10"@, "Spine.002"@),
        ("T6"@, "Spine1"@),
        ("T6"@, "spine.003"@),
        ("T6"@, "Spine.003"@),
        ("T6"@, "mixamorig:Spine1"@),
        ("T1"@, "Spine2"@),
        ("T1"@, "spine.004"@),
        ("T1"@, "Spine.004"@),
        ("T1"@, "mixamorig:Spine2"@),
        ("C4"@, "Neck"@),
        ("C4"@, "neck"@),
        ("C4"@, "spine.005"@),
        ("C4"@, "Spine.005"@),
        ("C4"@, "mixamorig:Neck"@),
        ("C2"@, "spine.006"@),
        ("C2"@, "Spine.006"@),
        ("Head"@, "head"@),
        ("Head"@, "mixamorig:Head"@),
        ("Jaw"@, "jaw"@),
        ("Clavicle_L"@, "LeftShoulder"@),
        ("Clavicle_L"@, "shoulder.L"@),
        ("Clavicle_L"@, "Shoulder.L"@),
        ("Clavicle_L"@, "mixamorig:LeftShoulder"@),
        ("Clavicle_R"@, "RightShoulder"@),
        ("Clavicle_R"@, "shoulder.R"@),
        ("Clavicle_R"@, "Shoulder.R"@),
        ("Clavicle_R"@, "mixamorig:RightShoulder"@),
        ("UpperArm_L"@, "LeftArm"@),
        ("UpperArm_L"@, "upper_arm.L"@),
        ("UpperArm_L"@, "UpperArm.L"@),
        ("UpperArm_L"@, "mixamorig:LeftArm"@),
        ("UpperArm_R"@, "RightArm"@),
        ("UpperArm_R"@, "upper_arm.R"@),
        ("UpperArm_R"@, "UpperArm.R"@),
        ("UpperArm_R"@, "mixamorig:RightArm"@),
        ("Radius_L"@, "LeftForeArm"@),
        ("Radius_L"@, "forearm.L"@),
        ("Radius_L"@, "LowerArm.L"@),
        ("Radius_L"@, "mixamorig:LeftForeArm"@),
        ("Radius_R"@, "RightForeArm"@),
        ("Radius_R"@, "forearm.R"@),
        ("Radius_R"@, "LowerArm.R"@),
        ("Radius_R"@, "mixamorig:RightForeArm"@),
        ("Hand_L"@, "LeftHand"@),
        ("Hand_L"@, "hand.L"@),
        ("Hand_L"@, "Hand.L"@),
        ("Hand_L"@, "mixamorig:LeftHand"@),
        ("Hand_R"@, "RightHand"@),
        ("Hand_R"@, "hand.R"@),
        ("Hand_R"@, "Hand.R"@),
        ("Hand_R"@, "mixamorig:RightHand"@),
        ("Femur_L"@, "LeftUpLeg"@),
        ("Femur_L"@, "thigh.L"@),
        ("Femur_L"@, "UpperLeg.L"@),
        ("Femur_L"@, "mixamorig:LeftUpLeg"@),
        ("Femur_R"@, "RightUpLeg"@),
        ("Femur_R"@, "thigh.R"@),
        ("Femur_R"@, "UpperLeg.R"@),
        ("Femur_R"@, "mixamorig:RightUpLeg"@),
        ("Tibia_L"@, "LeftLeg"@),
        ("Tibia_L"@, "shin.L"@),
        ("Tibia_L"@, "LowerLeg.L"@),
        ("Tibia_L"@, "mixamorig:LeftLeg"@),
        ("Tibia_R"@, "RightLeg"@),
        ("Tibia_R"@, "shin.R"@),
        ("Tibia_R"@, "LowerLeg.R"@),
        ("Tibia_R"@, "mixamorig:RightLeg"@),
        ("Foot_L"@, "LeftFoot"@),
        ("Foot_L"@, "foot.L"@),
        ("Foot_L"@, "Foot.L"@),
        ("Foot_L"@, "mixamorig:LeftFoot"@),
        ("Foot_R"@, "RightFoot"@),
        ("Foot_R"@, "foot.R"@),
        ("Foot_R"@, "Foot.R"@),
        ("Foot_R"@, "mixamorig:RightFoot"@),
        ("MT_Hallux_L"@, "LeftToeBase"@),
        ("MT_Hallux_L"@, "toe.L"@),
        ("MT_Hallux_L"@, "Toes.L"@),
        ("MT_Hallux_L"@, "mixamorig:LeftToeBase"@),
        ("MT_Hallux_R"@, "RightToeBase"@),
        ("MT_Hallux_R"@, "toe.R"@),
        ("MT_Hallux_R"@, "Toes.R"@),
        ("MT_Hallux_R"@, "mixamorig:RightToeBase"@),
        ("MC_Thumb_R"@, "RightHandThumb1"@),
        ("MC_Thumb_R"@, "thumb.01.R"@),
        ("MC_Thumb_R"@, "mixamorig:RightHandThumb1"@),
        ("PP_Thumb_R"@, "RightHandThumb2"@),
        ("PP_Thumb_R"@, "thumb.02.R"@),
        ("PP_Thumb_R"@, "mixamorig:RightHandThumb2"@),
        ("DP_Thumb_R"@, "RightHandThumb3"@),
        ("DP_Thumb_R"@, "thumb.03.R"@),
        ("DP_Thumb_R"@, "mixamorig:RightHandThumb3"@),
        ("PP_Index_R"@, "RightHandIndex1"@),
        ("PP_Index_R"@, "f_index.01.R"@),
        ("PP_Index_R"@, "mixamorig:RightHandIndex1"@),
        ("MP_Index_R"@, "RightHandIndex2"@),
        ("MP_Index_R"@, "f_index.02.R"@),
        ("MP_Index_R"@, "mixamorig:RightHandIndex2"@),
        ("DP_Index_R"@, "RightHandIndex3"@),
        ("DP_Index_R"@, "f_index.03.R"@),
        ("DP_Index_R"@, "mixamorig:RightHandIndex3"@),
        ("PP_Middle_R"@, "RightHandMiddle1"@),
        ("PP_Middle_R"@, "f_middle.01.R"@),
        ("PP_Middle_R"@, "mixamorig:RightHandMiddle1"@),
        ("MP_Middle_R"@, "RightHandMiddle2"@),
        ("MP_Middle_R"@, "f_middle.02.R"@),
        ("MP_Middle_R"@, "mixamorig:RightHandMiddle2"@),
        ("DP_Middle_R"@, "RightHandMiddle3"@),
        ("DP_Middle_R"@, "f_middle.03.R"@),
        ("DP_Middle_R"@, "mixamorig:RightHandMiddle3"@),
        ("PP_Ring_R"@, "RightHandRing1"@),
        ("PP_Ring_R"@, "f_ring.01.R"@),
        ("PP_Ring_R"@, "mixamorig:RightHandRing1"@),
        ("MP_Ring_R"@, "RightHandRing2"@),
        ("MP_Ring_R"@, "f_ring.02.R"@),
        ("MP_Ring_R"@, "mixamorig:RightHandRing2"@),
        ("DP_Ring_R"@, "RightHandRing3"@),
        ("DP_Ring_R"@, "f_ring.03.R"@),
        ("DP_Ring_R"@, "mixamorig:RightHandRing3"@),
        ("PP_Pinky_R"@, "RightHandPinky1"@),
        ("PP_Pinky_R"@, "f_pinky.01.R"@),
        ("PP_Pinky_R"@, "mixamorig:RightHandPinky1"@),
        ("MP_Pinky_R"@, "RightHandPinky2"@),
        ("MP_Pinky_R"@, "f_pinky.02.R"@),
        ("MP_Pinky_R"@, "mixamorig:RightHandPinky2"@),
        ("DP_Pinky_R"@, "RightHandPinky3"@),
        ("DP_Pinky_R"@, "f_pinky.03.R"@),
        ("DP_Pinky_R"@, "mixamorig:RightHandPinky3"@),
        ("MC_Thumb_L"@, "LeftHandThumb1"@),
        ("MC_Thumb_L"@, "thumb.01.L"@),
        ("MC_Thumb_L"@, "mixamorig:LeftHandThumb1"@),
        ("PP_Thumb_L"@, "LeftHandThumb2"@),
        ("PP_Thumb_L"@, "thumb.02.L"@),
        ("PP_Thumb_L"@, "mixamorig:LeftHandThumb2"@),
        ("DP_Thumb_L"@, "LeftHandThumb3"@),
        ("DP_Thumb_L"@, "thumb.03.L"@),
        ("DP_Thumb_L"@, "mixamorig:LeftHandThumb3"@),
        ("PP_Index_L"@, "LeftHandIndex1"@),
        ("PP_Index_L"@, "f_index.01.L"@),
        ("PP_Index_L"@, "mixamorig:LeftHandIndex1"@),
        ("MP_Index_L"@, "LeftHandIndex2"@),
        ("MP_Index_L"@, "f_index.02.L"@),
        ("MP_Index_L"@, "mixamorig:LeftHandIndex2"@),
        ("DP_Index_L"@, "LeftHandIndex3"@),
        ("DP_Index_L"@, "f_index.03.L"@),
        ("DP_Index_L"@, "mixamorig:LeftHandIndex3"@),
        ("PP_Middle_L"@, "LeftHandMiddle1"@),
        ("PP_Middle_L"@, "f_middle.01.L"@),
        ("PP_Middle_L"@, "mixamorig:LeftHandMiddle1"@),
        ("MP_Middle_L"@, "LeftHandMiddle2"@),
        ("MP_Middle_L"@, "f_middle.02.L"@),
        ("MP_Middle_L"@, "mixamorig:LeftHandMiddle2"@),
        ("DP_Middle_L"@, "LeftHandMiddle3"@),
        ("DP_Middle_L"@, "f_middle.03.L"@),
        ("DP_Middle_L"@, "mixamorig:LeftHandMiddle3"@),
        ("PP_Ring_L"@, "LeftHandRing1"@),
        ("PP_Ring_L"@, "f_ring.01.L"@),
        ("PP_Ring_L"@, "mixamorig:LeftHandRing1"@),
        ("MP_Ring_L"@, "LeftHandRing2"@),
        ("MP_Ring_L"@, "f_ring.02.L"@),
        ("MP_Ring_L"@, "mixamorig:LeftHandRing2"@),
        ("DP_Ring_L"@, "LeftHandRing3"@),
        ("DP_Ring_L"@, "f_ring.03.L"@),
        ("DP_Ring_L"@, "mixamorig:LeftHandRing3"@),
        ("PP_Pinky_L"@, "LeftHandPinky1"@),
        ("PP_Pinky_L"@, "f_pinky.01.L"@),
        ("PP_Pinky_L"@, "mixamorig:LeftHandPinky1"@),
        ("MP_Pinky_L"@, "LeftHandPinky2"@),
        ("MP_Pinky_L"@, "f_pinky.02.L"@),
        ("MP_Pinky_L"@, "mixamorig:LeftHandPinky2"@),
        ("DP_Pinky_L"@, "LeftHandPinky3"@),
        ("DP_Pinky_L"@, "f_pinky.03.L"@),
        ("DP_Pinky_L"@, "mixamorig:LeftHandPinky3"@),
    ]
}
/// Blender / Rigify joint names and the anatomical bones they denote.
pub open spec fn gltf_alias_table() -> Seq<(Seq<char>, Seq<char>)> {
    seq![
        ("Hips"@, "Pelvis"@),
        ("hips"@, "Pelvis"@),
        ("Spine"@, "L5"@),
        ("spine"@, "L5"@),
        ("spine.001"@, "L3"@),
        ("Spine.001"@, "L3"@),
        ("spine.002"@, "T10"@),
        ("Spine.002"@, "T10"@),
        ("spine.003"@, "T6"@),
        ("Spine.003"@, "T6"@),
        ("spine.004"@, "T1"@),
        ("Spine.004"@, "T1"@),
        ("spine.005"@, "C4"@),
        ("Spine.005"@, "C4"@),
        ("spine.006"@, "C2"@),
        ("Spine.006"@, "C2"@),
        ("Spine1"@, "T12"@),
        ("Spine2"@, "T6"@),
        ("Chest"@, "T1"@),
        ("chest"@, "T1"@),
        ("Neck"@, "C4"@),
        ("neck"@, "C4"@),
        ("Head"@, "Head"@),
        ("head"@, "Head"@),
        ("Shoulder.L"@, "Clavicle_L"@),
        ("shoulder.L"@, "Clavicle_L"@),
        ("Shoulder.R"@, "Clavicle_R"@),
        ("shoulder.R"@, "Clavicle_R"@),
        ("UpperArm.L"@, "UpperArm_L"@),
        ("upper_arm.L"@, "UpperArm_L"@),
        ("UpperArm.R"@, "UpperArm_R"@),
        ("upper_arm.R"@, "UpperArm_R"@),
        ("LowerArm.L"@, "Radius_L"@),
        ("forearm.L"@, "Radius_L"@),
        ("LowerArm.R"@, "Radius_R"@),
        ("forearm.R"@, "Radius_R"@),
        ("Hand.L"@, "Radius_L"@),
        ("hand.L"@, "Radius_L"@),
        ("Hand.R"@, "Radius_R"@),
        ("hand.R"@, "Radius_R"@),
        ("UpperLeg.L"@, "Femur_L"@),
        ("thigh.L"@, "Femur_L"@),
        ("UpperLeg.R"@, "Femur_R"@),
        ("thigh.R"@, "Femur_R"@),
        ("LowerLeg.L"@, "Tibia_L"@),
        ("shin.L"@, "Tibia_L"@),
        ("LowerLeg.R"@, "Tibia_R"@),
        ("shin.R"@, "Tibia_R"@),
        ("Foot.L"@, "Foot_L"@),
        ("foot.L"@, "Foot_L"@),
        ("LeftFoot"@, "Foot_L"@),
        ("mixamorig:LeftFoot"@, "Foot_L"@),
        ("Foot.R"@, "Foot_R"@),
        ("foot.R"@, "Foot_R"@),
        ("RightFoot"@, "Foot_R"@),
        ("mixamorig:RightFoot"@, "Foot_R"@),
        ("Toes.L"@, "MT_Hallux_L"@),
        ("toe.L"@, "MT_Hallux_L"@),
        ("LeftToeBase"@, "MT_Hallux_L"@),
        ("mixamorig:LeftToeBase"@, "MT_Hallux_L"@),
        ("Toes.R"@, "MT_Hallux_R"@),
        ("toe.R"@, "MT_Hallux_R"@),
        ("RightToeBase"@, "MT_Hallux_R"@),
        ("mixamorig:RightToeBase"@, "MT_Hallux_R"@),
        ("pelvis.L"@, "Femur_L"@),
        ("pelvis.R"@, "Femur_R"@),
        ("heel.02.L"@, "Tibia_L"@),
        ("heel.02.R"@, "Tibia_R"@),
        ("thumb.01.L"@, "MC_Thumb_L"@),
        ("thumb.02.L"@, "PP_Thumb_L"@),
        ("thumb.03.L"@, "DP_Thumb_L"@),
        ("f_index.01.L"@, "PP_Index_L"@),
        ("f_index.02.L"@, "MP_Index_L"@),
        ("f_index.03.L"@, "DP_Index_L"@),
        ("f_middle.01.L"@, "PP_Middle_L"@),
        ("f_middle.02.L"@, "MP_Middle_L"@),
        ("f_middle.03.L"@, "DP_Middle_L"@),
        ("f_ring.01.L"@, "PP_Ring_L"@),
        ("f_ring.02.L"@, "MP_Ring_L"@),
        ("f_ring.03.L"@, "DP_Ring_L"@),
        ("f_pinky.01.L"@, "PP_Pinky_L"@),
        ("f_pinky.02.L"@, "MP_Pinky_L"@),
        ("f_pinky.03.L"@, "DP_Pinky_L"@),
        ("thumb.01.R"@, "MC_Thumb_R"@),
        ("thumb.02.R"@, "PP_Thumb_R"@),
        ("thumb.03.R"@, "DP_Thumb_R"@),
        ("f_index.01.R"@, "PP_Index_R"@),
        ("f_index.02.R"@, "MP_Index_R"@),
        ("f_index.03.R"@, "DP_Index_R"@),
        ("f_middle.01.R"@, "PP_Middle_R"@),
        ("f_middle.02.R"@, "MP_Middle_R"@),
        ("f_middle.03.R"@, "DP_Middle_R"@),
        ("f_ring.01.R"@, "PP_Ring_R"@),
        ("f_ring.02.R"@, "MP_Ring_R"@),
        ("f_ring.03.R"@, "DP_Ring_R"@),
        ("f_pinky.01.R"@, "PP_Pinky_R"@),
        ("f_pinky.02.R"@, "MP_Pinky_R"@),
        ("f_pinky.03.R"@, "DP_Pinky_R"@),
    ]
}
/// The forward alias table as an array.
pub(crate) fn forward_alias_pairs() -> (r: [(&'static str, &'static str); 242])
    ensures
        table_view(r@) == forward_alias_table(),
{
    let r = [
        ("Head", "head"),
        ("Head", "Head"),
        ("Head", "mixamorig:Head"),
        ("C4", "Neck"),
        ("C4", "neck"),
        ("C4", "spine.005"),
        ("C4", "Spine.005"),
        ("C4", "mixamorig:Neck"),
        ("C2", "spine.006"),
        ("C2", "Spine.006"),
        ("T1", "Spine2"),
        ("T1", "spine.004"),
        ("T1", "Spine.004"),
        ("T1", "mixamorig:Spine2"),
        ("T6", "Spine1"),
        ("T6", "spine.003"),
        ("T6", "Spine.003"),
        ("T6", "mixamorig:Spine1"),
        ("T10", "spine.002"),
        ("T10", "Spine.002"),
        ("L3", "spine.001"),
        ("L3", "Spine.001"),
        ("L5", "Spine"),
        ("L5", "spine"),
        ("L5", "mixamorig:Spine"),
        ("Pelvis", "Hips"),
        ("Pelvis", "hips"),
        ("Pelvis", "mixamorig:Hips"),
        ("Clavicle_L", "LeftShoulder"),
        ("Clavicle_L", "shoulder.L"),
        ("Clavicle_L", "Shoulder.L"),
        ("Clavicle_L", "mixamorig:LeftShoulder"),
        ("Clavicle_R", "RightShoulder"),
        ("Clavicle_R", "shoulder.R"),
        ("Clavicle_R", "Shoulder.R"),
        ("Clavicle_R", "mixamorig:RightShoulder"),
        ("UpperArm_L", "LeftArm"),
        ("UpperArm_L", "upper_arm.L"),
        ("UpperArm_L", "UpperArm.L"),
        ("UpperArm_L", "mixamorig:LeftArm"),
        ("UpperArm_R", "RightArm"),
        ("UpperArm_R", "upper_arm.R"),
        ("UpperArm_R", "UpperArm.R"),
        ("UpperArm_R", "mixamorig:RightArm"),
        ("Radius_L", "LeftForeArm"),
        ("Radius_L", "forearm.L"),
        ("Radius_L", "LowerArm.L"),
        ("Radius_L", "mixamorig:LeftForeArm"),
        ("Radius_R", "RightForeArm"),
        ("Radius_R", "forearm.R"),
        ("Radius_R", "LowerArm.R"),
        ("Radius_R", "mixamorig:RightForeArm"),
        ("Hand_L", "LeftHand"),
        ("Hand_L", "hand.L"),
        ("Hand_L", "Hand.L"),
        ("Hand_L", "mixamorig:LeftHand"),
        ("Hand_R", "RightHand"),
        ("Hand_R", "hand.R"),
        ("Hand_R", "Hand.R"),
        ("Hand_R", "mixamorig:RightHand"),
        ("Femur_L", "LeftUpLeg"),
        ("Femur_L", "thigh.L"),
        ("Femur_L", "UpperLeg.L"),
        ("Femur_L", "mixamorig:LeftUpLeg"),
        ("Femur_R", "RightUpLeg"),
        ("Femur_R", "thigh.R"),
        ("Femur_R", "UpperLeg.R"),
        ("Femur_R", "mixamorig:RightUpLeg"),
        ("Tibia_L", "LeftLeg"),
        ("Tibia_L", "shin.L"),
        ("Tibia_L", "LowerLeg.L"),
        ("Tibia_L", "mixamorig:LeftLeg"),
        ("Tibia_R", "RightLeg"),
        ("Tibia_R", "shin.R"),
        ("Tibia_R", "LowerLeg.R"),
        ("Tibia_R", "mixamorig:RightLeg"),
        ("Foot_L", "LeftFoot"),
        ("Foot_L", "foot.L"),
        ("Foot_L", "Foot.L"),
        ("Foot_L", "mixamorig:LeftFoot"),
        ("Foot_R", "RightFoot"),
        ("Foot_R", "foot.R"),
        ("Foot_R", "Foot.R"),
        ("Foot_R", "mixamorig:RightFoot"),
        ("MT_Hallux_L", "LeftToeBase"),
        ("MT_Hallux_L", "toe.L"),
        ("MT_Hallux_L", "Toes.L"),
        ("MT_Hallux_L", "mixamorig:LeftToeBase"),
        ("MT_Hallux_R", "RightToeBase"),
        ("MT_Hallux_R", "toe.R"),
        ("MT_Hallux_R", "Toes.R"),
        ("MT_Hallux_R", "mixamorig:RightToeBase"),
        ("MC_Thumb_R", "RightHandThumb1"),
        ("MC_Thumb_R", "thumb.01.R"),
        ("MC_Thumb_R", "mixamorig:RightHandThumb1"),
        ("PP_Thumb_R", "RightHandThumb2"),
        ("PP_Thumb_R", "thumb.02.R"),
        ("PP_Thumb_R", "mixamorig:RightHandThumb2"),
        ("DP_Thumb_R", "RightHandThumb3"),
        ("DP_Thumb_R", "thumb.03.R"),
        ("DP_Thumb_R", "mixamorig:RightHandThumb3"),
        ("PP_Index_R", "RightHandIndex1"),
        ("PP_Index_R", "f_index.01.R"),
        ("PP_Index_R", "mixamorig:RightHandIndex1"),
        ("MP_Index_R", "RightHandIndex2"),
        ("MP_Index_R", "f_index.02.R"),
        ("MP_Index_R", "mixamorig:RightHandIndex2"),
        ("DP_Index_R", "RightHandIndex3"),
        ("DP_Index_R", "f_index.03.R"),
        ("DP_Index_R", "mixamorig:RightHandIndex3"),
        ("PP_Middle_R", "RightHandMiddle1"),
        ("PP_Middle_R", "f_middle.01.R"),
        ("PP_Middle_R", "mixamorig:RightHandMiddle1"),
        ("MP_Middle_R", "RightHandMiddle2"),
        ("MP_Middle_R", "f_middle.02.R"),
        ("MP_Middle_R", "mixamorig:RightHandMiddle2"),
        ("DP_Middle_R", "RightHandMiddle3"),
        ("DP_Middle_R", "f_middle.03.R"),
        ("DP_Middle_R", "mixamorig:RightHandMiddle3"),
        ("PP_Ring_R", "RightHandRing1"),
        ("PP_Ring_R", "f_ring.01.R"),
        ("PP_Ring_R", "mixamorig:RightHandRing1"),
        ("MP_Ring_R", "RightHandRing2"),
        ("MP_Ring_R", "f_ring.02.R"),
        ("MP_Ring_R", "mixamorig:RightHandRing2"),
        ("DP_Ring_R", "RightHandRing3"),
        ("DP_Ring_R", "f_ring.03.R"),
        ("DP_Ring_R", "mixamorig:RightHandRing3"),
        ("PP_Pinky_R", "RightHandPinky1"),
        ("PP_Pinky_R", "f_pinky.01.R"),
        ("PP_Pinky_R", "mixamorig:RightHandPinky1"),
        ("MP_Pinky_R", "RightHandPinky2"),
        ("MP_Pinky_R", "f_pinky.02.R"),
        ("MP_Pinky_R", "mixamorig:RightHandPinky2"),
        ("DP_Pinky_R", "RightHandPinky3"),
        ("DP_Pinky_R", "f_pinky.03.R"),
        ("DP_Pinky_R", "mixamorig:RightHandPinky3"),
        ("MC_Thumb_L", "LeftHandThumb1"),
        ("MC_Thumb_L", "thumb.01.L"),
        ("MC_Thumb_L", "mixamorig:LeftHandThumb1"),
        ("PP_Thumb_L", "LeftHandThumb2"),
        ("PP_Thumb_L", "thumb.02.L"),
        ("PP_Thumb_L", "mixamorig:LeftHandThumb2"),
        ("DP_Thumb_L", "LeftHandThumb3"),
        ("DP_Thumb_L", "thumb.03.L"),
        ("DP_Thumb_L", "mixamorig:LeftHandThumb3"),
        ("PP_Index_L", "LeftHandIndex1"),
        ("PP_Index_L", "f_index.01.L"),
        ("PP_Index_L", "mixamorig:LeftHandIndex1"),
        ("MP_Index_L", "LeftHandIndex2"),
        ("MP_Index_L", "f_index.02.L"),
        ("MP_Index_L", "mixamorig:LeftHandIndex2"),
        ("DP_Index_L", "LeftHandIndex3"),
        ("DP_Index_L", "f_index.03.L"),
        ("DP_Index_L", "mixamorig:LeftHandIndex3"),
        ("PP_Middle_L", "LeftHandMiddle1"),
        ("PP_Middle_L", "f_middle.01.L"),
        ("PP_Middle_L", "mixamorig:LeftHandMiddle1"),
        ("MP_Middle_L", "LeftHandMiddle2"),
        ("MP_Middle_L", "f_middle.02.L"),
        ("MP_Middle_L", "mixamorig:LeftHandMiddle2"),
        ("DP_Middle_L", "LeftHandMiddle3"),
        ("DP_Middle_L", "f_middle.03.L"),
        ("DP_Middle_L", "mixamorig:LeftHandMiddle3"),
        ("PP_Ring_L", "LeftHandRing1"),
        ("PP_Ring_L", "f_ring.01.L"),
        ("PP_Ring_L", "mixamorig:LeftHandRing1"),
        ("MP_Ring_L", "LeftHandRing2"),
        ("MP_Ring_L", "f_ring.02.L"),
        ("MP_Ring_L", "mixamorig:LeftHandRing2"),
        ("DP_Ring_L", "LeftHandRing3"),
        ("DP_Ring_L", "f_ring.03.L"),
        ("DP_Ring_L", "mixamorig:LeftHandRing3"),
        ("PP_Pinky_L", "LeftHandPinky1"),
        ("PP_Pinky_L", "f_pinky.01.L"),
        ("PP_Pinky_L", "mixamorig:LeftHandPinky1"),
        ("MP_Pinky_L", "LeftHandPinky2"),
        ("MP_Pinky_L", "f_pinky.02.L"),
        ("MP_Pinky_L", "mixamorig:LeftHandPinky2"),
        ("DP_Pinky_L", "LeftHandPinky3"),
        ("DP_Pinky_L", "f_pinky.03.L"),
        ("DP_Pinky_L", "mixamorig:LeftHandPinky3"),
        ("RightHandThumb1", "rightThumbMetacarpal"),
        ("RightHandThumb1", "MC_Thumb_R"),
        ("RightHandThumb2", "rightThumbProximal"),
        ("RightHandThumb2", "PP_Thumb_R"),
        ("RightHandThumb3", "rightThumbDistal"),
        ("RightHandThumb3", "DP_Thumb_R"),
        ("RightHandIndex1", "rightIndexProximal"),
        ("RightHandIndex1", "PP_Index_R"),
        ("RightHandIndex2", "rightIndexIntermediate"),
        ("RightHandIndex2", "MP_Index_R"),
        ("RightHandIndex3", "rightIndexDistal"),
        ("RightHandIndex3", "DP_Index_R"),
        ("RightHandMiddle1", "rightMiddleProximal"),
        ("RightHandMiddle1", "PP_Middle_R"),
        ("RightHandMiddle2", "rightMiddleIntermediate"),
        ("RightHandMiddle2", "MP_Middle_R"),
        ("RightHandMiddle3", "rightMiddleDistal"),
        ("RightHandMiddle3", "DP_Middle_R"),
        ("RightHandRing1", "rightRingProximal"),
        ("RightHandRing1", "PP_Ring_R"),
        ("RightHandRing2", "rightRingIntermediate"),
        ("RightHandRing2", "MP_Ring_R"),
        ("RightHandRing3", "rightRingDistal"),
        ("RightHandRing3", "DP_Ring_R"),
        ("RightHandPinky1", "rightLittleProximal"),
        ("RightHandPinky1", "PP_Pinky_R"),
        ("RightHandPinky2", "rightLittleIntermediate"),
        ("RightHandPinky2", "MP_Pinky_R"),
        ("RightHandPinky3", "rightLittleDistal"),
        ("RightHandPinky3", "DP_Pinky_R"),
        ("LeftHandThumb1", "leftThumbMetacarpal"),
        ("LeftHandThumb1", "MC_Thumb_L"),
        ("LeftHandThumb2", "leftThumbProximal"),
        ("LeftHandThumb2", "PP_Thumb_L"),
        ("LeftHandThumb3", "leftThumbDistal"),
        ("LeftHandThumb3", "DP_Thumb_L"),
        ("LeftHandIndex1", "leftIndexProximal"),
        ("LeftHandIndex1", "PP_Index_L"),
        ("LeftHandIndex2", "leftIndexIntermediate"),
        ("LeftHandIndex2", "MP_Index_L"),
        ("LeftHandIndex3", "leftIndexDistal"),
        ("LeftHandIndex3", "DP_Index_L"),
        ("LeftHandMiddle1", "leftMiddleProximal"),
        ("LeftHandMiddle1", "PP_Middle_L"),
        ("LeftHandMiddle2", "leftMiddleIntermediate"),
        ("LeftHandMiddle2", "MP_Middle_L"),
        ("LeftHandMiddle3", "leftMiddleDistal"),
        ("LeftHandMiddle3", "DP_Middle_L"),
        ("LeftHandRing1", "leftRingProximal"),
        ("LeftHandRing1", "PP_Ring_L"),
        ("LeftHandRing2", "leftRingIntermediate"),
        ("LeftHandRing2", "MP_Ring_L"),
        ("LeftHandRing3", "leftRingDistal"),
        ("LeftHandRing3", "DP_Ring_L"),
        ("LeftHandPinky1", "leftLittleProximal"),
        ("LeftHandPinky1", "PP_Pinky_L"),
        ("LeftHandPinky2", "leftLittleIntermediate"),
        ("LeftHandPinky2", "MP_Pinky_L"),
        ("LeftHandPinky3", "leftLittleDistal"),
        ("LeftHandPinky3", "DP_Pinky_L"),
    ];
    assert(table_view(r@) =~= forward_alias_table());
    r
}
/// The reverse alias table as an array.
pub(crate) fn reverse_alias_pairs() -> (r: [(&'static str, &'static str); 182])
    ensures
        table_view(r@) == reverse_alias_table(),
{
    let r = [
        ("Pelvis", "Hips"),
        ("Pelvis", "hips"),
        ("Pelvis", "mixamorig:Hips"),
        ("L5", "Spine"),
        ("L5", "spine"),
        ("L5", "mixamorig:Spine"),
        ("L3", "spine.001"),
        ("L3", "Spine.001"),
        ("T10", "spine.002"),
        ("T10", "Spine.002"),
        ("T6", "Spine1"),
        ("T6", "spine.003"),
        ("T6", "Spine.003"),
        ("T6", "mixamorig:Spine1"),
        ("T1", "Spine2"),
        ("T1", "spine.004"),
        ("T1", "Spine.004"),
        ("T1", "mixamorig:Spine2"),
        ("C4", "Neck"),
        ("C4", "neck"),
        ("C4", "spine.005"),
        ("C4", "Spine.005"),
        ("C4", "mixamorig:Neck"),
        ("C2", "spine.006"),
        ("C2", "Spine.006"),
        ("Head", "head"),
        ("Head", "mixamorig:Head"),
        ("Jaw", "jaw"),
        ("Clavicle_L", "LeftShoulder"),
        ("Clavicle_L", "shoulder.L"),
        ("Clavicle_L", "Shoulder.L"),
        ("Clavicle_L", "mixamorig:LeftShoulder"),
        ("Clavicle_R", "RightShoulder"),
        ("Clavicle_R", "shoulder.R"),
        ("Clavicle_R", "Shoulder.R"),
        ("Clavicle_R", "mixamorig:RightShoulder"),
        ("UpperArm_L", "LeftArm"),
        ("UpperArm_L", "upper_arm.L"),
        ("UpperArm_L", "UpperArm.L"),
        ("UpperArm_L", "mixamorig:LeftArm"),
        ("UpperArm_R", "RightArm"),
        ("UpperArm_R", "upper_arm.R"),
        ("UpperArm_R", "UpperArm.R"),
        ("UpperArm_R", "mixamorig:RightArm"),
        ("Radius_L", "LeftForeArm"),
        ("Radius_L", "forearm.L"),
        ("Radius_L", "LowerArm.L"),
        ("Radius_L", "mixamorig:LeftForeArm"),
        ("Radius_R", "RightForeArm"),
        ("Radius_R", "forearm.R"),
        ("Radius_R", "LowerArm.R"),
        ("Radius_R", "mixamorig:RightForeArm"),
        ("Hand_L", "LeftHand"),
        ("Hand_L", "hand.L"),
        ("Hand_L", "Hand.L"),
        ("Hand_L", "mixamorig:LeftHand"),
        ("Hand_R", "RightHand"),
        ("Hand_R", "hand.R"),
        ("Hand_R", "Hand.R"),
        ("Hand_R", "mixamorig:RightHand"),
        ("Femur_L", "LeftUpLeg"),
        ("Femur_L", "thigh.L"),
        ("Femur_L", "UpperLeg.L"),
        ("Femur_L", "mixamorig:LeftUpLeg"),
        ("Femur_R", "RightUpLeg"),
        ("Femur_R", "thigh.R"),
        ("Femur_R", "UpperLeg.R"),
        ("Femur_R", "mixamorig:RightUpLeg"),
        ("Tibia_L", "LeftLeg"),
        ("Tibia_L", "shin.L"),
        ("Tibia_L", "LowerLeg.L"),
        ("Tibia_L", "mixamorig:LeftLeg"),
        ("Tibia_R", "RightLeg"),
        ("Tibia_R", "shin.R"),
        ("Tibia_R", "LowerLeg.R"),
        ("Tibia_R", "mixamorig:RightLeg"),
        ("Foot_L", "LeftFoot"),
        ("Foot_L", "foot.L"),
        ("Foot_L", "Foot.L"),
        ("Foot_L", "mixamorig:LeftFoot"),
        ("Foot_R", "RightFoot"),
        ("Foot_R", "foot.R"),
        ("Foot_R", "Foot.R"),
        ("Foot_R", "mixamorig:RightFoot"),
        ("MT_Hallux_L", "LeftToeBase"),
        ("MT_Hallux_L", "toe.L"),
        ("MT_Hallux_L", "Toes.L"),
        ("MT_Hallux_L", "mixamorig:LeftToeBase"),
        ("MT_Hallux_R", "RightToeBase"),
        ("MT_Hallux_R", "toe.R"),
        ("MT_Hallux_R", "Toes.R"),
        ("MT_Hallux_R", "mixamorig:RightToeBase"),
        ("MC_Thumb_R", "RightHandThumb1"),
        ("MC_Thumb_R", "thumb.01.R"),
        ("MC_Thumb_R", "mixamorig:RightHandThumb1"),
        ("PP_Thumb_R", "RightHandThumb2"),
        ("PP_Thumb_R", "thumb.02.R"),
        ("PP_Thumb_R", "mixamorig:RightHandThumb2"),
        ("DP_Thumb_R", "RightHandThumb3"),
        ("DP_Thumb_R", "thumb.03.R"),
        ("DP_Thumb_R", "mixamorig:RightHandThumb3"),
        ("PP_Index_R", "RightHandIndex1"),
        ("PP_Index_R", "f_index.01.R"),
        ("PP_Index_R", "mixamorig:RightHandIndex1"),
        ("MP_Index_R", "RightHandIndex2"),
        ("MP_Index_R", "f_index.02.R"),
        ("MP_Index_R", "mixamorig:RightHandIndex2"),
        ("DP_Index_R", "RightHandIndex3"),
        ("DP_Index_R", "f_index.03.R"),
        ("DP_Index_R", "mixamorig:RightHandIndex3"),
        ("PP_Middle_R", "RightHandMiddle1"),
        ("PP_Middle_R", "f_middle.01.R"),
        ("PP_Middle_R", "mixamorig:RightHandMiddle1"),
        ("MP_Middle_R", "RightHandMiddle2"),
        ("MP_Middle_R", "f_middle.02.R"),
        ("MP_Middle_R", "mixamorig:RightHandMiddle2"),
        ("DP_Middle_R", "RightHandMiddle3"),
        ("DP_Middle_R", "f_middle.03.R"),
        ("DP_Middle_R", "mixamorig:RightHandMiddle3"),
        ("PP_Ring_R", "RightHandRing1"),
        ("PP_Ring_R", "f_ring.01.R"),
        ("PP_Ring_R", "mixamorig:RightHandRing1"),
        ("MP_Ring_R", "RightHandRing2"),
        ("MP_Ring_R", "f_ring.02.R"),
        ("MP_Ring_R", "mixamorig:RightHandRing2"),
        ("DP_Ring_R", "RightHandRing3"),
        ("DP_Ring_R", "f_ring.03.R"),
        ("DP_Ring_R", "mixamorig:RightHandRing3"),
        ("PP_Pinky_R", "RightHandPinky1"),
        ("PP_Pinky_R", "f_pinky.01.R"),
        ("PP_Pinky_R", "mixamorig:RightHandPinky1"),
        ("MP_Pinky_R", "RightHandPinky2"),
        ("MP_Pinky_R", "f_pinky.02.R"),
        ("MP_Pinky_R", "mixamorig:RightHandPinky2"),
        ("DP_Pinky_R", "RightHandPinky3"),
        ("DP_Pinky_R", "f_pinky.03.R"),
        ("DP_Pinky_R", "mixamorig:RightHandPinky3"),
        ("MC_Thumb_L", "LeftHandThumb1"),
        ("MC_Thumb_L", "thumb.01.L"),
        ("MC_Thumb_L", "mixamorig:LeftHandThumb1"),
        ("PP_Thumb_L", "LeftHandThumb2"),
        ("PP_Thumb_L", "thumb.02.L"),
        ("PP_Thumb_L", "mixamorig:LeftHandThumb2"),
        ("DP_Thumb_L", "LeftHandThumb3"),
        ("DP_Thumb_L", "thumb.03.L"),
        ("DP_Thumb_L", "mixamorig:LeftHandThumb3"),
        ("PP_Index_L", "LeftHandIndex1"),
        ("PP_Index_L", "f_index.01.L"),
        ("PP_Index_L", "mixamorig:LeftHandIndex1"),
        ("MP_Index_L", "LeftHandIndex2"),
        ("MP_Index_L", "f_index.02.L"),
        ("MP_Index_L", "mixamorig:LeftHandIndex2"),
        ("DP_Index_L", "LeftHandIndex3"),
        ("DP_Index_L", "f_index.03.L"),
        ("DP_Index_L", "mixamorig:LeftHandIndex3"),
        ("PP_Middle_L", "LeftHandMiddle1"),
        ("PP_Middle_L", "f_middle.01.L"),
        ("PP_Middle_L", "mixamorig:LeftHandMiddle1"),
        ("MP_Middle_L", "LeftHandMiddle2"),
        ("MP_Middle_L", "f_middle.02.L"),
        ("MP_Middle_L", "mixamorig:LeftHandMiddle2"),
        ("DP_Middle_L", "LeftHandMiddle3"),
        ("DP_Middle_L", "f_middle.03.L"),
        ("DP_Middle_L", "mixamorig:LeftHandMiddle3"),
        ("PP_Ring_L", "LeftHandRing1"),
        ("PP_Ring_L", "f_ring.01.L"),
        ("PP_Ring_L", "mixamorig:LeftHandRing1"),
        ("MP_Ring_L", "LeftHandRing2"),
        ("MP_Ring_L", "f_ring.02.L"),
        ("MP_Ring_L", "mixamorig:LeftHandRing2"),
        ("DP_Ring_L", "LeftHandRing3"),
        ("DP_Ring_L", "f_ring.03.L"),
        ("DP_Ring_L", "mixamorig:LeftHandRing3"),
        ("PP_Pinky_L", "LeftHandPinky1"),
        ("PP_Pinky_L", "f_pinky.01.L"),
        ("PP_Pinky_L", "mixamorig:LeftHandPinky1"),
        ("MP_Pinky_L", "LeftHandPinky2"),
        ("MP_Pinky_L", "f_pinky.02.L"),
        ("MP_Pinky_L", "mixamorig:LeftHandPinky2"),
        ("DP_Pinky_L", "LeftHandPinky3"),
        ("DP_Pinky_L", "f_pinky.03.L"),
        ("DP_Pinky_L", "mixamorig:LeftHandPinky3"),
    ];
    assert(table_view(r@) =~= reverse_alias_table());
    r
}
/// The glTF joint alias table as an array.
pub(crate) fn gltf_alias_pairs() -> (r: [(&'static str, &'static str); 98])
    ensures
        table_view(r@) == gltf_alias_table(),
{
    let r = [
        ("Hips", "Pelvis"),
        ("hips", "Pelvis"),
        ("Spine", "L5"),
        ("spine", "L5"),
        ("spine.001", "L3"),
        ("Spine.001", "L3"),
        ("spine.002", "T10"),
        ("Spine.002", "T10"),
        ("spine.003", "T6"),
        ("Spine.003", "T6"),
        ("spine.004", "T1"),
        ("Spine.004", "T1"),
        ("spine.005", "C4"),
        ("Spine.005", "C4"),
        ("spine.006", "C2"),
        ("Spine.006", "C2"),
        ("Spine1", "T12"),
        ("Spine2", "T6"),
        ("Chest", "T1"),
        ("chest", "T1"),
        ("Neck", "C4"),
        ("neck", "C4"),
        ("Head", "Head"),
        ("head", "Head"),
        ("Shoulder.L", "Clavicle_L"),
        ("shoulder.L", "Clavicle_L"),
        ("Shoulder.R", "Clavicle_R"),
        ("shoulder.R", "Clavicle_R"),
        ("UpperArm.L", "UpperArm_L"),
        ("upper_arm.L", "UpperArm_L"),
        ("UpperArm.R", "UpperArm_R"),
        ("upper_arm.R", "UpperArm_R"),
        ("LowerArm.L", "Radius_L"),
        ("forearm.L", "Radius_L"),
        ("LowerArm.R", "Radius_R"),
        ("forearm.R", "Radius_R"),
        ("Hand.L", "Radius_L"),
        ("hand.L", "Radius_L"),
        ("Hand.R", "Radius_R"),
        ("hand.R", "Radius_R"),
        ("UpperLeg.L", "Femur_L"),
        ("thigh.L", "Femur_L"),
        ("UpperLeg.R", "Femur_R"),
        ("thigh.R", "Femur_R"),
        ("LowerLeg.L", "Tibia_L"),
        ("shin.L", "Tibia_L"),
        ("LowerLeg.R", "Tibia_R"),
        ("shin.R", "Tibia_R"),
        ("Foot.L", "Foot_L"),
        ("foot.L", "Foot_L"),
        ("LeftFoot", "Foot_L"),
        ("mixamorig:LeftFoot", "Foot_L"),
        ("Foot.R", "Foot_R"),
        ("foot.R", "Foot_R"),
        ("RightFoot", "Foot_R"),
        ("mixamorig:RightFoot", "Foot_R"),
        ("Toes.L", "MT_Hallux_L"),
        ("toe.L", "MT_Hallux_L"),
        ("LeftToeBase", "MT_Hallux_L"),
        ("mixamorig:LeftToeBase", "MT_Hallux_L"),
        ("Toes.R", "MT_Hallux_R"),
        ("toe.R", "MT_Hallux_R"),
        ("RightToeBase", "MT_Hallux_R"),
        ("mixamorig:RightToeBase", "MT_Hallux_R"),
        ("pelvis.L", "Femur_L"),
        ("pelvis.R", "Femur_R"),
        ("heel.02.L", "Tibia_L"),
        ("heel.02.R", "Tibia_R"),
        ("thumb.01.L", "MC_Thumb_L"),
        ("thumb.02.L", "PP_Thumb_L"),
        ("thumb.03.L", "DP_Thumb_L"),
        ("f_index.01.L", "PP_Index_L"),
        ("f_index.02.L", "MP_Index_L"),
        ("f_index.03.L", "DP_Index_L"),
        ("f_middle.01.L", "PP_Middle_L"),
        ("f_middle.02.L", "MP_Middle_L"),
        ("f_middle.03.L", "DP_Middle_L"),
        ("f_ring.01.L", "PP_Ring_L"),
        ("f_ring.02.L", "MP_Ring_L"),
        ("f_ring.03.L", "DP_Ring_L"),
        ("f_pinky.01.L", "PP_Pinky_L"),
        ("f_pinky.02.L", "MP_Pinky_L"),
        ("f_pinky.03.L", "DP_Pinky_L"),
        ("thumb.01.R", "MC_Thumb_R"),
        ("thumb.02.R", "PP_Thumb_R"),
        ("thumb.03.R", "DP_Thumb_R"),
        ("f_index.01.R", "PP_Index_R"),
        ("f_index.02.R", "MP_Index_R"),
        ("f_index.03.R", "DP_Index_R"),
        ("f_middle.01.R", "PP_Middle_R"),
        ("f_middle.02.R", "MP_Middle_R"),
        ("f_middle.03.R", "DP_Middle_R"),
        ("f_ring.01.R", "PP_Ring_R"),
        ("f_ring.02.R", "MP_Ring_R"),
        ("f_ring.03.R", "DP_Ring_R"),
        ("f_pinky.01.R", "PP_Pinky_R"),
        ("f_pinky.02.R", "MP_Pinky_R"),
        ("f_pinky.03.R", "DP_Pinky_R"),
    ];
    assert(table_view(r@) =~= gltf_alias_table());
    r
}

} // verus!


verus! {

/// A Mixamo / Rigify name of a left-side bone: `Left…`, `mixamorig:Left…` or `….L`.
pub open spec fn names_left_side(alias: Seq<char>) -> bool {
    "Left"@.is_prefix_of(alias) || "mixamorig:Left"@.is_prefix_of(alias) || ".L"@.is_suffix_of(alias)
}

/// A Mixamo / Rigify name of a right-side bone: `Right…`, `mixamorig:Right…` or `….R`.
pub open spec fn names_right_side(alias: Seq<char>) -> bool {
    "Right"@.is_prefix_of(alias) || "mixamorig:Right"@.is_prefix_of(alias) || ".R"@.is_suffix_of(
        alias,
    )
}

/// An anatomical bone name and an alias of it name the same side: a left-side
/// alias belongs to a `…_L` bone and a right-side alias to a `…_R` bone.
pub open spec fn same_side(anatomical: Seq<char>, alias: Seq<char>) -> bool {
    &&& names_left_side(alias) ==> "_L"@.is_suffix_of(anatomical)
    &&& names_right_side(alias) ==> "_R"@.is_suffix_of(anatomical)
}

/// [`same_side`] checked character by character.
proof fn lemma_same_side_by_chars(anatomical: Seq<char>, alias: Seq<char>)
    ensures
        same_side(anatomical, alias) <==> {
            &&& (begins_with_chars(alias, "Left"@) || begins_with_chars(alias, "mixamorig:Left"@) || ends_with_chars(
                alias,
                ".L"@,
            )) ==> ends_with_chars(anatomical, "_L"@)
            &&& (begins_with_chars(alias, "Right"@) || begins_with_chars(alias, "mixamorig:Right"@) || ends_with_chars(
                alias,
                ".R"@,
            )) ==> ends_with_chars(anatomical, "_R"@)
        },
{
    lemma_begins_with_chars("Left"@, alias);
    lemma_begins_with_chars("mixamorig:Left"@, alias);
    lemma_ends_with_chars(".L"@, alias);
    lemma_begins_with_chars("Right"@, alias);
    lemma_begins_with_chars("mixamorig:Right"@, alias);
    lemma_ends_with_chars(".R"@, alias);
    lemma_ends_with_chars("_L"@, anatomical);
    lemma_ends_with_chars("_R"@, anatomical);
}


/// Entries 0 to 19 of the reverse alias table name the same side.
proof fn lemma_reverse_alias_sides_0_20()
    ensures
        forall|i: int| 0 <= i < 20 ==> same_side(#[trigger] reverse_alias_table()[i].0, reverse_alias_table()[i].1),
{
    reveal_strlit(".L");
    reveal_strlit(".R");
    reveal_strlit("C4");
    reveal_strlit("Hips");
    reveal_strlit("L3");
    reveal_strlit("L5");
    reveal_strlit("Left");
    reveal_strlit("Neck");
    reveal_strlit("Pelvis");
    reveal_strlit("Right");
    reveal_strlit("Spine");
    reveal_strlit("Spine.001");
    reveal_strlit("Spine.002");
    reveal_strlit("Spine.003");
    reveal_strlit("Spine.004");
    reveal_strlit("Spine1");
    reveal_strlit("Spine2");
    reveal_strlit("T1");
    reveal_strlit("T10");
    reveal_strlit("T6");
    reveal_strlit("_L");
    reveal_strlit("_R");
    reveal_strlit("hips");
    reveal_strlit("mixamorig:Hips");
    reveal_strlit("mixamorig:Left");
    reveal_strlit("mixamorig:Right");
    reveal_strlit("mixamorig:Spine");
    reveal_strlit("mixamorig:Spine1");
    reveal_strlit("mixamorig:Spine2");
    reveal_strlit("neck");
    reveal_strlit("spine");
    reveal_strlit("spine.001");
    reveal_strlit("spine.002");
    reveal_strlit("spine.003");
    reveal_strlit("spine.004");
    reveal_with_fuel(head_matches, 16);
    reveal_with_fuel(tail_matches, 3);
    let t = reverse_alias_table();
    assert forall|i: int| 0 <= i < 20 implies same_side(#[trigger] t[i].0, t[i].1) by {
        lemma_same_side_by_chars(t[i].0, t[i].1);
        if i == 0 {
            assert(t[i] == ("Pelvis"@, "Hips"@));
        } else if i == 1 {
            assert(t[i] == ("Pelvis"@, "hips"@));
        } else if i == 2 {
            assert(t[i] == ("Pelvis"@, "mixamorig:Hips"@));
        } else if i == 3 {
            assert(t[i] == ("L5"@, "Spine"@));
        } else if i == 4 {
            assert(t[i] == ("L5"@, "spine"@));
        } else if i == 5 {
            assert(t[i] == ("L5"@, "mixamorig:Spine"@));
        } else if i == 6 {
            assert(t[i] == ("L3"@, "spine.001"@));
        } else if i == 7 {
            assert(t[i] == ("L3"@, "Spine.001"@));
        } else if i == 8 {
            assert(t[i] == ("T10"@, "spine.002"@));
        } else if i == 9 {
            assert(t[i] == ("T10"@, "Spine.002"@));
        } else if i == 10 {
            assert(t[i] == ("T6"@, "Spine1"@));
        } else if i == 11 {
            assert(t[i] == ("T6"@, "spine.003"@));
        } else if i == 12 {
            assert(t[i] == ("T6"@, "Spine.003"@));
        } else if i == 13 {
            assert(t[i] == ("T6"@, "mixamorig:Spine1"@));
        } else if i == 14 {
            assert(t[i] == ("T1"@, "Spine2"@));
        } else if i == 15 {
            assert(t[i] == ("T1"@, "spine.004"@));
        } else if i == 16 {
            assert(t[i] == ("T1"@, "Spine.004"@));
        } else if i == 17 {
            assert(t[i] == ("T1"@, "mixamorig:Spine2"@));
        } else if i == 18 {
            assert(t[i] == ("C4"@, "Neck"@));
        } else if i == 19 {
            assert(t[i] == ("C4"@, "neck"@));
        }
    }
}

/// Entries 20 to 39 of the reverse alias table name the same side.
proof fn lemma_reverse_alias_sides_20_40()
    ensures
        forall|i: int| 20 <= i < 40 ==> same_side(#[trigger] reverse_alias_table()[i].0, reverse_alias_table()[i].1),
{
    reveal_strlit(".L");
    reveal_strlit(".R");
    reveal_strlit("C2");
    reveal_strlit("C4");
    reveal_strlit("Clavicle_L");
    reveal_strlit("Clavicle_R");
    reveal_strlit("Head");
    reveal_strlit("Jaw");
    reveal_strlit("Left");
    reveal_strlit("LeftArm");
    reveal_strlit("LeftShoulder");
    reveal_strlit("Right");
    reveal_strlit("RightShoulder");
    reveal_strlit("Shoulder.L");
    reveal_strlit("Shoulder.R");
    reveal_strlit("Spine.005");
    reveal_strlit("Spine.006");
    reveal_strlit("UpperArm.L");
    reveal_strlit("UpperArm_L");
    reveal_strlit("_L");
    reveal_strlit("_R");
    reveal_strlit("head");
    reveal_strlit("jaw");
    reveal_strlit("mixamorig:Head");
    reveal_strlit("mixamorig:Left");
    reveal_strlit("mixamorig:LeftArm");
    reveal_strlit("mixamorig:LeftShoulder");
    reveal_strlit("mixamorig:Neck");
    reveal_strlit("mixamorig:Right");
    reveal_strlit("mixamorig:RightShoulder");
    reveal_strlit("shoulder.L");
    reveal_strlit("shoulder.R");
    reveal_strlit("spine.005");
    reveal_strlit("spine.006");
    reveal_strlit("upper_arm.L");
    reveal_with_fuel(head_matches, 16);
    reveal_with_fuel(tail_matches, 3);
    let t = reverse_alias_table();
    assert forall|i: int| 20 <= i < 40 implies same_side(#[trigger] t[i].0, t[i].1) by {
        lemma_same_side_by_chars(t[i].0, t[i].1);
        if i == 20 {
            assert(t[i] == ("C4"@, "spine.005"@));
        } else if i == 21 {
            assert(t[i] == ("C4"@, "Spine.005"@));
        } else if i == 22 {
            assert(t[i] == ("C4"@, "mixamorig:Neck"@));
        } else if i == 23 {
            assert(t[i] == ("C2"@, "spine.006"@));
        } else if i == 24 {
            assert(t[i] == ("C2"@, "Spine.006"@));
        } else if i == 25 {
            assert(t[i] == ("Head"@, "head"@));
        } else if i == 26 {
            assert(t[i] == ("Head"@, "mixamorig:Head"@));
        } else if i == 27 {
            assert(t[i] == ("Jaw"@, "jaw"@));
        } else if i == 28 {
            assert(t[i] == ("Clavicle_L"@, "LeftShoulder"@));
        } else if i == 29 {
            assert(t[i] == ("Clavicle_L"@, "shoulder.L"@));
        } else if i == 30 {
            assert(t[i] == ("Clavicle_L"@, "Shoulder.L"@));
        } else if i == 31 {
            assert(t[i] == ("Clavicle_L"@, "mixamorig:LeftShoulder"@));
        } else if i == 32 {
            assert(t[i] == ("Clavicle_R"@, "RightShoulder"@));
        } else if i == 33 {
            assert(t[i] == ("Clavicle_R"@, "shoulder.R"@));
        } else if i == 34 {
            assert(t[i] == ("Clavicle_R"@, "Shoulder.R"@));
        } else if i == 35 {
            assert(t[i] == ("Clavicle_R"@, "mixamorig:RightShoulder"@));
        } else if i == 36 {
            assert(t[i] == ("UpperArm_L"@, "LeftArm"@));
        } else if i == 37 {
            assert(t[i] == ("UpperArm_L"@, "upper_arm.L"@));
        } else if i == 38 {
            assert(t[i] == ("UpperArm_L"@, "UpperArm.L"@));
        } else if i == 39 {
            assert(t[i] == ("UpperArm_L"@, "mixamorig:LeftArm"@));
        }
    }
}

/// Entries 40 to 59 of the reverse alias table name the same side.
proof fn lemma_reverse_alias_sides_40_60()
    ensures
        forall|i: int| 40 <= i < 60 ==> same_side(#[trigger] reverse_alias_table()[i].0, reverse_alias_table()[i].1),
{
    reveal_strlit(".L");
    reveal_strlit(".R");
    reveal_strlit("Hand.L");
    reveal_strlit("Hand.R");
    reveal_strlit("Hand_L");
    reveal_strlit("Hand_R");
    reveal_strlit("Left");
    reveal_strlit("LeftForeArm");
    reveal_strlit("LeftHand");
    reveal_strlit("LowerArm.L");
    reveal_strlit("LowerArm.R");
    reveal_strlit("Radius_L");
    reveal_strlit("Radius_R");
    reveal_strlit("Right");
    reveal_strlit("RightArm");
    reveal_strlit("RightForeArm");
    reveal_strlit("RightHand");
    reveal_strlit("UpperArm.R");
    reveal_strlit("UpperArm_R");
    reveal_strlit("_L");
    reveal_strlit("_R");
    reveal_strlit("forearm.L");
    reveal_strlit("forearm.R");
    reveal_strlit("hand.L");
    reveal_strlit("hand.R");
    reveal_strlit("mixamorig:Left");
    reveal_strlit("mixamorig:LeftForeArm");
    reveal_strlit("mixamorig:LeftHand");
    reveal_strlit("mixamorig:Right");
    reveal_strlit("mixamorig:RightArm");
    reveal_strlit("mixamorig:RightForeArm");
    reveal_strlit("mixamorig:RightHand");
    reveal_strlit("upper_arm.R");
    reveal_with_fuel(head_matches, 16);
    reveal_with_fuel(tail_matches, 3);
    let t = reverse_alias_table();
    assert forall|i: int| 40 <= i < 60 implies same_side(#[trigger] t[i].0, t[i].1) by {
        lemma_same_side_by_chars(t[i].0, t[i].1);
        if i == 40 {
            assert(t[i] == ("UpperArm_R"@, "RightArm"@));
        } else if i == 41 {
            assert(t[i] == ("UpperArm_R"@, "upper_arm.R"@));
        } else if i == 42 {
            assert(t[i] == ("UpperArm_R"@, "UpperArm.R"@));
        } else if i == 43 {
            assert(t[i] == ("UpperArm_R"@, "mixamorig:RightArm"@));
        } else if i == 44 {
            assert(t[i] == ("Radius_L"@, "LeftForeArm"@));
        } else if i == 45 {
            assert(t[i] == ("Radius_L"@, "forearm.L"@));
        } else if i == 46 {
            assert(t[i] == ("Radius_L"@, "LowerArm.L"@));
        } else if i == 47 {
            assert(t[i] == ("Radius_L"@, "mixamorig:LeftForeArm"@));
        } else if i == 48 {
            assert(t[i] == ("Radius_R"@, "RightForeArm"@));
        } else if i == 49 {
            assert(t[i] == ("Radius_R"@, "forearm.R"@));
        } else if i == 50 {
            assert(t[i] == ("Radius_R"@, "LowerArm.R"@));
        } else if i == 51 {
            assert(t[i] == ("Radius_R"@, "mixamorig:RightForeArm"@));
        } else if i == 52 {
            assert(t[i] == ("Hand_L"@, "LeftHand"@));
        } else if i == 53 {
            assert(t[i] == ("Hand_L"@, "hand.L"@));
        } else if i == 54 {
            assert(t[i] == ("Hand_L"@, "Hand.L"@));
        } else if i == 55 {
            assert(t[i] == ("Hand_L"@, "mixamorig:LeftHand"@));
        } else if i == 56 {
            assert(t[i] == ("Hand_R"@, "RightHand"@));
        } else if i == 57 {
            assert(t[i] == ("Hand_R"@, "hand.R"@));
        } else if i == 58 {
            assert(t[i] == ("Hand_R"@, "Hand.R"@));
        } else if i == 59 {
            assert(t[i] == ("Hand_R"@, "mixamorig:RightHand"@));
        }
    }
}

/// Entries 60 to 79 of the reverse alias table name the same side.
proof fn lemma_reverse_alias_sides_60_80()
    ensures
        forall|i: int| 60 <= i < 80 ==> same_side(#[trigger] reverse_alias_table()[i].0, reverse_alias_table()[i].1),
{
    reveal_strlit(".L");
    reveal_strlit(".R");
    reveal_strlit("Femur_L");
    reveal_strlit("Femur_R");
    reveal_strlit("Foot.L");
    reveal_strlit("Foot_L");
    reveal_strlit("Left");
    reveal_strlit("LeftFoot");
    reveal_strlit("LeftLeg");
    reveal_strlit("LeftUpLeg");
    reveal_strlit("LowerLeg.L");
    reveal_strlit("LowerLeg.R");
    reveal_strlit("Right");
    reveal_strlit("RightLeg");
    reveal_strlit("RightUpLeg");
    reveal_strlit("Tibia_L");
    reveal_strlit("Tibia_R");
    reveal_strlit("UpperLeg.L");
    reveal_strlit("UpperLeg.R");
    reveal_strlit("_L");
    reveal_strlit("_R");
    reveal_strlit("foot.L");
    reveal_strlit("mixamorig:Left");
    reveal_strlit("mixamorig:LeftFoot");
    reveal_strlit("mixamorig:LeftLeg");
    reveal_strlit("mixamorig:LeftUpLeg");
    reveal_strlit("mixamorig:Right");
    reveal_strlit("mixamorig:RightLeg");
    reveal_strlit("mixamorig:RightUpLeg");
    reveal_strlit("shin.L");
    reveal_strlit("shin.R");
    reveal_strlit("thigh.L");
    reveal_strlit("thigh.R");
    reveal_with_fuel(head_matches, 16);
    reveal_with_fuel(tail_matches, 3);
    let t = reverse_alias_table();
    assert forall|i: int| 60 <= i < 80 implies same_side(#[trigger] t[i].0, t[i].1) by {
        lemma_same_side_by_chars(t[i].0, t[i].1);
        if i == 60 {
            assert(t[i] == ("Femur_L"@, "LeftUpLeg"@));
        } else if i == 61 {
            assert(t[i] == ("Femur_L"@, "thigh.L"@));
        } else if i == 62 {
            assert(t[i] == ("Femur_L"@, "UpperLeg.L"@));
        } else if i == 63 {
            assert(t[i] == ("Femur_L"@, "mixamorig:LeftUpLeg"@));
        } else if i == 64 {
            assert(t[i] == ("Femur_R"@, "RightUpLeg"@));
        } else if i == 65 {
            assert(t[i] == ("Femur_R"@, "thigh.R"@));
        } else if i == 66 {
            assert(t[i] == ("Femur_R"@, "UpperLeg.R"@));
        } else if i == 67 {
            assert(t[i] == ("Femur_R"@, "mixamorig:RightUpLeg"@));
        } else if i == 68 {
            assert(t[i] == ("Tibia_L"@, "LeftLeg"@));
        } else if i == 69 {
            assert(t[i] == ("Tibia_L"@, "shin.L"@));
        } else if i == 70 {
            assert(t[i] == ("Tibia_L"@, "LowerLeg.L"@));
        } else if i == 71 {
            assert(t[i] == ("Tibia_L"@, "mixamorig:LeftLeg"@));
        } else if i == 72 {
            assert(t[i] == ("Tibia_R"@, "RightLeg"@));
        } else if i == 73 {
            assert(t[i] == ("Tibia_R"@, "shin.R"@));
        } else if i == 74 {
            assert(t[i] == ("Tibia_R"@, "LowerLeg.R"@));
        } else if i == 75 {
            assert(t[i] == ("Tibia_R"@, "mixamorig:RightLeg"@));
        } else if i == 76 {
            assert(t[i] == ("Foot_L"@, "LeftFoot"@));
        } else if i == 77 {
            assert(t[i] == ("Foot_L"@, "foot.L"@));
        } else if i == 78 {
            assert(t[i] == ("Foot_L"@, "Foot.L"@));
        } else if i == 79 {
            assert(t[i] == ("Foot_L"@, "mixamorig:LeftFoot"@));
        }
    }
}

/// Entries 80 to 99 of the reverse alias table name the same side.
proof fn lemma_reverse_alias_sides_80_100()
    ensures
        forall|i: int| 80 <= i < 100 ==> same_side(#[trigger] reverse_alias_table()[i].0, reverse_alias_table()[i].1),
{
    reveal_strlit(".L");
    reveal_strlit(".R");
    reveal_strlit("DP_Thumb_R");
    reveal_strlit("Foot.R");
    reveal_strlit("Foot_R");
    reveal_strlit("Left");
    reveal_strlit("LeftToeBase");
    reveal_strlit("MC_Thumb_R");
    reveal_strlit("MT_Hallux_L");
    reveal_strlit("MT_Hallux_R");
    reveal_strlit("PP_Thumb_R");
    reveal_strlit("Right");
    reveal_strlit("RightFoot");
    reveal_strlit("RightHandThumb1");
    reveal_strlit("RightHandThumb2");
    reveal_strlit("RightHandThumb3");
    reveal_strlit("RightToeBase");
    reveal_strlit("Toes.L");
    reveal_strlit("Toes.R");
    reveal_strlit("_L");
    reveal_strlit("_R");
    reveal_strlit("foot.R");
    reveal_strlit("mixamorig:Left");
    reveal_strlit("mixamorig:LeftToeBase");
    reveal_strlit("mixamorig:Right");
    reveal_strlit("mixamorig:RightFoot");
    reveal_strlit("mixamorig:RightHandThumb1");
    reveal_strlit("mixamorig:RightHandThumb2");
    reveal_strlit("mixamorig:RightToeBase");
    reveal_strlit("thumb.01.R");
    reveal_strlit("thumb.02.R");
    reveal_strlit("thumb.03.R");
    reveal_strlit("toe.L");
    reveal_strlit("toe.R");
    reveal_with_fuel(head_matches, 16);
    reveal_with_fuel(tail_matches, 3);
    let t = reverse_alias_table();
    assert forall|i: int| 80 <= i < 100 implies same_side(#[trigger] t[i].0, t[i].1) by {
        lemma_same_side_by_chars(t[i].0, t[i].1);
        if i == 80 {
            assert(t[i] == ("Foot_R"@, "RightFoot"@));
        } else if i == 81 {
            assert(t[i] == ("Foot_R"@, "foot.R"@));
        } else if i == 82 {
            assert(t[i] == ("Foot_R"@, "Foot.R"@));
        } else if i == 83 {
            assert(t[i] == ("Foot_R"@, "mixamorig:RightFoot"@));
        } else if i == 84 {
            assert(t[i] == ("MT_Hallux_L"@, "LeftToeBase"@));
        } else if i == 85 {
            assert(t[i] == ("MT_Hallux_L"@, "toe.L"@));
        } else if i == 86 {
            assert(t[i] == ("MT_Hallux_L"@, "Toes.L"@));
        } else if i == 87 {
            assert(t[i] == ("MT_Hallux_L"@, "mixamorig:LeftToeBase"@));
        } else if i == 88 {
            assert(t[i] == ("MT_Hallux_R"@, "RightToeBase"@));
        } else if i == 89 {
            assert(t[i] == ("MT_Hallux_R"@, "toe.R"@));
        } else if i == 90 {
            assert(t[i] == ("MT_Hallux_R"@, "Toes.R"@));
        } else if i == 91 {
            assert(t[i] == ("MT_Hallux_R"@, "mixamorig:RightToeBase"@));
        } else if i == 92 {
            assert(t[i] == ("MC_Thumb_R"@, "RightHandThumb1"@));
        } else if i == 93 {
            assert(t[i] == ("MC_Thumb_R"@, "thumb.01.R"@));
        } else if i == 94 {
            assert(t[i] == ("MC_Thumb_R"@, "mixamorig:RightHandThumb1"@));
        } else if i == 95 {
            assert(t[i] == ("PP_Thumb_R"@, "RightHandThumb2"@));
        } else if i == 96 {
            assert(t[i] == ("PP_Thumb_R"@, "thumb.02.R"@));
        } else if i == 97 {
            assert(t[i] == ("PP_Thumb_R"@, "mixamorig:RightHandThumb2"@));
        } else if i == 98 {
            assert(t[i] == ("DP_Thumb_R"@, "RightHandThumb3"@));
        } else if i == 99 {
            assert(t[i] == ("DP_Thumb_R"@, "thumb.03.R"@));
        }
    }
}

/// Entries 100 to 119 of the reverse alias table name the same side.
proof fn lemma_reverse_alias_sides_100_120()
    ensures
        forall|i: int| 100 <= i < 120 ==> same_side(#[trigger] reverse_alias_table()[i].0, reverse_alias_table()[i].1),
{
    reveal_strlit(".L");
    reveal_strlit(".R");
    reveal_strlit("DP_Index_R");
    reveal_strlit("DP_Middle_R");
    reveal_strlit("DP_Thumb_R");
    reveal_strlit("Left");
    reveal_strlit("MP_Index_R");
    reveal_strlit("MP_Middle_R");
    reveal_strlit("PP_Index_R");
    reveal_strlit("PP_Middle_R");
    reveal_strlit("PP_Ring_R");
    reveal_strlit("Right");
    reveal_strlit("RightHandIndex1");
    reveal_strlit("RightHandIndex2");
    reveal_strlit("RightHandIndex3");
    reveal_strlit("RightHandMiddle1");
    reveal_strlit("RightHandMiddle2");
    reveal_strlit("RightHandMiddle3");
    reveal_strlit("RightHandRing1");
    reveal_strlit("_L");
    reveal_strlit("_R");
    reveal_strlit("f_index.01.R");
    reveal_strlit("f_index.02.R");
    reveal_strlit("f_index.03.R");
    reveal_strlit("f_middle.01.R");
    reveal_strlit("f_middle.02.R");
    reveal_strlit("f_middle.03.R");
    reveal_strlit("mixamorig:Left");
    reveal_strlit("mixamorig:Right");
    reveal_strlit("mixamorig:RightHandIndex1");
    reveal_strlit("mixamorig:RightHandIndex2");
    reveal_strlit("mixamorig:RightHandIndex3");
    reveal_strlit("mixamorig:RightHandMiddle1");
    reveal_strlit("mixamorig:RightHandMiddle2");
    reveal_strlit("mixamorig:RightHandMiddle3");
    reveal_strlit("mixamorig:RightHandThumb3");
    reveal_with_fuel(head_matches, 16);
    reveal_with_fuel(tail_matches, 3);
    let t = reverse_alias_table();
    assert forall|i: int| 100 <= i < 120 implies same_side(#[trigger] t[i].0, t[i].1) by {
        lemma_same_side_by_chars(t[i].0, t[i].1);
        if i == 100 {
            assert(t[i] == ("DP_Thumb_R"@, "mixamorig:RightHandThumb3"@));
        } else if i == 101 {
            assert(t[i] == ("PP_Index_R"@, "RightHandIndex1"@));
        } else if i == 102 {
            assert(t[i] == ("PP_Index_R"@, "f_index.01.R"@));
        } else if i == 103 {
            assert(t[i] == ("PP_Index_R"@, "mixamorig:RightHandIndex1"@));
        } else if i == 104 {
            assert(t[i] == ("MP_Index_R"@, "RightHandIndex2"@));
        } else if i == 105 {
            assert(t[i] == ("MP_Index_R"@, "f_index.02.R"@));
        } else if i == 106 {
            assert(t[i] == ("MP_Index_R"@, "mixamorig:RightHandIndex2"@));
        } else if i == 107 {
            assert(t[i] == ("DP_Index_R"@, "RightHandIndex3"@));
        } else if i == 108 {
            assert(t[i] == ("DP_Index_R"@, "f_index.03.R"@));
        } else if i == 109 {
            assert(t[i] == ("DP_Index_R"@, "mixamorig:RightHandIndex3"@));
        } else if i == 110 {
            assert(t[i] == ("PP_Middle_R"@, "RightHandMiddle1"@));
        } else if i == 111 {
            assert(t[i] == ("PP_Middle_R"@, "f_middle.01.R"@));
        } else if i == 112 {
            assert(t[i] == ("PP_Middle_R"@, "mixamorig:RightHandMiddle1"@));
        } else if i == 113 {
            assert(t[i] == ("MP_Middle_R"@, "RightHandMiddle2"@));
        } else if i == 114 {
            assert(t[i] == ("MP_Middle_R"@, "f_middle.02.R"@));
        } else if i == 115 {
            assert(t[i] == ("MP_Middle_R"@, "mixamorig:RightHandMiddle2"@));
        } else if i == 116 {
            assert(t[i] == ("DP_Middle_R"@, "RightHandMiddle3"@));
        } else if i == 117 {
            assert(t[i] == ("DP_Middle_R"@, "f_middle.03.R"@));
        } else if i == 118 {
            assert(t[i] == ("DP_Middle_R"@, "mixamorig:RightHandMiddle3"@));
        } else if i == 119 {
            assert(t[i] == ("PP_Ring_R"@, "RightHandRing1"@));
        }
    }
}

/// Entries 120 to 139 of the reverse alias table name the same side.
proof fn lemma_reverse_alias_sides_120_140()
    ensures
        forall|i: int| 120 <= i < 140 ==> same_side(#[trigger] reverse_alias_table()[i].0, reverse_alias_table()[i].1),
{
    reveal_strlit(".L");
    reveal_strlit(".R");
    reveal_strlit("DP_Pinky_R");
    reveal_strlit("DP_Ring_R");
    reveal_strlit("Left");
    reveal_strlit("LeftHandThumb1");
    reveal_strlit("MC_Thumb_L");
    reveal_strlit("MP_Pinky_R");
    reveal_strlit("MP_Ring_R");
    reveal_strlit("PP_Pinky_R");
    reveal_strlit("PP_Ring_R");
    reveal_strlit("Right");
    reveal_strlit("RightHandPinky1");
    reveal_strlit("RightHandPinky2");
    reveal_strlit("RightHandPinky3");
    reveal_strlit("RightHandRing2");
    reveal_strlit("RightHandRing3");
    reveal_strlit("_L");
    reveal_strlit("_R");
    reveal_strlit("f_pinky.01.R");
    reveal_strlit("f_pinky.02.R");
    reveal_strlit("f_pinky.03.R");
    reveal_strlit("f_ring.01.R");
    reveal_strlit("f_ring.02.R");
    reveal_strlit("f_ring.03.R");
    reveal_strlit("mixamorig:Left");
    reveal_strlit("mixamorig:LeftHandThumb1");
    reveal_strlit("mixamorig:Right");
    reveal_strlit("mixamorig:RightHandPinky1");
    reveal_strlit("mixamorig:RightHandPinky2");
    reveal_strlit("mixamorig:RightHandPinky3");
    reveal_strlit("mixamorig:RightHandRing1");
    reveal_strlit("mixamorig:RightHandRing2");
    reveal_strlit("mixamorig:RightHandRing3");
    reveal_strlit("thumb.01.L");
    reveal_with_fuel(head_matches, 16);
    reveal_with_fuel(tail_matches, 3);
    let t = reverse_alias_table();
    assert forall|i: int| 120 <= i < 140 implies same_side(#[trigger] t[i].0, t[i].1) by {
        lemma_same_side_by_chars(t[i].0, t[i].1);
        if i == 120 {
            assert(t[i] == ("PP_Ring_R"@, "f_ring.01.R"@));
        } else if i == 121 {
            assert(t[i] == ("PP_Ring_R"@, "mixamorig:RightHandRing1"@));
        } else if i == 122 {
            assert(t[i] == ("MP_Ring_R"@, "RightHandRing2"@));
        } else if i == 123 {
            assert(t[i] == ("MP_Ring_R"@, "f_ring.02.R"@));
        } else if i == 124 {
            assert(t[i] == ("MP_Ring_R"@, "mixamorig:RightHandRing2"@));
        } else if i == 125 {
            assert(t[i] == ("DP_Ring_R"@, "RightHandRing3"@));
        } else if i == 126 {
            assert(t[i] == ("DP_Ring_R"@, "f_ring.03.R"@));
        } else if i == 127 {
            assert(t[i] == ("DP_Ring_R"@, "mixamorig:RightHandRing3"@));
        } else if i == 128 {
            assert(t[i] == ("PP_Pinky_R"@, "RightHandPinky1"@));
        } else if i == 129 {
            assert(t[i] == ("PP_Pinky_R"@, "f_pinky.01.R"@));
        } else if i == 130 {
            assert(t[i] == ("PP_Pinky_R"@, "mixamorig:RightHandPinky1"@));
        } else if i == 131 {
            assert(t[i] == ("MP_Pinky_R"@, "RightHandPinky2"@));
        } else if i == 132 {
            assert(t[i] == ("MP_Pinky_R"@, "f_pinky.02.R"@));
        } else if i == 133 {
            assert(t[i] == ("MP_Pinky_R"@, "mixamorig:RightHandPinky2"@));
        } else if i == 134 {
            assert(t[i] == ("DP_Pinky_R"@, "RightHandPinky3"@));
        } else if i == 135 {
            assert(t[i] == ("DP_Pinky_R"@, "f_pinky.03.R"@));
        } else if i == 136 {
            assert(t[i] == ("DP_Pinky_R"@, "mixamorig:RightHandPinky3"@));
        } else if i == 137 {
            assert(t[i] == ("MC_Thumb_L"@, "LeftHandThumb1"@));
        } else if i == 138 {
            assert(t[i] == ("MC_Thumb_L"@, "thumb.01.L"@));
        } else if i == 139 {
            assert(t[i] == ("MC_Thumb_L"@, "mixamorig:LeftHandThumb1"@));
        }
    }
}

/// Entries 140 to 159 of the reverse alias table name the same side.
proof fn lemma_reverse_alias_sides_140_160()
    ensures
        forall|i: int| 140 <= i < 160 ==> same_side(#[trigger] reverse_alias_table()[i].0, reverse_alias_table()[i].1),
{
    reveal_strlit(".L");
    reveal_strlit(".R");
    reveal_strlit("DP_Index_L");
    reveal_strlit("DP_Thumb_L");
    reveal_strlit("Left");
    reveal_strlit("LeftHandIndex1");
    reveal_strlit("LeftHandIndex2");
    reveal_strlit("LeftHandIndex3");
    reveal_strlit("LeftHandMiddle1");
    reveal_strlit("LeftHandMiddle2");
    reveal_strlit("LeftHandThumb2");
    reveal_strlit("LeftHandThumb3");
    reveal_strlit("MP_Index_L");
    reveal_strlit("MP_Middle_L");
    reveal_strlit("PP_Index_L");
    reveal_strlit("PP_Middle_L");
    reveal_strlit("PP_Thumb_L");
    reveal_strlit("Right");
    reveal_strlit("_L");
    reveal_strlit("_R");
    reveal_strlit("f_index.01.L");
    reveal_strlit("f_index.02.L");
    reveal_strlit("f_index.03.L");
    reveal_strlit("f_middle.01.L");
    reveal_strlit("f_middle.02.L");
    reveal_strlit("mixamorig:Left");
    reveal_strlit("mixamorig:LeftHandIndex1");
    reveal_strlit("mixamorig:LeftHandIndex2");
    reveal_strlit("mixamorig:LeftHandIndex3");
    reveal_strlit("mixamorig:LeftHandMiddle1");
    reveal_strlit("mixamorig:LeftHandThumb2");
    reveal_strlit("mixamorig:LeftHandThumb3");
    reveal_strlit("mixamorig:Right");
    reveal_strlit("thumb.02.L");
    reveal_strlit("thumb.03.L");
    reveal_with_fuel(head_matches, 16);
    reveal_with_fuel(tail_matches, 3);
    let t = reverse_alias_table();
    assert forall|i: int| 140 <= i < 160 implies same_side(#[trigger] t[i].0, t[i].1) by {
        lemma_same_side_by_chars(t[i].0, t[i].1);
        if i == 140 {
            assert(t[i] == ("PP_Thumb_L"@, "LeftHandThumb2"@));
        } else if i == 141 {
            assert(t[i] == ("PP_Thumb_L"@, "thumb.02.L"@));
        } else if i == 142 {
            assert(t[i] == ("PP_Thumb_L"@, "mixamorig:LeftHandThumb2"@));
        } else if i == 143 {
            assert(t[i] == ("DP_Thumb_L"@, "LeftHandThumb3"@));
        } else if i == 144 {
            assert(t[i] == ("DP_Thumb_L"@, "thumb.03.L"@));
        } else if i == 145 {
            assert(t[i] == ("DP_Thumb_L"@, "mixamorig:LeftHandThumb3"@));
        } else if i == 146 {
            assert(t[i] == ("PP_Index_L"@, "LeftHandIndex1"@));
        } else if i == 147 {
            assert(t[i] == ("PP_Index_L"@, "f_index.01.L"@));
        } else if i == 148 {
            assert(t[i] == ("PP_Index_L"@, "mixamorig:LeftHandIndex1"@));
        } else if i == 149 {
            assert(t[i] == ("MP_Index_L"@, "LeftHandIndex2"@));
        } else if i == 150 {
            assert(t[i] == ("MP_Index_L"@, "f_index.02.L"@));
        } else if i == 151 {
            assert(t[i] == ("MP_Index_L"@, "mixamorig:LeftHandIndex2"@));
        } else if i == 152 {
            assert(t[i] == ("DP_Index_L"@, "LeftHandIndex3"@));
        } else if i == 153 {
            assert(t[i] == ("DP_Index_L"@, "f_index.03.L"@));
        } else if i == 154 {
            assert(t[i] == ("DP_Index_L"@, "mixamorig:LeftHandIndex3"@));
        } else if i == 155 {
            assert(t[i] == ("PP_Middle_L"@, "LeftHandMiddle1"@));
        } else if i == 156 {
            assert(t[i] == ("PP_Middle_L"@, "f_middle.01.L"@));
        } else if i == 157 {
            assert(t[i] == ("PP_Middle_L"@, "mixamorig:LeftHandMiddle1"@));
        } else if i == 158 {
            assert(t[i] == ("MP_Middle_L"@, "LeftHandMiddle2"@));
        } else if i == 159 {
            assert(t[i] == ("MP_Middle_L"@, "f_middle.02.L"@));
        }
    }
}

/// Entries 160 to 179 of the reverse alias table name the same side.
proof fn lemma_reverse_alias_sides_160_180()
    ensures
        forall|i: int| 160 <= i < 180 ==> same_side(#[trigger] reverse_alias_table()[i].0, reverse_alias_table()[i].1),
{
    reveal_strlit(".L");
    reveal_strlit(".R");
    reveal_strlit("DP_Middle_L");
    reveal_strlit("DP_Pinky_L");
    reveal_strlit("DP_Ring_L");
    reveal_strlit("Left");
    reveal_strlit("LeftHandMiddle3");
    reveal_strlit("LeftHandPinky1");
    reveal_strlit("LeftHandPinky2");
    reveal_strlit("LeftHandPinky3");
    reveal_strlit("LeftHandRing1");
    reveal_strlit("LeftHandRing2");
    reveal_strlit("LeftHandRing3");
    reveal_strlit("MP_Middle_L");
    reveal_strlit("MP_Pinky_L");
    reveal_strlit("MP_Ring_L");
    reveal_strlit("PP_Pinky_L");
    reveal_strlit("PP_Ring_L");
    reveal_strlit("Right");
    reveal_strlit("_L");
    reveal_strlit("_R");
    reveal_strlit("f_middle.03.L");
    reveal_strlit("f_pinky.01.L");
    reveal_strlit("f_pinky.02.L");
    reveal_strlit("f_ring.01.L");
    reveal_strlit("f_ring.02.L");
    reveal_strlit("f_ring.03.L");
    reveal_strlit("mixamorig:Left");
    reveal_strlit("mixamorig:LeftHandMiddle2");
    reveal_strlit("mixamorig:LeftHandMiddle3");
    reveal_strlit("mixamorig:LeftHandPinky1");
    reveal_strlit("mixamorig:LeftHandPinky2");
    reveal_strlit("mixamorig:LeftHandRing1");
    reveal_strlit("mixamorig:LeftHandRing2");
    reveal_strlit("mixamorig:LeftHandRing3");
    reveal_strlit("mixamorig:Right");
    reveal_with_fuel(head_matches, 16);
    reveal_with_fuel(tail_matches, 3);
    let t = reverse_alias_table();
    assert forall|i: int| 160 <= i < 180 implies same_side(#[trigger] t[i].0, t[i].1) by {
        lemma_same_side_by_chars(t[i].0, t[i].1);
        if i == 160 {
            assert(t[i] == ("MP_Middle_L"@, "mixamorig:LeftHandMiddle2"@));
        } else if i == 161 {
            assert(t[i] == ("DP_Middle_L"@, "LeftHandMiddle3"@));
        } else if i == 162 {
            assert(t[i] == ("DP_Middle_L"@, "f_middle.03.L"@));
        } else if i == 163 {
            assert(t[i] == ("DP_Middle_L"@, "mixamorig:LeftHandMiddle3"@));
        } else if i == 164 {
            assert(t[i] == ("PP_Ring_L"@, "LeftHandRing1"@));
        } else if i == 165 {
            assert(t[i] == ("PP_Ring_L"@, "f_ring.01.L"@));
        } else if i == 166 {
            assert(t[i] == ("PP_Ring_L"@, "mixamorig:LeftHandRing1"@));
        } else if i == 167 {
            assert(t[i] == ("MP_Ring_L"@, "LeftHandRing2"@));
        } else if i == 168 {
            assert(t[i] == ("MP_Ring_L"@, "f_ring.02.L"@));
        } else if i == 169 {
            assert(t[i] == ("MP_Ring_L"@, "mixamorig:LeftHandRing2"@));
        } else if i == 170 {
            assert(t[i] == ("DP_Ring_L"@, "LeftHandRing3"@));
        } else if i == 171 {
            assert(t[i] == ("DP_Ring_L"@, "f_ring.03.L"@));
        } else if i == 172 {
            assert(t[i] == ("DP_Ring_L"@, "mixamorig:LeftHandRing3"@));
        } else if i == 173 {
            assert(t[i] == ("PP_Pinky_L"@, "LeftHandPinky1"@));
        } else if i == 174 {
            assert(t[i] == ("PP_Pinky_L"@, "f_pinky.01.L"@));
        } else if i == 175 {
            assert(t[i] == ("PP_Pinky_L"@, "mixamorig:LeftHandPinky1"@));
        } else if i == 176 {
            assert(t[i] == ("MP_Pinky_L"@, "LeftHandPinky2"@));
        } else if i == 177 {
            assert(t[i] == ("MP_Pinky_L"@, "f_pinky.02.L"@));
        } else if i == 178 {
            assert(t[i] == ("MP_Pinky_L"@, "mixamorig:LeftHandPinky2"@));
        } else if i == 179 {
            assert(t[i] == ("DP_Pinky_L"@, "LeftHandPinky3"@));
        }
    }
}

/// Entries 180 to 181 of the reverse alias table name the same side.
proof fn lemma_reverse_alias_sides_180_182()
    ensures
        forall|i: int| 180 <= i < 182 ==> same_side(#[trigger] reverse_alias_table()[i].0, reverse_alias_table()[i].1),
{
    reveal_strlit(".L");
    reveal_strlit(".R");
    reveal_strlit("DP_Pinky_L");
    reveal_strlit("Left");
    reveal_strlit("Right");
    reveal_strlit("_L");
    reveal_strlit("_R");
    reveal_strlit("f_pinky.03.L");
    reveal_strlit("mixamorig:Left");
    reveal_strlit("mixamorig:LeftHandPinky3");
    reveal_strlit("mixamorig:Right");
    reveal_with_fuel(head_matches, 16);
    reveal_with_fuel(tail_matches, 3);
    let t = reverse_alias_table();
    assert forall|i: int| 180 <= i < 182 implies same_side(#[trigger] t[i].0, t[i].1) by {
        lemma_same_side_by_chars(t[i].0, t[i].1);
        if i == 180 {
            assert(t[i] == ("DP_Pinky_L"@, "f_pinky.03.L"@));
        } else if i == 181 {
            assert(t[i] == ("DP_Pinky_L"@, "mixamorig:LeftHandPinky3"@));
        }
    }
}

/// Every alias of the reverse alias table names the side of its anatomical
/// bone: a left-side Mixamo / Rigify name (`Left…`, `mixamorig:Left…`, `….L`)
/// is an alias of a `…_L` bone, and a right-side one of a `…_R` bone.
pub proof fn lemma_reverse_aliases_keep_side(i: int)
    requires
        0 <= i < reverse_alias_table().len(),
    ensures
        same_side(reverse_alias_table()[i].0, reverse_alias_table()[i].1),
{
    lemma_reverse_alias_sides_0_20();
    lemma_reverse_alias_sides_20_40();
    lemma_reverse_alias_sides_40_60();
    lemma_reverse_alias_sides_60_80();
    lemma_reverse_alias_sides_80_100();
    lemma_reverse_alias_sides_100_120();
    lemma_reverse_alias_sides_120_140();
    lemma_reverse_alias_sides_140_160();
    lemma_reverse_alias_sides_160_180();
    lemma_reverse_alias_sides_180_182();
}

/// Entries 0 to 19 of the reverse alias table are forward aliases too.
proof fn lemma_reverse_aliases_forward_0_20()
    ensures
        forall|i: int|
            0 <= i < 20 && reverse_alias_table()[i].0 != "Jaw"@ ==> exists|j: int|
                0 <= j < forward_alias_table().len() && #[trigger] forward_alias_table()[j]
                    == #[trigger] reverse_alias_table()[i],
{
    let t = reverse_alias_table();
    let f = forward_alias_table();
    assert forall|i: int| 0 <= i < 20 && t[i].0 != "Jaw"@ implies exists|j: int|
        0 <= j < f.len() && #[trigger] f[j] == #[trigger] t[i] by {
        if i == 0 {
            assert(f[25] == t[i]);
        } else if i == 1 {
            assert(f[26] == t[i]);
        } else if i == 2 {
            assert(f[27] == t[i]);
        } else if i == 3 {
            assert(f[22] == t[i]);
        } else if i == 4 {
            assert(f[23] == t[i]);
        } else if i == 5 {
            assert(f[24] == t[i]);
        } else if i == 6 {
            assert(f[20] == t[i]);
        } else if i == 7 {
            assert(f[21] == t[i]);
        } else if i == 8 {
            assert(f[18] == t[i]);
        } else if i == 9 {
            assert(f[19] == t[i]);
        } else if i == 10 {
            assert(f[14] == t[i]);
        } else if i == 11 {
            assert(f[15] == t[i]);
        } else if i == 12 {
            assert(f[16] == t[i]);
        } else if i == 13 {
            assert(f[17] == t[i]);
        } else if i == 14 {
            assert(f[10] == t[i]);
        } else if i == 15 {
            assert(f[11] == t[i]);
        } else if i == 16 {
            assert(f[12] == t[i]);
        } else if i == 17 {
            assert(f[13] == t[i]);
        } else if i == 18 {
            assert(f[3] == t[i]);
        } else if i == 19 {
            assert(f[4] == t[i]);
        }
    }
}

/// Entries 20 to 39 of the reverse alias table are forward aliases too.
proof fn lemma_reverse_aliases_forward_20_40()
    ensures
        forall|i: int|
            20 <= i < 40 && reverse_alias_table()[i].0 != "Jaw"@ ==> exists|j: int|
                0 <= j < forward_alias_table().len() && #[trigger] forward_alias_table()[j]
                    == #[trigger] reverse_alias_table()[i],
{
    let t = reverse_alias_table();
    let f = forward_alias_table();
    assert forall|i: int| 20 <= i < 40 && t[i].0 != "Jaw"@ implies exists|j: int|
        0 <= j < f.len() && #[trigger] f[j] == #[trigger] t[i] by {
        if i == 20 {
            assert(f[5] == t[i]);
        } else if i == 21 {
            assert(f[6] == t[i]);
        } else if i == 22 {
            assert(f[7] == t[i]);
        } else if i == 23 {
            assert(f[8] == t[i]);
        } else if i == 24 {
            assert(f[9] == t[i]);
        } else if i == 25 {
            assert(f[0] == t[i]);
        } else if i == 26 {
            assert(f[2] == t[i]);
        } else if i == 27 {
            assert(t[i].0 == "Jaw"@);
        } else if i == 28 {
            assert(f[28] == t[i]);
        } else if i == 29 {
            assert(f[29] == t[i]);
        } else if i == 30 {
            assert(f[30] == t[i]);
        } else if i == 31 {
            assert(f[31] == t[i]);
        } else if i == 32 {
            assert(f[32] == t[i]);
        } else if i == 33 {
            assert(f[33] == t[i]);
        } else if i == 34 {
            assert(f[34] == t[i]);
        } else if i == 35 {
            assert(f[35] == t[i]);
        } else if i == 36 {
            assert(f[36] == t[i]);
        } else if i == 37 {
            assert(f[37] == t[i]);
        } else if i == 38 {
            assert(f[38] == t[i]);
        } else if i == 39 {
            assert(f[39] == t[i]);
        }
    }
}

/// Entries 40 to 59 of the reverse alias table are forward aliases too.
proof fn lemma_reverse_aliases_forward_40_60()
    ensures
        forall|i: int|
            40 <= i < 60 && reverse_alias_table()[i].0 != "Jaw"@ ==> exists|j: int|
                0 <= j < forward_alias_table().len() && #[trigger] forward_alias_table()[j]
                    == #[trigger] reverse_alias_table()[i],
{
    let t = reverse_alias_table();
    let f = forward_alias_table();
    assert forall|i: int| 40 <= i < 60 && t[i].0 != "Jaw"@ implies exists|j: int|
        0 <= j < f.len() && #[trigger] f[j] == #[trigger] t[i] by {
        if i == 40 {
            assert(f[40] == t[i]);
        } else if i == 41 {
            assert(f[41] == t[i]);
        } else if i == 42 {
            assert(f[42] == t[i]);
        } else if i == 43 {
            assert(f[43] == t[i]);
        } else if i == 44 {
            assert(f[44] == t[i]);
        } else if i == 45 {
            assert(f[45] == t[i]);
        } else if i == 46 {
            assert(f[46] == t[i]);
        } else if i == 47 {
            assert(f[47] == t[i]);
        } else if i == 48 {
            assert(f[48] == t[i]);
        } else if i == 49 {
            assert(f[49] == t[i]);
        } else if i == 50 {
            assert(f[50] == t[i]);
        } else if i == 51 {
            assert(f[51] == t[i]);
        } else if i == 52 {
            assert(f[52] == t[i]);
        } else if i == 53 {
            assert(f[53] == t[i]);
        } else if i == 54 {
            assert(f[54] == t[i]);
        } else if i == 55 {
            assert(f[55] == t[i]);
        } else if i == 56 {
            assert(f[56] == t[i]);
        } else if i == 57 {
            assert(f[57] == t[i]);
        } else if i == 58 {
            assert(f[58] == t[i]);
        } else if i == 59 {
            assert(f[59] == t[i]);
        }
    }
}

/// Entries 60 to 79 of the reverse alias table are forward aliases too.
proof fn lemma_reverse_aliases_forward_60_80()
    ensures
        forall|i: int|
            60 <= i < 80 && reverse_alias_table()[i].0 != "Jaw"@ ==> exists|j: int|
                0 <= j < forward_alias_table().len() && #[trigger] forward_alias_table()[j]
                    == #[trigger] reverse_alias_table()[i],
{
    let t = reverse_alias_table();
    let f = forward_alias_table();
    assert forall|i: int| 60 <= i < 80 && t[i].0 != "Jaw"@ implies exists|j: int|
        0 <= j < f.len() && #[trigger] f[j] == #[trigger] t[i] by {
        if i == 60 {
            assert(f[60] == t[i]);
        } else if i == 61 {
            assert(f[61] == t[i]);
        } else if i == 62 {
            assert(f[62] == t[i]);
        } else if i == 63 {
            assert(f[63] == t[i]);
        } else if i == 64 {
            assert(f[64] == t[i]);
        } else if i == 65 {
            assert(f[65] == t[i]);
        } else if i == 66 {
            assert(f[66] == t[i]);
        } else if i == 67 {
            assert(f[67] == t[i]);
        } else if i == 68 {
            assert(f[68] == t[i]);
        } else if i == 69 {
            assert(f[69] == t[i]);
        } else if i == 70 {
            assert(f[70] == t[i]);
        } else if i == 71 {
            assert(f[71] == t[i]);
        } else if i == 72 {
            assert(f[72] == t[i]);
        } else if i == 73 {
            assert(f[73] == t[i]);
        } else if i == 74 {
            assert(f[74] == t[i]);
        } else if i == 75 {
            assert(f[75] == t[i]);
        } else if i == 76 {
            assert(f[76] == t[i]);
        } else if i == 77 {
            assert(f[77] == t[i]);
        } else if i == 78 {
            assert(f[78] == t[i]);
        } else if i == 79 {
            assert(f[79] == t[i]);
        }
    }
}

/// Entries 80 to 99 of the reverse alias table are forward aliases too.
proof fn lemma_reverse_aliases_forward_80_100()
    ensures
        forall|i: int|
            80 <= i < 100 && reverse_alias_table()[i].0 != "Jaw"@ ==> exists|j: int|
                0 <= j < forward_alias_table().len() && #[trigger] forward_alias_table()[j]
                    == #[trigger] reverse_alias_table()[i],
{
    let t = reverse_alias_table();
    let f = forward_alias_table();
    assert forall|i: int| 80 <= i < 100 && t[i].0 != "Jaw"@ implies exists|j: int|
        0 <= j < f.len() && #[trigger] f[j] == #[trigger] t[i] by {
        if i == 80 {
            assert(f[80] == t[i]);
        } else if i == 81 {
            assert(f[81] == t[i]);
        } else if i == 82 {
            assert(f[82] == t[i]);
        } else if i == 83 {
            assert(f[83] == t[i]);
        } else if i == 84 {
            assert(f[84] == t[i]);
        } else if i == 85 {
            assert(f[85] == t[i]);
        } else if i == 86 {
            assert(f[86] == t[i]);
        } else if i == 87 {
            assert(f[87] == t[i]);
        } else if i == 88 {
            assert(f[88] == t[i]);
        } else if i == 89 {
            assert(f[89] == t[i]);
        } else if i == 90 {
            assert(f[90] == t[i]);
        } else if i == 91 {
            assert(f[91] == t[i]);
        } else if i == 92 {
            assert(f[92] == t[i]);
        } else if i == 93 {
            assert(f[93] == t[i]);
        } else if i == 94 {
            assert(f[94] == t[i]);
        } else if i == 95 {
            assert(f[95] == t[i]);
        } else if i == 96 {
            assert(f[96] == t[i]);
        } else if i == 97 {
            assert(f[97] == t[i]);
        } else if i == 98 {
            assert(f[98] == t[i]);
        } else if i == 99 {
            assert(f[99] == t[i]);
        }
    }
}

/// Entries 100 to 119 of the reverse alias table are forward aliases too.
proof fn lemma_reverse_aliases_forward_100_120()
    ensures
        forall|i: int|
            100 <= i < 120 && reverse_alias_table()[i].0 != "Jaw"@ ==> exists|j: int|
                0 <= j < forward_alias_table().len() && #[trigger] forward_alias_table()[j]
                    == #[trigger] reverse_alias_table()[i],
{
    let t = reverse_alias_table();
    let f = forward_alias_table();
    assert forall|i: int| 100 <= i < 120 && t[i].0 != "Jaw"@ implies exists|j: int|
        0 <= j < f.len() && #[trigger] f[j] == #[trigger] t[i] by {
        if i == 100 {
            assert(f[100] == t[i]);
        } else if i == 101 {
            assert(f[101] == t[i]);
        } else if i == 102 {
            assert(f[102] == t[i]);
        } else if i == 103 {
            assert(f[103] == t[i]);
        } else if i == 104 {
            assert(f[104] == t[i]);
        } else if i == 105 {
            assert(f[105] == t[i]);
        } else if i == 106 {
            assert(f[106] == t[i]);
        } else if i == 107 {
            assert(f[107] == t[i]);
        } else if i == 108 {
            assert(f[108] == t[i]);
        } else if i == 109 {
            assert(f[109] == t[i]);
        } else if i == 110 {
            assert(f[110] == t[i]);
        } else if i == 111 {
            assert(f[111] == t[i]);
        } else if i == 112 {
            assert(f[112] == t[i]);
        } else if i == 113 {
            assert(f[113] == t[i]);
        } else if i == 114 {
            assert(f[114] == t[i]);
        } else if i == 115 {
            assert(f[115] == t[i]);
        } else if i == 116 {
            assert(f[116] == t[i]);
        } else if i == 117 {
            assert(f[117] == t[i]);
        } else if i == 118 {
            assert(f[118] == t[i]);
        } else if i == 119 {
            assert(f[119] == t[i]);
        }
    }
}

/// Entries 120 to 139 of the reverse alias table are forward aliases too.
proof fn lemma_reverse_aliases_forward_120_140()
    ensures
        forall|i: int|
            120 <= i < 140 && reverse_alias_table()[i].0 != "Jaw"@ ==> exists|j: int|
                0 <= j < forward_alias_table().len() && #[trigger] forward_alias_table()[j]
                    == #[trigger] reverse_alias_table()[i],
{
    let t = reverse_alias_table();
    let f = forward_alias_table();
    assert forall|i: int| 120 <= i < 140 && t[i].0 != "Jaw"@ implies exists|j: int|
        0 <= j < f.len() && #[trigger] f[j] == #[trigger] t[i] by {
        if i == 120 {
            assert(f[120] == t[i]);
        } else if i == 121 {
            assert(f[121] == t[i]);
        } else if i == 122 {
            assert(f[122] == t[i]);
        } else if i == 123 {
            assert(f[123] == t[i]);
        } else if i == 124 {
            assert(f[124] == t[i]);
        } else if i == 125 {
            assert(f[125] == t[i]);
        } else if i == 126 {
            assert(f[126] == t[i]);
        } else if i == 127 {
            assert(f[127] == t[i]);
        } else if i == 128 {
            assert(f[128] == t[i]);
        } else if i == 129 {
            assert(f[129] == t[i]);
        } else if i == 130 {
            assert(f[130] == t[i]);
        } else if i == 131 {
            assert(f[131] == t[i]);
        } else if i == 132 {
            assert(f[132] == t[i]);
        } else if i == 133 {
            assert(f[133] == t[i]);
        } else if i == 134 {
            assert(f[134] == t[i]);
        } else if i == 135 {
            assert(f[135] == t[i]);
        } else if i == 136 {
            assert(f[136] == t[i]);
        } else if i == 137 {
            assert(f[137] == t[i]);
        } else if i == 138 {
            assert(f[138] == t[i]);
        } else if i == 139 {
            assert(f[139] == t[i]);
        }
    }
}

/// Entries 140 to 159 of the reverse alias table are forward aliases too.
proof fn lemma_reverse_aliases_forward_140_160()
    ensures
        forall|i: int|
            140 <= i < 160 && reverse_alias_table()[i].0 != "Jaw"@ ==> exists|j: int|
                0 <= j < forward_alias_table().len() && #[trigger] forward_alias_table()[j]
                    == #[trigger] reverse_alias_table()[i],
{
    let t = reverse_alias_table();
    let f = forward_alias_table();
    assert forall|i: int| 140 <= i < 160 && t[i].0 != "Jaw"@ implies exists|j: int|
        0 <= j < f.len() && #[trigger] f[j] == #[trigger] t[i] by {
        if i == 140 {
            assert(f[140] == t[i]);
        } else if i == 141 {
            assert(f[141] == t[i]);
        } else if i == 142 {
            assert(f[142] == t[i]);
        } else if i == 143 {
            assert(f[143] == t[i]);
        } else if i == 144 {
            assert(f[144] == t[i]);
        } else if i == 145 {
            assert(f[145] == t[i]);
        } else if i == 146 {
            assert(f[146] == t[i]);
        } else if i == 147 {
            assert(f[147] == t[i]);
        } else if i == 148 {
            assert(f[148] == t[i]);
        } else if i == 149 {
            assert(f[149] == t[i]);
        } else if i == 150 {
            assert(f[150] == t[i]);
        } else if i == 151 {
            assert(f[151] == t[i]);
        } else if i == 152 {
            assert(f[152] == t[i]);
        } else if i == 153 {
            assert(f[153] == t[i]);
        } else if i == 154 {
            assert(f[154] == t[i]);
        } else if i == 155 {
            assert(f[155] == t[i]);
        } else if i == 156 {
            assert(f[156] == t[i]);
        } else if i == 157 {
            assert(f[157] == t[i]);
        } else if i == 158 {
            assert(f[158] == t[i]);
        } else if i == 159 {
            assert(f[159] == t[i]);
        }
    }
}

/// Entries 160 to 179 of the reverse alias table are forward aliases too.
proof fn lemma_reverse_aliases_forward_160_180()
    ensures
        forall|i: int|
            160 <= i < 180 && reverse_alias_table()[i].0 != "Jaw"@ ==> exists|j: int|
                0 <= j < forward_alias_table().len() && #[trigger] forward_alias_table()[j]
                    == #[trigger] reverse_alias_table()[i],
{
    let t = reverse_alias_table();
    let f = forward_alias_table();
    assert forall|i: int| 160 <= i < 180 && t[i].0 != "Jaw"@ implies exists|j: int|
        0 <= j < f.len() && #[trigger] f[j] == #[trigger] t[i] by {
        if i == 160 {
            assert(f[160] == t[i]);
        } else if i == 161 {
            assert(f[161] == t[i]);
        } else if i == 162 {
            assert(f[162] == t[i]);
        } else if i == 163 {
            assert(f[163] == t[i]);
        } else if i == 164 {
            assert(f[164] == t[i]);
        } else if i == 165 {
            assert(f[165] == t[i]);
        } else if i == 166 {
            assert(f[166] == t[i]);
        } else if i == 167 {
            assert(f[167] == t[i]);
        } else if i == 168 {
            assert(f[168] == t[i]);
        } else if i == 169 {
            assert(f[169] == t[i]);
        } else if i == 170 {
            assert(f[170] == t[i]);
        } else if i == 171 {
            assert(f[171] == t[i]);
        } else if i == 172 {
            assert(f[172] == t[i]);
        } else if i == 173 {
            assert(f[173] == t[i]);
        } else if i == 174 {
            assert(f[174] == t[i]);
        } else if i == 175 {
            assert(f[175] == t[i]);
        } else if i == 176 {
            assert(f[176] == t[i]);
        } else if i == 177 {
            assert(f[177] == t[i]);
        } else if i == 178 {
            assert(f[178] == t[i]);
        } else if i == 179 {
            assert(f[179] == t[i]);
        }
    }
}

/// Entries 180 to 181 of the reverse alias table are forward aliases too.
proof fn lemma_reverse_aliases_forward_180_182()
    ensures
        forall|i: int|
            180 <= i < 182 && reverse_alias_table()[i].0 != "Jaw"@ ==> exists|j: int|
                0 <= j < forward_alias_table().len() && #[trigger] forward_alias_table()[j]
                    == #[trigger] reverse_alias_table()[i],
{
    let t = reverse_alias_table();
    let f = forward_alias_table();
    assert forall|i: int| 180 <= i < 182 && t[i].0 != "Jaw"@ implies exists|j: int|
        0 <= j < f.len() && #[trigger] f[j] == #[trigger] t[i] by {
        if i == 180 {
            assert(f[180] == t[i]);
        } else if i == 181 {
            assert(f[181] == t[i]);
        }
    }
}

/// Alias resolution agrees in both directions: every alias that the reverse
/// table gives for a bone is one that the forward table lists for that same
/// bone (aside from the jaw, whose alias `jaw` the forward table does not list).
pub proof fn lemma_reverse_aliases_are_forward_aliases(i: int)
    requires
        0 <= i < reverse_alias_table().len(),
        reverse_alias_table()[i].0 != "Jaw"@,
    ensures
        exists|j: int|
            0 <= j < forward_alias_table().len() && #[trigger] forward_alias_table()[j]
                == reverse_alias_table()[i],
{
    lemma_reverse_aliases_forward_0_20();
    lemma_reverse_aliases_forward_20_40();
    lemma_reverse_aliases_forward_40_60();
    lemma_reverse_aliases_forward_60_80();
    lemma_reverse_aliases_forward_80_100();
    lemma_reverse_aliases_forward_100_120();
    lemma_reverse_aliases_forward_120_140();
    lemma_reverse_aliases_forward_140_160();
    lemma_reverse_aliases_forward_160_180();
    lemma_reverse_aliases_forward_180_182();
}

} // verus!
