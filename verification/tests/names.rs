use vrm_anatomy::bone_class::{
    is_kinematic_bone, vrm_bone_joint_class, vrm_bone_mass_class, vrm_bone_radius_class,
    vrm_bone_stiffness_class, JointClass, MassClass, RadiusClass, StiffnessClass,
};
use vrm_anatomy::names::{
    gltf_joint_to_vrm_name, is_arm_bone, is_upper_leg, mixamo_to_vrm_name,
    vrm0_to_vrm1_bone_name, vrm_to_anatomical_bone_name,
};

#[test]
fn test_is_kinematic_bone() {
    assert!(is_kinematic_bone("hips"));
    assert!(is_kinematic_bone("spine"));
    assert!(is_kinematic_bone("chest"));
    assert!(is_kinematic_bone("upperChest"));
    assert!(is_kinematic_bone("neck"));
    assert!(is_kinematic_bone("head"));
    assert!(is_kinematic_bone("leftShoulder"));
    assert!(is_kinematic_bone("Spine"));
    assert!(is_kinematic_bone("Head"));

    assert!(is_kinematic_bone("leftHand"));
    assert!(is_kinematic_bone("LeftFoot"));
    assert!(is_kinematic_bone("LeftToeBase"));

    assert!(!is_kinematic_bone("leftUpperArm"));
    assert!(!is_kinematic_bone("leftLowerLeg"));

    assert!(is_kinematic_bone("leftIndexProximal"));
    assert!(is_kinematic_bone("RightHandIndex1"));
}

#[test]
fn kinematic_end_bones_and_unknown_bones() {
    assert!(is_kinematic_bone("Hair_End"));
    assert!(is_kinematic_bone("HeadTop_End"));
    assert!(is_kinematic_bone("hair_front"));
    assert!(!is_kinematic_bone("RightForeArm"));
    assert!(!is_kinematic_bone("LeftUpLeg"));
    assert!(!is_kinematic_bone("rightUpperLeg"));
}

#[test]
fn mixamo_names_map_to_vrm() {
    assert_eq!(mixamo_to_vrm_name("Hips"), Some("hips"));
    assert_eq!(mixamo_to_vrm_name("Spine1"), Some("chest"));
    assert_eq!(mixamo_to_vrm_name("Spine2"), Some("upperChest"));
    assert_eq!(mixamo_to_vrm_name("LeftForeArm"), Some("leftLowerArm"));
    assert_eq!(mixamo_to_vrm_name("RightToeBase"), Some("rightToes"));
    assert_eq!(mixamo_to_vrm_name("mixamorig:Hips"), None);
    assert_eq!(mixamo_to_vrm_name("hips"), None);
}

#[test]
fn upper_leg_and_arm_predicates() {
    assert!(is_upper_leg("leftUpperLeg"));
    assert!(is_upper_leg("rightUpperLeg"));
    assert!(!is_upper_leg("LeftUpLeg"));
    assert!(is_arm_bone("rightUpperArm"));
    assert!(!is_arm_bone("rightLowerArm"));
}

#[test]
fn vrm0_thumbs_are_renamed() {
    assert_eq!(vrm0_to_vrm1_bone_name("leftThumbProximal"), "leftThumbMetacarpal");
    assert_eq!(vrm0_to_vrm1_bone_name("leftThumbIntermediate"), "leftThumbProximal");
    assert_eq!(vrm0_to_vrm1_bone_name("rightThumbProximal"), "rightThumbMetacarpal");
    assert_eq!(vrm0_to_vrm1_bone_name("rightThumbIntermediate"), "rightThumbProximal");
    assert_eq!(vrm0_to_vrm1_bone_name("leftThumbDistal"), "leftThumbDistal");
    assert_eq!(vrm0_to_vrm1_bone_name("hips"), "hips");
    assert_eq!(vrm0_to_vrm1_bone_name("tail"), "tail");
}

#[test]
fn gltf_joints_normalise_to_vrm_names() {
    assert_eq!(gltf_joint_to_vrm_name("Hips"), "hips");
    assert_eq!(gltf_joint_to_vrm_name("mixamorig:Hips"), "hips");
    assert_eq!(gltf_joint_to_vrm_name("mixamorig:LeftHandPinky2"), "leftLittleIntermediate");
    assert_eq!(gltf_joint_to_vrm_name("RightHandThumb1"), "rightThumbMetacarpal");
    assert_eq!(gltf_joint_to_vrm_name("Armature"), "Armature");
    assert_eq!(gltf_joint_to_vrm_name("mixamorig:Unknown"), "mixamorig:Unknown");
}

#[test]
fn anatomical_names_move_the_side_to_a_suffix() {
    assert_eq!(vrm_to_anatomical_bone_name("leftUpperArm"), "UpperArm_L");
    assert_eq!(vrm_to_anatomical_bone_name("rightHand"), "Hand_R");
    assert_eq!(vrm_to_anatomical_bone_name("leftIndexProximal"), "IndexProximal_L");
    assert_eq!(vrm_to_anatomical_bone_name("hips"), "Hips");
    assert_eq!(vrm_to_anatomical_bone_name("upperChest"), "UpperChest");
    assert_eq!(vrm_to_anatomical_bone_name("left"), "Left");
    assert_eq!(vrm_to_anatomical_bone_name("J_Sec_Hair"), "J_Sec_Hair");
    assert_eq!(vrm_to_anatomical_bone_name(""), "");
}

#[test]
fn joint_classes_by_name() {
    assert_eq!(vrm_bone_joint_class("leftLowerArm"), JointClass::LowerArm);
    assert_eq!(vrm_bone_joint_class("leftUpperArm"), JointClass::UpperArm);
    assert_eq!(vrm_bone_joint_class("hips"), JointClass::Root);
    assert_eq!(vrm_bone_joint_class("RightLowerLeg"), JointClass::LowerLeg);
    assert_eq!(vrm_bone_joint_class("leftIndexDistal"), JointClass::Finger);
    assert_eq!(vrm_bone_joint_class("RightHandPinky2"), JointClass::Finger);
    assert_eq!(vrm_bone_joint_class("RightHand"), JointClass::Hand);
    assert_eq!(vrm_bone_joint_class("UpperChest"), JointClass::Trunk);
    assert_eq!(vrm_bone_joint_class("Jaw"), JointClass::Jaw);
    assert_eq!(vrm_bone_joint_class("hair"), JointClass::Other);
}

#[test]
fn mass_stiffness_radius_classes_by_name() {
    assert_eq!(vrm_bone_mass_class("Hips"), MassClass::Hips);
    assert_eq!(vrm_bone_mass_class("leftIndexDistal"), MassClass::Distal);
    assert_eq!(vrm_bone_mass_class("leftIndexIntermediate"), MassClass::Intermediate);
    assert_eq!(vrm_bone_mass_class("leftThumbProximal"), MassClass::Proximal);
    assert_eq!(vrm_bone_mass_class("tail"), MassClass::ByLength);
    assert_eq!(vrm_bone_stiffness_class("neck"), StiffnessClass::Neck);
    assert_eq!(vrm_bone_stiffness_class("leftRingDistal"), StiffnessClass::Finger);
    assert_eq!(vrm_bone_stiffness_class("tail"), StiffnessClass::Default);
    assert_eq!(vrm_bone_radius_class("head"), RadiusClass::Head);
    assert_eq!(vrm_bone_radius_class("leftMiddleProximal"), RadiusClass::Finger);
    assert_eq!(vrm_bone_radius_class("leftShoulder"), RadiusClass::ByLength);
}
