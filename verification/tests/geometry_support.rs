use vrm_anatomy::bone_class::{end_bone_length, is_kinematic_bone, EndBoneLength};
use vrm_anatomy::json::JsonValue;
use vrm_anatomy::loader::can_build_skeleton;
use vrm_anatomy::skeleton::Skeleton;
use vrm_anatomy::skin_skeleton::{offset_parent_node, skin_climbs_stop_exec, skin_joint_nodes, skin_length_child};
use vrm_anatomy::spring_bone::parse_vrmc_spring_bone;
use vrm_anatomy::topology::{parents_are_acyclic, NodeTopology};
use vrm_anatomy::vrm::{VrmHumanBone, VrmcHumanoid};
use vrm_anatomy::vrm_skeleton::vrm_descendant_bone_nodes;

fn node(name: &str, index: usize, parent: Option<usize>, children: Vec<usize>) -> NodeTopology {
    NodeTopology { name: name.to_string(), index, parent, children }
}

fn tree() -> Vec<NodeTopology> {
    vec![
        node("Armature", 0, None, vec![1]),
        node("Hips", 1, Some(0), vec![2, 5]),
        node("Spine", 2, Some(1), vec![3]),
        node("Neck", 3, Some(2), vec![4]),
        node("Head", 4, Some(3), vec![]),
        node("Tail", 5, Some(1), vec![]),
    ]
}

fn obj(members: Vec<(&str, JsonValue)>) -> JsonValue {
    JsonValue::Object(members.into_iter().map(|(k, v)| (k.to_string(), v)).collect())
}

fn uint(n: u64) -> JsonValue {
    JsonValue::Number(Some(n), (n as f64).to_bits())
}

fn float(x: f64) -> JsonValue {
    JsonValue::Number(None, x.to_bits())
}

#[test]
fn descendant_bone_nodes_lie_below() {
    let mut h = VrmcHumanoid { human_bones: vec![] };
    h.insert("hips".to_string(), VrmHumanBone { node: 1 });
    h.insert("spine".to_string(), VrmHumanBone { node: 2 });
    h.insert("head".to_string(), VrmHumanBone { node: 4 });
    h.insert("ghost".to_string(), VrmHumanBone { node: 9 });
    let ns = tree();
    assert_eq!(vrm_descendant_bone_nodes(&h, &ns, 1), vec![2, 4]);
    assert_eq!(vrm_descendant_bone_nodes(&h, &ns, 2), vec![4]);
    assert_eq!(vrm_descendant_bone_nodes(&h, &ns, 4), Vec::<usize>::new());
    assert_eq!(vrm_descendant_bone_nodes(&h, &ns, 5), Vec::<usize>::new());
}

#[test]
fn end_bone_length_classes() {
    assert_eq!(end_bone_length("head"), EndBoneLength::Head);
    assert_eq!(end_bone_length("Head"), EndBoneLength::Head);
    assert_eq!(end_bone_length("leftIndexDistal"), EndBoneLength::Distal);
    assert_eq!(end_bone_length("leftToes"), EndBoneLength::Toes);
    assert_eq!(end_bone_length("LeftToes"), EndBoneLength::Toes);
    assert_eq!(end_bone_length("hair_01"), EndBoneLength::Other);
}

#[test]
fn skin_joint_nodes_and_offset_parents() {
    let ns = tree();
    let joints: Vec<String> = ["Hips", "Spine", "Missing", "Head"].iter().map(|s| s.to_string()).collect();
    let jn = skin_joint_nodes(&ns, &joints);
    assert_eq!(jn, vec![1, 2, 2, 4]);
    // Bone 1 sits on node 2; its parent bone 0 sits on node 1.
    assert_eq!(offset_parent_node(&ns, &jn, 1, 0), 1);
    // Once bone 2 has been placed on node 2 as well, node 2 carries bone 2, not bone 1.
    assert_eq!(offset_parent_node(&ns, &jn, 3, 1), 0);
    assert_eq!(offset_parent_node(&ns, &jn, 3, 2), 2);
}

#[test]
fn skin_length_child_is_first_counting_child() {
    let ns = tree();
    let joints: Vec<String> = ["Hips", "Tail", "Spine"].iter().map(|s| s.to_string()).collect();
    let jn = skin_joint_nodes(&ns, &joints);
    assert_eq!(skin_length_child(&ns, &joints, &jn, 0), Some(2));
    assert_eq!(skin_length_child(&ns, &joints, &jn, 1), None);
    let only_hips: Vec<String> = vec!["Hips".to_string()];
    let jn1 = skin_joint_nodes(&ns, &only_hips);
    assert_eq!(skin_length_child(&ns, &only_hips, &jn1, 0), None);
}

#[test]
fn spring_bones_parse_and_skip_malformed_entries() {
    let ext = obj(vec![(
        "VRMC_springBone",
        obj(vec![
            (
                "springs",
                JsonValue::Array(vec![
                    obj(vec![
                        ("name", JsonValue::String("hair".to_string())),
                        (
                            "joints",
                            JsonValue::Array(vec![
                                obj(vec![("node", uint(7)), ("stiffness", float(0.8))]),
                                obj(vec![("hitRadius", float(0.1))]),
                            ]),
                        ),
                    ]),
                    obj(vec![("name", JsonValue::String("no joints".to_string()))]),
                ]),
            ),
            (
                "colliders",
                JsonValue::Array(vec![
                    obj(vec![("node", uint(3)), ("shape", obj(vec![("sphere", obj(vec![("radius", float(0.2))]))]))]),
                    obj(vec![("node", uint(4)), ("shape", obj(vec![("capsule", obj(vec![]))]))]),
                    obj(vec![("node", uint(5)), ("shape", obj(vec![("plane", obj(vec![]))]))]),
                ]),
            ),
        ]),
    )]);
    let sb = parse_vrmc_spring_bone(&ext).unwrap();
    assert_eq!(sb.springs.len(), 1);
    assert_eq!(sb.springs[0].name.as_deref(), Some("hair"));
    assert_eq!(sb.springs[0].joints.len(), 1);
    assert_eq!(sb.springs[0].joints[0].node, 7);
    assert_eq!(sb.springs[0].joints[0].stiffness_bits.map(f64::from_bits), Some(0.8));
    assert_eq!(sb.springs[0].joints[0].drag_force_bits, None);
    assert_eq!(sb.colliders.len(), 2);
    assert_eq!(sb.colliders[0].shape_type, "sphere");
    assert_eq!(sb.colliders[0].radius_bits.map(f64::from_bits), Some(0.2));
    assert_eq!(sb.colliders[1].shape_type, "capsule");
    assert_eq!(sb.colliders[1].radius_bits, None);
    assert!(parse_vrmc_spring_bone(&obj(vec![])).is_none());
    let empty = parse_vrmc_spring_bone(&obj(vec![("VRMC_springBone", obj(vec![]))])).unwrap();
    assert!(empty.springs.is_empty() && empty.colliders.is_empty());
}

#[test]
fn only_arm_and_leg_bones_are_dynamic() {
    for name in [
        "leftUpperArm", "rightUpperArm", "leftLowerArm", "rightLowerArm", "leftUpperLeg", "rightUpperLeg",
        "leftLowerLeg", "rightLowerLeg", "LeftArm", "RightArm", "LeftForeArm", "RightForeArm", "LeftUpLeg",
        "RightUpLeg", "LeftLeg", "RightLeg",
    ] {
        assert!(!is_kinematic_bone(name), "{name} should be dynamic");
    }
    for name in ["hair_01", "leftEye", "Spine1", "leftThumbDistal", "J_Sec_L_Bust1"] {
        assert!(is_kinematic_bone(name), "{name} should be kinematic");
    }
}

#[test]
fn skin_builders_accept_cycles_that_no_joint_enters() {
    let ns = vec![
        node("root", 0, None, vec![1]),
        node("child", 1, Some(0), vec![]),
        node("loopA", 2, Some(3), vec![3]),
        node("loopB", 3, Some(2), vec![2]),
    ];
    assert!(!parents_are_acyclic(&ns));
    let joints: Vec<String> = vec!["root".to_string(), "child".to_string()];
    assert!(skin_climbs_stop_exec(&ns, &joints));
    let s = Skeleton::from_gltf_skin_joints(&ns, &joints);
    assert_eq!(s.bones.len(), 2);
    assert_eq!(s.bones[1].parent.map(|p| p.0), Some(0));
    let looping: Vec<String> = vec!["loopA".to_string()];
    assert!(!skin_climbs_stop_exec(&ns, &looping));
    let ext = obj(vec![]);
    assert!(can_build_skeleton(Some(&ext), &ns, Some(&joints)));
    assert!(!can_build_skeleton(Some(&ext), &ns, Some(&looping)));
    assert!(can_build_skeleton(None, &ns, Some(&looping)));
    let vrm = obj(vec![(
        "VRMC_vrm",
        obj(vec![("humanoid", obj(vec![("humanBones", obj(vec![("hips", obj(vec![("node", uint(0))]))]))]))]),
    )]);
    assert!(!can_build_skeleton(Some(&vrm), &ns, Some(&joints)));
}

#[test]
fn gltf_joints_resolve_or_report_none() {
    let s = Skeleton::humanoid();
    assert_eq!(s.resolve_gltf_joint("NonExistentBone"), None);
    let femur = s.find_bone("Femur_L").unwrap().0;
    assert_eq!(s.resolve_gltf_joint("Femur.L"), Some(femur));
    assert_eq!(s.resolve_gltf_joint("Pelvis"), Some(0));
}
