use vrm_anatomy::json::JsonValue;
use vrm_anatomy::skeleton::Skeleton;
use vrm_anatomy::topology::NodeTopology;
use vrm_anatomy::vrm::{parse_vrm0, parse_vrmc_vrm, Vrm0HumanBone, Vrm0Humanoid, VrmHumanBone, VrmcHumanoid};
use vrm_anatomy::vrm_skeleton::{classify_body_types, BoneBodyType};

fn obj(members: Vec<(&str, JsonValue)>) -> JsonValue {
    JsonValue::Object(members.into_iter().map(|(k, v)| (k.to_string(), v)).collect())
}

fn num(n: u64) -> JsonValue {
    JsonValue::Number(Some(n), (n as f64).to_bits())
}

fn s(text: &str) -> JsonValue {
    JsonValue::String(text.to_string())
}

fn node(name: &str, index: usize, parent: Option<usize>, children: Vec<usize>) -> NodeTopology {
    NodeTopology { name: name.to_string(), index, parent, children }
}

fn sample_nodes() -> Vec<NodeTopology> {
    vec![
        node("Root", 0, None, vec![1]),
        node("Hips", 1, Some(0), vec![2, 5, 7]),
        node("Spine", 2, Some(1), vec![3]),
        node("Chest", 3, Some(2), vec![4]),
        node("Head", 4, Some(3), vec![]),
        node("LeftUpperLeg", 5, Some(1), vec![6]),
        node("LeftLowerLeg", 6, Some(5), vec![]),
        node("RightUpperLeg", 7, Some(1), vec![8]),
        node("RightLowerLeg", 8, Some(7), vec![]),
    ]
}

fn sample_humanoid() -> VrmcHumanoid {
    let mut h = VrmcHumanoid { human_bones: Vec::new() };
    h.insert("hips".into(), VrmHumanBone { node: 1 });
    h.insert("spine".into(), VrmHumanBone { node: 2 });
    h.insert("chest".into(), VrmHumanBone { node: 3 });
    h.insert("head".into(), VrmHumanBone { node: 4 });
    h.insert("leftUpperLeg".into(), VrmHumanBone { node: 5 });
    h.insert("leftLowerLeg".into(), VrmHumanBone { node: 6 });
    h.insert("rightUpperLeg".into(), VrmHumanBone { node: 7 });
    h.insert("rightLowerLeg".into(), VrmHumanBone { node: 8 });
    h
}

#[test]
fn test_parse_vrmc_vrm() {
    let json = obj(vec![(
        "VRMC_vrm",
        obj(vec![(
            "humanoid",
            obj(vec![(
                "humanBones",
                obj(vec![
                    ("hips", obj(vec![("node", num(1))])),
                    ("spine", obj(vec![("node", num(2))])),
                    ("head", obj(vec![("node", num(4))])),
                ]),
            )]),
        )]),
    )]);
    let result = parse_vrmc_vrm(&json).unwrap();
    assert_eq!(result.human_bones.len(), 3);
    assert_eq!(result.get("hips").unwrap().node, 1);
}

#[test]
fn test_parse_vrm0() {
    let json = obj(vec![(
        "VRM",
        obj(vec![(
            "humanoid",
            obj(vec![(
                "humanBones",
                JsonValue::Array(vec![
                    obj(vec![("bone", s("hips")), ("node", num(1))]),
                    obj(vec![("bone", s("spine")), ("node", num(2))]),
                    obj(vec![("bone", s("head")), ("node", num(4))]),
                ]),
            )]),
        )]),
    )]);
    let result = parse_vrm0(&json).unwrap();
    assert_eq!(result.human_bones.len(), 3);
    assert_eq!(result.human_bones[0].bone, "hips");
}

#[test]
fn parse_vrmc_vrm_skips_bones_without_node() {
    let json = obj(vec![(
        "VRMC_vrm",
        obj(vec![(
            "humanoid",
            obj(vec![(
                "humanBones",
                obj(vec![
                    ("hips", obj(vec![("node", num(1))])),
                    ("spine", obj(vec![("node", s("2"))])),
                    ("chest", obj(vec![])),
                ]),
            )]),
        )]),
    )]);
    let result = parse_vrmc_vrm(&json).unwrap();
    assert_eq!(result.human_bones.len(), 1);
    assert!(result.get("spine").is_none());
}

#[test]
fn parse_vrmc_vrm_rejects_missing_or_empty() {
    assert!(parse_vrmc_vrm(&obj(vec![])).is_none());
    assert!(parse_vrmc_vrm(&JsonValue::Null).is_none());
    let empty = obj(vec![("VRMC_vrm", obj(vec![("humanoid", obj(vec![("humanBones", obj(vec![]))]))]))]);
    assert!(parse_vrmc_vrm(&empty).is_none());
    let not_object = obj(vec![(
        "VRMC_vrm",
        obj(vec![("humanoid", obj(vec![("humanBones", JsonValue::Array(vec![]))]))]),
    )]);
    assert!(parse_vrmc_vrm(&not_object).is_none());
}

#[test]
fn parse_vrm0_rejects_a_malformed_bone() {
    let json = obj(vec![(
        "VRM",
        obj(vec![(
            "humanoid",
            obj(vec![(
                "humanBones",
                JsonValue::Array(vec![
                    obj(vec![("bone", s("hips")), ("node", num(1))]),
                    obj(vec![("bone", s("spine"))]),
                ]),
            )]),
        )]),
    )]);
    assert!(parse_vrm0(&json).is_none());
    let empty = obj(vec![("VRM", obj(vec![("humanoid", obj(vec![("humanBones", JsonValue::Array(vec![]))]))]))]);
    assert!(parse_vrm0(&empty).is_none());
}

#[test]
fn test_skeleton_from_vrm() {
    let humanoid = sample_humanoid();
    let nodes = sample_nodes();
    let skeleton = Skeleton::from_vrm(&humanoid, &nodes);

    assert!(skeleton.bone_count() >= 5, "Expected at least 5 bones, got {}", skeleton.bone_count());

    let hips = skeleton.find_bone("hips");
    assert!(hips.is_some(), "hips not found");
    assert!(skeleton.bones[hips.unwrap().0].parent.is_none(), "hips should be root");

    if let Some(spine_id) = skeleton.find_bone("spine") {
        let parent = skeleton.bones[spine_id.0].parent;
        assert!(parent.is_some(), "spine should have parent");
        assert_eq!(skeleton.bones[parent.unwrap().0].name, "hips");
    }
}

#[test]
fn from_vrm_orders_and_parents_bones() {
    let skeleton = Skeleton::from_vrm(&sample_humanoid(), &sample_nodes());
    let names: Vec<&str> = skeleton.bones.iter().map(|b| b.name.as_str()).collect();
    assert_eq!(
        names,
        vec!["hips", "spine", "chest", "head", "leftUpperLeg", "leftLowerLeg", "rightUpperLeg", "rightLowerLeg"]
    );
    let parents: Vec<Option<usize>> = skeleton.bones.iter().map(|b| b.parent.map(|p| p.0)).collect();
    assert_eq!(parents, vec![None, Some(0), Some(1), Some(2), Some(0), Some(4), Some(0), Some(6)]);
    assert!(skeleton.bones.iter().all(|b| !b.use_direct_offset));
}

#[test]
fn from_vrm_skips_missing_nodes() {
    let mut h = sample_humanoid();
    h.insert("neck".into(), VrmHumanBone { node: 99 });
    let skeleton = Skeleton::from_vrm(&h, &sample_nodes());
    assert!(skeleton.find_bone("neck").is_none());
    assert_eq!(skeleton.bone_count(), 8);
}

#[test]
fn from_vrm0_renames_thumbs() {
    let mut nodes = sample_nodes();
    nodes.push(node("Thumb", 9, Some(4), vec![]));
    let h0 = Vrm0Humanoid {
        human_bones: vec![
            Vrm0HumanBone { bone: "hips".into(), node: 1 },
            Vrm0HumanBone { bone: "leftThumbProximal".into(), node: 9 },
        ],
    };
    let skeleton = Skeleton::from_vrm0(&h0, &nodes);
    assert_eq!(skeleton.bone_count(), 2);
    assert_eq!(skeleton.bones[1].name, "leftThumbMetacarpal");
    assert_eq!(skeleton.bones[1].parent.map(|p| p.0), Some(0));
}

#[test]
fn test_classify_body_types() {
    let skeleton = Skeleton::from_vrm(&sample_humanoid(), &sample_nodes());
    let body_types = classify_body_types(&skeleton);

    assert_eq!(body_types.len(), skeleton.bone_count());

    let hips_idx = skeleton.find_bone("hips").unwrap().0;
    assert_eq!(body_types[hips_idx], BoneBodyType::Fixed);

    if let Some(spine_id) = skeleton.find_bone("spine") {
        assert_eq!(body_types[spine_id.0], BoneBodyType::Kinematic);
    }

    if let Some(leg_id) = skeleton.find_bone("leftUpperLeg") {
        assert_eq!(body_types[leg_id.0], BoneBodyType::Dynamic);
    }
}

#[test]
fn skin_order_follows_joints() {
    let nodes = sample_nodes();
    let joints: Vec<String> = ["Hips", "Spine", "Hair", "LeftUpperLeg", "Head"].iter().map(|s| s.to_string()).collect();
    let skeleton = Skeleton::from_vrm_skin_order(&sample_humanoid(), &nodes, &joints);
    let names: Vec<&str> = skeleton.bones.iter().map(|b| b.name.as_str()).collect();
    // "Hair" names no node: it sits on node 2 (its joint index), the spine.
    assert_eq!(names, vec!["hips", "spine", "spine", "leftUpperLeg", "head"]);
    let parents: Vec<Option<usize>> = skeleton.bones.iter().map(|b| b.parent.map(|p| p.0)).collect();
    assert_eq!(parents, vec![None, Some(0), Some(0), Some(0), Some(2)]);
}

#[test]
fn gltf_skin_joints_keep_joint_names() {
    let nodes = sample_nodes();
    let joints: Vec<String> = ["Hips", "LeftUpperLeg", "LeftLowerLeg"].iter().map(|s| s.to_string()).collect();
    let skeleton = Skeleton::from_gltf_skin_joints(&nodes, &joints);
    let names: Vec<&str> = skeleton.bones.iter().map(|b| b.name.as_str()).collect();
    assert_eq!(names, vec!["Hips", "LeftUpperLeg", "LeftLowerLeg"]);
    let parents: Vec<Option<usize>> = skeleton.bones.iter().map(|b| b.parent.map(|p| p.0)).collect();
    assert_eq!(parents, vec![None, Some(0), Some(1)]);
    assert!(skeleton.bones.iter().all(|b| b.use_direct_offset));
}

#[test]
fn humanoid_insert_replaces_and_keeps_other_bones() {
    let mut h = VrmcHumanoid { human_bones: vec![] };
    h.insert("hips".into(), VrmHumanBone { node: 1 });
    h.insert("spine".into(), VrmHumanBone { node: 2 });
    h.insert("hips".into(), VrmHumanBone { node: 9 });
    assert_eq!(h.human_bones.len(), 2);
    assert_eq!(h.get("hips").map(|b| b.node), Some(9));
    assert_eq!(h.get("spine").map(|b| b.node), Some(2));
    assert_eq!(h.human_bones[0].0, "hips");
    assert!(h.get("head").is_none());
}
