use vrm_anatomy::json::JsonValue;
use vrm_anatomy::loader::{bone_name_to_joint, build_skeleton, find_node_index, joint_node_indices, SkeletonOrigin};
use vrm_anatomy::mixamo::{mixamo_rotation_plan, AxisConversion, RotationSource};
use vrm_anatomy::topology::{parents_are_acyclic, parents_are_in_range, NodeTopology};

fn obj(members: Vec<(&str, JsonValue)>) -> JsonValue {
    JsonValue::Object(members.into_iter().map(|(k, v)| (k.to_string(), v)).collect())
}

fn node(name: &str, index: usize, parent: Option<usize>) -> NodeTopology {
    NodeTopology { name: name.to_string(), index, parent, children: vec![] }
}

fn nodes() -> Vec<NodeTopology> {
    vec![node("Armature", 0, None), node("Hips", 1, Some(0)), node("Spine", 2, Some(1)), node("Head", 3, Some(2))]
}

#[test]
fn node_lookup_by_name() {
    let ns = nodes();
    assert_eq!(find_node_index(&ns, "Spine"), Some(2));
    assert_eq!(find_node_index(&ns, "Tail"), None);
    let joints: Vec<String> = ["Head", "Tail", "Hips"].iter().map(|s| s.to_string()).collect();
    assert_eq!(joint_node_indices(&ns, &joints), vec![3, 0, 1]);
    let pairs = bone_name_to_joint(&joints);
    assert_eq!(pairs[1], ("Tail".to_string(), 1));
}

#[test]
fn parent_link_checks() {
    let ns = nodes();
    assert!(parents_are_in_range(&ns));
    assert!(parents_are_acyclic(&ns));
    let cyclic = vec![node("a", 0, Some(1)), node("b", 1, Some(0))];
    assert!(parents_are_in_range(&cyclic));
    assert!(!parents_are_acyclic(&cyclic));
    let dangling = vec![node("a", 0, Some(5))];
    assert!(!parents_are_in_range(&dangling));
    assert!(parents_are_acyclic(&dangling));
}

#[test]
fn build_skeleton_prefers_vrm1_and_records_bones() {
    let ns = nodes();
    let ext = obj(vec![(
        "VRMC_vrm",
        obj(vec![(
            "humanoid",
            obj(vec![(
                "humanBones",
                obj(vec![
                    ("hips", obj(vec![("node", JsonValue::Number(Some(1), 1f64.to_bits()))])),
                    ("head", obj(vec![("node", JsonValue::Number(Some(3), 3f64.to_bits()))])),
                ]),
            )]),
        )]),
    )]);
    let (loaded, recorded) = build_skeleton(Some(&ext), &ns, None);
    let loaded = loaded.unwrap();
    let skel = &loaded.skeleton;
    assert!(matches!(&loaded.origin, SkeletonOrigin::Humanoid(h) if h.human_bones.len() == 2));
    assert_eq!(skel.bone_count(), 2);
    assert_eq!(skel.bones[1].name, "head");
    assert_eq!(skel.bones[1].parent.map(|p| p.0), Some(0));
    assert_eq!(recorded, vec![("hips".to_string(), 1), ("head".to_string(), 3)]);
}

#[test]
fn build_skeleton_falls_back_to_the_skin() {
    let ns = nodes();
    let joints: Vec<String> = ["Hips", "Spine"].iter().map(|s| s.to_string()).collect();
    let ext = obj(vec![]);
    let (loaded, recorded) = build_skeleton(Some(&ext), &ns, Some(&joints));
    let loaded = loaded.unwrap();
    let skel = &loaded.skeleton;
    assert!(matches!(loaded.origin, SkeletonOrigin::GltfSkin));
    assert_eq!(skel.bone_count(), 2);
    assert!(skel.bones[0].use_direct_offset);
    assert!(recorded.is_empty());
    assert!(build_skeleton(None, &ns, Some(&joints)).0.is_none());
    assert!(build_skeleton(Some(&ext), &ns, None).0.is_none());
}

#[test]
fn mixamo_plan_routes_samples_and_defaults() {
    let map: Vec<(String, usize)> = vec![
        ("leftUpperLeg".to_string(), 1),
        ("rightUpperArm".to_string(), 2),
        ("leftUpperArm".to_string(), 0),
        ("Tail".to_string(), 4),
        ("head".to_string(), 9),
        ("leftUpperArm".to_string(), 3),
    ];
    let samples = ["LeftUpLeg", "RightArm", "Tail", "Head", "Unknown"];
    let defaults = ["leftUpperArm", "rightUpperArm"];
    let plan = mixamo_rotation_plan(&samples, &map, 5, &defaults);
    assert_eq!(plan.len(), 5);
    assert_eq!(plan[0], None);
    assert_eq!(plan[1], Some(RotationSource::Sample(0, AxisConversion::NegateX)));
    assert_eq!(plan[2], Some(RotationSource::Sample(1, AxisConversion::SwingFromNegatedX)));
    assert_eq!(plan[3], Some(RotationSource::Default(0)));
    assert_eq!(plan[4], Some(RotationSource::Sample(2, AxisConversion::Keep)));
}
