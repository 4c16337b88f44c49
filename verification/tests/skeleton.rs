use vrm_anatomy::bone_direction::BoneDirection;
use vrm_anatomy::skeleton::{BoneDef, BoneId, Skeleton};

#[test]
fn test_humanoid_bone_count() {
    let skel = Skeleton::humanoid();
    assert!(skel.bone_count() >= 140, "Expected ~144 bones, got {}", skel.bone_count());
    println!("Total bones: {}", skel.bone_count());
}

#[test]
fn humanoid_has_exactly_144_bones() {
    assert_eq!(Skeleton::humanoid().bone_count(), 144);
}

#[test]
fn test_find_bone() {
    let skel = Skeleton::humanoid();
    assert!(skel.find_bone("Pelvis").is_some());
    assert!(skel.find_bone("Head").is_some());
    assert!(skel.find_bone("Femur_L").is_some());
    assert!(skel.find_bone("MC_Index_L").is_some());
    assert!(skel.find_bone("MT_Hallux_R").is_some());
}

#[test]
fn test_parent_indices_valid() {
    let skel = Skeleton::humanoid();
    for (i, bone) in skel.bones.iter().enumerate() {
        if let Some(parent_id) = bone.parent {
            assert!(
                parent_id.0 < i,
                "Bone {} ({}) has parent {} which is >= self",
                i,
                bone.name,
                parent_id.0
            );
        }
    }
}

#[test]
fn test_map_gltf_joint_names_exact_match() {
    let skel = Skeleton::humanoid();
    let gltf_names = vec!["Pelvis".to_string(), "Head".to_string(), "Femur_L".to_string()];
    let map = skel.map_gltf_joint_names(&gltf_names);
    assert_eq!(map.len(), 3);
    assert_eq!(map[0], skel.find_bone("Pelvis").unwrap().0 as u32);
    assert_eq!(map[1], skel.find_bone("Head").unwrap().0 as u32);
    assert_eq!(map[2], skel.find_bone("Femur_L").unwrap().0 as u32);
}

#[test]
fn test_map_gltf_joint_names_alias() {
    let skel = Skeleton::humanoid();
    let gltf_names = vec![
        "Hips".to_string(),
        "Spine".to_string(),
        "UpperArm.L".to_string(),
        "forearm.R".to_string(),
    ];
    let map = skel.map_gltf_joint_names(&gltf_names);
    assert_eq!(map[0], skel.find_bone("Pelvis").unwrap().0 as u32);
    assert_eq!(map[1], skel.find_bone("L5").unwrap().0 as u32);
    assert_eq!(map[2], skel.find_bone("UpperArm_L").unwrap().0 as u32);
    assert_eq!(map[3], skel.find_bone("Radius_R").unwrap().0 as u32);
}

#[test]
fn test_map_gltf_joint_names_dot_to_underscore() {
    let skel = Skeleton::humanoid();
    let gltf_names = vec!["Femur.L".to_string()];
    let map = skel.map_gltf_joint_names(&gltf_names);
    assert_eq!(map[0], skel.find_bone("Femur_L").unwrap().0 as u32);
}

#[test]
fn test_map_gltf_joint_names_fallback() {
    let skel = Skeleton::humanoid();
    let gltf_names = vec!["NonExistentBone".to_string()];
    let map = skel.map_gltf_joint_names(&gltf_names);
    assert_eq!(map[0], 0, "未知のボーンはPelvis(0)にフォールバック");
}

#[test]
fn find_bone_resolves_mixamo_and_rigify_names() {
    let skel = Skeleton::humanoid();
    let idx = |n: &str| skel.find_bone(n).map(|b| b.0);
    assert_eq!(idx("Pelvis"), Some(0));
    assert_eq!(idx("Hips"), Some(0));
    assert_eq!(idx("mixamorig:Hips"), Some(0));
    assert_eq!(idx("mixamorig:LeftArm"), idx("UpperArm_L"));
    assert_eq!(idx("RightForeArm"), idx("Radius_R"));
    assert_eq!(idx("shin.L"), idx("Tibia_L"));
    assert_eq!(idx("thumb.02.R"), idx("PP_Thumb_R"));
    assert_eq!(idx("Neck"), idx("C4"));
    assert_eq!(idx("jaw"), idx("Jaw"));
    assert_eq!(idx("mixamorig:Pelvis"), Some(0));
    assert_eq!(idx("NoSuchBone"), None);
}

#[test]
fn find_bone_prefers_exact_then_prefixed_names() {
    let bone = |name: &str, parent: Option<usize>| BoneDef {
        name: name.to_string(),
        parent: parent.map(BoneId),
        use_direct_offset: true,
    };
    let skel = Skeleton {
        bones: vec![bone("mixamorig:Hips", None), bone("Hips", Some(0)), bone("mixamorig:Spine", Some(0))],
    };
    assert_eq!(skel.find_bone("Hips").map(|b| b.0), Some(1));
    assert_eq!(skel.find_bone("mixamorig:Hips").map(|b| b.0), Some(0));
    assert_eq!(skel.find_bone("Spine").map(|b| b.0), Some(2));
    assert_eq!(skel.find_bone("Pelvis").map(|b| b.0), Some(1));
}

#[test]
fn map_gltf_joint_names_uses_legacy_aliases() {
    let skel = Skeleton::humanoid();
    let names: Vec<String> = ["Chest", "hand.L", "heel.02.R", "mixamorig:Femur_R"].iter().map(|s| s.to_string()).collect();
    let map = skel.map_gltf_joint_names(&names);
    assert_eq!(map[0], skel.find_bone("T1").unwrap().0 as u32);
    assert_eq!(map[1], skel.find_bone("Radius_L").unwrap().0 as u32);
    assert_eq!(map[2], skel.find_bone("Tibia_R").unwrap().0 as u32);
    assert_eq!(map[3], skel.find_bone("Femur_R").unwrap().0 as u32);
}

#[test]
fn find_bones_containing_lists_in_order() {
    let skel = Skeleton::humanoid();
    let ribs: Vec<usize> = skel.find_bones_containing("Rib1").iter().map(|b| b.0).collect();
    assert_eq!(ribs, vec![28, 37, 38, 39, 40, 49, 50, 51]);
    assert!(skel.find_bones_containing("Nothing").is_empty());
    assert_eq!(skel.find_bones_containing("").len(), 144);
}

#[test]
fn humanoid_bone_directions() {
    let skel = Skeleton::humanoid();
    let dir = |n: &str| skel.bone_direction(skel.find_bone(n).unwrap().0);
    assert_eq!(dir("Rib3_L"), BoneDirection::RibLeft);
    assert_eq!(dir("Clavicle_R"), BoneDirection::ClavicleRight);
    assert_eq!(dir("Scapula_L"), BoneDirection::BackTilted);
    assert_eq!(dir("UpperArm_R"), BoneDirection::UpperArmRight);
    assert_eq!(dir("Radius_L"), BoneDirection::UpperArmLeft);
    assert_eq!(dir("DP_Index_R"), BoneDirection::UpperArmRight);
    assert_eq!(dir("PP_Hallux_L"), BoneDirection::Forward);
    assert_eq!(dir("MT_Third_R"), BoneDirection::Forward);
    assert_eq!(dir("Femur_L"), BoneDirection::Down);
    assert_eq!(dir("Jaw"), BoneDirection::BackTilted);
    assert_eq!(dir("Sacrum"), BoneDirection::Down);
    assert_eq!(dir("T5"), BoneDirection::Up);
    assert!(skel.is_foot_bone(skel.find_bone("MT_Fifth_L").unwrap().0));
    assert!(!skel.is_foot_bone(skel.find_bone("PP_Index_L").unwrap().0));
}
