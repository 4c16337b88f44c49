use vrm_anatomy::expression::{ExpressionKind, ExpressionPreset, MorphAddressing, OverrideMode};
use vrm_anatomy::expressions::{parse_vrm0_blend_shapes, parse_vrmc_expressions, Expression, Expressions};
use vrm_anatomy::json::JsonValue;

fn obj(members: Vec<(&str, JsonValue)>) -> JsonValue {
    JsonValue::Object(members.into_iter().map(|(k, v)| (k.to_string(), v)).collect())
}

fn uint(n: u64) -> JsonValue {
    JsonValue::Number(Some(n), (n as f64).to_bits())
}

fn float(x: f64) -> JsonValue {
    JsonValue::Number(None, x.to_bits())
}

fn text(s: &str) -> JsonValue {
    JsonValue::String(s.to_string())
}

fn vrm1(presets: Vec<(&str, JsonValue)>, custom: Vec<(&str, JsonValue)>) -> JsonValue {
    obj(vec![(
        "VRMC_vrm",
        obj(vec![("expressions", obj(vec![("preset", obj(presets)), ("custom", obj(custom))]))]),
    )])
}

fn vrm0(groups: Vec<JsonValue>) -> JsonValue {
    obj(vec![("VRM", obj(vec![("blendShapeMaster", obj(vec![("blendShapeGroups", JsonValue::Array(groups))]))]))])
}

fn empty_expression(kind: ExpressionKind, is_binary: bool) -> Expression {
    Expression {
        kind,
        morph_target_binds: vec![],
        is_binary,
        override_blink: OverrideMode::NoOverride,
        override_look_at: OverrideMode::NoOverride,
        override_mouth: OverrideMode::NoOverride,
    }
}

#[test]
fn parse_vrm1_minimal() {
    let extensions = vrm1(
        vec![(
            "happy",
            obj(vec![
                (
                    "morphTargetBinds",
                    JsonValue::Array(vec![obj(vec![("node", uint(5)), ("index", uint(0)), ("weight", float(1.0))])]),
                ),
                ("overrideBlink", text("block")),
            ]),
        )],
        vec![],
    );
    let exprs = parse_vrmc_expressions(&extensions).expect("expressions parsed");
    let happy = exprs.get_preset(ExpressionPreset::Happy).expect("happy present");
    assert_eq!(happy.morph_target_binds.len(), 1);
    assert_eq!(happy.morph_target_binds[0].target, 5);
    assert_eq!(happy.morph_target_binds[0].weight_bits.map(f64::from_bits), Some(1.0));
    assert_eq!(happy.morph_target_binds[0].full_weight(), 1);
    assert_eq!(happy.morph_target_binds[0].addressing, MorphAddressing::NodeIndex);
    assert_eq!(happy.override_blink, OverrideMode::Block);
}

#[test]
fn parse_vrm0_normalizes_weight() {
    let extensions = vrm0(vec![obj(vec![
        ("name", text("Joy")),
        ("presetName", text("joy")),
        ("binds", JsonValue::Array(vec![obj(vec![("mesh", uint(0)), ("index", uint(0)), ("weight", float(100.0))])])),
    ])]);
    let exprs = parse_vrm0_blend_shapes(&extensions).expect("vrm0 parsed");
    let happy = exprs.get_preset(ExpressionPreset::Happy).expect("joy → happy");
    assert_eq!(happy.morph_target_binds[0].addressing, MorphAddressing::MeshIndex);
    let bind = &happy.morph_target_binds[0];
    assert_eq!(bind.full_weight(), 100);
    assert_eq!(bind.weight_bits.map(f64::from_bits), Some(100.0));
    let normalised = bind.weight_bits.map(f64::from_bits).unwrap() as f32 / bind.full_weight() as f32;
    assert!((normalised - 1.0).abs() < 1e-6);
}

#[test]
fn vrm1_custom_expressions_and_defaults() {
    let extensions = vrm1(
        vec![("Surprised", obj(vec![("isBinary", JsonValue::Bool(true)), ("overrideMouth", text("blend"))]))],
        vec![("wink", obj(vec![("overrideLookAt", text("sideways"))]))],
    );
    let exprs = parse_vrmc_expressions(&extensions).unwrap();
    let surprised = exprs.get_preset(ExpressionPreset::Surprised).unwrap();
    assert!(surprised.is_binary);
    assert_eq!(surprised.override_mouth, OverrideMode::Blend);
    assert_eq!(surprised.override_blink, OverrideMode::NoOverride);
    assert!(matches!(surprised.kind, ExpressionKind::Preset(ExpressionPreset::Surprised)));
    let wink = exprs.get_custom("wink").unwrap();
    assert!(!wink.is_binary);
    assert_eq!(wink.override_look_at, OverrideMode::NoOverride);
    assert!(matches!(&wink.kind, ExpressionKind::Custom(n) if n == "wink"));
    assert!(wink.morph_target_binds.is_empty());
    assert!(exprs.get_custom("blink").is_none());
    assert!(exprs.get_preset(ExpressionPreset::Happy).is_none());
}

#[test]
fn vrm1_unknown_preset_names_are_skipped() {
    let extensions = vrm1(vec![("grin", obj(vec![]))], vec![]);
    assert!(parse_vrmc_expressions(&extensions).is_none());
    let missing = obj(vec![("VRMC_vrm", obj(vec![]))]);
    assert!(parse_vrmc_expressions(&missing).is_none());
}

#[test]
fn vrm1_malformed_binds_are_skipped() {
    let extensions = vrm1(
        vec![(
            "aa",
            obj(vec![(
                "morphTargetBinds",
                JsonValue::Array(vec![
                    obj(vec![("node", float(1.5)), ("index", uint(0))]),
                    obj(vec![("node", uint(2))]),
                    obj(vec![("node", uint(3)), ("index", uint(4))]),
                ]),
            )]),
        )],
        vec![],
    );
    let exprs = parse_vrmc_expressions(&extensions).unwrap();
    let aa = exprs.get_preset(ExpressionPreset::Aa).unwrap();
    assert_eq!(aa.morph_target_binds.len(), 1);
    assert_eq!(aa.morph_target_binds[0].target, 3);
    assert_eq!(aa.morph_target_binds[0].index, 4);
    assert_eq!(aa.morph_target_binds[0].weight_bits, None);
}

#[test]
fn vrm0_groups_become_presets_or_customs() {
    let extensions = vrm0(vec![
        obj(vec![("name", text("Blink")), ("presetName", text("BLINK")), ("isBinary", JsonValue::Bool(true))]),
        obj(vec![("name", text("Smirk")), ("presetName", text("unknown"))]),
        obj(vec![("name", text("Pout"))]),
        obj(vec![("name", text("Blink2")), ("presetName", text("blink"))]),
    ]);
    let exprs = parse_vrm0_blend_shapes(&extensions).unwrap();
    // The later group of the same preset replaces the earlier one.
    let blink = exprs.get_preset(ExpressionPreset::Blink).unwrap();
    assert!(!blink.is_binary);
    assert!(exprs.get_custom("Smirk").is_some());
    assert!(exprs.get_custom("Pout").is_some());
    assert!(exprs.get_custom("Blink").is_none());
    assert_eq!(exprs.get_custom("Pout").unwrap().override_blink, OverrideMode::NoOverride);
}

#[test]
fn vrm0_missing_groups_give_none() {
    assert!(parse_vrm0_blend_shapes(&vrm0(vec![])).is_none());
    let not_array = obj(vec![("VRM", obj(vec![("blendShapeMaster", obj(vec![("blendShapeGroups", uint(1))]))]))]);
    assert!(parse_vrm0_blend_shapes(&not_array).is_none());
    assert!(parse_vrm0_blend_shapes(&obj(vec![])).is_none());
}

#[test]
fn expressions_insert_then_get() {
    assert!(Expressions::default().is_empty());
    let mut exprs = Expressions::new();
    assert!(exprs.is_empty());
    exprs.insert_preset(ExpressionPreset::Blink, empty_expression(ExpressionKind::Preset(ExpressionPreset::Blink), true));
    exprs.insert_preset(ExpressionPreset::Blink, empty_expression(ExpressionKind::Preset(ExpressionPreset::Blink), false));
    exprs.insert_custom("tongue".to_string(), empty_expression(ExpressionKind::Custom("tongue".to_string()), true));
    assert!(!exprs.is_empty());
    assert!(!exprs.get_preset(ExpressionPreset::Blink).unwrap().is_binary);
    assert!(exprs.get_custom("tongue").unwrap().is_binary);
    assert!(exprs.get_preset(ExpressionPreset::Sad).is_none());
}
