use vrm_anatomy::expression::{ExpressionPreset, OverrideMode};

#[test]
fn preset_name_round_trip() {
    for preset in [
        ExpressionPreset::Happy,
        ExpressionPreset::Aa,
        ExpressionPreset::BlinkLeft,
        ExpressionPreset::LookUp,
    ] {
        assert_eq!(ExpressionPreset::from_any(preset.as_str()), Some(preset));
    }
}

#[test]
fn vrm0_aliases_resolve() {
    assert_eq!(ExpressionPreset::from_any("joy"), Some(ExpressionPreset::Happy));
    assert_eq!(ExpressionPreset::from_any("sorrow"), Some(ExpressionPreset::Sad));
    assert_eq!(ExpressionPreset::from_any("fun"), Some(ExpressionPreset::Relaxed));
    assert_eq!(ExpressionPreset::from_any("a"), Some(ExpressionPreset::Aa));
    assert_eq!(ExpressionPreset::from_any("blink_l"), Some(ExpressionPreset::BlinkLeft));
}

#[test]
fn every_preset_round_trips() {
    let all = [
        ExpressionPreset::Happy,
        ExpressionPreset::Angry,
        ExpressionPreset::Sad,
        ExpressionPreset::Relaxed,
        ExpressionPreset::Surprised,
        ExpressionPreset::Neutral,
        ExpressionPreset::Aa,
        ExpressionPreset::Ih,
        ExpressionPreset::Ou,
        ExpressionPreset::Ee,
        ExpressionPreset::Oh,
        ExpressionPreset::Blink,
        ExpressionPreset::BlinkLeft,
        ExpressionPreset::BlinkRight,
        ExpressionPreset::LookUp,
        ExpressionPreset::LookDown,
        ExpressionPreset::LookLeft,
        ExpressionPreset::LookRight,
    ];
    for p in all {
        assert_eq!(ExpressionPreset::from_any(p.as_str()), Some(p));
    }
}

#[test]
fn preset_names_are_vrm1_names() {
    assert_eq!(ExpressionPreset::BlinkRight.as_str(), "blinkRight");
    assert_eq!(ExpressionPreset::LookDown.as_str(), "lookDown");
    assert_eq!(ExpressionPreset::Surprised.as_str(), "surprised");
}

#[test]
fn from_any_ignores_ascii_case() {
    assert_eq!(ExpressionPreset::from_any("HAPPY"), Some(ExpressionPreset::Happy));
    assert_eq!(ExpressionPreset::from_any("BlinkLeft"), Some(ExpressionPreset::BlinkLeft));
    assert_eq!(ExpressionPreset::from_any("Blink_R"), Some(ExpressionPreset::BlinkRight));
    assert_eq!(ExpressionPreset::from_any("LOOKright"), Some(ExpressionPreset::LookRight));
}

#[test]
fn from_any_rejects_unknown_names() {
    assert_eq!(ExpressionPreset::from_any("unknown"), None);
    assert_eq!(ExpressionPreset::from_any(""), None);
    assert_eq!(ExpressionPreset::from_any("happy "), None);
    assert_eq!(ExpressionPreset::from_any("blinkleftt"), None);
}

#[test]
fn override_mode_values() {
    assert_eq!(OverrideMode::from_str("block"), OverrideMode::Block);
    assert_eq!(OverrideMode::from_str("blend"), OverrideMode::Blend);
    assert_eq!(OverrideMode::from_str("none"), OverrideMode::NoOverride);
    assert_eq!(OverrideMode::from_str("Block"), OverrideMode::NoOverride);
    assert_eq!(OverrideMode::from_str(""), OverrideMode::NoOverride);
}

#[test]
fn names_equal_up_to_case_resolve_alike() {
    for (a, b) in [("Sorrow", "sORROW"), ("blink_l", "BLINK_L"), ("LookDown", "lookdown"), ("grin", "GRIN")] {
        assert_eq!(ExpressionPreset::from_any(a), ExpressionPreset::from_any(b));
    }
}
