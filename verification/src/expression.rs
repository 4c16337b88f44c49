//! Expression (blend shape) vocabulary of VRM models: the standard presets,
//! their names in VRM 1.0 and VRM 0.x, and the override modes.

use vstd::prelude::*;
use crate::table::{assoc, assoc_lower_exec, lemma_assoc_at, table_view};
use crate::text::{ascii_lower_char, ascii_lowercase, str_eq};
use vstd::utf8::char_u32_cast;

verus! {

/// The standard VRM 1.0 expression presets (VRM 0.x names are normalised to them).
/// `Aa`, `Ih`, `Ou`, `Ee` and `Oh` are the vowel visemes.
#[derive(Debug, Clone, Copy, PartialEq, Eq, Structural, Hash)]
pub enum ExpressionPreset {
    Happy,
    Angry,
    Sad,
    Relaxed,
    Surprised,
    Neutral,
    Aa,
    Ih,
    Ou,
    Ee,
    Oh,
    Blink,
    BlinkLeft,
    BlinkRight,
    LookUp,
    LookDown,
    LookLeft,
    LookRight,
}

impl View for ExpressionPreset {
    type V = ExpressionPreset;

    open spec fn view(&self) -> ExpressionPreset {
        *self
    }
}

/// The VRM 1.0 name of a preset.
pub open spec fn preset_name(p: ExpressionPreset) -> Seq<char> {
    match p {
        ExpressionPreset::Happy => "happy"@,
        ExpressionPreset::Angry => "angry"@,
        ExpressionPreset::Sad => "sad"@,
        ExpressionPreset::Relaxed => "relaxed"@,
        ExpressionPreset::Surprised => "surprised"@,
        ExpressionPreset::Neutral => "neutral"@,
        ExpressionPreset::Aa => "aa"@,
        ExpressionPreset::Ih => "ih"@,
        ExpressionPreset::Ou => "ou"@,
        ExpressionPreset::Ee => "ee"@,
        ExpressionPreset::Oh => "oh"@,
        ExpressionPreset::Blink => "blink"@,
        ExpressionPreset::BlinkLeft => "blinkLeft"@,
        ExpressionPreset::BlinkRight => "blinkRight"@,
        ExpressionPreset::LookUp => "lookUp"@,
        ExpressionPreset::LookDown => "lookDown"@,
        ExpressionPreset::LookLeft => "lookLeft"@,
        ExpressionPreset::LookRight => "lookRight"@,
    }
}

/// Lower-cased VRM 1.0 and VRM 0.x preset names and the preset each denotes.
pub open spec fn preset_alias_table() -> Seq<(Seq<char>, ExpressionPreset)> {
    seq![
        ("happy"@, ExpressionPreset::Happy),
        ("joy"@, ExpressionPreset::Happy),
        ("angry"@, ExpressionPreset::Angry),
        ("sad"@, ExpressionPreset::Sad),
        ("sorrow"@, ExpressionPreset::Sad),
        ("relaxed"@, ExpressionPreset::Relaxed),
        ("fun"@, ExpressionPreset::Relaxed),
        ("surprised"@, ExpressionPreset::Surprised),
        ("neutral"@, ExpressionPreset::Neutral),
        ("aa"@, ExpressionPreset::Aa),
        ("a"@, ExpressionPreset::Aa),
        ("ih"@, ExpressionPreset::Ih),
        ("i"@, ExpressionPreset::Ih),
        ("ou"@, ExpressionPreset::Ou),
        ("u"@, ExpressionPreset::Ou),
        ("ee"@, ExpressionPreset::Ee),
        ("e"@, ExpressionPreset::Ee),
        ("oh"@, ExpressionPreset::Oh),
        ("o"@, ExpressionPreset::Oh),
        ("blink"@, ExpressionPreset::Blink),
        ("blinkleft"@, ExpressionPreset::BlinkLeft),
        ("blink_l"@, ExpressionPreset::BlinkLeft),
        ("blinkright"@, ExpressionPreset::BlinkRight),
        ("blink_r"@, ExpressionPreset::BlinkRight),
        ("lookup"@, ExpressionPreset::LookUp),
        ("lookdown"@, ExpressionPreset::LookDown),
        ("lookleft"@, ExpressionPreset::LookLeft),
        ("lookright"@, ExpressionPreset::LookRight),
    ]
}
/// The preset name table as an array.
fn preset_alias_pairs() -> (r: [(&'static str, ExpressionPreset); 28])
    ensures
        table_view(r@) == preset_alias_table(),
{
    let r = [
        ("happy", ExpressionPreset::Happy),
        ("joy", ExpressionPreset::Happy),
        ("angry", ExpressionPreset::Angry),
        ("sad", ExpressionPreset::Sad),
        ("sorrow", ExpressionPreset::Sad),
        ("relaxed", ExpressionPreset::Relaxed),
        ("fun", ExpressionPreset::Relaxed),
        ("surprised", ExpressionPreset::Surprised),
        ("neutral", ExpressionPreset::Neutral),
        ("aa", ExpressionPreset::Aa),
        ("a", ExpressionPreset::Aa),
        ("ih", ExpressionPreset::Ih),
        ("i", ExpressionPreset::Ih),
        ("ou", ExpressionPreset::Ou),
        ("u", ExpressionPreset::Ou),
        ("ee", ExpressionPreset::Ee),
        ("e", ExpressionPreset::Ee),
        ("oh", ExpressionPreset::Oh),
        ("o", ExpressionPreset::Oh),
        ("blink", ExpressionPreset::Blink),
        ("blinkleft", ExpressionPreset::BlinkLeft),
        ("blink_l", ExpressionPreset::BlinkLeft),
        ("blinkright", ExpressionPreset::BlinkRight),
        ("blink_r", ExpressionPreset::BlinkRight),
        ("lookup", ExpressionPreset::LookUp),
        ("lookdown", ExpressionPreset::LookDown),
        ("lookleft", ExpressionPreset::LookLeft),
        ("lookright", ExpressionPreset::LookRight),
    ];
    assert(table_view(r@) =~= preset_alias_table());
    r
}
/// The preset that a VRM 1.0 or VRM 0.x preset name denotes, compared without
/// regard to ASCII case.
pub open spec fn preset_from_name(name: Seq<char>) -> Option<ExpressionPreset> {
    assoc(preset_alias_table(), ascii_lowercase(name))
}

impl ExpressionPreset {
    /// The VRM 1.0 name of the preset.
    pub fn as_str(self) -> (r: &'static str)
        ensures
            r@ == preset_name(self),
    {
        match self {
            ExpressionPreset::Happy => "happy",
            ExpressionPreset::Angry => "angry",
            ExpressionPreset::Sad => "sad",
            ExpressionPreset::Relaxed => "relaxed",
            ExpressionPreset::Surprised => "surprised",
            ExpressionPreset::Neutral => "neutral",
            ExpressionPreset::Aa => "aa",
            ExpressionPreset::Ih => "ih",
            ExpressionPreset::Ou => "ou",
            ExpressionPreset::Ee => "ee",
            ExpressionPreset::Oh => "oh",
            ExpressionPreset::Blink => "blink",
            ExpressionPreset::BlinkLeft => "blinkLeft",
            ExpressionPreset::BlinkRight => "blinkRight",
            ExpressionPreset::LookUp => "lookUp",
            ExpressionPreset::LookDown => "lookDown",
            ExpressionPreset::LookLeft => "lookLeft",
            ExpressionPreset::LookRight => "lookRight",
        }
    }

    /// Resolves a VRM 1.0 or VRM 0.x preset name (any ASCII case) to its preset.
    pub fn from_any(name: &str) -> (r: Option<Self>)
        ensures
            r == preset_from_name(name@),
    {
        let table = preset_alias_pairs();
        assoc_lower_exec(&table, name)
    }
}

/// Whether an expression suppresses other expressions of a group while active.
#[derive(Debug, Clone, Copy, PartialEq, Eq)]
pub enum OverrideMode {
    /// No override (the VRM value `none`, and any unknown value).
    NoOverride,
    Block,
    Blend,
}

/// The override mode that a VRM 1.0 `override*` value names; unknown values mean none.
pub open spec fn override_mode_of(s: Seq<char>) -> OverrideMode {
    if s == "block"@ {
        OverrideMode::Block
    } else if s == "blend"@ {
        OverrideMode::Blend
    } else {
        OverrideMode::NoOverride
    }
}

impl OverrideMode {
    /// Reads a VRM 1.0 `override*` value.
    pub fn from_str(s: &str) -> (r: Self)
        ensures
            r == override_mode_of(s@),
    {
        if str_eq(s, "block") {
            OverrideMode::Block
        } else if str_eq(s, "blend") {
            OverrideMode::Blend
        } else {
            OverrideMode::NoOverride
        }
    }
}

/// How a morph target bind addresses its mesh.
#[derive(Debug, Clone, Copy, PartialEq, Eq)]
pub enum MorphAddressing {
    /// VRM 1.0: the target is a glTF node index.
    NodeIndex,
    /// VRM 0.x: the target is a glTF mesh index.
    MeshIndex,
}

/// What an expression is: one of the standard presets or a custom one, by name.
#[derive(Debug, Clone)]
pub enum ExpressionKind {
    Preset(ExpressionPreset),
    Custom(String),
}

} // verus!

verus! {

/// Every preset's VRM 1.0 name resolves back to that preset, so `as_str` and
/// `from_any` round-trip and no two presets share a name.
pub proof fn lemma_preset_name_round_trip(p: ExpressionPreset)
    ensures
        preset_from_name(preset_name(p)) == Some(p),
{
    reveal_strlit("happy");
    reveal_strlit("joy");
    reveal_strlit("angry");
    reveal_strlit("sad");
    reveal_strlit("sorrow");
    reveal_strlit("relaxed");
    reveal_strlit("fun");
    reveal_strlit("surprised");
    reveal_strlit("neutral");
    reveal_strlit("aa");
    reveal_strlit("a");
    reveal_strlit("ih");
    reveal_strlit("i");
    reveal_strlit("ou");
    reveal_strlit("u");
    reveal_strlit("ee");
    reveal_strlit("e");
    reveal_strlit("oh");
    reveal_strlit("o");
    reveal_strlit("blink");
    reveal_strlit("blinkleft");
    reveal_strlit("blink_l");
    reveal_strlit("blinkright");
    reveal_strlit("blink_r");
    reveal_strlit("lookup");
    reveal_strlit("lookdown");
    reveal_strlit("lookleft");
    reveal_strlit("lookright");
    match p {
        ExpressionPreset::Happy => {
            reveal_strlit("happy");
            assert(ascii_lowercase(preset_name(p)) =~= "happy"@);
            let t = preset_alias_table();
            let k = "happy"@;
            lemma_assoc_at(t, k, 0);
        },
        ExpressionPreset::Angry => {
            reveal_strlit("angry");
            assert(ascii_lowercase(preset_name(p)) =~= "angry"@);
            let t = preset_alias_table();
            let k = "angry"@;
            assert forall|j: int| 0 <= j < 2 implies t[j].0 != k by {
                if j == 0 {
                    assert(t[j].0[0] != k[0]);
                } else {
                    assert(t[j].0.len() != k.len());
                }
            }
            lemma_assoc_at(t, k, 2);
        },
        ExpressionPreset::Sad => {
            reveal_strlit("sad");
            assert(ascii_lowercase(preset_name(p)) =~= "sad"@);
            let t = preset_alias_table();
            let k = "sad"@;
            assert forall|j: int| 0 <= j < 3 implies t[j].0 != k by {
                if j == 0 {
                    assert(t[j].0.len() != k.len());
                } else if j == 1 {
                    assert(t[j].0[0] != k[0]);
                } else {
                    assert(t[j].0.len() != k.len());
                }
            }
            lemma_assoc_at(t, k, 3);
        },
        ExpressionPreset::Relaxed => {
            reveal_strlit("relaxed");
            assert(ascii_lowercase(preset_name(p)) =~= "relaxed"@);
            let t = preset_alias_table();
            let k = "relaxed"@;
            assert forall|j: int| 0 <= j < 5 implies t[j].0 != k by {
                if j == 0 {
                    assert(t[j].0.len() != k.len());
                } else if j == 1 {
                    assert(t[j].0.len() != k.len());
                } else if j == 2 {
                    assert(t[j].0.len() != k.len());
                } else if j == 3 {
                    assert(t[j].0.len() != k.len());
                } else {
                    assert(t[j].0.len() != k.len());
                }
            }
            lemma_assoc_at(t, k, 5);
        },
        ExpressionPreset::Surprised => {
            reveal_strlit("surprised");
            assert(ascii_lowercase(preset_name(p)) =~= "surprised"@);
            let t = preset_alias_table();
            let k = "surprised"@;
            assert forall|j: int| 0 <= j < 7 implies t[j].0 != k by {
                if j == 0 {
                    assert(t[j].0.len() != k.len());
                } else if j == 1 {
                    assert(t[j].0.len() != k.len());
                } else if j == 2 {
                    assert(t[j].0.len() != k.len());
                } else if j == 3 {
                    assert(t[j].0.len() != k.len());
                } else if j == 4 {
                    assert(t[j].0.len() != k.len());
                } else if j == 5 {
                    assert(t[j].0.len() != k.len());
                } else {
                    assert(t[j].0.len() != k.len());
                }
            }
            lemma_assoc_at(t, k, 7);
        },
        ExpressionPreset::Neutral => {
            reveal_strlit("neutral");
            assert(ascii_lowercase(preset_name(p)) =~= "neutral"@);
            let t = preset_alias_table();
            let k = "neutral"@;
            assert forall|j: int| 0 <= j < 8 implies t[j].0 != k by {
                if j == 0 {
                    assert(t[j].0.len() != k.len());
                } else if j == 1 {
                    assert(t[j].0.len() != k.len());
                } else if j == 2 {
                    assert(t[j].0.len() != k.len());
                } else if j == 3 {
                    assert(t[j].0.len() != k.len());
                } else if j == 4 {
                    assert(t[j].0.len() != k.len());
                } else if j == 5 {
                    assert(t[j].0[0] != k[0]);
                } else if j == 6 {
                    assert(t[j].0.len() != k.len());
                } else {
                    assert(t[j].0.len() != k.len());
                }
            }
            lemma_assoc_at(t, k, 8);
        },
        ExpressionPreset::Aa => {
            reveal_strlit("aa");
            assert(ascii_lowercase(preset_name(p)) =~= "aa"@);
            let t = preset_alias_table();
            let k = "aa"@;
            assert forall|j: int| 0 <= j < 9 implies t[j].0 != k by {
                if j == 0 {
                    assert(t[j].0.len() != k.len());
                } else if j == 1 {
                    assert(t[j].0.len() != k.len());
                } else if j == 2 {
                    assert(t[j].0.len() != k.len());
                } else if j == 3 {
                    assert(t[j].0.len() != k.len());
                } else if j == 4 {
                    assert(t[j].0.len() != k.len());
                } else if j == 5 {
                    assert(t[j].0.len() != k.len());
                } else if j == 6 {
                    assert(t[j].0.len() != k.len());
                } else if j == 7 {
                    assert(t[j].0.len() != k.len());
                } else {
                    assert(t[j].0.len() != k.len());
                }
            }
            lemma_assoc_at(t, k, 9);
        },
        ExpressionPreset::Ih => {
            reveal_strlit("ih");
            assert(ascii_lowercase(preset_name(p)) =~= "ih"@);
            let t = preset_alias_table();
            let k = "ih"@;
            assert forall|j: int| 0 <= j < 11 implies t[j].0 != k by {
                if j == 0 {
                    assert(t[j].0.len() != k.len());
                } else if j == 1 {
                    assert(t[j].0.len() != k.len());
                } else if j == 2 {
                    assert(t[j].0.len() != k.len());
                } else if j == 3 {
                    assert(t[j].0.len() != k.len());
                } else if j == 4 {
                    assert(t[j].0.len() != k.len());
                } else if j == 5 {
                    assert(t[j].0.len() != k.len());
                } else if j == 6 {
                    assert(t[j].0.len() != k.len());
                } else if j == 7 {
                    assert(t[j].0.len() != k.len());
                } else if j == 8 {
                    assert(t[j].0.len() != k.len());
                } else if j == 9 {
                    assert(t[j].0[0] != k[0]);
                } else {
                    assert(t[j].0.len() != k.len());
                }
            }
            lemma_assoc_at(t, k, 11);
        },
        ExpressionPreset::Ou => {
            reveal_strlit("ou");
            assert(ascii_lowercase(preset_name(p)) =~= "ou"@);
            let t = preset_alias_table();
            let k = "ou"@;
            assert forall|j: int| 0 <= j < 13 implies t[j].0 != k by {
                if j == 0 {
                    assert(t[j].0.len() != k.len());
                } else if j == 1 {
                    assert(t[j].0.len() != k.len());
                } else if j == 2 {
                    assert(t[j].0.len() != k.len());
                } else if j == 3 {
                    assert(t[j].0.len() != k.len());
                } else if j == 4 {
                    assert(t[j].0.len() != k.len());
                } else if j == 5 {
                    assert(t[j].0.len() != k.len());
                } else if j == 6 {
                    assert(t[j].0.len() != k.len());
                } else if j == 7 {
                    assert(t[j].0.len() != k.len());
                } else if j == 8 {
                    assert(t[j].0.len() != k.len());
                } else if j == 9 {
                    assert(t[j].0[0] != k[0]);
                } else if j == 10 {
                    assert(t[j].0.len() != k.len());
                } else if j == 11 {
                    assert(t[j].0[0] != k[0]);
                } else {
                    assert(t[j].0.len() != k.len());
                }
            }
            lemma_assoc_at(t, k, 13);
        },
        ExpressionPreset::Ee => {
            reveal_strlit("ee");
            assert(ascii_lowercase(preset_name(p)) =~= "ee"@);
            let t = preset_alias_table();
            let k = "ee"@;
            assert forall|j: int| 0 <= j < 15 implies t[j].0 != k by {
                if j == 0 {
                    assert(t[j].0.len() != k.len());
                } else if j == 1 {
                    assert(t[j].0.len() != k.len());
                } else if j == 2 {
                    assert(t[j].0.len() != k.len());
                } else if j == 3 {
                    assert(t[j].0.len() != k.len());
                } else if j == 4 {
                    assert(t[j].0.len() != k.len());
                } else if j == 5 {
                    assert(t[j].0.len() != k.len());
                } else if j == 6 {
                    assert(t[j].0.len() != k.len());
                } else if j == 7 {
                    assert(t[j].0.len() != k.len());
                } else if j == 8 {
                    assert(t[j].0.len() != k.len());
                } else if j == 9 {
                    assert(t[j].0[0] != k[0]);
                } else if j == 10 {
                    assert(t[j].0.len() != k.len());
                } else if j == 11 {
                    assert(t[j].0[0] != k[0]);
                } else if j == 12 {
                    assert(t[j].0.len() != k.len());
                } else if j == 13 {
                    assert(t[j].0[0] != k[0]);
                } else {
                    assert(t[j].0.len() != k.len());
                }
            }
            lemma_assoc_at(t, k, 15);
        },
        ExpressionPreset::Oh => {
            reveal_strlit("oh");
            assert(ascii_lowercase(preset_name(p)) =~= "oh"@);
            let t = preset_alias_table();
            let k = "oh"@;
            assert forall|j: int| 0 <= j < 17 implies t[j].0 != k by {
                if j == 0 {
                    assert(t[j].0.len() != k.len());
                } else if j == 1 {
                    assert(t[j].0.len() != k.len());
                } else if j == 2 {
                    assert(t[j].0.len() != k.len());
                } else if j == 3 {
                    assert(t[j].0.len() != k.len());
                } else if j == 4 {
                    assert(t[j].0.len() != k.len());
                } else if j == 5 {
                    assert(t[j].0.len() != k.len());
                } else if j == 6 {
                    assert(t[j].0.len() != k.len());
                } else if j == 7 {
                    assert(t[j].0.len() != k.len());
                } else if j == 8 {
                    assert(t[j].0.len() != k.len());
                } else if j == 9 {
                    assert(t[j].0[0] != k[0]);
                } else if j == 10 {
                    assert(t[j].0.len() != k.len());
                } else if j == 11 {
                    assert(t[j].0[0] != k[0]);
                } else if j == 12 {
                    assert(t[j].0.len() != k.len());
                } else if j == 13 {
                    assert(t[j].0[1] != k[1]);
                } else if j == 14 {
                    assert(t[j].0.len() != k.len());
                } else if j == 15 {
                    assert(t[j].0[0] != k[0]);
                } else {
                    assert(t[j].0.len() != k.len());
                }
            }
            lemma_assoc_at(t, k, 17);
        },
        ExpressionPreset::Blink => {
            reveal_strlit("blink");
            assert(ascii_lowercase(preset_name(p)) =~= "blink"@);
            let t = preset_alias_table();
            let k = "blink"@;
            assert forall|j: int| 0 <= j < 19 implies t[j].0 != k by {
                if j == 0 {
                    assert(t[j].0[0] != k[0]);
                } else if j == 1 {
                    assert(t[j].0.len() != k.len());
                } else if j == 2 {
                    assert(t[j].0[0] != k[0]);
                } else if j == 3 {
                    assert(t[j].0.len() != k.len());
                } else if j == 4 {
                    assert(t[j].0.len() != k.len());
                } else if j == 5 {
                    assert(t[j].0.len() != k.len());
                } else if j == 6 {
                    assert(t[j].0.len() != k.len());
                } else if j == 7 {
                    assert(t[j].0.len() != k.len());
                } else if j == 8 {
                    assert(t[j].0.len() != k.len());
                } else if j == 9 {
                    assert(t[j].0.len() != k.len());
                } else if j == 10 {
                    assert(t[j].0.len() != k.len());
                } else if j == 11 {
                    assert(t[j].0.len() != k.len());
                } else if j == 12 {
                    assert(t[j].0.len() != k.len());
                } else if j == 13 {
                    assert(t[j].0.len() != k.len());
                } else if j == 14 {
                    assert(t[j].0.len() != k.len());
                } else if j == 15 {
                    assert(t[j].0.len() != k.len());
                } else if j == 16 {
                    assert(t[j].0.len() != k.len());
                } else if j == 17 {
                    assert(t[j].0.len() != k.len());
                } else {
                    assert(t[j].0.len() != k.len());
                }
            }
            lemma_assoc_at(t, k, 19);
        },
        ExpressionPreset::BlinkLeft => {
            reveal_strlit("blinkLeft");
            char_u32_cast('l', ('L' as u32 + 32) as u32);
            assert(ascii_lowercase(preset_name(p)) =~= "blinkleft"@);
            let t = preset_alias_table();
            let k = "blinkleft"@;
            assert forall|j: int| 0 <= j < 20 implies t[j].0 != k by {
                if j == 0 {
                    assert(t[j].0.len() != k.len());
                } else if j == 1 {
                    assert(t[j].0.len() != k.len());
                } else if j == 2 {
                    assert(t[j].0.len() != k.len());
                } else if j == 3 {
                    assert(t[j].0.len() != k.len());
                } else if j == 4 {
                    assert(t[j].0.len() != k.len());
                } else if j == 5 {
                    assert(t[j].0.len() != k.len());
                } else if j == 6 {
                    assert(t[j].0.len() != k.len());
                } else if j == 7 {
                    assert(t[j].0[0] != k[0]);
                } else if j == 8 {
                    assert(t[j].0.len() != k.len());
                } else if j == 9 {
                    assert(t[j].0.len() != k.len());
                } else if j == 10 {
                    assert(t[j].0.len() != k.len());
                } else if j == 11 {
                    assert(t[j].0.len() != k.len());
                } else if j == 12 {
                    assert(t[j].0.len() != k.len());
                } else if j == 13 {
                    assert(t[j].0.len() != k.len());
                } else if j == 14 {
                    assert(t[j].0.len() != k.len());
                } else if j == 15 {
                    assert(t[j].0.len() != k.len());
                } else if j == 16 {
                    assert(t[j].0.len() != k.len());
                } else if j == 17 {
                    assert(t[j].0.len() != k.len());
                } else if j == 18 {
                    assert(t[j].0.len() != k.len());
                } else {
                    assert(t[j].0.len() != k.len());
                }
            }
            lemma_assoc_at(t, k, 20);
        },
        ExpressionPreset::BlinkRight => {
            reveal_strlit("blinkRight");
            char_u32_cast('r', ('R' as u32 + 32) as u32);
            assert(ascii_lowercase(preset_name(p)) =~= "blinkright"@);
            let t = preset_alias_table();
            let k = "blinkright"@;
            assert forall|j: int| 0 <= j < 22 implies t[j].0 != k by {
                if j == 0 {
                    assert(t[j].0.len() != k.len());
                } else if j == 1 {
                    assert(t[j].0.len() != k.len());
                } else if j == 2 {
                    assert(t[j].0.len() != k.len());
                } else if j == 3 {
                    assert(t[j].0.len() != k.len());
                } else if j == 4 {
                    assert(t[j].0.len() != k.len());
                } else if j == 5 {
                    assert(t[j].0.len() != k.len());
                } else if j == 6 {
                    assert(t[j].0.len() != k.len());
                } else if j == 7 {
                    assert(t[j].0.len() != k.len());
                } else if j == 8 {
                    assert(t[j].0.len() != k.len());
                } else if j == 9 {
                    assert(t[j].0.len() != k.len());
                } else if j == 10 {
                    assert(t[j].0.len() != k.len());
                } else if j == 11 {
                    assert(t[j].0.len() != k.len());
                } else if j == 12 {
                    assert(t[j].0.len() != k.len());
                } else if j == 13 {
                    assert(t[j].0.len() != k.len());
                } else if j == 14 {
                    assert(t[j].0.len() != k.len());
                } else if j == 15 {
                    assert(t[j].0.len() != k.len());
                } else if j == 16 {
                    assert(t[j].0.len() != k.len());
                } else if j == 17 {
                    assert(t[j].0.len() != k.len());
                } else if j == 18 {
                    assert(t[j].0.len() != k.len());
                } else if j == 19 {
                    assert(t[j].0.len() != k.len());
                } else if j == 20 {
                    assert(t[j].0.len() != k.len());
                } else {
                    assert(t[j].0.len() != k.len());
                }
            }
            lemma_assoc_at(t, k, 22);
        },
        ExpressionPreset::LookUp => {
            reveal_strlit("lookUp");
            char_u32_cast('u', ('U' as u32 + 32) as u32);
            assert(ascii_lowercase(preset_name(p)) =~= "lookup"@);
            let t = preset_alias_table();
            let k = "lookup"@;
            assert forall|j: int| 0 <= j < 24 implies t[j].0 != k by {
                if j == 0 {
                    assert(t[j].0.len() != k.len());
                } else if j == 1 {
                    assert(t[j].0.len() != k.len());
                } else if j == 2 {
                    assert(t[j].0.len() != k.len());
                } else if j == 3 {
                    assert(t[j].0.len() != k.len());
                } else if j == 4 {
                    assert(t[j].0[0] != k[0]);
                } else if j == 5 {
                    assert(t[j].0.len() != k.len());
                } else if j == 6 {
                    assert(t[j].0.len() != k.len());
                } else if j == 7 {
                    assert(t[j].0.len() != k.len());
                } else if j == 8 {
                    assert(t[j].0.len() != k.len());
                } else if j == 9 {
                    assert(t[j].0.len() != k.len());
                } else if j == 10 {
                    assert(t[j].0.len() != k.len());
                } else if j == 11 {
                    assert(t[j].0.len() != k.len());
                } else if j == 12 {
                    assert(t[j].0.len() != k.len());
                } else if j == 13 {
                    assert(t[j].0.len() != k.len());
                } else if j == 14 {
                    assert(t[j].0.len() != k.len());
                } else if j == 15 {
                    assert(t[j].0.len() != k.len());
                } else if j == 16 {
                    assert(t[j].0.len() != k.len());
                } else if j == 17 {
                    assert(t[j].0.len() != k.len());
                } else if j == 18 {
                    assert(t[j].0.len() != k.len());
                } else if j == 19 {
                    assert(t[j].0.len() != k.len());
                } else if j == 20 {
                    assert(t[j].0.len() != k.len());
                } else if j == 21 {
                    assert(t[j].0.len() != k.len());
                } else if j == 22 {
                    assert(t[j].0.len() != k.len());
                } else {
                    assert(t[j].0.len() != k.len());
                }
            }
            lemma_assoc_at(t, k, 24);
        },
        ExpressionPreset::LookDown => {
            reveal_strlit("lookDown");
            char_u32_cast('d', ('D' as u32 + 32) as u32);
            assert(ascii_lowercase(preset_name(p)) =~= "lookdown"@);
            let t = preset_alias_table();
            let k = "lookdown"@;
            assert forall|j: int| 0 <= j < 25 implies t[j].0 != k by {
                if j == 0 {
                    assert(t[j].0.len() != k.len());
                } else if j == 1 {
                    assert(t[j].0.len() != k.len());
                } else if j == 2 {
                    assert(t[j].0.len() != k.len());
                } else if j == 3 {
                    assert(t[j].0.len() != k.len());
                } else if j == 4 {
                    assert(t[j].0.len() != k.len());
                } else if j == 5 {
                    assert(t[j].0.len() != k.len());
                } else if j == 6 {
                    assert(t[j].0.len() != k.len());
                } else if j == 7 {
                    assert(t[j].0.len() != k.len());
                } else if j == 8 {
                    assert(t[j].0.len() != k.len());
                } else if j == 9 {
                    assert(t[j].0.len() != k.len());
                } else if j == 10 {
                    assert(t[j].0.len() != k.len());
                } else if j == 11 {
                    assert(t[j].0.len() != k.len());
                } else if j == 12 {
                    assert(t[j].0.len() != k.len());
                } else if j == 13 {
                    assert(t[j].0.len() != k.len());
                } else if j == 14 {
                    assert(t[j].0.len() != k.len());
                } else if j == 15 {
                    assert(t[j].0.len() != k.len());
                } else if j == 16 {
                    assert(t[j].0.len() != k.len());
                } else if j == 17 {
                    assert(t[j].0.len() != k.len());
                } else if j == 18 {
                    assert(t[j].0.len() != k.len());
                } else if j == 19 {
                    assert(t[j].0.len() != k.len());
                } else if j == 20 {
                    assert(t[j].0.len() != k.len());
                } else if j == 21 {
                    assert(t[j].0.len() != k.len());
                } else if j == 22 {
                    assert(t[j].0.len() != k.len());
                } else if j == 23 {
                    assert(t[j].0.len() != k.len());
                } else {
                    assert(t[j].0.len() != k.len());
                }
            }
            lemma_assoc_at(t, k, 25);
        },
        ExpressionPreset::LookLeft => {
            reveal_strlit("lookLeft");
            char_u32_cast('l', ('L' as u32 + 32) as u32);
            assert(ascii_lowercase(preset_name(p)) =~= "lookleft"@);
            let t = preset_alias_table();
            let k = "lookleft"@;
            assert forall|j: int| 0 <= j < 26 implies t[j].0 != k by {
                if j == 0 {
                    assert(t[j].0.len() != k.len());
                } else if j == 1 {
                    assert(t[j].0.len() != k.len());
                } else if j == 2 {
                    assert(t[j].0.len() != k.len());
                } else if j == 3 {
                    assert(t[j].0.len() != k.len());
                } else if j == 4 {
                    assert(t[j].0.len() != k.len());
                } else if j == 5 {
                    assert(t[j].0.len() != k.len());
                } else if j == 6 {
                    assert(t[j].0.len() != k.len());
                } else if j == 7 {
                    assert(t[j].0.len() != k.len());
                } else if j == 8 {
                    assert(t[j].0.len() != k.len());
                } else if j == 9 {
                    assert(t[j].0.len() != k.len());
                } else if j == 10 {
                    assert(t[j].0.len() != k.len());
                } else if j == 11 {
                    assert(t[j].0.len() != k.len());
                } else if j == 12 {
                    assert(t[j].0.len() != k.len());
                } else if j == 13 {
                    assert(t[j].0.len() != k.len());
                } else if j == 14 {
                    assert(t[j].0.len() != k.len());
                } else if j == 15 {
                    assert(t[j].0.len() != k.len());
                } else if j == 16 {
                    assert(t[j].0.len() != k.len());
                } else if j == 17 {
                    assert(t[j].0.len() != k.len());
                } else if j == 18 {
                    assert(t[j].0.len() != k.len());
                } else if j == 19 {
                    assert(t[j].0.len() != k.len());
                } else if j == 20 {
                    assert(t[j].0.len() != k.len());
                } else if j == 21 {
                    assert(t[j].0.len() != k.len());
                } else if j == 22 {
                    assert(t[j].0.len() != k.len());
                } else if j == 23 {
                    assert(t[j].0.len() != k.len());
                } else if j == 24 {
                    assert(t[j].0.len() != k.len());
                } else {
                    assert(t[j].0[4] != k[4]);
                }
            }
            lemma_assoc_at(t, k, 26);
        },
        ExpressionPreset::LookRight => {
            reveal_strlit("lookRight");
            char_u32_cast('r', ('R' as u32 + 32) as u32);
            assert(ascii_lowercase(preset_name(p)) =~= "lookright"@);
            let t = preset_alias_table();
            let k = "lookright"@;
            assert forall|j: int| 0 <= j < 27 implies t[j].0 != k by {
                if j == 0 {
                    assert(t[j].0.len() != k.len());
                } else if j == 1 {
                    assert(t[j].0.len() != k.len());
                } else if j == 2 {
                    assert(t[j].0.len() != k.len());
                } else if j == 3 {
                    assert(t[j].0.len() != k.len());
                } else if j == 4 {
                    assert(t[j].0.len() != k.len());
                } else if j == 5 {
                    assert(t[j].0.len() != k.len());
                } else if j == 6 {
                    assert(t[j].0.len() != k.len());
                } else if j == 7 {
                    assert(t[j].0[0] != k[0]);
                } else if j == 8 {
                    assert(t[j].0.len() != k.len());
                } else if j == 9 {
                    assert(t[j].0.len() != k.len());
                } else if j == 10 {
                    assert(t[j].0.len() != k.len());
                } else if j == 11 {
                    assert(t[j].0.len() != k.len());
                } else if j == 12 {
                    assert(t[j].0.len() != k.len());
                } else if j == 13 {
                    assert(t[j].0.len() != k.len());
                } else if j == 14 {
                    assert(t[j].0.len() != k.len());
                } else if j == 15 {
                    assert(t[j].0.len() != k.len());
                } else if j == 16 {
                    assert(t[j].0.len() != k.len());
                } else if j == 17 {
                    assert(t[j].0.len() != k.len());
                } else if j == 18 {
                    assert(t[j].0.len() != k.len());
                } else if j == 19 {
                    assert(t[j].0.len() != k.len());
                } else if j == 20 {
                    assert(t[j].0[0] != k[0]);
                } else if j == 21 {
                    assert(t[j].0.len() != k.len());
                } else if j == 22 {
                    assert(t[j].0.len() != k.len());
                } else if j == 23 {
                    assert(t[j].0.len() != k.len());
                } else if j == 24 {
                    assert(t[j].0.len() != k.len());
                } else if j == 25 {
                    assert(t[j].0.len() != k.len());
                } else {
                    assert(t[j].0.len() != k.len());
                }
            }
            lemma_assoc_at(t, k, 27);
        },
    }
}


/// Lower-casing a character twice is lower-casing it once.
proof fn lemma_ascii_lower_char_idempotent(c: char)
    ensures
        ascii_lower_char(ascii_lower_char(c)) == ascii_lower_char(c),
{
    if 'A' <= c && c <= 'Z' {
        let d = ((c as u32) + 32) as char;
        assert((d as u32) == (c as u32) + 32);
    }
}

/// Preset names are matched without regard to ASCII case: two names that agree
/// once lower-cased resolve to the same preset, and each name resolves as its
/// lower-cased form does.
pub proof fn lemma_preset_name_case_insensitive(a: Seq<char>, b: Seq<char>)
    requires
        ascii_lowercase(a) == ascii_lowercase(b),
    ensures
        preset_from_name(a) == preset_from_name(b),
        preset_from_name(ascii_lowercase(a)) == preset_from_name(a),
{
    assert forall|i: int| 0 <= i < a.len() implies #[trigger] ascii_lowercase(ascii_lowercase(a))[i]
        == ascii_lowercase(a)[i] by {
        lemma_ascii_lower_char_idempotent(a[i]);
    }
    assert(ascii_lowercase(ascii_lowercase(a)) =~= ascii_lowercase(a));
}

} // verus!

verus! {

/// The VRM 0.x preset names, each beside the VRM 1.0 name it was renamed to.
pub open spec fn vrm0_preset_renames() -> Seq<(Seq<char>, Seq<char>)> {
    seq![
        ("joy"@, "happy"@),
        ("sorrow"@, "sad"@),
        ("fun"@, "relaxed"@),
        ("a"@, "aa"@),
        ("i"@, "ih"@),
        ("u"@, "ou"@),
        ("e"@, "ee"@),
        ("o"@, "oh"@),
        ("blink_l"@, "blinkLeft"@),
        ("blink_r"@, "blinkRight"@),
    ]
}

/// The first entry of the preset table whose key is `k` is the one at `idx`, when
/// every earlier key differs from `k` in length, first or last character.
proof fn lemma_preset_key_first_at(k: Seq<char>, idx: int)
    requires
        0 <= idx < preset_alias_table().len(),
        preset_alias_table()[idx].0 == k,
        ascii_lowercase(k) == k,
        forall|j: int|
            0 <= j < idx ==> {
                let key = #[trigger] preset_alias_table()[j].0;
                key.len() != k.len() || key[0] != k[0] || key[key.len() - 1] != k[k.len() - 1]
            },
    ensures
        preset_from_name(k) == Some(preset_alias_table()[idx].1),
{
    let t = preset_alias_table();
    assert forall|j: int| 0 <= j < idx implies t[j].0 != k by {
        let key = t[j].0;
        if key == k {
            assert(key.len() == k.len());
        }
    }
    lemma_assoc_at(t, k, idx);
}

/// Each VRM 0.x preset name resolves to the preset of the VRM 1.0 name it was
/// renamed to (`joy` to `happy`, `sorrow` to `sad`, `fun` to `relaxed`, the
/// visemes `a i u e o` to `aa ih ou ee oh`, `blink_l`/`blink_r` to
/// `blinkLeft`/`blinkRight`): both names give the same preset, and that preset's
/// VRM 1.0 name is the new one.
pub proof fn lemma_vrm0_preset_renamed(i: int)
    requires
        0 <= i < vrm0_preset_renames().len(),
    ensures
        preset_from_name(vrm0_preset_renames()[i].1) matches Some(p)
            && preset_name(p) == vrm0_preset_renames()[i].1,
        preset_from_name(vrm0_preset_renames()[i].0) == preset_from_name(
            vrm0_preset_renames()[i].1,
        ),
{
    reveal_strlit("happy");
    reveal_strlit("joy");
    reveal_strlit("angry");
    reveal_strlit("sad");
    reveal_strlit("sorrow");
    reveal_strlit("relaxed");
    reveal_strlit("fun");
    reveal_strlit("surprised");
    reveal_strlit("neutral");
    reveal_strlit("aa");
    reveal_strlit("a");
    reveal_strlit("ih");
    reveal_strlit("i");
    reveal_strlit("ou");
    reveal_strlit("u");
    reveal_strlit("ee");
    reveal_strlit("e");
    reveal_strlit("oh");
    reveal_strlit("o");
    reveal_strlit("blink");
    reveal_strlit("blinkleft");
    reveal_strlit("blink_l");
    reveal_strlit("blinkright");
    reveal_strlit("blink_r");
    let r = vrm0_preset_renames();
    if i == 0 {
        lemma_preset_name_round_trip(ExpressionPreset::Happy);
        assert(ascii_lowercase("joy"@) =~= "joy"@);
        lemma_preset_key_first_at("joy"@, 1);
    } else if i == 1 {
        lemma_preset_name_round_trip(ExpressionPreset::Sad);
        assert(ascii_lowercase("sorrow"@) =~= "sorrow"@);
        lemma_preset_key_first_at("sorrow"@, 4);
    } else if i == 2 {
        lemma_preset_name_round_trip(ExpressionPreset::Relaxed);
        assert(ascii_lowercase("fun"@) =~= "fun"@);
        lemma_preset_key_first_at("fun"@, 6);
    } else if i == 3 {
        lemma_preset_name_round_trip(ExpressionPreset::Aa);
        assert(ascii_lowercase("a"@) =~= "a"@);
        lemma_preset_key_first_at("a"@, 10);
    } else if i == 4 {
        lemma_preset_name_round_trip(ExpressionPreset::Ih);
        assert(ascii_lowercase("i"@) =~= "i"@);
        lemma_preset_key_first_at("i"@, 12);
    } else if i == 5 {
        lemma_preset_name_round_trip(ExpressionPreset::Ou);
        assert(ascii_lowercase("u"@) =~= "u"@);
        lemma_preset_key_first_at("u"@, 14);
    } else if i == 6 {
        lemma_preset_name_round_trip(ExpressionPreset::Ee);
        assert(ascii_lowercase("e"@) =~= "e"@);
        lemma_preset_key_first_at("e"@, 16);
    } else if i == 7 {
        lemma_preset_name_round_trip(ExpressionPreset::Oh);
        assert(ascii_lowercase("o"@) =~= "o"@);
        lemma_preset_key_first_at("o"@, 18);
    } else if i == 8 {
        lemma_preset_name_round_trip(ExpressionPreset::BlinkLeft);
        assert(ascii_lowercase("blink_l"@) =~= "blink_l"@);
        lemma_preset_key_first_at("blink_l"@, 21);
    } else if i == 9 {
        lemma_preset_name_round_trip(ExpressionPreset::BlinkRight);
        assert(ascii_lowercase("blink_r"@) =~= "blink_r"@);
        lemma_preset_key_first_at("blink_r"@, 23);
    }
}

} // verus!
