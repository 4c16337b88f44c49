//! The fallback display direction of a bone, chosen by its anatomical name.
//! (Each direction is a fixed unit vector, floating-point data kept outside
//! this crate.)

use vstd::prelude::*;
use crate::skeleton::{Skeleton, parents_precede};
use crate::table::{contains_any, has_any_substring, list_view};
use crate::text::{ends_with, has_substring, starts_with, str_eq};

verus! {

/// A bone's fallback display direction (Z up, Y backward).
#[derive(Debug, Clone, Copy, PartialEq, Eq)]
pub enum BoneDirection {
    /// Left ribs: outward, forward and down, `[-0.8, -0.4, -0.2]` normalised.
    RibLeft,
    /// Right ribs: `[0.8, -0.4, -0.2]` normalised.
    RibRight,
    /// Left clavicle: sideways, `[-1, 0, 0.1]` normalised.
    ClavicleLeft,
    /// Right clavicle: `[1, 0, 0.1]` normalised.
    ClavicleRight,
    /// Scapulae and the jaw: `[0, 1, -0.3]` normalised.
    BackTilted,
    /// Left upper arm: `[-1, 0, -0.1]` normalised.
    UpperArmLeft,
    /// Right upper arm: `[1, 0, -0.1]` normalised.
    UpperArmRight,
    /// Toes and metatarsals: forward, `[0, -1, 0]`.
    Forward,
    /// Legs, the sacrum and parentless hand bones: `[0, 0, -1]`.
    Down,
    /// Trunk and head: `[0, 0, 1]`.
    Up,
}

/// Words that mark a toe.
pub open spec fn toe_words() -> Seq<Seq<char>> {
    seq!["Hallux"@, "Second"@, "Third"@, "Fourth"@, "Fifth"@]
}

fn toe_word_list() -> (r: [&'static str; 5])
    ensures
        list_view(r@) == toe_words(),
{
    let r = ["Hallux", "Second", "Third", "Fourth", "Fifth"];
    assert(list_view(r@) =~= toe_words());
    r
}

/// Prefixes of forearm, hand and phalanx bones.
pub open spec fn limb_chain_prefixes() -> Seq<Seq<char>> {
    seq!["Radius"@, "Ulna"@, "MC_"@, "PP_"@, "MP_"@, "DP_"@]
}

/// Whether a bone name belongs to the foot: metatarsals, shin bones, and toe
/// proximal / middle phalanges.
pub open spec fn foot_bone_name(name: Seq<char>) -> bool {
    ||| "MT_"@.is_prefix_of(name)
    ||| "Tibia"@.is_prefix_of(name)
    ||| "Fibula"@.is_prefix_of(name)
    ||| "PP_"@.is_prefix_of(name) && has_any_substring(name, toe_words())
    ||| "MP_"@.is_prefix_of(name) && has_any_substring(name, toe_words())
}

/// Whether the name starts with one of the prefixes.
pub open spec fn has_any_prefix(name: Seq<char>, ps: Seq<Seq<char>>) -> bool {
    exists|i: int| 0 <= i < ps.len() && (#[trigger] ps[i]).is_prefix_of(name)
}

/// The fallback display direction of bone `i` of a hierarchy: by the bone's
/// name; forearm, hand and phalanx bones follow their parent (toes point
/// forward when they or their parent belong to the foot).
pub open spec fn bone_direction_of(t: Seq<(Seq<char>, Option<int>)>, i: int) -> BoneDirection
    decreases i,
{
    let name = t[i].0;
    if "Rib"@.is_prefix_of(name) {
        if "_L"@.is_suffix_of(name) {
            BoneDirection::RibLeft
        } else {
            BoneDirection::RibRight
        }
    } else if "Clavicle"@.is_prefix_of(name) {
        if "_L"@.is_suffix_of(name) {
            BoneDirection::ClavicleLeft
        } else {
            BoneDirection::ClavicleRight
        }
    } else if "Scapula"@.is_prefix_of(name) {
        BoneDirection::BackTilted
    } else if "UpperArm"@.is_prefix_of(name) {
        if "_L"@.is_suffix_of(name) {
            BoneDirection::UpperArmLeft
        } else {
            BoneDirection::UpperArmRight
        }
    } else if has_any_prefix(name, limb_chain_prefixes()) {
        match t[i].1 {
            Some(p) => if has_any_substring(name, toe_words()) && (foot_bone_name(t[p].0) || foot_bone_name(name)) {
                BoneDirection::Forward
            } else if 0 <= p < i {
                bone_direction_of(t, p)
            } else {
                BoneDirection::Up
            },
            None => BoneDirection::Down,
        }
    } else if "MT_"@.is_prefix_of(name) {
        BoneDirection::Forward
    } else if "Femur"@.is_prefix_of(name) || "Tibia"@.is_prefix_of(name) || "Fibula"@.is_prefix_of(name) {
        BoneDirection::Down
    } else if name == "Jaw"@ {
        BoneDirection::BackTilted
    } else if name == "Sacrum"@ {
        BoneDirection::Down
    } else {
        BoneDirection::Up
    }
}

/// Whether the bone name belongs to the foot.
fn is_foot_name(name: &str) -> (r: bool)
    ensures
        r == foot_bone_name(name@),
{
    starts_with(name, "MT_") || starts_with(name, "Tibia") || starts_with(name, "Fibula") || (
    starts_with(name, "PP_") && contains_any(name, &toe_word_list())) || (starts_with(name, "MP_")
        && contains_any(name, &toe_word_list()))
}

fn limb_chain_prefix_list() -> (r: [&'static str; 6])
    ensures
        list_view(r@) == limb_chain_prefixes(),
{
    let r = ["Radius", "Ulna", "MC_", "PP_", "MP_", "DP_"];
    assert(list_view(r@) =~= limb_chain_prefixes());
    r
}

/// Whether the name starts with one of the prefixes.
fn starts_with_any(name: &str, ps: &[&str]) -> (r: bool)
    ensures
        r == has_any_prefix(name@, list_view(ps@)),
{
    let n = ps.len();
    let mut i: usize = 0;
    while i < n
        invariant
            n == ps@.len(),
            i <= n,
            forall|j: int| 0 <= j < i ==> !(#[trigger] list_view(ps@)[j]).is_prefix_of(name@),
        decreases n - i,
    {
        if starts_with(name, ps[i]) {
            assert(list_view(ps@)[i as int].is_prefix_of(name@));
            return true;
        }
        i += 1;
    }
    false
}

impl Skeleton {
    /// Whether bone `idx` belongs to the foot.
    pub fn is_foot_bone(&self, idx: usize) -> (r: bool)
        requires
            idx < self.bones@.len(),
        ensures
            r == foot_bone_name(self.names()[idx as int]),
    {
        is_foot_name(self.bones[idx].name.as_str())
    }

    /// The fallback display direction of bone `bone_idx`.
    pub fn bone_direction(&self, bone_idx: usize) -> (r: BoneDirection)
        requires
            bone_idx < self.bones@.len(),
            parents_precede(self.links()),
        ensures
            r == bone_direction_of(self.links(), bone_idx as int),
        decreases bone_idx,
    {
        let name = self.bones[bone_idx].name.as_str();
        assert(self.links()[bone_idx as int].0 == name@);
        if starts_with(name, "Rib") {
            return if ends_with(name, "_L") {
                BoneDirection::RibLeft
            } else {
                BoneDirection::RibRight
            };
        }
        if starts_with(name, "Clavicle") {
            return if ends_with(name, "_L") {
                BoneDirection::ClavicleLeft
            } else {
                BoneDirection::ClavicleRight
            };
        }
        if starts_with(name, "Scapula") {
            return BoneDirection::BackTilted;
        }
        if starts_with(name, "UpperArm") {
            return if ends_with(name, "_L") {
                BoneDirection::UpperArmLeft
            } else {
                BoneDirection::UpperArmRight
            };
        }
        if starts_with_any(name, &limb_chain_prefix_list()) {
            if let Some(parent) = self.bones[bone_idx].parent {
                assert(self.links()[bone_idx as int].1 == Some(parent.0 as int));
                assert(parent.0 < bone_idx);
                if contains_any(name, &toe_word_list()) {
                    assert(self.links()[parent.0 as int].0 == self.names()[parent.0 as int]);
                    if self.is_foot_bone(parent.0) || is_foot_name(name) {
                        return BoneDirection::Forward;
                    }
                }
                return self.bone_direction(parent.0);
            }
            return BoneDirection::Down;
        }
        if starts_with(name, "MT_") {
            return BoneDirection::Forward;
        }
        if starts_with(name, "Femur") || starts_with(name, "Tibia") || starts_with(name, "Fibula") {
            return BoneDirection::Down;
        }
        if str_eq(name, "Jaw") {
            return BoneDirection::BackTilted;
        }
        if str_eq(name, "Sacrum") {
            return BoneDirection::Down;
        }
        BoneDirection::Up
    }
}

} // verus!

verus! {

/// The first character of a name that `p` begins.
proof fn lemma_prefix_first_char(p: Seq<char>, n: Seq<char>)
    requires
        p.len() > 0,
        p.is_prefix_of(n),
    ensures
        n[0] == p[0],
{
    assert(n.subrange(0, p.len() as int)[0] == n[0]);
}

/// The side-specific directions follow the side suffix of the name: a `…_L`
/// rib, clavicle or upper arm takes the left direction and a `…_R` one the
/// right direction.
pub proof fn lemma_bone_direction_sides(t: Seq<(Seq<char>, Option<int>)>, i: int)
    requires
        0 <= i < t.len(),
    ensures
        "Rib"@.is_prefix_of(t[i].0) && "_L"@.is_suffix_of(t[i].0) ==> bone_direction_of(t, i)
            == BoneDirection::RibLeft,
        "Rib"@.is_prefix_of(t[i].0) && "_R"@.is_suffix_of(t[i].0) ==> bone_direction_of(t, i)
            == BoneDirection::RibRight,
        "Clavicle"@.is_prefix_of(t[i].0) && "_L"@.is_suffix_of(t[i].0) ==> bone_direction_of(t, i)
            == BoneDirection::ClavicleLeft,
        "Clavicle"@.is_prefix_of(t[i].0) && "_R"@.is_suffix_of(t[i].0) ==> bone_direction_of(t, i)
            == BoneDirection::ClavicleRight,
        "UpperArm"@.is_prefix_of(t[i].0) && "_L"@.is_suffix_of(t[i].0) ==> bone_direction_of(t, i)
            == BoneDirection::UpperArmLeft,
        "UpperArm"@.is_prefix_of(t[i].0) && "_R"@.is_suffix_of(t[i].0) ==> bone_direction_of(t, i)
            == BoneDirection::UpperArmRight,
{
    reveal_strlit("Rib");
    reveal_strlit("Clavicle");
    reveal_strlit("Scapula");
    reveal_strlit("UpperArm");
    reveal_strlit("_L");
    reveal_strlit("_R");
    let n = t[i].0;
    if "_R"@.is_suffix_of(n) && "_L"@.is_suffix_of(n) {
        assert(n.subrange(n.len() - 2, n.len() as int)[1] == n[n.len() - 1]);
    }
    if "Rib"@.is_prefix_of(n) {
        lemma_prefix_first_char("Rib"@, n);
    }
    if "Clavicle"@.is_prefix_of(n) {
        lemma_prefix_first_char("Clavicle"@, n);
    }
    if "Scapula"@.is_prefix_of(n) {
        lemma_prefix_first_char("Scapula"@, n);
    }
    if "UpperArm"@.is_prefix_of(n) {
        lemma_prefix_first_char("UpperArm"@, n);
    }
}

} // verus!
