//! The anatomical humanoid model: 144 bones (pelvis, spine, head, ribs,
//! shoulder girdles, arms, hands, legs and feet). Its geometry and physical
//! parameters are floating-point data kept beside this hierarchy, in the same order.

use vstd::prelude::*;
use crate::skeleton::{BoneDef, BoneId, Skeleton, bone_links, parents_precede};

verus! {

/// A hierarchy fragment: bone names and parent indices.
pub type Links = Seq<(Seq<char>, Option<int>)>;

/// The vertebrae from the bottom up: lumbar L5 to L1, thoracic T12 to T1,
/// cervical C7 to C1.
pub open spec fn vertebra_names() -> Seq<Seq<char>> {
    seq![
        "L5"@, "L4"@, "L3"@, "L2"@, "L1"@,
        "T12"@, "T11"@, "T10"@, "T9"@, "T8"@, "T7"@, "T6"@, "T5"@, "T4"@, "T3"@, "T2"@, "T1"@,
        "C7"@, "C6"@, "C5"@, "C4"@, "C3"@, "C2"@, "C1"@,
    ]
}

/// The trunk: the pelvis (root), the sacrum on it, the vertebrae in a chain
/// from the pelvis up, then the head on C1 and the jaw on the head.
pub open spec fn trunk_links() -> Links {
    seq![("Pelvis"@, None), ("Sacrum"@, Some(0int))]
        + Seq::new(24, |i: int| (vertebra_names()[i], if i == 0 { Some(0int) } else { Some(i + 1) }))
        + seq![("Head"@, Some(25int)), ("Jaw"@, Some(26int))]
}

/// The rib numbers as text.
pub open spec fn rib_numerals() -> Seq<Seq<char>> {
    seq!["1"@, "2"@, "3"@, "4"@, "5"@, "6"@, "7"@, "8"@, "9"@, "10"@, "11"@, "12"@]
}

/// A bone name for one side: `prefix`, `part`, `_`, then the side letter.
pub open spec fn sided(prefix: Seq<char>, part: Seq<char>, side: Seq<char>) -> Seq<char> {
    prefix + part + "_"@ + side
}

/// The twelve ribs of one side: rib `n` hangs on thoracic vertebra T`n`.
pub open spec fn rib_links(side: Seq<char>) -> Links {
    Seq::new(12, |i: int| (sided("Rib"@, rib_numerals()[i], side), Some(18 - i)))
}

/// The shoulder girdles (clavicles on T1, scapulae on them) and the arms
/// (upper arm on the scapula, radius and ulna on the upper arm).
pub open spec fn girdle_and_arm_links() -> Links {
    seq![
        ("Clavicle_L"@, Some(18int)),
        ("Scapula_L"@, Some(52int)),
        ("Clavicle_R"@, Some(18int)),
        ("Scapula_R"@, Some(54int)),
        ("UpperArm_L"@, Some(53int)),
        ("Radius_L"@, Some(56int)),
        ("Ulna_L"@, Some(56int)),
        ("UpperArm_R"@, Some(55int)),
        ("Radius_R"@, Some(59int)),
        ("Ulna_R"@, Some(59int)),
    ]
}

/// The legs: femurs on the pelvis, tibia and fibula on the femur.
pub open spec fn leg_links() -> Links {
    seq![
        ("Femur_L"@, Some(0int)),
        ("Tibia_L"@, Some(100int)),
        ("Fibula_L"@, Some(100int)),
        ("Femur_R"@, Some(0int)),
        ("Tibia_R"@, Some(103int)),
        ("Fibula_R"@, Some(103int)),
    ]
}

/// The fingers, and whether each has a middle phalanx.
pub open spec fn finger_digits() -> Seq<(Seq<char>, bool)> {
    seq![("Thumb"@, false), ("Index"@, true), ("Middle"@, true), ("Ring"@, true), ("Pinky"@, true)]
}

/// The toes, and whether each has a middle phalanx.
pub open spec fn toe_digits() -> Seq<(Seq<char>, bool)> {
    seq![("Hallux"@, false), ("Second"@, true), ("Third"@, true), ("Fourth"@, true), ("Fifth"@, true)]
}

/// One digit starting at bone `start`: its metacarpal / metatarsal (`base`)
/// on the limb bone `limb`, then its proximal, middle (when it has one) and
/// distal phalanges, each on the one before.
pub open spec fn digit_links(
    base: Seq<char>,
    digit: Seq<char>,
    has_middle: bool,
    side: Seq<char>,
    limb: int,
    start: int,
) -> Links {
    let first = seq![(sided(base, digit, side), Some(limb)), (sided("PP_"@, digit, side), Some(start))];
    if has_middle {
        first + seq![(sided("MP_"@, digit, side), Some(start + 1)), (sided("DP_"@, digit, side), Some(start + 2))]
    } else {
        first + seq![(sided("DP_"@, digit, side), Some(start + 1))]
    }
}

/// A hand or foot starting at bone `start`: its digits in order, each on the
/// limb bone `limb`.
pub open spec fn digits_links(base: Seq<char>, digits: Seq<(Seq<char>, bool)>, side: Seq<char>, limb: int, start: int) -> Links
    decreases digits.len(),
{
    if digits.len() == 0 {
        Seq::empty()
    } else {
        let prev = digits_links(base, digits.drop_last(), side, limb, start);
        prev + digit_links(base, digits.last().0, digits.last().1, side, limb, start + prev.len())
    }
}

/// The bones of the anatomical humanoid, in order: trunk, left and right
/// ribs, girdles and arms, left and right hands, legs, left and right feet.
pub open spec fn humanoid_links() -> Links {
    trunk_links() + rib_links("L"@) + rib_links("R"@) + girdle_and_arm_links()
        + digits_links("MC_"@, finger_digits(), "L"@, 57, 62)
        + digits_links("MC_"@, finger_digits(), "R"@, 60, 81)
        + leg_links()
        + digits_links("MT_"@, toe_digits(), "L"@, 101, 106)
        + digits_links("MT_"@, toe_digits(), "R"@, 104, 125)
}

/// Every bone of the fragment `t`, placed at index `offset`, has its parent
/// before it.
pub open spec fn precede_from(t: Links, offset: int) -> bool {
    forall|i: int| 0 <= i < t.len() ==> (#[trigger] t[i].1 matches Some(j) ==> 0 <= j < offset + i)
}

/// Two fragments placed one after the other keep their parents first.
proof fn lemma_precede_concat(a: Links, b: Links, offset: int)
    requires
        precede_from(a, offset),
        precede_from(b, offset + a.len()),
    ensures
        precede_from(a + b, offset),
{
    assert forall|i: int| 0 <= i < (a + b).len() implies (#[trigger] (a + b)[i].1 matches Some(j) ==> 0 <= j < offset + i) by {
        if i < a.len() {
            assert((a + b)[i] == a[i]);
        } else {
            assert((a + b)[i] == b[i - a.len()]);
        }
    }
}

/// A hand or foot has four or three bones per digit, its parents first.
proof fn lemma_digits_links(base: Seq<char>, digits: Seq<(Seq<char>, bool)>, side: Seq<char>, limb: int, start: int)
    requires
        0 <= limb < start,
    ensures
        precede_from(digits_links(base, digits, side, limb, start), start),
    decreases digits.len(),
{
    if digits.len() > 0 {
        let prev = digits_links(base, digits.drop_last(), side, limb, start);
        lemma_digits_links(base, digits.drop_last(), side, limb, start);
        let d = digit_links(base, digits.last().0, digits.last().1, side, limb, start + prev.len());
        assert(precede_from(d, start + prev.len()));
        lemma_precede_concat(prev, d, start);
    }
}

/// A hand or foot of five digits, one without a middle phalanx, has 19 bones.
proof fn lemma_five_digits_len(base: Seq<char>, digits: Seq<(Seq<char>, bool)>, side: Seq<char>, limb: int, start: int)
    requires
        digits.len() == 5,
        !digits[0].1,
        digits[1].1,
        digits[2].1,
        digits[3].1,
        digits[4].1,
    ensures
        digits_links(base, digits, side, limb, start).len() == 19,
{
    let d1 = digits.subrange(0, 1);
    let d2 = digits.subrange(0, 2);
    let d3 = digits.subrange(0, 3);
    let d4 = digits.subrange(0, 4);
    assert(d1.drop_last() =~= Seq::<(Seq<char>, bool)>::empty());
    assert(d2.drop_last() =~= d1);
    assert(d3.drop_last() =~= d2);
    assert(d4.drop_last() =~= d3);
    assert(digits.drop_last() =~= d4);
    assert(digits_links(base, d1.drop_last(), side, limb, start).len() == 0);
    assert(d1.last() == digits[0] && d2.last() == digits[1] && d3.last() == digits[2] && d4.last() == digits[3]);
    assert(digits_links(base, d1, side, limb, start).len() == 3);
    assert(digits_links(base, d2, side, limb, start).len() == 7);
    assert(digits_links(base, d3, side, limb, start).len() == 11);
    assert(digits_links(base, d4, side, limb, start).len() == 15);
}

/// In the anatomical humanoid every bone's parent comes before it.
pub proof fn lemma_humanoid_parents_precede()
    ensures
        humanoid_links().len() == 144,
        parents_precede(humanoid_links()),
{
    let trunk = trunk_links();
    assert(precede_from(trunk, 0)) by {
        assert forall|i: int| 0 <= i < trunk.len() implies (#[trigger] trunk[i].1 matches Some(j) ==> 0 <= j < i) by {
            if 2 <= i < 26 {
                assert(trunk[i] == (vertebra_names()[i - 2], if i == 2 { Some(0int) } else { Some(i - 1) }));
            }
        }
    }
    assert(precede_from(rib_links("L"@), 28));
    assert(precede_from(rib_links("R"@), 40));
    assert(precede_from(girdle_and_arm_links(), 52));
    lemma_digits_links("MC_"@, finger_digits(), "L"@, 57, 62);
    lemma_digits_links("MC_"@, finger_digits(), "R"@, 60, 81);
    lemma_five_digits_len("MC_"@, finger_digits(), "L"@, 57, 62);
    lemma_five_digits_len("MC_"@, finger_digits(), "R"@, 60, 81);
    assert(precede_from(leg_links(), 100));
    lemma_digits_links("MT_"@, toe_digits(), "L"@, 101, 106);
    lemma_digits_links("MT_"@, toe_digits(), "R"@, 104, 125);
    lemma_five_digits_len("MT_"@, toe_digits(), "L"@, 101, 106);
    lemma_five_digits_len("MT_"@, toe_digits(), "R"@, 104, 125);
    let a1 = trunk + rib_links("L"@);
    lemma_precede_concat(trunk, rib_links("L"@), 0);
    let a2 = a1 + rib_links("R"@);
    lemma_precede_concat(a1, rib_links("R"@), 0);
    let a3 = a2 + girdle_and_arm_links();
    lemma_precede_concat(a2, girdle_and_arm_links(), 0);
    let a4 = a3 + digits_links("MC_"@, finger_digits(), "L"@, 57, 62);
    lemma_precede_concat(a3, digits_links("MC_"@, finger_digits(), "L"@, 57, 62), 0);
    let a5 = a4 + digits_links("MC_"@, finger_digits(), "R"@, 60, 81);
    lemma_precede_concat(a4, digits_links("MC_"@, finger_digits(), "R"@, 60, 81), 0);
    let a6 = a5 + leg_links();
    lemma_precede_concat(a5, leg_links(), 0);
    let a7 = a6 + digits_links("MT_"@, toe_digits(), "L"@, 101, 106);
    lemma_precede_concat(a6, digits_links("MT_"@, toe_digits(), "L"@, 101, 106), 0);
    lemma_precede_concat(a7, digits_links("MT_"@, toe_digits(), "R"@, 104, 125), 0);
}

} // verus!

verus! {

/// Appends a bone, not of a glTF skeleton, with its parent.
fn add_bone(bones: &mut Vec<BoneDef>, name: String, parent: Option<usize>)
    requires
        forall|j: int| 0 <= j < old(bones)@.len() ==> !(#[trigger] old(bones)@[j]).use_direct_offset,
    ensures
        bone_links(final(bones)@) == bone_links(old(bones)@).push(
            (name@, match parent { Some(p) => Some(p as int), None => None }),
        ),
        final(bones)@.len() == old(bones)@.len() + 1,
        forall|j: int| 0 <= j < final(bones)@.len() ==> !(#[trigger] final(bones)@[j]).use_direct_offset,
{
    let ghost before = bones@;
    bones.push(
        BoneDef {
            name,
            parent: match parent {
                Some(p) => Some(BoneId(p)),
                None => None,
            },
            use_direct_offset: false,
        },
    );
    assert(bone_links(bones@) =~= bone_links(before).push(
        (name@, match parent { Some(p) => Some(p as int), None => None }),
    ));
}

/// `prefix`, `part`, `_`, then `side`.
fn sided_name(prefix: &str, part: &str, side: &str) -> (r: String)
    ensures
        r@ == sided(prefix@, part@, side@),
{
    let mut n = prefix.to_owned();
    n.append(part);
    n.append("_");
    n.append(side);
    n
}

/// The vertebra names as an array.
fn vertebra_list() -> (r: [&'static str; 24])
    ensures
        r@.map_values(|s: &str| s@) == vertebra_names(),
{
    let r = [
        "L5", "L4", "L3", "L2", "L1",
        "T12", "T11", "T10", "T9", "T8", "T7", "T6", "T5", "T4", "T3", "T2", "T1",
        "C7", "C6", "C5", "C4", "C3", "C2", "C1",
    ];
    assert(r@.map_values(|s: &str| s@) =~= vertebra_names());
    r
}

/// The rib numerals as an array.
fn rib_numeral_list() -> (r: [&'static str; 12])
    ensures
        r@.map_values(|s: &str| s@) == rib_numerals(),
{
    let r = ["1", "2", "3", "4", "5", "6", "7", "8", "9", "10", "11", "12"];
    assert(r@.map_values(|s: &str| s@) =~= rib_numerals());
    r
}

/// The girdle and arm bones as an array.
fn girdle_and_arm_list() -> (r: [(&'static str, usize); 10])
    ensures
        r@.map_values(|e: (&str, usize)| (e.0@, Some(e.1 as int))) == girdle_and_arm_links(),
{
    let r = [
        ("Clavicle_L", 18usize),
        ("Scapula_L", 52usize),
        ("Clavicle_R", 18usize),
        ("Scapula_R", 54usize),
        ("UpperArm_L", 53usize),
        ("Radius_L", 56usize),
        ("Ulna_L", 56usize),
        ("UpperArm_R", 55usize),
        ("Radius_R", 59usize),
        ("Ulna_R", 59usize),
    ];
    assert(r@.map_values(|e: (&str, usize)| (e.0@, Some(e.1 as int))) =~= girdle_and_arm_links());
    r
}

/// The leg bones as an array.
fn leg_list() -> (r: [(&'static str, usize); 6])
    ensures
        r@.map_values(|e: (&str, usize)| (e.0@, Some(e.1 as int))) == leg_links(),
{
    let r = [
        ("Femur_L", 0usize),
        ("Tibia_L", 100usize),
        ("Fibula_L", 100usize),
        ("Femur_R", 0usize),
        ("Tibia_R", 103usize),
        ("Fibula_R", 103usize),
    ];
    assert(r@.map_values(|e: (&str, usize)| (e.0@, Some(e.1 as int))) =~= leg_links());
    r
}

/// The fingers as an array.
fn finger_list() -> (r: [(&'static str, bool); 5])
    ensures
        r@.map_values(|e: (&str, bool)| (e.0@, e.1)) == finger_digits(),
{
    let r = [("Thumb", false), ("Index", true), ("Middle", true), ("Ring", true), ("Pinky", true)];
    assert(r@.map_values(|e: (&str, bool)| (e.0@, e.1)) =~= finger_digits());
    r
}

/// The toes as an array.
fn toe_list() -> (r: [(&'static str, bool); 5])
    ensures
        r@.map_values(|e: (&str, bool)| (e.0@, e.1)) == toe_digits(),
{
    let r = [("Hallux", false), ("Second", true), ("Third", true), ("Fourth", true), ("Fifth", true)];
    assert(r@.map_values(|e: (&str, bool)| (e.0@, e.1)) =~= toe_digits());
    r
}

/// Appends bones named and parented as listed.
fn add_listed(bones: &mut Vec<BoneDef>, t: &[(&'static str, usize)])
    requires
        forall|j: int| 0 <= j < old(bones)@.len() ==> !(#[trigger] old(bones)@[j]).use_direct_offset,
    ensures
        bone_links(final(bones)@) == bone_links(old(bones)@) + t@.map_values(
            |e: (&str, usize)| (e.0@, Some(e.1 as int)),
        ),
        final(bones)@.len() == old(bones)@.len() + t@.len(),
        forall|j: int| 0 <= j < final(bones)@.len() ==> !(#[trigger] final(bones)@[j]).use_direct_offset,
{
    let ghost tv = t@.map_values(|e: (&str, usize)| (e.0@, Some(e.1 as int)));
    let ghost start = bone_links(old(bones)@);
    let n = t.len();
    let mut i: usize = 0;
    while i < n
        invariant
            n == t@.len(),
            i <= n,
            tv == t@.map_values(|e: (&str, usize)| (e.0@, Some(e.1 as int))),
            bone_links(bones@) == start + tv.subrange(0, i as int),
            bones@.len() == start.len() + i,
            forall|j: int| 0 <= j < bones@.len() ==> !(#[trigger] bones@[j]).use_direct_offset,
        decreases n - i,
    {
        let (name, parent) = t[i];
        add_bone(bones, name.to_owned(), Some(parent));
        assert(start + tv.subrange(0, i + 1) =~= (start + tv.subrange(0, i as int)).push(tv[i as int]));
        i += 1;
    }
    assert(tv.subrange(0, n as int) =~= tv);
}

/// Appends the ribs of one side.
fn add_ribs(bones: &mut Vec<BoneDef>, side: &str)
    requires
        forall|j: int| 0 <= j < old(bones)@.len() ==> !(#[trigger] old(bones)@[j]).use_direct_offset,
    ensures
        bone_links(final(bones)@) == bone_links(old(bones)@) + rib_links(side@),
        final(bones)@.len() == old(bones)@.len() + 12,
        forall|j: int| 0 <= j < final(bones)@.len() ==> !(#[trigger] final(bones)@[j]).use_direct_offset,
{
    let numerals = rib_numeral_list();
    let ghost start = bone_links(old(bones)@);
    let ghost ribs = rib_links(side@);
    let mut i: usize = 0;
    while i < 12
        invariant
            i <= 12,
            numerals@.map_values(|s: &str| s@) == rib_numerals(),
            ribs == rib_links(side@),
            bone_links(bones@) == start + ribs.subrange(0, i as int),
            bones@.len() == start.len() + i,
            forall|j: int| 0 <= j < bones@.len() ==> !(#[trigger] bones@[j]).use_direct_offset,
        decreases 12 - i,
    {
        let name = sided_name("Rib", numerals[i], side);
        assert(numerals@[i as int]@ == rib_numerals()[i as int]);
        add_bone(bones, name, Some(18 - i));
        assert(ribs[i as int] == (name@, Some(18 - i as int)));
        assert(start + ribs.subrange(0, i + 1) =~= (start + ribs.subrange(0, i as int)).push(ribs[i as int]));
        i += 1;
    }
    assert(ribs.subrange(0, 12) =~= ribs);
}

/// Appends the digits of a hand or foot on the limb bone `limb`.
fn add_digits(bones: &mut Vec<BoneDef>, base: &str, digits: &[(&'static str, bool)], side: &str, limb: usize)
    requires
        forall|j: int| 0 <= j < old(bones)@.len() ==> !(#[trigger] old(bones)@[j]).use_direct_offset,
        old(bones)@.len() + 4 * digits@.len() < usize::MAX,
    ensures
        bone_links(final(bones)@) == bone_links(old(bones)@) + digits_links(
            base@,
            digits@.map_values(|e: (&str, bool)| (e.0@, e.1)),
            side@,
            limb as int,
            old(bones)@.len() as int,
        ),
        final(bones)@.len() == old(bones)@.len() + digits_links(
            base@,
            digits@.map_values(|e: (&str, bool)| (e.0@, e.1)),
            side@,
            limb as int,
            old(bones)@.len() as int,
        ).len(),
        forall|j: int| 0 <= j < final(bones)@.len() ==> !(#[trigger] final(bones)@[j]).use_direct_offset,
{
    let ghost dv = digits@.map_values(|e: (&str, bool)| (e.0@, e.1));
    let ghost start = bone_links(old(bones)@);
    let ghost s0 = old(bones)@.len() as int;
    let n = digits.len();
    let mut d: usize = 0;
    while d < n
        invariant
            n == digits@.len(),
            d <= n,
            dv == digits@.map_values(|e: (&str, bool)| (e.0@, e.1)),
            s0 == start.len(),
            s0 + 4 * n < usize::MAX,
            bone_links(bones@) == start + digits_links(base@, dv.subrange(0, d as int), side@, limb as int, s0),
            bones@.len() == s0 + digits_links(base@, dv.subrange(0, d as int), side@, limb as int, s0).len(),
            bones@.len() <= s0 + 4 * d,
            forall|j: int| 0 <= j < bones@.len() ==> !(#[trigger] bones@[j]).use_direct_offset,
        decreases n - d,
    {
        let ghost prev = digits_links(base@, dv.subrange(0, d as int), side@, limb as int, s0);
        assert(dv.subrange(0, d + 1).drop_last() =~= dv.subrange(0, d as int));
        assert(dv.subrange(0, d + 1).last() == dv[d as int]);
        let (digit, has_middle) = digits[d];
        assert(dv[d as int] == (digit@, has_middle));
        let here = bones.len();
        assert(here == s0 + prev.len());
        let ghost piece = digit_links(base@, digit@, has_middle, side@, limb as int, here as int);
        add_bone(bones, sided_name(base, digit, side), Some(limb));
        add_bone(bones, sided_name("PP_", digit, side), Some(here));
        if has_middle {
            add_bone(bones, sided_name("MP_", digit, side), Some(here + 1));
            add_bone(bones, sided_name("DP_", digit, side), Some(here + 2));
        } else {
            add_bone(bones, sided_name("DP_", digit, side), Some(here + 1));
        }
        assert(bone_links(bones@) =~= start + prev + piece);
        assert(start + prev + piece =~= start + (prev + piece));
        d += 1;
    }
    assert(dv.subrange(0, n as int) =~= dv);
}

impl Skeleton {
    /// The anatomical humanoid hierarchy (144 bones; see [`humanoid_links`]).
    pub fn humanoid() -> (r: Skeleton)
        ensures
            r.links() == humanoid_links(),
            parents_precede(r.links()),
            forall|i: int| 0 <= i < r.bones@.len() ==> !(#[trigger] r.bones@[i]).use_direct_offset,
    {
        let mut bones: Vec<BoneDef> = Vec::new();
        add_bone(&mut bones, "Pelvis".to_owned(), None);
        add_bone(&mut bones, "Sacrum".to_owned(), Some(0));
        let vertebrae = vertebra_list();
        let ghost head = seq![("Pelvis"@, None::<int>), ("Sacrum"@, Some(0int))];
        let ghost spine = Seq::new(24, |i: int| (vertebra_names()[i], if i == 0 { Some(0int) } else { Some(i + 1) }));
        assert(bone_links(bones@) =~= head);
        let mut i: usize = 0;
        while i < 24
            invariant
                i <= 24,
                vertebrae@.map_values(|s: &str| s@) == vertebra_names(),
                spine == Seq::new(24, |i: int| (vertebra_names()[i], if i == 0 { Some(0int) } else { Some(i + 1) })),
                bone_links(bones@) == head + spine.subrange(0, i as int),
                bones@.len() == 2 + i,
                forall|j: int| 0 <= j < bones@.len() ==> !(#[trigger] bones@[j]).use_direct_offset,
            decreases 24 - i,
        {
            let parent = if i == 0 { 0 } else { i + 1 };
            assert(vertebrae@[i as int]@ == vertebra_names()[i as int]);
            add_bone(&mut bones, vertebrae[i].to_owned(), Some(parent));
            assert(head + spine.subrange(0, i + 1) =~= (head + spine.subrange(0, i as int)).push(spine[i as int]));
            i += 1;
        }
        add_bone(&mut bones, "Head".to_owned(), Some(25));
        add_bone(&mut bones, "Jaw".to_owned(), Some(26));
        assert(bone_links(bones@) =~= trunk_links());
        add_ribs(&mut bones, "L");
        add_ribs(&mut bones, "R");
        add_listed(&mut bones, &girdle_and_arm_list());
        let ghost a3 = bone_links(bones@);
        assert(a3.len() == 62);
        let fingers = finger_list();
        proof {
            lemma_five_digits_len("MC_"@, finger_digits(), "L"@, 57, 62);
            lemma_five_digits_len("MC_"@, finger_digits(), "R"@, 60, 81);
            lemma_five_digits_len("MT_"@, toe_digits(), "L"@, 101, 106);
            lemma_five_digits_len("MT_"@, toe_digits(), "R"@, 104, 125);
        }
        add_digits(&mut bones, "MC_", &fingers, "L", 57);
        add_digits(&mut bones, "MC_", &fingers, "R", 60);
        add_listed(&mut bones, &leg_list());
        let toes = toe_list();
        add_digits(&mut bones, "MT_", &toes, "L", 101);
        add_digits(&mut bones, "MT_", &toes, "R", 104);
        proof {
            lemma_humanoid_parents_precede();
        }
        Skeleton { bones }
    }
}

} // verus!

verus! {

/// The side letter of a bone name that ends in `_` and a letter (`L`, `R`);
/// none for the bones of the trunk.
pub open spec fn side_of(name: Seq<char>) -> Option<char> {
    if name.len() >= 2 && name[name.len() - 2] == '_' {
        Some(name.last())
    } else {
        None
    }
}

/// Every bone of the fragment `t` of the hierarchy `whole` hangs from a bone
/// of `whole` of its own side or from a bone of the trunk, and a trunk bone
/// hangs from a trunk bone.
pub open spec fn sides_agree_in(t: Links, whole: Links) -> bool {
    forall|i: int|
        0 <= i < t.len() ==> (#[trigger] t[i].1 matches Some(q) ==> 0 <= q < whole.len() && (side_of(
            whole[q].0,
        ) is None || side_of(whole[q].0) == side_of(t[i].0)))
}

/// A name built for one side carries that side.
proof fn lemma_sided_side(prefix: Seq<char>, part: Seq<char>, side: Seq<char>)
    requires
        side.len() == 1,
    ensures
        side_of(sided(prefix, part, side)) == Some(side[0]),
{
    reveal_strlit("_");
    let n = sided(prefix, part, side);
    assert(n[n.len() - 2] == '_');
    assert(n.last() == side[0]);
}

/// Every bone of a hand or foot carries its side and hangs from the limb bone
/// or from an earlier bone of the hand or foot.
proof fn lemma_digits_shape(base: Seq<char>, digits: Seq<(Seq<char>, bool)>, side: Seq<char>, limb: int, start: int)
    requires
        side.len() == 1,
    ensures
        forall|j: int|
            0 <= j < digits_links(base, digits, side, limb, start).len() ==> {
                let e = #[trigger] digits_links(base, digits, side, limb, start)[j];
                &&& side_of(e.0) == Some(side[0])
                &&& e.1 == Some(limb) || (e.1 matches Some(q) && start <= q < start + j)
            },
    decreases digits.len(),
{
    if digits.len() > 0 {
        let prev = digits_links(base, digits.drop_last(), side, limb, start);
        lemma_digits_shape(base, digits.drop_last(), side, limb, start);
        let s = start + prev.len();
        let dg = digits.last().0;
        let d = digit_links(base, dg, digits.last().1, side, limb, s);
        lemma_sided_side(base, dg, side);
        lemma_sided_side("PP_"@, dg, side);
        lemma_sided_side("MP_"@, dg, side);
        lemma_sided_side("DP_"@, dg, side);
        let all = digits_links(base, digits, side, limb, start);
        assert forall|j: int| 0 <= j < all.len() implies {
            let e = #[trigger] all[j];
            &&& side_of(e.0) == Some(side[0])
            &&& e.1 == Some(limb) || (e.1 matches Some(q) && start <= q < start + j)
        } by {
            if j < prev.len() {
                assert(all[j] == prev[j]);
            } else {
                assert(all[j] == d[j - prev.len()]);
            }
        }
    }
}

} // verus!

verus! {

/// The trunk bones carry no side and hang from trunk bones.
proof fn lemma_trunk_unsided()
    ensures
        trunk_links().len() == 28,
        forall|i: int|
            0 <= i < 28 ==> side_of((#[trigger] trunk_links()[i]).0) is None && (trunk_links()[i].1 matches Some(
                q,
            ) ==> 0 <= q < 28),
{
    reveal_strlit("Pelvis");
    reveal_strlit("Sacrum");
    reveal_strlit("Head");
    reveal_strlit("Jaw");
    reveal_strlit("L5");
    reveal_strlit("L4");
    reveal_strlit("L3");
    reveal_strlit("L2");
    reveal_strlit("L1");
    reveal_strlit("T12");
    reveal_strlit("T11");
    reveal_strlit("T10");
    reveal_strlit("T9");
    reveal_strlit("T8");
    reveal_strlit("T7");
    reveal_strlit("T6");
    reveal_strlit("T5");
    reveal_strlit("T4");
    reveal_strlit("T3");
    reveal_strlit("T2");
    reveal_strlit("T1");
    reveal_strlit("C7");
    reveal_strlit("C6");
    reveal_strlit("C5");
    reveal_strlit("C4");
    reveal_strlit("C3");
    reveal_strlit("C2");
    reveal_strlit("C1");
    let t = trunk_links();
    let v = vertebra_names();
    assert forall|i: int| 0 <= i < 28 implies side_of((#[trigger] t[i]).0) is None && (t[i].1 matches Some(q)
        ==> 0 <= q < 28) by {
        if 2 <= i < 26 {
            assert(t[i] == (v[i - 2], if i == 2 { Some(0int) } else { Some(i - 1) }));
            if i == 2 {
                assert(v[i - 2] == "L5"@);
            } else if i == 3 {
                assert(v[i - 2] == "L4"@);
            } else if i == 4 {
                assert(v[i - 2] == "L3"@);
            } else if i == 5 {
                assert(v[i - 2] == "L2"@);
            } else if i == 6 {
                assert(v[i - 2] == "L1"@);
            } else if i == 7 {
                assert(v[i - 2] == "T12"@);
            } else if i == 8 {
                assert(v[i - 2] == "T11"@);
            } else if i == 9 {
                assert(v[i - 2] == "T10"@);
            } else if i == 10 {
                assert(v[i - 2] == "T9"@);
            } else if i == 11 {
                assert(v[i - 2] == "T8"@);
            } else if i == 12 {
                assert(v[i - 2] == "T7"@);
            } else if i == 13 {
                assert(v[i - 2] == "T6"@);
            } else if i == 14 {
                assert(v[i - 2] == "T5"@);
            } else if i == 15 {
                assert(v[i - 2] == "T4"@);
            } else if i == 16 {
                assert(v[i - 2] == "T3"@);
            } else if i == 17 {
                assert(v[i - 2] == "T2"@);
            } else if i == 18 {
                assert(v[i - 2] == "T1"@);
            } else if i == 19 {
                assert(v[i - 2] == "C7"@);
            } else if i == 20 {
                assert(v[i - 2] == "C6"@);
            } else if i == 21 {
                assert(v[i - 2] == "C5"@);
            } else if i == 22 {
                assert(v[i - 2] == "C4"@);
            } else if i == 23 {
                assert(v[i - 2] == "C3"@);
            } else if i == 24 {
                assert(v[i - 2] == "C2"@);
            } else if i == 25 {
                assert(v[i - 2] == "C1"@);
            }
        }
    }
}

/// Fragments that each keep the sides keep them together.
proof fn lemma_sides_agree_concat(a: Links, b: Links, whole: Links)
    requires
        sides_agree_in(a, whole),
        sides_agree_in(b, whole),
    ensures
        sides_agree_in(a + b, whole),
{
    assert forall|i: int| 0 <= i < (a + b).len() implies (#[trigger] (a + b)[i].1 matches Some(q) ==> 0 <= q
        < whole.len() && (side_of(whole[q].0) is None || side_of(whole[q].0) == side_of((a + b)[i].0))) by {
        if i < a.len() {
            assert((a + b)[i] == a[i]);
        } else {
            assert((a + b)[i] == b[i - a.len()]);
        }
    }
}

/// In the anatomical humanoid every bone hangs from a bone of its own side or
/// from the trunk: the left ribs, shoulder girdle, arm, hand, leg and foot hang
/// from left bones or the spine and pelvis, the right ones likewise, and the
/// trunk from the trunk alone.
pub proof fn lemma_humanoid_sides()
    ensures
        sides_agree_in(humanoid_links(), humanoid_links()),
{
    reveal_strlit("Clavicle_L");
    reveal_strlit("Scapula_L");
    reveal_strlit("Clavicle_R");
    reveal_strlit("Scapula_R");
    reveal_strlit("UpperArm_L");
    reveal_strlit("Radius_L");
    reveal_strlit("Ulna_L");
    reveal_strlit("UpperArm_R");
    reveal_strlit("Radius_R");
    reveal_strlit("Ulna_R");
    reveal_strlit("Femur_L");
    reveal_strlit("Tibia_L");
    reveal_strlit("Fibula_L");
    reveal_strlit("Femur_R");
    reveal_strlit("Tibia_R");
    reveal_strlit("Fibula_R");
    reveal_strlit("L");
    reveal_strlit("R");
    let w = humanoid_links();
    lemma_humanoid_parents_precede();
    lemma_trunk_unsided();
    let trunk = trunk_links();
    let rl = rib_links("L"@);
    let rr = rib_links("R"@);
    let ga = girdle_and_arm_links();
    let fl = digits_links("MC_"@, finger_digits(), "L"@, 57, 62);
    let fr = digits_links("MC_"@, finger_digits(), "R"@, 60, 81);
    let lg = leg_links();
    let tl = digits_links("MT_"@, toe_digits(), "L"@, 101, 106);
    let tr = digits_links("MT_"@, toe_digits(), "R"@, 104, 125);
    lemma_five_digits_len("MC_"@, finger_digits(), "L"@, 57, 62);
    lemma_five_digits_len("MC_"@, finger_digits(), "R"@, 60, 81);
    lemma_five_digits_len("MT_"@, toe_digits(), "L"@, 101, 106);
    lemma_five_digits_len("MT_"@, toe_digits(), "R"@, 104, 125);
    lemma_digits_shape("MC_"@, finger_digits(), "L"@, 57, 62);
    lemma_digits_shape("MC_"@, finger_digits(), "R"@, 60, 81);
    lemma_digits_shape("MT_"@, toe_digits(), "L"@, 101, 106);
    lemma_digits_shape("MT_"@, toe_digits(), "R"@, 104, 125);
    let a1 = trunk + rl;
    let a2 = a1 + rr;
    let a3 = a2 + ga;
    let a4 = a3 + fl;
    let a5 = a4 + fr;
    let a6 = a5 + lg;
    let a7 = a6 + tl;
    assert(w == a7 + tr);
    assert forall|q: int| 0 <= q < 28 implies #[trigger] w[q] == trunk[q] by {
        assert(a1[q] == trunk[q]);
        assert(a7[q] == a1[q]);
    }
    assert forall|q: int| 52 <= q < 62 implies #[trigger] w[q] == ga[q - 52] by {
        assert(a3[q] == ga[q - 52]);
        assert(a7[q] == a3[q]);
    }
    assert forall|q: int| 62 <= q < 81 implies #[trigger] w[q] == fl[q - 62] by {
        assert(a4[q] == fl[q - 62]);
        assert(a7[q] == a4[q]);
    }
    assert forall|q: int| 81 <= q < 100 implies #[trigger] w[q] == fr[q - 81] by {
        assert(a5[q] == fr[q - 81]);
        assert(a7[q] == a5[q]);
    }
    assert forall|q: int| 100 <= q < 106 implies #[trigger] w[q] == lg[q - 100] by {
        assert(a6[q] == lg[q - 100]);
        assert(a7[q] == a6[q]);
    }
    assert forall|q: int| 106 <= q < 125 implies #[trigger] w[q] == tl[q - 106] by {
        assert(a7[q] == tl[q - 106]);
    }
    assert forall|q: int| 125 <= q < 144 implies #[trigger] w[q] == tr[q - 125] by {}
    assert(sides_agree_in(trunk, w)) by {
        assert forall|i: int| 0 <= i < trunk.len() implies (#[trigger] trunk[i].1 matches Some(q) ==> 0 <= q
            < w.len() && (side_of(w[q].0) is None || side_of(w[q].0) == side_of(trunk[i].0))) by {
            if let Some(q) = trunk[i].1 {
                assert(w[q] == trunk[q]);
            }
        }
    }
    assert(sides_agree_in(rl, w)) by {
        assert forall|i: int| 0 <= i < rl.len() implies (#[trigger] rl[i].1 matches Some(q) ==> 0 <= q < w.len()
            && (side_of(w[q].0) is None || side_of(w[q].0) == side_of(rl[i].0))) by {
            assert(w[18 - i] == trunk[18 - i]);
        }
    }
    assert(sides_agree_in(rr, w)) by {
        assert forall|i: int| 0 <= i < rr.len() implies (#[trigger] rr[i].1 matches Some(q) ==> 0 <= q < w.len()
            && (side_of(w[q].0) is None || side_of(w[q].0) == side_of(rr[i].0))) by {
            assert(w[18 - i] == trunk[18 - i]);
        }
    }
    assert(sides_agree_in(ga, w)) by {
        assert(w[18] == trunk[18]);
        assert forall|i: int| 0 <= i < ga.len() implies (#[trigger] ga[i].1 matches Some(q) ==> 0 <= q < w.len()
            && (side_of(w[q].0) is None || side_of(w[q].0) == side_of(ga[i].0))) by {
            if let Some(q) = ga[i].1 {
                if q >= 52 {
                    assert(w[q] == ga[q - 52]);
                }
            }
        }
    }
    assert(sides_agree_in(lg, w)) by {
        assert(w[0] == trunk[0]);
        assert forall|i: int| 0 <= i < lg.len() implies (#[trigger] lg[i].1 matches Some(q) ==> 0 <= q < w.len()
            && (side_of(w[q].0) is None || side_of(w[q].0) == side_of(lg[i].0))) by {
            if let Some(q) = lg[i].1 {
                if q >= 100 {
                    assert(w[q] == lg[q - 100]);
                }
            }
        }
    }
    assert(sides_agree_in(fl, w)) by {
        assert(w[57] == ga[5]);
        assert forall|i: int| 0 <= i < fl.len() implies (#[trigger] fl[i].1 matches Some(q) ==> 0 <= q < w.len()
            && (side_of(w[q].0) is None || side_of(w[q].0) == side_of(fl[i].0))) by {
            if let Some(q) = fl[i].1 {
                if q != 57 {
                    assert(w[q] == fl[q - 62]);
                }
            }
        }
    }
    assert(sides_agree_in(fr, w)) by {
        assert(w[60] == ga[8]);
        assert forall|i: int| 0 <= i < fr.len() implies (#[trigger] fr[i].1 matches Some(q) ==> 0 <= q < w.len()
            && (side_of(w[q].0) is None || side_of(w[q].0) == side_of(fr[i].0))) by {
            if let Some(q) = fr[i].1 {
                if q != 60 {
                    assert(w[q] == fr[q - 81]);
                }
            }
        }
    }
    assert(sides_agree_in(tl, w)) by {
        assert(w[101] == lg[1]);
        assert forall|i: int| 0 <= i < tl.len() implies (#[trigger] tl[i].1 matches Some(q) ==> 0 <= q < w.len()
            && (side_of(w[q].0) is None || side_of(w[q].0) == side_of(tl[i].0))) by {
            if let Some(q) = tl[i].1 {
                if q != 101 {
                    assert(w[q] == tl[q - 106]);
                }
            }
        }
    }
    assert(sides_agree_in(tr, w)) by {
        assert(w[104] == lg[4]);
        assert forall|i: int| 0 <= i < tr.len() implies (#[trigger] tr[i].1 matches Some(q) ==> 0 <= q < w.len()
            && (side_of(w[q].0) is None || side_of(w[q].0) == side_of(tr[i].0))) by {
            if let Some(q) = tr[i].1 {
                if q != 104 {
                    assert(w[q] == tr[q - 125]);
                }
            }
        }
    }
    lemma_sides_agree_concat(trunk, rl, w);
    lemma_sides_agree_concat(a1, rr, w);
    lemma_sides_agree_concat(a2, ga, w);
    lemma_sides_agree_concat(a3, fl, w);
    lemma_sides_agree_concat(a4, fr, w);
    lemma_sides_agree_concat(a5, lg, w);
    lemma_sides_agree_concat(a6, tl, w);
    lemma_sides_agree_concat(a7, tr, w);
}

} // verus!
