//! Retargeting Mixamo / Ready Player Me animation samples onto the nodes of a
//! VRM model: which sample or default pose drives each node, and how the
//! sample's Euler angles are re-axed. (The angles themselves are
//! floating-point data that the caller applies.)

use vstd::prelude::*;
use vstd::hash_map::StringHashMap;
use crate::loader::{entries_view, insert_all, node_map};
use crate::names::{is_arm_bone, is_upper_leg, mixamo_to_vrm_name, mixamo_vrm_table};
use crate::table::assoc;
use crate::text::starts_with;

verus! {

/// How a sample's Euler angles `[x, y, z]` are re-axed for its VRM bone.
#[derive(Debug, Clone, Copy, PartialEq, Eq)]
pub enum AxisConversion {
    /// `[x, y, z]` as is.
    Keep,
    /// Upper legs: `[-x, y, z]` (the forward swing).
    NegateX,
    /// Left upper arm: `[0, x, 0]` (the swing moves to Y).
    SwingFromX,
    /// Right upper arm: `[0, -x, 0]`.
    SwingFromNegatedX,
}

/// What drives a node's rotation.
#[derive(Debug, Clone, Copy, PartialEq, Eq)]
pub enum RotationSource {
    /// Sample `i` of the animation, re-axed.
    Sample(usize, AxisConversion),
    /// Entry `i` of the default pose, as is.
    Default(usize),
}

/// The node that an animation sample for bone `name` drives: through the
/// bone's VRM name when the model maps it, else through the name itself.
pub open spec fn sample_node(m: Map<Seq<char>, usize>, name: Seq<char>) -> Option<usize> {
    let by_vrm = match assoc(mixamo_vrm_table(), name) {
        Some(vn) => if m.contains_key(vn) {
            Some(m[vn])
        } else {
            None
        },
        None => None,
    };
    if by_vrm is Some {
        by_vrm
    } else if m.contains_key(name) {
        Some(m[name])
    } else {
        None
    }
}

/// The re-axing of a sample for bone `name`, by its VRM name.
pub open spec fn axis_conversion(name: Seq<char>) -> AxisConversion {
    let vn = match assoc(mixamo_vrm_table(), name) {
        Some(v) => v,
        None => Seq::empty(),
    };
    if vn == "leftUpperLeg"@ || vn == "rightUpperLeg"@ {
        AxisConversion::NegateX
    } else if vn == "leftUpperArm"@ || vn == "rightUpperArm"@ {
        if "right"@.is_prefix_of(vn) {
            AxisConversion::SwingFromNegatedX
        } else {
            AxisConversion::SwingFromX
        }
    } else {
        AxisConversion::Keep
    }
}

/// The rotation sources of `node_count` nodes after the first `k` samples:
/// each sample that reaches a node in range drives it (later samples win).
pub open spec fn plan_samples(m: Map<Seq<char>, usize>, samples: Seq<Seq<char>>, node_count: nat, k: nat) -> Seq<
    Option<RotationSource>,
>
    decreases k,
{
    if k == 0 {
        Seq::new(node_count, |i: int| None)
    } else {
        let prev = plan_samples(m, samples, node_count, (k - 1) as nat);
        match sample_node(m, samples[k - 1]) {
            Some(idx) => if idx < node_count {
                prev.update(idx as int, Some(RotationSource::Sample((k - 1) as usize, axis_conversion(samples[k - 1]))))
            } else {
                prev
            },
            None => prev,
        }
    }
}

/// The rotation sources after the first `k` default-pose entries: each entry
/// whose VRM bone maps to a node in range drives it if nothing did yet.
pub open spec fn plan_defaults(
    m: Map<Seq<char>, usize>,
    defaults: Seq<Seq<char>>,
    start: Seq<Option<RotationSource>>,
    k: nat,
) -> Seq<Option<RotationSource>>
    decreases k,
{
    if k == 0 {
        start
    } else {
        let prev = plan_defaults(m, defaults, start, (k - 1) as nat);
        let vn = defaults[k - 1];
        if m.contains_key(vn) && m[vn] < prev.len() && prev[m[vn] as int] is None {
            prev.update(m[vn] as int, Some(RotationSource::Default((k - 1) as usize)))
        } else {
            prev
        }
    }
}

/// The views of a list of names.
pub open spec fn names_view(t: Seq<&str>) -> Seq<Seq<char>> {
    t.map_values(|s: &str| s@)
}

/// Decides, for each of `node_count` nodes, which animation sample (by bone
/// name, re-axed for upper legs and upper arms) or default-pose entry sets its
/// rotation: samples first, later ones winning; then defaults for nodes no
/// sample reached. `vrm_bone_nodes` maps VRM bone names to nodes (a later
/// entry of a name wins).
pub fn mixamo_rotation_plan(
    sample_bones: &[&str],
    vrm_bone_nodes: &[(String, usize)],
    node_count: usize,
    default_pose_bones: &[&str],
) -> (r: Vec<Option<RotationSource>>)
    ensures
        r@ == plan_defaults(
            insert_all(Map::empty(), entries_view(vrm_bone_nodes@)),
            names_view(default_pose_bones@),
            plan_samples(
                insert_all(Map::empty(), entries_view(vrm_bone_nodes@)),
                names_view(sample_bones@),
                node_count as nat,
                sample_bones@.len() as nat,
            ),
            default_pose_bones@.len() as nat,
        ),
{
    let vrm_bone_to_node = node_map(vrm_bone_nodes);
    let ghost m = vrm_bone_to_node@;
    let ghost sv = names_view(sample_bones@);
    let ghost dv = names_view(default_pose_bones@);
    let mut rotations: Vec<Option<RotationSource>> = Vec::new();
    let mut i: usize = 0;
    while i < node_count
        invariant
            i <= node_count,
            rotations@ == Seq::new(i as nat, |j: int| None::<RotationSource>),
        decreases node_count - i,
    {
        rotations.push(None);
        assert(rotations@ =~= Seq::new((i + 1) as nat, |j: int| None::<RotationSource>));
        i += 1;
    }
    let n = sample_bones.len();
    let mut k: usize = 0;
    while k < n
        invariant
            n == sample_bones@.len(),
            m == vrm_bone_to_node@,
            sv == names_view(sample_bones@),
            k <= n,
            rotations@ == plan_samples(m, sv, node_count as nat, k as nat),
            rotations@.len() == node_count,
        decreases n - k,
    {
        let name = sample_bones[k];
        assert(name@ == sv[k as int]);
        let vn = mixamo_to_vrm_name(name);
        let by_vrm = match vn {
            Some(v) => match vrm_bone_to_node.get(v) {
                Some(idx) => Some(*idx),
                None => None,
            },
            None => None,
        };
        let node = match by_vrm {
            Some(idx) => Some(idx),
            None => match vrm_bone_to_node.get(name) {
                Some(idx) => Some(*idx),
                None => None,
            },
        };
        if let Some(idx) = node {
            if idx < node_count {
                let v = match vn {
                    Some(v) => v,
                    None => "",
                };
                proof {
                    reveal_strlit("");
                    reveal_strlit("right");
                }
                assert(v@ == match assoc(mixamo_vrm_table(), name@) {
                    Some(x) => x,
                    None => Seq::<char>::empty(),
                });
                let conversion = if is_upper_leg(v) {
                    AxisConversion::NegateX
                } else if is_arm_bone(v) {
                    if starts_with(v, "right") {
                        AxisConversion::SwingFromNegatedX
                    } else {
                        AxisConversion::SwingFromX
                    }
                } else {
                    AxisConversion::Keep
                };
                assert(conversion == axis_conversion(sv[k as int]));
                rotations.set(idx, Some(RotationSource::Sample(k, conversion)));
            }
        }
        k += 1;
    }
    let ghost start = rotations@;
    let d = default_pose_bones.len();
    let mut k: usize = 0;
    while k < d
        invariant
            d == default_pose_bones@.len(),
            m == vrm_bone_to_node@,
            dv == names_view(default_pose_bones@),
            k <= d,
            rotations@ == plan_defaults(m, dv, start, k as nat),
            rotations@.len() == node_count,
        decreases d - k,
    {
        let vn = default_pose_bones[k];
        assert(vn@ == dv[k as int]);
        if let Some(idx) = vrm_bone_to_node.get(vn) {
            let idx = *idx;
            if idx < node_count && rotations[idx].is_none() {
                rotations.set(idx, Some(RotationSource::Default(k)));
            }
        }
        k += 1;
    }
    rotations
}

} // verus!

verus! {

/// The default pose only fills nodes that no animation sample drives: a node
/// that a sample drives keeps that sample, whatever the default pose holds.
pub proof fn lemma_defaults_keep_samples(
    m: Map<Seq<char>, usize>,
    defaults: Seq<Seq<char>>,
    start: Seq<Option<RotationSource>>,
    k: nat,
    i: int,
)
    requires
        0 <= i < start.len(),
        start[i] is Some,
    ensures
        plan_defaults(m, defaults, start, k).len() == start.len(),
        plan_defaults(m, defaults, start, k)[i] == start[i],
    decreases k,
{
    if k > 0 {
        lemma_defaults_keep_samples(m, defaults, start, (k - 1) as nat, i);
    }
}

} // verus!

verus! {

/// The conversion of the other side: the arm swings change sign, the rest stay.
pub open spec fn mirrored(c: AxisConversion) -> AxisConversion {
    match c {
        AxisConversion::SwingFromX => AxisConversion::SwingFromNegatedX,
        AxisConversion::SwingFromNegatedX => AxisConversion::SwingFromX,
        other => other,
    }
}

/// How a sample is re-axed, by the VRM bone its Mixamo name maps to: the left
/// upper arm's X swing moves to +Y (`[0, x, 0]`), the right upper arm's to -Y
/// (`[0, -x, 0]`), both upper legs negate X, and every other bone, or a name
/// with no VRM bone, keeps its angles.
pub proof fn lemma_axis_conversion_by_bone(name: Seq<char>)
    ensures
        assoc(mixamo_vrm_table(), name) == Some("leftUpperArm"@) ==> axis_conversion(name)
            == AxisConversion::SwingFromX,
        assoc(mixamo_vrm_table(), name) == Some("rightUpperArm"@) ==> axis_conversion(name)
            == AxisConversion::SwingFromNegatedX,
        assoc(mixamo_vrm_table(), name) == Some("leftUpperLeg"@) ==> axis_conversion(name)
            == AxisConversion::NegateX,
        assoc(mixamo_vrm_table(), name) == Some("rightUpperLeg"@) ==> axis_conversion(name)
            == AxisConversion::NegateX,
        (assoc(mixamo_vrm_table(), name) matches Some(v) && v != "leftUpperArm"@ && v
            != "rightUpperArm"@ && v != "leftUpperLeg"@ && v != "rightUpperLeg"@)
            ==> axis_conversion(name) == AxisConversion::Keep,
        assoc(mixamo_vrm_table(), name) is None ==> axis_conversion(name)
            == AxisConversion::Keep,
{
    reveal_strlit("right");
    reveal_strlit("leftUpperArm");
    reveal_strlit("rightUpperArm");
    reveal_strlit("leftUpperLeg");
    reveal_strlit("rightUpperLeg");
    let e = Seq::<char>::empty();
    assert(e.len() == 0);
    assert(e != "leftUpperArm"@ && e != "rightUpperArm"@ && e != "leftUpperLeg"@ && e
        != "rightUpperLeg"@);
    assert("leftUpperArm"@ != "leftUpperLeg"@) by {
        assert("leftUpperArm"@[9] != "leftUpperLeg"@[9]);
    }
    assert("leftUpperArm"@ != "rightUpperLeg"@) by {
        assert("leftUpperArm"@.len() != "rightUpperLeg"@.len());
    }
    assert("rightUpperArm"@ != "rightUpperLeg"@) by {
        assert("rightUpperArm"@[10] != "rightUpperLeg"@[10]);
    }
    assert("rightUpperArm"@ != "leftUpperLeg"@) by {
        assert("rightUpperArm"@.len() != "leftUpperLeg"@.len());
    }
    assert("right"@.is_prefix_of("rightUpperArm"@));
    assert(!"right"@.is_prefix_of("leftUpperArm"@)) by {
        assert("leftUpperArm"@[0] != "right"@[0]);
    }
}

/// The two upper arms are re-axed as mirror images of each other: whatever
/// Mixamo names map to them, the right arm's conversion is the left arm's with
/// the swing's sign flipped.
pub proof fn lemma_arm_swings_mirror(left: Seq<char>, right: Seq<char>)
    requires
        assoc(mixamo_vrm_table(), left) == Some("leftUpperArm"@),
        assoc(mixamo_vrm_table(), right) == Some("rightUpperArm"@),
    ensures
        axis_conversion(left) == AxisConversion::SwingFromX,
        axis_conversion(right) == mirrored(axis_conversion(left)),
        axis_conversion(left) == mirrored(axis_conversion(right)),
{
    lemma_axis_conversion_by_bone(left);
    lemma_axis_conversion_by_bone(right);
}

} // verus!

verus! {

/// What the samples set in a retargeting plan: every node gets either nothing
/// or a sample `j` among the samples looked at, whose bone drives that very
/// node, re-axed as that sample's bone asks; and a node that some sample drives
/// gets the last such sample.
pub proof fn lemma_plan_samples_sound(
    m: Map<Seq<char>, usize>,
    samples: Seq<Seq<char>>,
    node_count: nat,
    k: nat,
    idx: usize,
)
    requires
        idx < node_count,
        k <= samples.len(),
        k <= usize::MAX,
    ensures
        plan_samples(m, samples, node_count, k).len() == node_count,
        plan_samples(m, samples, node_count, k)[idx as int] matches Some(src) ==> (src matches RotationSource::Sample(
            j,
            c,
        ) && j < k && sample_node(m, samples[j as int]) == Some(idx) && c == axis_conversion(
            samples[j as int],
        )),
        forall|j: int|
            0 <= j < k && #[trigger] sample_node(m, samples[j]) == Some(idx) ==> (plan_samples(
                m,
                samples,
                node_count,
                k,
            )[idx as int] matches Some(RotationSource::Sample(last, _)) && j <= last),
    decreases k,
{
    if k > 0 {
        lemma_plan_samples_sound(m, samples, node_count, (k - 1) as nat, idx);
        let prev = plan_samples(m, samples, node_count, (k - 1) as nat);
        let cur = plan_samples(m, samples, node_count, k);
        let name = samples[k - 1];
        match sample_node(m, name) {
            Some(t) => {
                if t < node_count && t == idx {
                    assert(cur[idx as int] == Some(
                        RotationSource::Sample((k - 1) as usize, axis_conversion(name)),
                    ));
                } else if t < node_count {
                    assert(cur[idx as int] == prev[idx as int]);
                } else {
                    assert(cur == prev);
                }
            },
            None => {
                assert(cur == prev);
            },
        }
    }
}

} // verus!
