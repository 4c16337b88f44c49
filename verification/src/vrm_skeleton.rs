//! Building a skeleton hierarchy from a VRM humanoid and the glTF node tree.

use vstd::prelude::*;
use crate::skeleton::{BoneDef, BoneId, Skeleton, bone_index, bone_links, bone_names, bone_position, indexed, parents_precede};
use crate::names::vrm0_renamed_bones;
use crate::table::{
    assoc, lemma_assoc_at, lemma_assoc_first_at_most, lemma_assoc_found, lemma_rassoc_found, list_view,
    rassoc, rename,
};
use crate::topology::{
    NodeTopology, ancestor, climb, lemma_ancestor_ended, lemma_climb_bounded, lemma_climb_reaches,
    lemma_climb_step, nearest_marked,
    parent_links, parent_of, parents_acyclic, parents_in_range,
};
use crate::bone_class::{is_kinematic_bone, kinematic_bone};
use crate::vrm::{Vrm0Humanoid, VrmcHumanoid, vrm0_as_vrmc};

verus! {

/// The VRM 1.0 humanoid bones in skeleton order: hips, trunk, head, arms,
/// legs, then the fingers.
pub open spec fn vrm_bone_order() -> Seq<Seq<char>> {
    seq![
        "hips"@,
        "spine"@,
        "chest"@,
        "upperChest"@,
        "neck"@,
        "head"@,
        "jaw"@,
        "leftShoulder"@,
        "leftUpperArm"@,
        "leftLowerArm"@,
        "leftHand"@,
        "rightShoulder"@,
        "rightUpperArm"@,
        "rightLowerArm"@,
        "rightHand"@,
        "leftUpperLeg"@,
        "leftLowerLeg"@,
        "leftFoot"@,
        "leftToes"@,
        "rightUpperLeg"@,
        "rightLowerLeg"@,
        "rightFoot"@,
        "rightToes"@,
        "leftThumbMetacarpal"@,
        "leftThumbProximal"@,
        "leftThumbDistal"@,
        "leftIndexProximal"@,
        "leftIndexIntermediate"@,
        "leftIndexDistal"@,
        "leftMiddleProximal"@,
        "leftMiddleIntermediate"@,
        "leftMiddleDistal"@,
        "leftRingProximal"@,
        "leftRingIntermediate"@,
        "leftRingDistal"@,
        "leftLittleProximal"@,
        "leftLittleIntermediate"@,
        "leftLittleDistal"@,
        "rightThumbMetacarpal"@,
        "rightThumbProximal"@,
        "rightThumbDistal"@,
        "rightIndexProximal"@,
        "rightIndexIntermediate"@,
        "rightIndexDistal"@,
        "rightMiddleProximal"@,
        "rightMiddleIntermediate"@,
        "rightMiddleDistal"@,
        "rightRingProximal"@,
        "rightRingIntermediate"@,
        "rightRingDistal"@,
        "rightLittleProximal"@,
        "rightLittleIntermediate"@,
        "rightLittleDistal"@,
    ]
}

fn vrm_bone_order_list() -> (r: [&'static str; 53])
    ensures
        list_view(r@) == vrm_bone_order(),
{
    let r = [
        "hips",
        "spine",
        "chest",
        "upperChest",
        "neck",
        "head",
        "jaw",
        "leftShoulder",
        "leftUpperArm",
        "leftLowerArm",
        "leftHand",
        "rightShoulder",
        "rightUpperArm",
        "rightLowerArm",
        "rightHand",
        "leftUpperLeg",
        "leftLowerLeg",
        "leftFoot",
        "leftToes",
        "rightUpperLeg",
        "rightLowerLeg",
        "rightFoot",
        "rightToes",
        "leftThumbMetacarpal",
        "leftThumbProximal",
        "leftThumbDistal",
        "leftIndexProximal",
        "leftIndexIntermediate",
        "leftIndexDistal",
        "leftMiddleProximal",
        "leftMiddleIntermediate",
        "leftMiddleDistal",
        "leftRingProximal",
        "leftRingIntermediate",
        "leftRingDistal",
        "leftLittleProximal",
        "leftLittleIntermediate",
        "leftLittleDistal",
        "rightThumbMetacarpal",
        "rightThumbProximal",
        "rightThumbDistal",
        "rightIndexProximal",
        "rightIndexIntermediate",
        "rightIndexDistal",
        "rightMiddleProximal",
        "rightMiddleIntermediate",
        "rightMiddleDistal",
        "rightRingProximal",
        "rightRingIntermediate",
        "rightRingDistal",
        "rightLittleProximal",
        "rightLittleIntermediate",
        "rightLittleDistal",
    ];
    assert(list_view(r@) =~= vrm_bone_order());
    r
}

/// The humanoid bone carried by node `q` (the last one, when several share the node).
pub open spec fn node_bone_name(h: Seq<(Seq<char>, usize)>, q: int) -> Option<Seq<char>> {
    rassoc(h.map_values(|e: (Seq<char>, usize)| (e.1 as int, e.0)), q)
}

/// Marks a node with the index of the bone built for its humanoid bone, if any.
pub open spec fn vrm_mark(h: Seq<(Seq<char>, usize)>, built: Seq<Seq<char>>) -> spec_fn(int) -> Option<int> {
    |q: int|
        match node_bone_name(h, q) {
            Some(name) => bone_index(built, name),
            None => None,
        }
}

/// The hierarchy built from the first `k` bones of the skeleton order: each
/// humanoid bone whose node exists becomes a bone, whose parent is the bone of
/// the nearest ancestor node that carries an already-built humanoid bone.
pub open spec fn vrm_links(h: Seq<(Seq<char>, usize)>, p: Seq<Option<usize>>, k: nat) -> Seq<(Seq<char>, Option<int>)>
    decreases k,
{
    if k == 0 {
        Seq::empty()
    } else {
        let prev = vrm_links(h, p, (k - 1) as nat);
        let name = vrm_bone_order()[k - 1];
        match assoc(h, name) {
            Some(node) => if node < p.len() {
                prev.push(
                    (
                        name,
                        nearest_marked(p, vrm_mark(h, prev.map_values(|b: (Seq<char>, Option<int>)| b.0)), node as int),
                    ),
                )
            } else {
                prev
            },
            None => prev,
        }
    }
}

/// The name of the humanoid bone that node `q` carries.
pub(crate) fn node_vrm_name_of<'a>(h: &'a VrmcHumanoid, q: usize) -> (r: Option<&'a str>)
    ensures
        match r {
            Some(s) => node_bone_name(h@, q as int) == Some(s@),
            None => node_bone_name(h@, q as int) is None,
        },
{
    let ghost t = h@.map_values(|e: (Seq<char>, usize)| (e.1 as int, e.0));
    let mut i: usize = h.human_bones.len();
    assert(t.subrange(0, i as int) =~= t);
    while i > 0
        invariant
            i <= h.human_bones@.len(),
            t == h@.map_values(|e: (Seq<char>, usize)| (e.1 as int, e.0)),
            rassoc(t, q as int) == rassoc(t.subrange(0, i as int), q as int),
        decreases i,
    {
        let ghost s = t.subrange(0, i as int);
        assert(s.last() == (h.human_bones@[i - 1].1.node as int, h.human_bones@[i - 1].0@));
        assert(s.drop_last() =~= t.subrange(0, i - 1));
        if h.human_bones[i - 1].1.node == q {
            return Some(h.human_bones[i - 1].0.as_str());
        }
        i -= 1;
    }
    None
}

/// The bone index of the nearest ancestor node of `node` whose humanoid bone is already built.
fn vrm_parent(h: &VrmcHumanoid, nodes: &[NodeTopology], bones: &Vec<BoneDef>, node: usize) -> (r: Option<usize>)
    requires
        node < nodes@.len(),
        parents_in_range(parent_links(nodes@)),
        parents_acyclic(parent_links(nodes@)),
    ensures
        match r {
            Some(b) => nearest_marked(parent_links(nodes@), vrm_mark(h@, bone_names(bones@)), node as int) == Some(b as int),
            None => nearest_marked(parent_links(nodes@), vrm_mark(h@, bone_names(bones@)), node as int) is None,
        },
{
    let ghost p = parent_links(nodes@);
    let ghost mark = vrm_mark(h@, bone_names(bones@));
    let ghost mut steps: nat = 0;
    let mut current = node;
    loop
        invariant
            p == parent_links(nodes@),
            mark == vrm_mark(h@, bone_names(bones@)),
            parents_in_range(p),
            parents_acyclic(p),
            node < nodes@.len(),
            current < nodes@.len(),
            ancestor(p, node as int, steps) == Some(current as int),
            nearest_marked(p, mark, node as int) == climb(p, mark, current as int, (p.len() + 1 - steps) as nat),
            steps <= p.len(),
        decreases p.len() + 1 - steps,
    {
        assert(p[current as int] == nodes@[current as int].parent);
        let parent = match nodes[current].parent {
            Some(q) => q,
            None => return None,
        };
        assert(parent < nodes@.len());
        let found = match node_vrm_name_of(h, parent) {
            Some(name) => bone_position(bones.as_slice(), name),
            None => None,
        };
        if found.is_some() {
            return found;
        }
        proof {
            lemma_climb_step(p, mark, node as int, current as int, steps);
            steps = steps + 1;
        }
        current = parent;
    }
}

/// A built bone's index is below the number of bones built so far.
proof fn lemma_vrm_mark_bounded(h: Seq<(Seq<char>, usize)>, built: Seq<Seq<char>>)
    ensures
        forall|q: int| (#[trigger] vrm_mark(h, built)(q)) matches Some(v) ==> 0 <= v < built.len(),
{
    assert forall|q: int| (#[trigger] vrm_mark(h, built)(q)) is Some implies 0 <= vrm_mark(h, built)(q).unwrap() < built.len() by {
        if let Some(name) = node_bone_name(h, q) {
            lemma_assoc_found(indexed(built), name);
        }
    }
}

/// In a hierarchy built from a VRM humanoid, every bone's parent comes before it.
pub proof fn lemma_vrm_links_parents_precede(h: Seq<(Seq<char>, usize)>, p: Seq<Option<usize>>, k: nat)
    ensures
        parents_precede(vrm_links(h, p, k)),
    decreases k,
{
    if k > 0 {
        let prev = vrm_links(h, p, (k - 1) as nat);
        lemma_vrm_links_parents_precede(h, p, (k - 1) as nat);
        let built = prev.map_values(|b: (Seq<char>, Option<int>)| b.0);
        lemma_vrm_mark_bounded(h, built);
        let name = vrm_bone_order()[k - 1];
        if let Some(node) = assoc(h, name) {
            if node < p.len() {
                lemma_climb_bounded(p, vrm_mark(h, built), node as int, (p.len() + 1) as nat, prev.len() as int);
                let t = vrm_links(h, p, k);
                assert forall|i: int| 0 <= i < t.len() implies (#[trigger] t[i].1 matches Some(j) ==> 0 <= j < i) by {
                    if i < prev.len() {
                        assert(t[i] == prev[i]);
                    }
                }
            }
        }
    }
}

impl Skeleton {
    /// Builds the hierarchy of a VRM model from its VRM 1.0 humanoid and the
    /// glTF node tree: the humanoid bones in skeleton order (those whose node
    /// exists), each parented to the bone of its nearest humanoid ancestor node.
    pub fn from_vrm(humanoid: &VrmcHumanoid, nodes: &[NodeTopology]) -> (r: Skeleton)
        requires
            parents_in_range(parent_links(nodes@)),
            parents_acyclic(parent_links(nodes@)),
        ensures
            r.links() == vrm_links(humanoid@, parent_links(nodes@), 53),
            parents_precede(r.links()),
            forall|i: int| 0 <= i < r.bones@.len() ==> !(#[trigger] r.bones@[i]).use_direct_offset,
    {
        let order = vrm_bone_order_list();
        let ghost p = parent_links(nodes@);
        let mut bones: Vec<BoneDef> = Vec::new();
        let mut k: usize = 0;
        while k < 53
            invariant
                p == parent_links(nodes@),
                parents_in_range(p),
                parents_acyclic(p),
                list_view(order@) == vrm_bone_order(),
                k <= 53,
                bone_links(bones@) == vrm_links(humanoid@, p, k as nat),
                forall|i: int| 0 <= i < bones@.len() ==> !(#[trigger] bones@[i]).use_direct_offset,
            decreases 53 - k,
        {
            let name = order[k];
            assert(name@ == vrm_bone_order()[k as int]);
            assert(bone_links(bones@).map_values(|b: (Seq<char>, Option<int>)| b.0) =~= bone_names(bones@));
            if let Some(b) = humanoid.get(name) {
                if b.node < nodes.len() {
                    let parent = vrm_parent(humanoid, nodes, &bones, b.node);
                    let ghost before = bones@;
                    bones.push(
                        BoneDef {
                            name: name.to_owned(),
                            parent: match parent {
                                Some(i) => Some(BoneId(i)),
                                None => None,
                            },
                            use_direct_offset: false,
                        },
                    );
                    assert(bone_links(bones@) =~= bone_links(before).push(
                        (name@, match parent { Some(i) => Some(i as int), None => None }),
                    ));
                }
            }
            k += 1;
        }
        proof {
            lemma_vrm_links_parents_precede(humanoid@, p, 53);
        }
        Skeleton { bones }
    }

    /// Builds the hierarchy of a VRM 0.x model: its humanoid under the VRM 1.0
    /// bone names, as [`Skeleton::from_vrm`] does.
    pub fn from_vrm0(humanoid: &Vrm0Humanoid, nodes: &[NodeTopology]) -> (r: Skeleton)
        requires
            parents_in_range(parent_links(nodes@)),
            parents_acyclic(parent_links(nodes@)),
        ensures
            r.links() == vrm_links(vrm0_as_vrmc(humanoid@), parent_links(nodes@), 53),
            parents_precede(r.links()),
            forall|i: int| 0 <= i < r.bones@.len() ==> !(#[trigger] r.bones@[i]).use_direct_offset,
    {
        let vrm1 = humanoid.to_vrmc();
        Self::from_vrm(&vrm1, nodes)
    }
}

/// How physics drives a bone.
#[derive(Debug, Clone, Copy, PartialEq, Eq)]
pub enum BoneBodyType {
    /// Position set directly.
    Kinematic,
    /// Driven by physics.
    Dynamic,
    /// Fixed root.
    Fixed,
}

/// The body type of bone `i` of a hierarchy: the first bone and every root are
/// fixed; the others are kinematic or dynamic by name.
pub open spec fn body_type_of(t: Seq<(Seq<char>, Option<int>)>, i: int) -> BoneBodyType {
    if i == 0 || t[i].1 is None {
        BoneBodyType::Fixed
    } else if kinematic_bone(t[i].0) {
        BoneBodyType::Kinematic
    } else {
        BoneBodyType::Dynamic
    }
}

/// Classifies every bone of a skeleton as fixed, kinematic or dynamic.
pub fn classify_body_types(skeleton: &Skeleton) -> (r: Vec<BoneBodyType>)
    ensures
        r@.len() == skeleton.bones@.len(),
        forall|i: int| 0 <= i < r@.len() ==> #[trigger] r@[i] == body_type_of(skeleton.links(), i),
{
    let mut out: Vec<BoneBodyType> = Vec::new();
    let n = skeleton.bones.len();
    let mut i: usize = 0;
    while i < n
        invariant
            n == skeleton.bones@.len(),
            i <= n,
            out@.len() == i,
            forall|j: int| 0 <= j < i ==> #[trigger] out@[j] == body_type_of(skeleton.links(), j),
        decreases n - i,
    {
        let bone = &skeleton.bones[i];
        assert(skeleton.links()[i as int].0 == bone.name@);
        let t = if i == 0 || bone.parent.is_none() {
            BoneBodyType::Fixed
        } else if is_kinematic_bone(bone.name.as_str()) {
            BoneBodyType::Kinematic
        } else {
            BoneBodyType::Dynamic
        };
        out.push(t);
        i += 1;
    }
    out
}

} // verus!

verus! {

/// Marks node `anc` alone.
pub open spec fn only_node(anc: int) -> spec_fn(int) -> Option<int> {
    |q: int| if q == anc { Some(q) } else { None }
}

/// Whether node `anc` is a proper ancestor of node `i`.
pub open spec fn lies_below(p: Seq<Option<usize>>, i: int, anc: int) -> bool {
    nearest_marked(p, only_node(anc), i) is Some
}

/// The nodes of the humanoid bones, in humanoid order, that exist and lie
/// strictly below node `node` in the node tree.
pub open spec fn descendant_bone_nodes(h: Seq<(Seq<char>, usize)>, p: Seq<Option<usize>>, node: int) -> Seq<usize>
    decreases h.len(),
{
    if h.len() == 0 {
        Seq::empty()
    } else {
        let rest = descendant_bone_nodes(h.drop_last(), p, node);
        let c = h.last().1;
        if c as int != node && (c as int) < p.len() && lies_below(p, c as int, node) {
            rest.push(c)
        } else {
            rest
        }
    }
}

/// Whether node `anc` is a proper ancestor of node `i`.
fn is_below(nodes: &[NodeTopology], i: usize, anc: usize) -> (r: bool)
    requires
        i < nodes@.len(),
        parents_in_range(parent_links(nodes@)),
        parents_acyclic(parent_links(nodes@)),
    ensures
        r == lies_below(parent_links(nodes@), i as int, anc as int),
{
    let ghost p = parent_links(nodes@);
    let ghost mark = only_node(anc as int);
    let ghost mut steps: nat = 0;
    let mut current = i;
    loop
        invariant
            p == parent_links(nodes@),
            mark == only_node(anc as int),
            parents_in_range(p),
            parents_acyclic(p),
            i < nodes@.len(),
            current < nodes@.len(),
            ancestor(p, i as int, steps) == Some(current as int),
            nearest_marked(p, mark, i as int) == climb(p, mark, current as int, (p.len() + 1 - steps) as nat),
            steps <= p.len(),
        decreases p.len() + 1 - steps,
    {
        assert(p[current as int] == nodes@[current as int].parent);
        let parent = match nodes[current].parent {
            Some(q) => q,
            None => return false,
        };
        assert(parent < nodes@.len());
        if parent == anc {
            return true;
        }
        proof {
            lemma_climb_step(p, mark, i as int, current as int, steps);
            steps = steps + 1;
        }
        current = parent;
    }
}

/// The nodes of the humanoid bones that lie strictly below node `node` (see
/// [`descendant_bone_nodes`]); a bone's length reaches to the nearest of them.
pub fn vrm_descendant_bone_nodes(humanoid: &VrmcHumanoid, nodes: &[NodeTopology], node: usize) -> (r: Vec<usize>)
    requires
        parents_in_range(parent_links(nodes@)),
        parents_acyclic(parent_links(nodes@)),
    ensures
        r@ == descendant_bone_nodes(humanoid@, parent_links(nodes@), node as int),
{
    let ghost h = humanoid@;
    let ghost p = parent_links(nodes@);
    let mut out: Vec<usize> = Vec::new();
    let n = humanoid.human_bones.len();
    let mut k: usize = 0;
    while k < n
        invariant
            n == humanoid.human_bones@.len(),
            k <= n,
            h == humanoid@,
            h.len() == n,
            p == parent_links(nodes@),
            parents_in_range(p),
            parents_acyclic(p),
            out@ == descendant_bone_nodes(h.subrange(0, k as int), p, node as int),
        decreases n - k,
    {
        assert(h.subrange(0, k + 1).drop_last() =~= h.subrange(0, k as int));
        assert(h.subrange(0, k + 1).last() == h[k as int]);
        let c = humanoid.human_bones[k].1.node;
        assert(h[k as int].1 == c);
        if c != node && c < nodes.len() && is_below(nodes, c, node) {
            out.push(c);
        }
        k += 1;
    }
    assert(h.subrange(0, n as int) =~= h);
    out
}

} // verus!

verus! {

/// The VRM 1.0 humanoid bone hierarchy: each humanoid bone but the hips, beside
/// its parent bone.
pub open spec fn vrm_humanoid_hierarchy() -> Seq<(Seq<char>, Seq<char>)> {
    seq![
        ("spine"@, "hips"@),
        ("chest"@, "spine"@),
        ("upperChest"@, "chest"@),
        ("neck"@, "upperChest"@),
        ("head"@, "neck"@),
        ("jaw"@, "head"@),
        ("leftShoulder"@, "upperChest"@),
        ("leftUpperArm"@, "leftShoulder"@),
        ("leftLowerArm"@, "leftUpperArm"@),
        ("leftHand"@, "leftLowerArm"@),
        ("rightShoulder"@, "upperChest"@),
        ("rightUpperArm"@, "rightShoulder"@),
        ("rightLowerArm"@, "rightUpperArm"@),
        ("rightHand"@, "rightLowerArm"@),
        ("leftUpperLeg"@, "hips"@),
        ("leftLowerLeg"@, "leftUpperLeg"@),
        ("leftFoot"@, "leftLowerLeg"@),
        ("leftToes"@, "leftFoot"@),
        ("rightUpperLeg"@, "hips"@),
        ("rightLowerLeg"@, "rightUpperLeg"@),
        ("rightFoot"@, "rightLowerLeg"@),
        ("rightToes"@, "rightFoot"@),
        ("leftThumbMetacarpal"@, "leftHand"@),
        ("leftThumbProximal"@, "leftThumbMetacarpal"@),
        ("leftThumbDistal"@, "leftThumbProximal"@),
        ("leftIndexProximal"@, "leftHand"@),
        ("leftIndexIntermediate"@, "leftIndexProximal"@),
        ("leftIndexDistal"@, "leftIndexIntermediate"@),
        ("leftMiddleProximal"@, "leftHand"@),
        ("leftMiddleIntermediate"@, "leftMiddleProximal"@),
        ("leftMiddleDistal"@, "leftMiddleIntermediate"@),
        ("leftRingProximal"@, "leftHand"@),
        ("leftRingIntermediate"@, "leftRingProximal"@),
        ("leftRingDistal"@, "leftRingIntermediate"@),
        ("leftLittleProximal"@, "leftHand"@),
        ("leftLittleIntermediate"@, "leftLittleProximal"@),
        ("leftLittleDistal"@, "leftLittleIntermediate"@),
        ("rightThumbMetacarpal"@, "rightHand"@),
        ("rightThumbProximal"@, "rightThumbMetacarpal"@),
        ("rightThumbDistal"@, "rightThumbProximal"@),
        ("rightIndexProximal"@, "rightHand"@),
        ("rightIndexIntermediate"@, "rightIndexProximal"@),
        ("rightIndexDistal"@, "rightIndexIntermediate"@),
        ("rightMiddleProximal"@, "rightHand"@),
        ("rightMiddleIntermediate"@, "rightMiddleProximal"@),
        ("rightMiddleDistal"@, "rightMiddleIntermediate"@),
        ("rightRingProximal"@, "rightHand"@),
        ("rightRingIntermediate"@, "rightRingProximal"@),
        ("rightRingDistal"@, "rightRingIntermediate"@),
        ("rightLittleProximal"@, "rightHand"@),
        ("rightLittleIntermediate"@, "rightLittleProximal"@),
        ("rightLittleDistal"@, "rightLittleIntermediate"@),
    ]
}

/// The skeleton order builds every humanoid bone after its parent in the VRM
/// humanoid hierarchy (the hips before the spine, the upper arm before the
/// lower arm before the hand, the hand before the fingers), so a bone's parent
/// is always built by the time the bone looks for it.
pub proof fn lemma_vrm_bone_order_parents_first(k: int)
    requires
        0 <= k < vrm_humanoid_hierarchy().len(),
    ensures
        exists|a: int, b: int|
            0 <= a < b < vrm_bone_order().len() && #[trigger] vrm_bone_order()[a]
                == vrm_humanoid_hierarchy()[k].1 && #[trigger] vrm_bone_order()[b]
                == vrm_humanoid_hierarchy()[k].0,
{
    let o = vrm_bone_order();
    let t = vrm_humanoid_hierarchy();
    if k == 0 {
        assert(o[0] == t[k].1 && o[1] == t[k].0);
    } else if k == 1 {
        assert(o[1] == t[k].1 && o[2] == t[k].0);
    } else if k == 2 {
        assert(o[2] == t[k].1 && o[3] == t[k].0);
    } else if k == 3 {
        assert(o[3] == t[k].1 && o[4] == t[k].0);
    } else if k == 4 {
        assert(o[4] == t[k].1 && o[5] == t[k].0);
    } else if k == 5 {
        assert(o[5] == t[k].1 && o[6] == t[k].0);
    } else if k == 6 {
        assert(o[3] == t[k].1 && o[7] == t[k].0);
    } else if k == 7 {
        assert(o[7] == t[k].1 && o[8] == t[k].0);
    } else if k == 8 {
        assert(o[8] == t[k].1 && o[9] == t[k].0);
    } else if k == 9 {
        assert(o[9] == t[k].1 && o[10] == t[k].0);
    } else if k == 10 {
        assert(o[3] == t[k].1 && o[11] == t[k].0);
    } else if k == 11 {
        assert(o[11] == t[k].1 && o[12] == t[k].0);
    } else if k == 12 {
        assert(o[12] == t[k].1 && o[13] == t[k].0);
    } else if k == 13 {
        assert(o[13] == t[k].1 && o[14] == t[k].0);
    } else if k == 14 {
        assert(o[0] == t[k].1 && o[15] == t[k].0);
    } else if k == 15 {
        assert(o[15] == t[k].1 && o[16] == t[k].0);
    } else if k == 16 {
        assert(o[16] == t[k].1 && o[17] == t[k].0);
    } else if k == 17 {
        assert(o[17] == t[k].1 && o[18] == t[k].0);
    } else if k == 18 {
        assert(o[0] == t[k].1 && o[19] == t[k].0);
    } else if k == 19 {
        assert(o[19] == t[k].1 && o[20] == t[k].0);
    } else if k == 20 {
        assert(o[20] == t[k].1 && o[21] == t[k].0);
    } else if k == 21 {
        assert(o[21] == t[k].1 && o[22] == t[k].0);
    } else if k == 22 {
        assert(o[10] == t[k].1 && o[23] == t[k].0);
    } else if k == 23 {
        assert(o[23] == t[k].1 && o[24] == t[k].0);
    } else if k == 24 {
        assert(o[24] == t[k].1 && o[25] == t[k].0);
    } else if k == 25 {
        assert(o[10] == t[k].1 && o[26] == t[k].0);
    } else if k == 26 {
        assert(o[26] == t[k].1 && o[27] == t[k].0);
    } else if k == 27 {
        assert(o[27] == t[k].1 && o[28] == t[k].0);
    } else if k == 28 {
        assert(o[10] == t[k].1 && o[29] == t[k].0);
    } else if k == 29 {
        assert(o[29] == t[k].1 && o[30] == t[k].0);
    } else if k == 30 {
        assert(o[30] == t[k].1 && o[31] == t[k].0);
    } else if k == 31 {
        assert(o[10] == t[k].1 && o[32] == t[k].0);
    } else if k == 32 {
        assert(o[32] == t[k].1 && o[33] == t[k].0);
    } else if k == 33 {
        assert(o[33] == t[k].1 && o[34] == t[k].0);
    } else if k == 34 {
        assert(o[10] == t[k].1 && o[35] == t[k].0);
    } else if k == 35 {
        assert(o[35] == t[k].1 && o[36] == t[k].0);
    } else if k == 36 {
        assert(o[36] == t[k].1 && o[37] == t[k].0);
    } else if k == 37 {
        assert(o[14] == t[k].1 && o[38] == t[k].0);
    } else if k == 38 {
        assert(o[38] == t[k].1 && o[39] == t[k].0);
    } else if k == 39 {
        assert(o[39] == t[k].1 && o[40] == t[k].0);
    } else if k == 40 {
        assert(o[14] == t[k].1 && o[41] == t[k].0);
    } else if k == 41 {
        assert(o[41] == t[k].1 && o[42] == t[k].0);
    } else if k == 42 {
        assert(o[42] == t[k].1 && o[43] == t[k].0);
    } else if k == 43 {
        assert(o[14] == t[k].1 && o[44] == t[k].0);
    } else if k == 44 {
        assert(o[44] == t[k].1 && o[45] == t[k].0);
    } else if k == 45 {
        assert(o[45] == t[k].1 && o[46] == t[k].0);
    } else if k == 46 {
        assert(o[14] == t[k].1 && o[47] == t[k].0);
    } else if k == 47 {
        assert(o[47] == t[k].1 && o[48] == t[k].0);
    } else if k == 48 {
        assert(o[48] == t[k].1 && o[49] == t[k].0);
    } else if k == 49 {
        assert(o[14] == t[k].1 && o[50] == t[k].0);
    } else if k == 50 {
        assert(o[50] == t[k].1 && o[51] == t[k].0);
    } else if k == 51 {
        assert(o[51] == t[k].1 && o[52] == t[k].0);
    }
}

} // verus!

verus! {

/// The hierarchy built from the first `k` bones of the skeleton order begins
/// the one built from any longer prefix.
proof fn lemma_vrm_links_prefix(h: Seq<(Seq<char>, usize)>, p: Seq<Option<usize>>, k: nat, k2: nat)
    requires
        k <= k2,
    ensures
        vrm_links(h, p, k).len() <= vrm_links(h, p, k2).len(),
        forall|j: int|
            0 <= j < vrm_links(h, p, k).len() ==> #[trigger] vrm_links(h, p, k2)[j] == vrm_links(
                h,
                p,
                k,
            )[j],
    decreases k2,
{
    if k < k2 {
        lemma_vrm_links_prefix(h, p, k, (k2 - 1) as nat);
    }
}

/// A bone of the skeleton order whose node exists is built, right after the
/// bones built before it, with the parent its node's nearest built ancestor gives.
proof fn lemma_vrm_links_builds(h: Seq<(Seq<char>, usize)>, p: Seq<Option<usize>>, i: int, k: nat)
    requires
        0 <= i < k,
        assoc(h, vrm_bone_order()[i]) matches Some(n) && n < p.len(),
    ensures
        vrm_links(h, p, i as nat).len() < vrm_links(h, p, k).len(),
        vrm_links(h, p, k)[vrm_links(h, p, i as nat).len() as int] == (
            vrm_bone_order()[i],
            nearest_marked(
                p,
                vrm_mark(
                    h,
                    vrm_links(h, p, i as nat).map_values(|b: (Seq<char>, Option<int>)| b.0),
                ),
                assoc(h, vrm_bone_order()[i]).unwrap() as int,
            ),
        ),
{
    lemma_vrm_links_prefix(h, p, (i + 1) as nat, k);
}

/// The built hierarchy mirrors the node tree: when the node of humanoid bone B
/// lies below the node of humanoid bone A, which comes earlier in the skeleton
/// order and carries A, and no node in between carries a humanoid bone, then
/// B's bone hangs from A's bone.
pub proof fn lemma_vrm_links_follow_node_tree(
    h: Seq<(Seq<char>, usize)>,
    p: Seq<Option<usize>>,
    ia: int,
    ib: int,
    na: usize,
    nb: usize,
    s: nat,
)
    requires
        parents_acyclic(p),
        0 <= ia < ib < vrm_bone_order().len(),
        assoc(h, vrm_bone_order()[ia]) == Some(na),
        assoc(h, vrm_bone_order()[ib]) == Some(nb),
        na < p.len(),
        nb < p.len(),
        node_bone_name(h, na as int) == Some(vrm_bone_order()[ia]),
        1 <= s,
        ancestor(p, nb as int, s) == Some(na as int),
        forall|r: nat|
            0 < r < s ==> (#[trigger] ancestor(p, nb as int, r) matches Some(q) ==> node_bone_name(
                h,
                q,
            ) is None),
    ensures
        exists|a: int, b: int|
            0 <= a < b < vrm_links(h, p, 53).len() && #[trigger] vrm_links(h, p, 53)[b].0
                == vrm_bone_order()[ib] && #[trigger] vrm_links(h, p, 53)[a].0
                == vrm_bone_order()[ia] && vrm_links(h, p, 53)[b].1 == Some(a),
{
    let o = vrm_bone_order();
    let tb = vrm_links(h, p, ib as nat);
    let names_b = tb.map_values(|b: (Seq<char>, Option<int>)| b.0);
    let mark = vrm_mark(h, names_b);
    lemma_vrm_links_builds(h, p, ia, ib as nat);
    let ja = vrm_links(h, p, ia as nat).len() as int;
    assert(indexed(names_b)[ja].0 == o[ia]);
    lemma_assoc_first_at_most(indexed(names_b), o[ia], ja);
    let j = choose|j: int|
        0 <= j <= ja && #[trigger] indexed(names_b)[j].0 == o[ia] && assoc(indexed(names_b), o[ia])
            == Some(indexed(names_b)[j].1);
    assert(indexed(names_b)[j].1 == j);
    assert(mark(na as int) == Some(j));
    assert forall|r: nat| 0 < r < s implies (#[trigger] ancestor(p, nb as int, r) matches Some(q)
        ==> mark(q) is None) by {
        if let Some(q) = ancestor(p, nb as int, r) {
            assert(node_bone_name(h, q) is None);
        }
    }
    assert(ancestor(p, nb as int, (p.len() + 1) as nat) is None);
    if s > p.len() + 1 {
        lemma_ancestor_ended(p, nb as int, (p.len() + 1) as nat, s);
    }
    lemma_climb_reaches(p, mark, nb as int, s, (p.len() + 1) as nat);
    lemma_vrm_links_builds(h, p, ib, 53);
    lemma_vrm_links_prefix(h, p, ib as nat, 53);
    let t = vrm_links(h, p, 53);
    let b = tb.len() as int;
    assert(t[j] == tb[j]);
    assert(t[b].0 == o[ib] && t[j].0 == o[ia] && t[b].1 == Some(j));
}

/// In the skeleton built from a VRM humanoid ([`Skeleton::from_vrm`]), a humanoid
/// bone hangs from its parent in the VRM humanoid hierarchy whenever the node
/// tree says so: when the child bone's node lies below the node that carries
/// the parent bone and no node in between carries a humanoid bone (the lower
/// arm from the upper arm, the hand from the lower arm, and so on).
pub proof fn lemma_vrm_bone_hangs_from_humanoid_parent(
    h: Seq<(Seq<char>, usize)>,
    p: Seq<Option<usize>>,
    k: int,
    na: usize,
    nb: usize,
    s: nat,
)
    requires
        parents_acyclic(p),
        0 <= k < vrm_humanoid_hierarchy().len(),
        assoc(h, vrm_humanoid_hierarchy()[k].1) == Some(na),
        assoc(h, vrm_humanoid_hierarchy()[k].0) == Some(nb),
        na < p.len(),
        nb < p.len(),
        node_bone_name(h, na as int) == Some(vrm_humanoid_hierarchy()[k].1),
        1 <= s,
        ancestor(p, nb as int, s) == Some(na as int),
        forall|r: nat|
            0 < r < s ==> (#[trigger] ancestor(p, nb as int, r) matches Some(q) ==> node_bone_name(
                h,
                q,
            ) is None),
    ensures
        exists|a: int, b: int|
            0 <= a < b < vrm_links(h, p, 53).len() && #[trigger] vrm_links(h, p, 53)[b].0
                == vrm_humanoid_hierarchy()[k].0 && #[trigger] vrm_links(h, p, 53)[a].0
                == vrm_humanoid_hierarchy()[k].1 && vrm_links(h, p, 53)[b].1 == Some(a),
{
    lemma_vrm_bone_order_parents_first(k);
    let o = vrm_bone_order();
    let (ia, ib) = choose|a: int, b: int|
        0 <= a < b < o.len() && #[trigger] o[a] == vrm_humanoid_hierarchy()[k].1 && #[trigger] o[b]
            == vrm_humanoid_hierarchy()[k].0;
    lemma_vrm_links_follow_node_tree(h, p, ia, ib, na, nb, s);
}

} // verus!

verus! {

/// The VRM 0.x thumb chains: each thumb bone beside its parent bone.
pub open spec fn vrm0_thumb_hierarchy() -> Seq<(Seq<char>, Seq<char>)> {
    seq![
        ("leftThumbProximal"@, "leftHand"@),
        ("leftThumbIntermediate"@, "leftThumbProximal"@),
        ("leftThumbDistal"@, "leftThumbIntermediate"@),
        ("rightThumbProximal"@, "rightHand"@),
        ("rightThumbIntermediate"@, "rightThumbProximal"@),
        ("rightThumbDistal"@, "rightThumbIntermediate"@),
    ]
}

/// The first entry of the humanoid hierarchy for bone `k` is the one at `idx`,
/// when every earlier bone name differs from `k` in length or in its first,
/// fifth, sixth or last character.
proof fn lemma_hierarchy_entry_first_at(k: Seq<char>, idx: int)
    requires
        0 <= idx < vrm_humanoid_hierarchy().len(),
        vrm_humanoid_hierarchy()[idx].0 == k,
        k.len() > 5,
        forall|j: int|
            0 <= j < idx ==> {
                let key = #[trigger] vrm_humanoid_hierarchy()[j].0;
                key.len() != k.len() || key[0] != k[0] || key[4] != k[4] || key[5] != k[5] || key[key.len()
                    - 1] != k[k.len() - 1]
            },
    ensures
        assoc(vrm_humanoid_hierarchy(), k) == Some(vrm_humanoid_hierarchy()[idx].1),
{
    let t = vrm_humanoid_hierarchy();
    assert forall|j: int| 0 <= j < idx implies t[j].0 != k by {
        if t[j].0 == k {
            assert(t[j].0.len() == k.len());
        }
    }
    lemma_assoc_at(t, k, idx);
}

/// How renaming treats a VRM 0.x bone name: the entry at `idx` when its key is
/// the name and no earlier key is as long, the name itself when no key is as long.
proof fn lemma_vrm0_rename_by_length(k: Seq<char>, idx: int)
    requires
        -1 <= idx < vrm0_renamed_bones().len(),
        idx >= 0 ==> vrm0_renamed_bones()[idx].0 == k,
        forall|j: int|
            0 <= j < vrm0_renamed_bones().len() && j != idx ==> (#[trigger] vrm0_renamed_bones()[j]).0.len()
                != k.len(),
    ensures
        rename(vrm0_renamed_bones(), k) == if idx >= 0 {
            vrm0_renamed_bones()[idx].1
        } else {
            k
        },
{
    let t = vrm0_renamed_bones();
    if idx >= 0 {
        assert forall|j: int| 0 <= j < idx implies t[j].0 != k by {
            assert(t[j].0.len() != k.len());
        }
        lemma_assoc_at(t, k, idx);
    } else {
        lemma_assoc_found(t, k);
        if assoc(t, k) is Some {
            let j = choose|j: int| 0 <= j < t.len() && #[trigger] t[j] == (k, assoc(t, k).unwrap());
            assert(t[j].0.len() != k.len());
        }
    }
}

/// Renaming VRM 0.x bones to VRM 1.0 names carries the VRM 0.x thumb chains
/// onto the VRM 1.0 ones: the renamed thumb bone's parent in the VRM 1.0
/// hierarchy is the renamed VRM 0.x parent (proximal to metacarpal,
/// intermediate to proximal, distal kept).
pub proof fn lemma_vrm0_thumb_renames_keep_chain(i: int)
    requires
        0 <= i < vrm0_thumb_hierarchy().len(),
    ensures
        assoc(vrm_humanoid_hierarchy(), rename(vrm0_renamed_bones(), vrm0_thumb_hierarchy()[i].0))
            == Some(rename(vrm0_renamed_bones(), vrm0_thumb_hierarchy()[i].1)),
{
    reveal_strlit("chest");
    reveal_strlit("head");
    reveal_strlit("hips");
    reveal_strlit("jaw");
    reveal_strlit("leftFoot");
    reveal_strlit("leftHand");
    reveal_strlit("leftIndexDistal");
    reveal_strlit("leftIndexIntermediate");
    reveal_strlit("leftIndexProximal");
    reveal_strlit("leftLittleDistal");
    reveal_strlit("leftLittleIntermediate");
    reveal_strlit("leftLittleProximal");
    reveal_strlit("leftLowerArm");
    reveal_strlit("leftLowerLeg");
    reveal_strlit("leftMiddleDistal");
    reveal_strlit("leftMiddleIntermediate");
    reveal_strlit("leftMiddleProximal");
    reveal_strlit("leftRingDistal");
    reveal_strlit("leftRingIntermediate");
    reveal_strlit("leftRingProximal");
    reveal_strlit("leftShoulder");
    reveal_strlit("leftThumbDistal");
    reveal_strlit("leftThumbIntermediate");
    reveal_strlit("leftThumbMetacarpal");
    reveal_strlit("leftThumbProximal");
    reveal_strlit("leftToes");
    reveal_strlit("leftUpperArm");
    reveal_strlit("leftUpperLeg");
    reveal_strlit("neck");
    reveal_strlit("rightFoot");
    reveal_strlit("rightHand");
    reveal_strlit("rightIndexDistal");
    reveal_strlit("rightIndexIntermediate");
    reveal_strlit("rightIndexProximal");
    reveal_strlit("rightLittleDistal");
    reveal_strlit("rightLittleIntermediate");
    reveal_strlit("rightLittleProximal");
    reveal_strlit("rightLowerArm");
    reveal_strlit("rightLowerLeg");
    reveal_strlit("rightMiddleDistal");
    reveal_strlit("rightMiddleIntermediate");
    reveal_strlit("rightMiddleProximal");
    reveal_strlit("rightRingDistal");
    reveal_strlit("rightRingIntermediate");
    reveal_strlit("rightRingProximal");
    reveal_strlit("rightShoulder");
    reveal_strlit("rightThumbDistal");
    reveal_strlit("rightThumbIntermediate");
    reveal_strlit("rightThumbMetacarpal");
    reveal_strlit("rightThumbProximal");
    reveal_strlit("rightToes");
    reveal_strlit("rightUpperArm");
    reveal_strlit("rightUpperLeg");
    reveal_strlit("spine");
    reveal_strlit("upperChest");
    let t = vrm0_thumb_hierarchy();
    if i == 0 {
        lemma_vrm0_rename_by_length("leftThumbProximal"@, 0);
        lemma_vrm0_rename_by_length("leftHand"@, -1);
        lemma_hierarchy_entry_first_at("leftThumbMetacarpal"@, 22);
    } else if i == 1 {
        lemma_vrm0_rename_by_length("leftThumbIntermediate"@, 1);
        lemma_vrm0_rename_by_length("leftThumbProximal"@, 0);
        lemma_hierarchy_entry_first_at("leftThumbProximal"@, 23);
    } else if i == 2 {
        lemma_vrm0_rename_by_length("leftThumbDistal"@, -1);
        lemma_vrm0_rename_by_length("leftThumbIntermediate"@, 1);
        lemma_hierarchy_entry_first_at("leftThumbDistal"@, 24);
    } else if i == 3 {
        lemma_vrm0_rename_by_length("rightThumbProximal"@, 2);
        lemma_vrm0_rename_by_length("rightHand"@, -1);
        lemma_hierarchy_entry_first_at("rightThumbMetacarpal"@, 37);
    } else if i == 4 {
        lemma_vrm0_rename_by_length("rightThumbIntermediate"@, 3);
        lemma_vrm0_rename_by_length("rightThumbProximal"@, 2);
        lemma_hierarchy_entry_first_at("rightThumbProximal"@, 38);
    } else if i == 5 {
        lemma_vrm0_rename_by_length("rightThumbDistal"@, -1);
        lemma_vrm0_rename_by_length("rightThumbIntermediate"@, 3);
        lemma_hierarchy_entry_first_at("rightThumbDistal"@, 39);
    }
}

} // verus!
