//! Building a skeleton hierarchy in glTF skin-joint order, so that a vertex's
//! joint index is also its bone index.

use vstd::prelude::*;
use crate::skeleton::{BoneDef, BoneId, Skeleton, bone_links, parents_precede};
use crate::table::{lemma_rassoc_found, rassoc};
use crate::text::str_eq;
use crate::topology::{
    NodeTopology, ancestor, climb, climb_stops, lemma_ancestor_ended, lemma_climb_bounded,
    lemma_climb_reaches, nearest_marked, parent_links, parent_of, parents_acyclic,
};
use crate::vrm::{Vrm0Humanoid, VrmcHumanoid, vrm0_as_vrmc};
use crate::vrm_skeleton::{node_bone_name, node_vrm_name_of};

verus! {

/// The declared index of the node named `name` (the last one, when several share the name).
pub open spec fn node_by_name(nodes: Seq<NodeTopology>, name: Seq<char>) -> Option<usize> {
    rassoc(nodes.map_values(|n: NodeTopology| (n.name@, n.index)), name)
}

/// The node that skin joint `skin_idx`, named `joint`, sits on: the node of
/// that name, else the node at the joint's own position.
pub open spec fn joint_node(nodes: Seq<NodeTopology>, joint: Seq<char>, skin_idx: int) -> int {
    match node_by_name(nodes, joint) {
        Some(i) => i as int,
        None => skin_idx,
    }
}

/// Marks a node with the bone last built on it.
pub open spec fn skin_mark(marks: Seq<(int, int)>) -> spec_fn(int) -> Option<int> {
    |q: int| rassoc(marks, q)
}

/// The hierarchy built from the first `k` skin joints, and the node each bone
/// sits on: bone `k` is joint `k`, named after the humanoid bone its node
/// carries (else after the joint), and parented to the bone of the nearest
/// ancestor node that carries an already-built bone.
pub open spec fn skin_links(
    h: Seq<(Seq<char>, usize)>,
    nodes: Seq<NodeTopology>,
    joints: Seq<Seq<char>>,
    k: nat,
) -> (Seq<(Seq<char>, Option<int>)>, Seq<(int, int)>)
    decreases k,
{
    if k == 0 {
        (Seq::empty(), Seq::empty())
    } else {
        let (prev, marks) = skin_links(h, nodes, joints, (k - 1) as nat);
        let joint = joints[k - 1];
        let node = joint_node(nodes, joint, k - 1);
        let name = match node_bone_name(h, node) {
            Some(n) => n,
            None => joint,
        };
        let parent = nearest_marked(parent_links(nodes), skin_mark(marks), node);
        (prev.push((name, parent)), marks.push((node, k - 1)))
    }
}

/// The node that a skin joint sits on (see [`joint_node`]).
pub fn skin_joint_node(nodes: &[NodeTopology], joint_name: &str, skin_idx: usize) -> (r: usize)
    ensures
        r as int == joint_node(nodes@, joint_name@, skin_idx as int),
{
    let ghost t = nodes@.map_values(|n: NodeTopology| (n.name@, n.index));
    let mut i: usize = nodes.len();
    assert(t.subrange(0, i as int) =~= t);
    while i > 0
        invariant
            i <= nodes@.len(),
            t == nodes@.map_values(|n: NodeTopology| (n.name@, n.index)),
            rassoc(t, joint_name@) == rassoc(t.subrange(0, i as int), joint_name@),
        decreases i,
    {
        let ghost s = t.subrange(0, i as int);
        assert(s.last() == (nodes@[i - 1].name@, nodes@[i - 1].index));
        assert(s.drop_last() =~= t.subrange(0, i - 1));
        if str_eq(nodes[i - 1].name.as_str(), joint_name) {
            return nodes[i - 1].index;
        }
        i -= 1;
    }
    skin_idx
}

/// The bone last built on node `q`.
fn marked_bone(marks: &Vec<(usize, usize)>, q: usize) -> (r: Option<usize>)
    ensures
        match r {
            Some(b) => rassoc(marks@.map_values(|m: (usize, usize)| (m.0 as int, m.1 as int)), q as int) == Some(
                b as int,
            ),
            None => rassoc(marks@.map_values(|m: (usize, usize)| (m.0 as int, m.1 as int)), q as int) is None,
        },
{
    let ghost t = marks@.map_values(|m: (usize, usize)| (m.0 as int, m.1 as int));
    let mut i: usize = marks.len();
    assert(t.subrange(0, i as int) =~= t);
    while i > 0
        invariant
            i <= marks@.len(),
            t == marks@.map_values(|m: (usize, usize)| (m.0 as int, m.1 as int)),
            rassoc(t, q as int) == rassoc(t.subrange(0, i as int), q as int),
        decreases i,
    {
        let ghost s = t.subrange(0, i as int);
        assert(s.last() == (marks@[i - 1].0 as int, marks@[i - 1].1 as int));
        assert(s.drop_last() =~= t.subrange(0, i - 1));
        if marks[i - 1].0 == q {
            return Some(marks[i - 1].1);
        }
        i -= 1;
    }
    None
}

/// The bone of the nearest ancestor node of `node` that carries a built bone.
fn skin_parent(nodes: &[NodeTopology], marks: &Vec<(usize, usize)>, node: usize) -> (r: Option<usize>)
    requires
        climb_stops(
            parent_links(nodes@),
            skin_mark(marks@.map_values(|m: (usize, usize)| (m.0 as int, m.1 as int))),
            node as int,
            (nodes@.len() + 1) as nat,
        ),
    ensures
        match r {
            Some(b) => nearest_marked(
                parent_links(nodes@),
                skin_mark(marks@.map_values(|m: (usize, usize)| (m.0 as int, m.1 as int))),
                node as int,
            ) == Some(b as int),
            None => nearest_marked(
                parent_links(nodes@),
                skin_mark(marks@.map_values(|m: (usize, usize)| (m.0 as int, m.1 as int))),
                node as int,
            ) is None,
        },
{
    let ghost p = parent_links(nodes@);
    let ghost mark = skin_mark(marks@.map_values(|m: (usize, usize)| (m.0 as int, m.1 as int)));
    let ghost mut fuel: nat = (p.len() + 1) as nat;
    let mut current = node;
    loop
        invariant
            p == parent_links(nodes@),
            mark == skin_mark(marks@.map_values(|m: (usize, usize)| (m.0 as int, m.1 as int))),
            climb_stops(p, mark, current as int, fuel),
            nearest_marked(p, mark, node as int) == climb(p, mark, current as int, fuel),
        decreases fuel,
    {
        if current >= nodes.len() {
            return None;
        }
        assert(p[current as int] == nodes@[current as int].parent);
        let parent = match nodes[current].parent {
            Some(q) => q,
            None => return None,
        };
        let found = marked_bone(marks, parent);
        if found.is_some() {
            return found;
        }
        proof {
            fuel = (fuel - 1) as nat;
        }
        current = parent;
    }
}

/// The marks that the first `k` joints leave: joint `j` on its node.
pub open spec fn skin_marks(nodes: Seq<NodeTopology>, joints: Seq<Seq<char>>, k: nat) -> Seq<(int, int)> {
    Seq::new(k, |j: int| (joint_node(nodes, joints[j], j), j))
}

/// Whether every skin joint's search for a parent bone stops: the chain of
/// parents above its node ends, or reaches the node of an earlier joint,
/// within as many links as there are nodes. (A chain that enters a cycle of
/// nodes carrying no earlier joint is searched forever.)
pub open spec fn skin_climbs_stop(nodes: Seq<NodeTopology>, joints: Seq<Seq<char>>) -> bool {
    forall|k: int| 0 <= k < joints.len() ==> #[trigger] joint_climb_stops(nodes, joints, k)
}

/// Whether joint `k`'s search for a parent bone stops (see [`skin_climbs_stop`]).
pub open spec fn joint_climb_stops(nodes: Seq<NodeTopology>, joints: Seq<Seq<char>>, k: int) -> bool {
    climb_stops(
        parent_links(nodes),
        skin_mark(skin_marks(nodes, joints, k as nat)),
        joint_node(nodes, joints[k], k),
        (nodes.len() + 1) as nat,
    )
}

/// The marks of the skin-order hierarchy are those of its joints.
proof fn lemma_skin_links_marks(h: Seq<(Seq<char>, usize)>, nodes: Seq<NodeTopology>, joints: Seq<Seq<char>>, k: nat)
    ensures
        skin_links(h, nodes, joints, k).1 == skin_marks(nodes, joints, k),
    decreases k,
{
    if k > 0 {
        lemma_skin_links_marks(h, nodes, joints, (k - 1) as nat);
        assert(skin_marks(nodes, joints, (k - 1) as nat).push(
            (joint_node(nodes, joints[k - 1], k - 1), k - 1),
        ) =~= skin_marks(nodes, joints, k));
    }
}

/// Whether the upward search from `node` stops within as many links as
/// there are nodes, plus one (see [`climb_stops`]).
fn climb_stops_exec(nodes: &[NodeTopology], marks: &Vec<(usize, usize)>, node: usize) -> (r: bool)
    ensures
        r == climb_stops(
            parent_links(nodes@),
            skin_mark(marks@.map_values(|m: (usize, usize)| (m.0 as int, m.1 as int))),
            node as int,
            (nodes@.len() + 1) as nat,
        ),
{
    let ghost p = parent_links(nodes@);
    let ghost mark = skin_mark(marks@.map_values(|m: (usize, usize)| (m.0 as int, m.1 as int)));
    let mut current = node;
    let mut f: usize = nodes.len();
    loop
        invariant
            p == parent_links(nodes@),
            mark == skin_mark(marks@.map_values(|m: (usize, usize)| (m.0 as int, m.1 as int))),
            climb_stops(p, mark, node as int, (p.len() + 1) as nat) == climb_stops(
                p,
                mark,
                current as int,
                (f + 1) as nat,
            ),
        decreases f,
    {
        if current >= nodes.len() {
            return true;
        }
        assert(p[current as int] == nodes@[current as int].parent);
        let parent = match nodes[current].parent {
            Some(q) => q,
            None => return true,
        };
        if marked_bone(marks, parent).is_some() {
            return true;
        }
        assert(mark(parent as int) is None);
        assert(climb_stops(p, mark, current as int, (f + 1) as nat) == climb_stops(p, mark, parent as int, f as nat));
        if f == 0 {
            assert(!climb_stops(p, mark, parent as int, 0));
            return false;
        }
        current = parent;
        f -= 1;
    }
}

/// Whether every skin joint's search for a parent bone stops (see [`skin_climbs_stop`]).
pub fn skin_climbs_stop_exec(nodes: &[NodeTopology], joint_names: &[String]) -> (r: bool)
    ensures
        r == skin_climbs_stop(nodes@, joint_names_view(joint_names@)),
{
    let ghost jv = joint_names_view(joint_names@);
    let mut marks: Vec<(usize, usize)> = Vec::new();
    let n = joint_names.len();
    let mut k: usize = 0;
    while k < n
        invariant
            n == joint_names@.len(),
            jv == joint_names_view(joint_names@),
            k <= n,
            marks@.map_values(|m: (usize, usize)| (m.0 as int, m.1 as int)) == skin_marks(nodes@, jv, k as nat),
            forall|j: int| 0 <= j < k ==> #[trigger] joint_climb_stops(nodes@, jv, j),
        decreases n - k,
    {
        let joint = joint_names[k].as_str();
        assert(joint@ == jv[k as int]);
        let node = skin_joint_node(nodes, joint, k);
        if !climb_stops_exec(nodes, &marks, node) {
            assert(!joint_climb_stops(nodes@, jv, k as int));
            return false;
        }
        assert(joint_climb_stops(nodes@, jv, k as int));
        let ghost marks_before = marks@;
        marks.push((node, k));
        assert(marks@.map_values(|m: (usize, usize)| (m.0 as int, m.1 as int)) =~= marks_before.map_values(
            |m: (usize, usize)| (m.0 as int, m.1 as int),
        ).push((node as int, k as int)));
        assert(skin_marks(nodes@, jv, k as nat).push((node as int, k as int)) =~= skin_marks(nodes@, jv, (k + 1) as nat));
        k += 1;
    }
    true
}

/// The skin-order hierarchy has one bone per joint, each marked on its own
/// index, and every bone's parent comes before it.
pub proof fn lemma_skin_links_parents_precede(
    h: Seq<(Seq<char>, usize)>,
    nodes: Seq<NodeTopology>,
    joints: Seq<Seq<char>>,
    k: nat,
)
    ensures
        skin_links(h, nodes, joints, k).0.len() == k,
        skin_links(h, nodes, joints, k).1.len() == k,
        forall|j: int| 0 <= j < k ==> (#[trigger] skin_links(h, nodes, joints, k).1[j]).1 == j,
        parents_precede(skin_links(h, nodes, joints, k).0),
    decreases k,
{
    if k > 0 {
        lemma_skin_links_parents_precede(h, nodes, joints, (k - 1) as nat);
        let (prev, marks) = skin_links(h, nodes, joints, (k - 1) as nat);
        let (t, m) = skin_links(h, nodes, joints, k);
        assert forall|j: int| 0 <= j < k implies (#[trigger] m[j]).1 == j by {
            if j < k - 1 {
                assert(m[j] == marks[j]);
            }
        }
        let mark = skin_mark(marks);
        assert forall|q: int| (#[trigger] mark(q)) is Some implies 0 <= mark(q).unwrap() < prev.len() by {
            lemma_rassoc_found(marks, q);
            let v = mark(q).unwrap();
            let j = choose|j: int| 0 <= j < marks.len() && #[trigger] marks[j] == (q, v);
            assert(marks[j].1 == j);
        }
        let node = joint_node(nodes, joints[k - 1], k - 1);
        lemma_climb_bounded(parent_links(nodes), mark, node, (nodes.len() + 1) as nat, prev.len() as int);
        assert forall|i: int| 0 <= i < t.len() implies (#[trigger] t[i].1 matches Some(j) ==> 0 <= j < i) by {
            if i < prev.len() {
                assert(t[i] == prev[i]);
            }
        }
    }
}

/// The view of a list of joint names.
pub open spec fn joint_names_view(joints: Seq<String>) -> Seq<Seq<char>> {
    joints.map_values(|s: String| s@)
}

/// Builds bones in skin-joint order (see [`skin_links`]).
fn build_skin_order(h: &VrmcHumanoid, nodes: &[NodeTopology], joints: &[String], direct: bool) -> (r: Vec<BoneDef>)
    requires
        skin_climbs_stop(nodes@, joint_names_view(joints@)),
    ensures
        bone_links(r@) == skin_links(h@, nodes@, joint_names_view(joints@), joints@.len() as nat).0,
        forall|i: int| 0 <= i < r@.len() ==> (#[trigger] r@[i]).use_direct_offset == direct,
{
    let ghost jv = joint_names_view(joints@);
    let mut bones: Vec<BoneDef> = Vec::new();
    let mut marks: Vec<(usize, usize)> = Vec::new();
    let n = joints.len();
    let mut k: usize = 0;
    while k < n
        invariant
            n == joints@.len(),
            jv == joint_names_view(joints@),
            skin_climbs_stop(nodes@, jv),
            k <= n,
            bones@.len() == k,
            bone_links(bones@) == skin_links(h@, nodes@, jv, k as nat).0,
            marks@.map_values(|m: (usize, usize)| (m.0 as int, m.1 as int)) == skin_links(h@, nodes@, jv, k as nat).1,
            forall|i: int| 0 <= i < bones@.len() ==> (#[trigger] bones@[i]).use_direct_offset == direct,
        decreases n - k,
    {
        proof {
            lemma_skin_links_parents_precede(h@, nodes@, jv, k as nat);
            lemma_skin_links_marks(h@, nodes@, jv, k as nat);
        }
        let joint = joints[k].as_str();
        assert(joint@ == jv[k as int]);
        let node = skin_joint_node(nodes, joint, k);
        assert(joint_climb_stops(nodes@, jv, k as int));
        let name = match node_vrm_name_of(h, node) {
            Some(s) => s.to_owned(),
            None => joint.to_owned(),
        };
        let parent = skin_parent(nodes, &marks, node);
        let ghost before = bones@;
        let ghost marks_before = marks@;
        bones.push(
            BoneDef {
                name,
                parent: match parent {
                    Some(i) => Some(BoneId(i)),
                    None => None,
                },
                use_direct_offset: direct,
            },
        );
        marks.push((node, k));
        assert(bone_links(bones@) =~= bone_links(before).push(
            (name@, match parent { Some(i) => Some(i as int), None => None }),
        ));
        assert(marks@.map_values(|m: (usize, usize)| (m.0 as int, m.1 as int)) =~= marks_before.map_values(
            |m: (usize, usize)| (m.0 as int, m.1 as int),
        ).push((node as int, k as int)));
        k += 1;
    }
    bones
}

impl Skeleton {
    /// Builds a VRM hierarchy in glTF skin-joint order: bone `i` is joint `i`,
    /// named after the humanoid bone its node carries (else after the joint, as
    /// for hair and other non-humanoid joints).
    pub fn from_vrm_skin_order(humanoid: &VrmcHumanoid, nodes: &[NodeTopology], skin_joint_names: &[String]) -> (r: Skeleton)
        requires
            skin_climbs_stop(nodes@, joint_names_view(skin_joint_names@)),
        ensures
            r.links() == skin_links(
                humanoid@,
                nodes@,
                joint_names_view(skin_joint_names@),
                skin_joint_names@.len() as nat,
            ).0,
            parents_precede(r.links()),
            forall|i: int| 0 <= i < r.bones@.len() ==> !(#[trigger] r.bones@[i]).use_direct_offset,
    {
        let bones = build_skin_order(humanoid, nodes, skin_joint_names, false);
        proof {
            lemma_skin_links_parents_precede(
                humanoid@,
                nodes@,
                joint_names_view(skin_joint_names@),
                skin_joint_names@.len() as nat,
            );
        }
        Skeleton { bones }
    }

    /// Builds a hierarchy from a plain glTF skin (Mixamo, Ready Player Me and
    /// other rigs without a VRM extension): bone `i` is joint `i`, named after
    /// it, with offsets taken as direct parent-to-child differences.
    pub fn from_gltf_skin_joints(nodes: &[NodeTopology], skin_joint_names: &[String]) -> (r: Skeleton)
        requires
            skin_climbs_stop(nodes@, joint_names_view(skin_joint_names@)),
        ensures
            r.links() == skin_links(
                Seq::empty(),
                nodes@,
                joint_names_view(skin_joint_names@),
                skin_joint_names@.len() as nat,
            ).0,
            parents_precede(r.links()),
            forall|i: int| 0 <= i < r.bones@.len() ==> (#[trigger] r.bones@[i]).use_direct_offset,
    {
        let none = VrmcHumanoid { human_bones: Vec::new() };
        assert(none@ =~= Seq::<(Seq<char>, usize)>::empty());
        let bones = build_skin_order(&none, nodes, skin_joint_names, true);
        proof {
            lemma_skin_links_parents_precede(
                Seq::empty(),
                nodes@,
                joint_names_view(skin_joint_names@),
                skin_joint_names@.len() as nat,
            );
        }
        Skeleton { bones }
    }

    /// Builds a VRM 0.x hierarchy in skin-joint order: its humanoid under the
    /// VRM 1.0 bone names, as [`Skeleton::from_vrm_skin_order`] does.
    pub fn from_vrm0_skin_order(humanoid: &Vrm0Humanoid, nodes: &[NodeTopology], skin_joint_names: &[String]) -> (r: Skeleton)
        requires
            skin_climbs_stop(nodes@, joint_names_view(skin_joint_names@)),
        ensures
            r.links() == skin_links(
                vrm0_as_vrmc(humanoid@),
                nodes@,
                joint_names_view(skin_joint_names@),
                skin_joint_names@.len() as nat,
            ).0,
            parents_precede(r.links()),
            forall|i: int| 0 <= i < r.bones@.len() ==> !(#[trigger] r.bones@[i]).use_direct_offset,
    {
        let vrm1 = humanoid.to_vrmc();
        Self::from_vrm_skin_order(&vrm1, nodes, skin_joint_names)
    }
}

} // verus!

verus! {

/// The node of each skin joint (see [`joint_node`]).
pub fn skin_joint_nodes(nodes: &[NodeTopology], joint_names: &[String]) -> (r: Vec<usize>)
    ensures
        r@.len() == joint_names@.len(),
        forall|k: int| 0 <= k < r@.len() ==> (#[trigger] r@[k]) as int == joint_node(nodes@, joint_names@[k]@, k),
{
    let mut out: Vec<usize> = Vec::new();
    let n = joint_names.len();
    let mut k: usize = 0;
    while k < n
        invariant
            n == joint_names@.len(),
            k <= n,
            out@.len() == k,
            forall|j: int| 0 <= j < k ==> (#[trigger] out@[j]) as int == joint_node(nodes@, joint_names@[j]@, j),
        decreases n - k,
    {
        out.push(skin_joint_node(nodes, joint_names[k].as_str(), k));
        k += 1;
    }
    out
}

/// The bone that the first `k` joints put last on node `q`.
pub open spec fn bone_on_node(joint_nodes: Seq<usize>, k: int, q: int) -> Option<int>
    decreases k,
{
    if k <= 0 {
        None
    } else if joint_nodes[k - 1] as int == q {
        Some(k - 1)
    } else {
        bone_on_node(joint_nodes, k - 1, q)
    }
}

/// The declared index of the first node, in list order, whose declared index
/// carries bone `b` once the first `k` joints are placed.
pub open spec fn first_node_carrying(ns: Seq<NodeTopology>, joint_nodes: Seq<usize>, k: int, b: int) -> Option<usize>
    decreases ns.len(),
{
    if ns.len() == 0 {
        None
    } else if bone_on_node(joint_nodes, k, ns[0].index as int) == Some(b) {
        Some(ns[0].index)
    } else {
        first_node_carrying(ns.drop_first(), joint_nodes, k, b)
    }
}

/// The bone that the first `k` joints put last on node `q`.
fn bone_on_node_exec(joint_nodes: &[usize], k: usize, q: usize) -> (r: Option<usize>)
    requires
        k <= joint_nodes@.len(),
    ensures
        match r {
            Some(b) => bone_on_node(joint_nodes@, k as int, q as int) == Some(b as int),
            None => bone_on_node(joint_nodes@, k as int, q as int) is None,
        },
{
    let mut j: usize = k;
    while j > 0
        invariant
            j <= k <= joint_nodes@.len(),
            bone_on_node(joint_nodes@, k as int, q as int) == bone_on_node(joint_nodes@, j as int, q as int),
        decreases j,
    {
        if joint_nodes[j - 1] == q {
            return Some(j - 1);
        }
        j -= 1;
    }
    None
}

/// The node that the offset of skin bone `k` is measured from, given its
/// parent bone: the first node whose declared index carries the parent once the
/// bones before `k` are placed; node 0 when none does.
pub fn offset_parent_node(nodes: &[NodeTopology], joint_nodes: &[usize], k: usize, parent: usize) -> (r: usize)
    requires
        k <= joint_nodes@.len(),
    ensures
        r == match first_node_carrying(nodes@, joint_nodes@, k as int, parent as int) {
            Some(n) => n,
            None => 0,
        },
{
    let n = nodes.len();
    let mut i: usize = 0;
    assert(nodes@.skip(0) =~= nodes@);
    while i < n
        invariant
            n == nodes@.len(),
            i <= n,
            k <= joint_nodes@.len(),
            first_node_carrying(nodes@, joint_nodes@, k as int, parent as int) == first_node_carrying(
                nodes@.skip(i as int),
                joint_nodes@,
                k as int,
                parent as int,
            ),
        decreases n - i,
    {
        assert(nodes@.skip(i as int)[0] == nodes@[i as int]);
        assert(nodes@.skip(i as int).drop_first() =~= nodes@.skip(i + 1));
        if bone_on_node_exec(joint_nodes, k, nodes[i].index) == Some(parent) {
            return nodes[i].index;
        }
        i += 1;
    }
    0
}

/// Whether child node `c` counts toward a skin bone's length: it already
/// carries a bone of the first `k` joints, or it is a node named like a joint.
pub open spec fn skin_length_child_ok(
    nodes: Seq<NodeTopology>,
    joints: Seq<Seq<char>>,
    joint_nodes: Seq<usize>,
    k: int,
    c: usize,
) -> bool {
    ||| bone_on_node(joint_nodes, k, c as int) is Some
    ||| c < nodes.len() && joints.contains(nodes[c as int].name@)
}

/// The first of the children `cs` that counts toward a skin bone's length.
pub open spec fn first_length_child(
    cs: Seq<usize>,
    nodes: Seq<NodeTopology>,
    joints: Seq<Seq<char>>,
    joint_nodes: Seq<usize>,
    k: int,
) -> Option<usize>
    decreases cs.len(),
{
    if cs.len() == 0 {
        None
    } else if skin_length_child_ok(nodes, joints, joint_nodes, k, cs[0]) {
        Some(cs[0])
    } else {
        first_length_child(cs.drop_first(), nodes, joints, joint_nodes, k)
    }
}

/// Whether some joint is named `name`.
fn joint_named(joint_names: &[String], name: &str) -> (r: bool)
    ensures
        r == joint_names_view(joint_names@).contains(name@),
{
    let n = joint_names.len();
    let mut i: usize = 0;
    while i < n
        invariant
            n == joint_names@.len(),
            i <= n,
            forall|j: int| 0 <= j < i ==> joint_names_view(joint_names@)[j] != name@,
        decreases n - i,
    {
        if str_eq(joint_names[i].as_str(), name) {
            assert(joint_names_view(joint_names@)[i as int] == name@);
            return true;
        }
        i += 1;
    }
    false
}

/// The child node whose distance gives the length of glTF skin bone `k`: the
/// first child of the joint's node that counts (see [`skin_length_child_ok`]).
pub fn skin_length_child(nodes: &[NodeTopology], joint_names: &[String], joint_nodes: &[usize], k: usize) -> (r: Option<usize>)
    requires
        k < joint_nodes@.len(),
    ensures
        r == if (joint_nodes@[k as int] as int) < nodes@.len() {
            first_length_child(
                nodes@[joint_nodes@[k as int] as int].children@,
                nodes@,
                joint_names_view(joint_names@),
                joint_nodes@,
                k as int,
            )
        } else {
            None
        },
{
    let node = joint_nodes[k];
    if node >= nodes.len() {
        return None;
    }
    let cs = &nodes[node].children;
    let ghost jv = joint_names_view(joint_names@);
    let m = cs.len();
    let mut i: usize = 0;
    assert(cs@.skip(0) =~= cs@);
    while i < m
        invariant
            m == cs@.len(),
            i <= m,
            k < joint_nodes@.len(),
            node == joint_nodes@[k as int],
            node < nodes@.len(),
            cs@ == nodes@[node as int].children@,
            jv == joint_names_view(joint_names@),
            first_length_child(cs@, nodes@, jv, joint_nodes@, k as int) == first_length_child(
                cs@.skip(i as int),
                nodes@,
                jv,
                joint_nodes@,
                k as int,
            ),
        decreases m - i,
    {
        assert(cs@.skip(i as int)[0] == cs@[i as int]);
        assert(cs@.skip(i as int).drop_first() =~= cs@.skip(i + 1));
        let c = cs[i];
        let placed = bone_on_node_exec(joint_nodes, k, c).is_some();
        let named = c < nodes.len() && joint_named(joint_names, nodes[c].name.as_str());
        if placed || named {
            return Some(c);
        }
        i += 1;
    }
    None
}

} // verus!

verus! {

/// The last entry of `t` with key `k` is the one at `a` when no later entry has that key.
proof fn lemma_rassoc_at<K, V>(t: Seq<(K, V)>, k: K, a: int)
    requires
        0 <= a < t.len(),
        t[a].0 == k,
        forall|j: int| a < j < t.len() ==> (#[trigger] t[j]).0 != k,
    ensures
        rassoc(t, k) == Some(t[a].1),
    decreases t.len(),
{
    if a < t.len() - 1 {
        assert(t.last() == t[t.len() - 1]);
        assert forall|j: int| a < j < t.drop_last().len() implies (#[trigger] t.drop_last()[j]).0 != k by {
            assert(t.drop_last()[j] == t[j]);
        }
        assert(t.drop_last()[a] == t[a]);
        lemma_rassoc_at(t.drop_last(), k, a);
    }
}

/// The skin-order hierarchy of the first `k` joints begins that of any longer prefix.
proof fn lemma_skin_links_prefix(
    h: Seq<(Seq<char>, usize)>,
    nodes: Seq<NodeTopology>,
    joints: Seq<Seq<char>>,
    k: nat,
    k2: nat,
)
    requires
        k <= k2,
    ensures
        forall|j: int|
            0 <= j < k ==> #[trigger] skin_links(h, nodes, joints, k2).0[j] == skin_links(
                h,
                nodes,
                joints,
                k,
            ).0[j],
    decreases k2,
{
    if k < k2 {
        lemma_skin_links_prefix(h, nodes, joints, k, (k2 - 1) as nat);
        lemma_skin_links_parents_precede(h, nodes, joints, (k2 - 1) as nat);
    }
}

/// The skin-order hierarchy mirrors the node tree: when joint `b`'s node lies
/// below the node of an earlier joint `a`, no joint between them sits on `a`'s
/// node, and no node in between carries an earlier joint, then bone `b` hangs
/// from bone `a`.
pub proof fn lemma_skin_links_follow_node_tree(
    h: Seq<(Seq<char>, usize)>,
    nodes: Seq<NodeTopology>,
    joints: Seq<Seq<char>>,
    a: int,
    b: int,
    s: nat,
)
    requires
        parents_acyclic(parent_links(nodes)),
        0 <= a < b < joints.len(),
        1 <= s,
        ancestor(parent_links(nodes), joint_node(nodes, joints[b], b), s) == Some(
            joint_node(nodes, joints[a], a),
        ),
        forall|j: int| a < j < b ==> #[trigger] joint_node(nodes, joints[j], j) != joint_node(nodes, joints[a], a),
        forall|r: nat, j: int|
            0 < r < s && 0 <= j < b ==> #[trigger] ancestor(parent_links(nodes), joint_node(nodes, joints[b], b), r)
                != Some(#[trigger] joint_node(nodes, joints[j], j)),
    ensures
        skin_links(h, nodes, joints, joints.len() as nat).0[b].1 == Some(a),
{
    let p = parent_links(nodes);
    let nb = joint_node(nodes, joints[b], b);
    let na = joint_node(nodes, joints[a], a);
    let marks = skin_links(h, nodes, joints, b as nat).1;
    lemma_skin_links_marks(h, nodes, joints, b as nat);
    let mark = skin_mark(marks);
    assert forall|j: int| a < j < marks.len() implies (#[trigger] marks[j]).0 != na by {
        assert(marks[j] == (joint_node(nodes, joints[j], j), j));
    }
    assert(marks[a] == (na, a));
    lemma_rassoc_at(marks, na, a);
    assert(mark(na) == Some(a));
    assert forall|r: nat| 0 < r < s implies (#[trigger] ancestor(p, nb, r) matches Some(q) ==> mark(q) is None) by {
        if let Some(q) = ancestor(p, nb, r) {
            lemma_rassoc_found(marks, q);
            if mark(q) is Some {
                let j = choose|j: int| 0 <= j < marks.len() && #[trigger] marks[j] == (q, mark(q).unwrap());
                assert(marks[j] == (joint_node(nodes, joints[j], j), j));
                assert(ancestor(p, nb, r) != Some(joint_node(nodes, joints[j], j)));
            }
        }
    }
    assert(ancestor(p, nb, 0) == Some(nb));
    assert(ancestor(p, nb, 1) == parent_of(p, nb));
    if !(0 <= nb < p.len()) {
        lemma_ancestor_ended(p, nb, 1, s);
    }
    assert(ancestor(p, nb, (p.len() + 1) as nat) is None);
    if s > p.len() + 1 {
        lemma_ancestor_ended(p, nb, (p.len() + 1) as nat, s);
    }
    lemma_climb_reaches(p, mark, nb, s, (p.len() + 1) as nat);
    lemma_skin_links_parents_precede(h, nodes, joints, b as nat);
    lemma_skin_links_prefix(h, nodes, joints, (b + 1) as nat, joints.len() as nat);
    assert(skin_links(h, nodes, joints, (b + 1) as nat).0[b].1 == Some(a));
}

} // verus!
