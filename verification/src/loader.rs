//! The non-numeric part of loading a VRM model: resolving skin joints to
//! nodes and choosing how to build the skeleton from the glTF extensions.

use vstd::prelude::*;
use vstd::hash_map::StringHashMap;
use crate::json::JsonValue;
use crate::skeleton::{Skeleton, bone_index, parents_precede};
use crate::skin_skeleton::{joint_names_view, skin_climbs_stop, skin_climbs_stop_exec, skin_links};
use crate::table::assoc;
use crate::text::str_eq;
use crate::topology::{
    NodeTopology, parent_links, parents_acyclic, parents_are_acyclic, parents_are_in_range, parents_in_range,
};
use crate::vrm::{parse_vrm0, parse_vrmc_vrm, vrm0_as_vrmc, vrm0_humanoid_of, vrmc_humanoid_of, VrmcHumanoid};
use crate::vrm_skeleton::vrm_links;

verus! {

/// The names of a node list.
pub open spec fn node_names(nodes: Seq<NodeTopology>) -> Seq<Seq<char>> {
    nodes.map_values(|n: NodeTopology| n.name@)
}

/// The position of the first node named `name`.
pub fn find_node_index(nodes: &[NodeTopology], name: &str) -> (r: Option<usize>)
    ensures
        match r {
            Some(i) => bone_index(node_names(nodes@), name@) == Some(i as int),
            None => bone_index(node_names(nodes@), name@) is None,
        },
{
    let n = nodes.len();
    let ghost t = crate::skeleton::indexed(node_names(nodes@));
    let mut i: usize = 0;
    assert(t.skip(0) =~= t);
    while i < n
        invariant
            n == nodes@.len(),
            t == crate::skeleton::indexed(node_names(nodes@)),
            i <= n,
            assoc(t, name@) == assoc(t.skip(i as int), name@),
        decreases n - i,
    {
        assert(t.skip(i as int)[0] == (nodes@[i as int].name@, i as int));
        if str_eq(nodes[i].name.as_str(), name) {
            return Some(i);
        }
        assert(t.skip(i as int).drop_first() =~= t.skip(i + 1));
        i += 1;
    }
    None
}

/// The node of each skin joint, by name; joints that name no node map to node 0.
pub fn joint_node_indices(nodes: &[NodeTopology], joint_names: &[String]) -> (r: Vec<usize>)
    ensures
        r@.len() == joint_names@.len(),
        forall|j: int|
            0 <= j < r@.len() ==> #[trigger] r@[j] as int == match bone_index(node_names(nodes@), joint_names@[j]@) {
                Some(i) => i,
                None => 0,
            },
{
    let mut out: Vec<usize> = Vec::new();
    let n = joint_names.len();
    let mut j: usize = 0;
    while j < n
        invariant
            n == joint_names@.len(),
            j <= n,
            out@.len() == j,
            forall|k: int|
                0 <= k < j ==> #[trigger] out@[k] as int == match bone_index(node_names(nodes@), joint_names@[k]@) {
                    Some(i) => i,
                    None => 0,
                },
        decreases n - j,
    {
        let idx = match find_node_index(nodes, joint_names[j].as_str()) {
            Some(i) => i,
            None => 0,
        };
        out.push(idx);
        j += 1;
    }
    out
}

/// Each skin joint's name with its joint index.
pub fn bone_name_to_joint(joint_names: &[String]) -> (r: Vec<(String, usize)>)
    ensures
        r@.len() == joint_names@.len(),
        forall|j: int| 0 <= j < r@.len() ==> (#[trigger] r@[j]).0@ == joint_names@[j]@ && r@[j].1 == j,
{
    let mut out: Vec<(String, usize)> = Vec::new();
    let n = joint_names.len();
    let mut j: usize = 0;
    while j < n
        invariant
            n == joint_names@.len(),
            j <= n,
            out@.len() == j,
            forall|k: int| 0 <= k < j ==> (#[trigger] out@[k]).0@ == joint_names@[k]@ && out@[k].1 == k,
        decreases n - j,
    {
        out.push((joint_names[j].clone(), j));
        j += 1;
    }
    out
}

/// `m` with the entries of `t` inserted in order (later entries win).
pub open spec fn insert_all(m: Map<Seq<char>, usize>, t: Seq<(Seq<char>, usize)>) -> Map<Seq<char>, usize>
    decreases t.len(),
{
    if t.len() == 0 {
        m
    } else {
        insert_all(m, t.drop_last()).insert(t.last().0, t.last().1)
    }
}

/// Entries by the views of their names.
pub open spec fn entries_view(t: Seq<(String, usize)>) -> Seq<(Seq<char>, usize)> {
    t.map_values(|e: (String, usize)| (e.0@, e.1))
}

/// A map from names to nodes with the entries inserted in order (later entries win).
pub fn node_map(entries: &[(String, usize)]) -> (r: StringHashMap<usize>)
    ensures
        r@ == insert_all(Map::empty(), entries_view(entries@)),
{
    let ghost t = entries_view(entries@);
    let mut m: StringHashMap<usize> = StringHashMap::new();
    let n = entries.len();
    let mut i: usize = 0;
    while i < n
        invariant
            n == entries@.len(),
            t == entries_view(entries@),
            i <= n,
            m@ == insert_all(Map::empty(), t.subrange(0, i as int)),
        decreases n - i,
    {
        assert(t.subrange(0, i + 1).drop_last() =~= t.subrange(0, i as int));
        assert(t.subrange(0, i + 1).last() == (entries@[i as int].0@, entries@[i as int].1));
        m.insert(entries[i].0.clone(), entries[i].1);
        i += 1;
    }
    assert(t.subrange(0, n as int) =~= t);
    m
}

/// What `build_skeleton` needs of the node tree, by the branch it takes: for a
/// humanoid, parent links in range and without cycles; for a plain skin, that
/// every joint's search for a parent bone stops; nothing otherwise.
pub open spec fn build_skeleton_ready(
    extensions: Option<&JsonValue>,
    nodes: Seq<NodeTopology>,
    first_skin_joints: Option<&[String]>,
) -> bool {
    match extensions {
        None => true,
        Some(ext) => if vrmc_humanoid_of(*ext) is Some || vrm0_humanoid_of(*ext) is Some {
            parents_in_range(parent_links(nodes)) && parents_acyclic(parent_links(nodes))
        } else {
            match first_skin_joints {
                Some(joints) => skin_climbs_stop(nodes, joint_names_view(joints@)),
                None => true,
            }
        },
    }
}

/// Whether the node tree meets what `build_skeleton` needs (see [`build_skeleton_ready`]).
pub fn can_build_skeleton(
    extensions: Option<&JsonValue>,
    nodes: &[NodeTopology],
    first_skin_joints: Option<&[String]>,
) -> (r: bool)
    ensures
        r == build_skeleton_ready(extensions, nodes@, first_skin_joints),
{
    match extensions {
        None => true,
        Some(ext) => if parse_vrmc_vrm(ext).is_some() || parse_vrm0(ext).is_some() {
            parents_are_in_range(nodes) && parents_are_acyclic(nodes)
        } else {
            match first_skin_joints {
                Some(joints) => skin_climbs_stop_exec(nodes, joints),
                None => true,
            }
        },
    }
}

/// Where a loaded skeleton came from: a humanoid (VRM 0.x humanoids in their
/// VRM 1.0 form), or the plain glTF skin.
#[derive(Debug, Clone)]
pub enum SkeletonOrigin {
    Humanoid(VrmcHumanoid),
    GltfSkin,
}

/// A loaded skeleton and its origin.
#[derive(Debug, Clone)]
pub struct LoadedSkeleton {
    pub skeleton: Skeleton,
    pub origin: SkeletonOrigin,
}

/// The skeleton a model's extensions call for: the VRM 1.0 humanoid if
/// there is one, else the VRM 0.x humanoid, else the first primitive's plain
/// glTF skin (none when it has no skin or there are no extensions); and the
/// humanoid bones found, with their nodes, in member order (VRM 0.x bones
/// under their VRM 0.x names).
pub fn build_skeleton(
    extensions: Option<&JsonValue>,
    nodes: &[NodeTopology],
    first_skin_joints: Option<&[String]>,
) -> (r: (Option<LoadedSkeleton>, Vec<(String, usize)>))
    requires
        build_skeleton_ready(extensions, nodes@, first_skin_joints),
    ensures
        match extensions {
            None => r.0 is None && r.1@.len() == 0,
            Some(ext) => match vrmc_humanoid_of(*ext) {
                Some(h) => {
                    &&& r.0 matches Some(l) && l.skeleton.links() == vrm_links(h, parent_links(nodes@), 53)
                        && (l.origin matches SkeletonOrigin::Humanoid(hv) && hv@ == h)
                    &&& entries_view(r.1@) == h
                },
                None => match vrm0_humanoid_of(*ext) {
                    Some(h0) => {
                        &&& r.0 matches Some(l) && l.skeleton.links() == vrm_links(vrm0_as_vrmc(h0), parent_links(nodes@), 53)
                            && (l.origin matches SkeletonOrigin::Humanoid(hv) && hv@ == vrm0_as_vrmc(h0))
                        &&& entries_view(r.1@) == h0
                    },
                    None => {
                        &&& r.1@.len() == 0
                        &&& match first_skin_joints {
                            Some(joints) => r.0 matches Some(l) && l.skeleton.links() == skin_links(
                                Seq::empty(),
                                nodes@,
                                joint_names_view(joints@),
                                joints@.len() as nat,
                            ).0 && l.origin is GltfSkin,
                            None => r.0 is None,
                        }
                    },
                },
            },
        },
        r.0 matches Some(l) ==> parents_precede(l.skeleton.links()),
{
    let ext = match extensions {
        Some(e) => e,
        None => return (None, Vec::new()),
    };
    if let Some(vrmc) = parse_vrmc_vrm(ext) {
        let mut recorded: Vec<(String, usize)> = Vec::new();
        let n = vrmc.human_bones.len();
        let mut i: usize = 0;
        while i < n
            invariant
                n == vrmc.human_bones@.len(),
                i <= n,
                recorded@.len() == i,
                entries_view(recorded@) == vrmc@.subrange(0, i as int),
            decreases n - i,
        {
            let name = vrmc.human_bones[i].0.clone();
            let node = vrmc.human_bones[i].1.node;
            assert(name@ == vrmc@[i as int].0 && node == vrmc@[i as int].1);
            let ghost before = recorded@;
            recorded.push((name, node));
            assert forall|j: int| 0 <= j < i + 1 implies #[trigger] entries_view(recorded@)[j] == vrmc@.subrange(0, i + 1)[j] by {
                if j < i {
                    assert(recorded@[j] == before[j]);
                    assert(entries_view(before)[j] == vrmc@.subrange(0, i as int)[j]);
                }
            }
            assert(entries_view(recorded@) =~= vrmc@.subrange(0, i + 1));
            i += 1;
        }
        assert(vrmc@.subrange(0, n as int) =~= vrmc@);
        let skeleton = Skeleton::from_vrm(&vrmc, nodes);
        return (Some(LoadedSkeleton { skeleton, origin: SkeletonOrigin::Humanoid(vrmc) }), recorded);
    }
    if let Some(vrm0) = parse_vrm0(ext) {
        let mut recorded: Vec<(String, usize)> = Vec::new();
        let n = vrm0.human_bones.len();
        let mut i: usize = 0;
        while i < n
            invariant
                n == vrm0.human_bones@.len(),
                i <= n,
                recorded@.len() == i,
                entries_view(recorded@) == vrm0@.subrange(0, i as int),
            decreases n - i,
        {
            let name = vrm0.human_bones[i].bone.clone();
            let node = vrm0.human_bones[i].node;
            assert(name@ == vrm0@[i as int].0 && node == vrm0@[i as int].1);
            let ghost before = recorded@;
            recorded.push((name, node));
            assert forall|j: int| 0 <= j < i + 1 implies #[trigger] entries_view(recorded@)[j] == vrm0@.subrange(0, i + 1)[j] by {
                if j < i {
                    assert(recorded@[j] == before[j]);
                    assert(entries_view(before)[j] == vrm0@.subrange(0, i as int)[j]);
                }
            }
            assert(entries_view(recorded@) =~= vrm0@.subrange(0, i + 1));
            i += 1;
        }
        assert(vrm0@.subrange(0, n as int) =~= vrm0@);
        let skeleton = Skeleton::from_vrm0(&vrm0, nodes);
        return (Some(LoadedSkeleton { skeleton, origin: SkeletonOrigin::Humanoid(vrm0.to_vrmc()) }), recorded);
    }
    let loaded = match first_skin_joints {
        Some(joints) => Some(
            LoadedSkeleton { skeleton: Skeleton::from_gltf_skin_joints(nodes, joints), origin: SkeletonOrigin::GltfSkin },
        ),
        None => None,
    };
    (loaded, Vec::new())
}

} // verus!
