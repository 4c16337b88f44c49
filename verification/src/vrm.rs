//! The VRM humanoid extensions: VRM 1.0 (`VRMC_vrm`) and VRM 0.x (`VRM`)
//! humanoid bone maps.

use vstd::prelude::*;
use crate::json::{JsonValue, member_str, member_u64, members_view};
use crate::names::{vrm0_renamed_bones, vrm0_to_vrm1_bone_name};
use crate::skeleton::{bone_index, indexed};
use crate::table::{assoc, rename};
use crate::text::str_eq;

verus! {

/// A VRM 1.0 humanoid bone: the glTF node that carries it.
#[derive(Debug, Clone, Copy, PartialEq, Eq)]
pub struct VrmHumanBone {
    pub node: usize,
}

/// A VRM 1.0 humanoid: bone names and their nodes, in member order.
#[derive(Debug, Clone)]
pub struct VrmcHumanoid {
    pub human_bones: Vec<(String, VrmHumanBone)>,
}

/// A VRM 0.x humanoid bone: its name and glTF node.
#[derive(Debug, Clone)]
pub struct Vrm0HumanBone {
    pub bone: String,
    pub node: usize,
}

/// A VRM 0.x humanoid: its bones in array order.
#[derive(Debug, Clone)]
pub struct Vrm0Humanoid {
    pub human_bones: Vec<Vrm0HumanBone>,
}

/// Bone names and nodes.
pub open spec fn bones_view(bs: Seq<(String, VrmHumanBone)>) -> Seq<(Seq<char>, usize)> {
    bs.map_values(|b: (String, VrmHumanBone)| (b.0@, b.1.node))
}

impl View for VrmcHumanoid {
    type V = Seq<(Seq<char>, usize)>;

    open spec fn view(&self) -> Seq<(Seq<char>, usize)> {
        bones_view(self.human_bones@)
    }
}

impl View for Vrm0Humanoid {
    type V = Seq<(Seq<char>, usize)>;

    open spec fn view(&self) -> Seq<(Seq<char>, usize)> {
        self.human_bones@.map_values(|b: Vrm0HumanBone| (b.bone@, b.node))
    }
}

impl VrmcHumanoid {
    /// The bone of the given name.
    pub fn get(&self, name: &str) -> (r: Option<&VrmHumanBone>)
        ensures
            match r {
                Some(b) => assoc(self@, name@) == Some(b.node),
                None => assoc(self@, name@) is None,
            },
    {
        let n = self.human_bones.len();
        let ghost t = self@;
        let mut i: usize = 0;
        assert(t.skip(0) =~= t);
        while i < n
            invariant
                n == self.human_bones@.len(),
                t == self@,
                i <= n,
                assoc(t, name@) == assoc(t.skip(i as int), name@),
            decreases n - i,
        {
            assert(t.skip(i as int)[0] == t[i as int]);
            if str_eq(self.human_bones[i].0.as_str(), name) {
                return Some(&self.human_bones[i].1);
            }
            assert(t.skip(i as int).drop_first() =~= t.skip(i + 1));
            i += 1;
        }
        None
    }
}

/// The node of a humanoid bone entry, when its `node` member is an unsigned integer.
pub open spec fn bone_node(info: JsonValue) -> Option<u64> {
    match info.field("node"@) {
        Some(v) => v.u64_value(),
        None => None,
    }
}

/// The VRM 1.0 `humanBones` members that name a node, in member order.
pub open spec fn vrmc_bone_entries(es: Seq<(Seq<char>, JsonValue)>) -> Seq<(Seq<char>, usize)>
    decreases es.len(),
{
    if es.len() == 0 {
        Seq::empty()
    } else {
        let rest = vrmc_bone_entries(es.drop_last());
        match bone_node(es.last().1) {
            Some(n) => rest.push((es.last().0, n as usize)),
            None => rest,
        }
    }
}

/// The `humanBones` member of the `humanoid` member of the extension `ext_name`.
pub open spec fn human_bones_json(ext: JsonValue, ext_name: Seq<char>) -> Option<JsonValue> {
    match ext.field(ext_name) {
        Some(v) => match v.field("humanoid"@) {
            Some(h) => h.field("humanBones"@),
            None => None,
        },
        None => None,
    }
}

/// The VRM 1.0 humanoid that an `extensions` object describes: present when
/// `VRMC_vrm.humanoid.humanBones` is an object with at least one bone that names a node.
pub open spec fn vrmc_humanoid_of(ext: JsonValue) -> Option<Seq<(Seq<char>, usize)>> {
    match human_bones_json(ext, "VRMC_vrm"@) {
        Some(JsonValue::Object(es)) => {
            let bones = vrmc_bone_entries(members_view(es@));
            if bones.len() == 0 {
                None
            } else {
                Some(bones)
            }
        },
        _ => None,
    }
}

/// The VRM 0.x bones of a `humanBones` array: none when an element lacks a
/// string `bone` or an unsigned `node`.
pub open spec fn vrm0_bone_entries(items: Seq<JsonValue>) -> Option<Seq<(Seq<char>, usize)>>
    decreases items.len(),
{
    if items.len() == 0 {
        Some(Seq::empty())
    } else {
        match vrm0_bone_entries(items.drop_last()) {
            Some(rest) => {
                let item = items.last();
                match (
                    match item.field("bone"@) {
                        Some(b) => b.str_value(),
                        None => None,
                    },
                    bone_node(item),
                ) {
                    (Some(name), Some(n)) => Some(rest.push((name, n as usize))),
                    _ => None,
                }
            },
            None => None,
        }
    }
}

/// The VRM 0.x humanoid that an `extensions` object describes: present when
/// `VRM.humanoid.humanBones` is a non-empty array whose elements all name a bone and a node.
pub open spec fn vrm0_humanoid_of(ext: JsonValue) -> Option<Seq<(Seq<char>, usize)>> {
    match human_bones_json(ext, "VRM"@) {
        Some(JsonValue::Array(items)) => match vrm0_bone_entries(items@) {
            Some(bones) => if bones.len() == 0 {
                None
            } else {
                Some(bones)
            },
            None => None,
        },
        _ => None,
    }
}

fn human_bones_member<'a>(ext: &'a JsonValue, ext_name: &str) -> (r: Option<&'a JsonValue>)
    ensures
        match r {
            Some(v) => human_bones_json(*ext, ext_name@) == Some(*v),
            None => human_bones_json(*ext, ext_name@) is None,
        },
{
    let vrm = ext.get(ext_name)?;
    let humanoid = vrm.get("humanoid")?;
    humanoid.get("humanBones")
}

/// Reads the VRM 1.0 humanoid (`VRMC_vrm.humanoid.humanBones`) of a glTF `extensions` object.
pub fn parse_vrmc_vrm(extensions: &JsonValue) -> (r: Option<VrmcHumanoid>)
    ensures
        match r {
            Some(h) => vrmc_humanoid_of(*extensions) == Some(h@),
            None => vrmc_humanoid_of(*extensions) is None,
        },
{
    let human_bones = human_bones_member(extensions, "VRMC_vrm")?;
    let members = human_bones.as_object()?;
    let ghost es = members_view(members@);
    let mut bones: Vec<(String, VrmHumanBone)> = Vec::new();
    let n = members.len();
    let mut i: usize = 0;
    while i < n
        invariant
            n == members@.len(),
            es == members_view(members@),
            i <= n,
            bones_view(bones@) == vrmc_bone_entries(es.subrange(0, i as int)),
        decreases n - i,
    {
        let (name, info) = (&members[i].0, &members[i].1);
        assert(es.subrange(0, i + 1).drop_last() =~= es.subrange(0, i as int));
        let node = match info.get("node") {
            Some(v) => v.as_u64(),
            None => None,
        };
        if let Some(node) = node {
            bones.push((name.clone(), VrmHumanBone { node: node as usize }));
            assert(bones_view(bones@) =~= vrmc_bone_entries(es.subrange(0, i as int)).push(
                (name@, node as usize),
            ));
        }
        i += 1;
    }
    assert(es.subrange(0, n as int) =~= es);
    if bones.len() == 0 {
        return None;
    }
    Some(VrmcHumanoid { human_bones: bones })
}

/// Reads the VRM 0.x humanoid (`VRM.humanoid.humanBones`) of a glTF `extensions` object.
pub fn parse_vrm0(extensions: &JsonValue) -> (r: Option<Vrm0Humanoid>)
    ensures
        match r {
            Some(h) => vrm0_humanoid_of(*extensions) == Some(h@),
            None => vrm0_humanoid_of(*extensions) is None,
        },
{
    let human_bones = human_bones_member(extensions, "VRM")?;
    let items = human_bones.as_array()?;
    let mut bones: Vec<Vrm0HumanBone> = Vec::new();
    let n = items.len();
    let mut i: usize = 0;
    while i < n
        invariant
            n == items@.len(),
            human_bones_json(*extensions, "VRM"@) == Some(JsonValue::Array(*items)),
            i <= n,
            vrm0_bone_entries(items@.subrange(0, i as int)) == Some(
                bones@.map_values(|b: Vrm0HumanBone| (b.bone@, b.node)),
            ),
        decreases n - i,
    {
        let item = &items[i];
        assert(items@.subrange(0, i + 1).drop_last() =~= items@.subrange(0, i as int));
        assert(items@.subrange(0, i + 1).last() == *item);
        let bone_name = match item.get("bone") {
            Some(b) => b.as_str(),
            None => None,
        };
        let node = match item.get("node") {
            Some(v) => v.as_u64(),
            None => None,
        };
        if bone_name.is_none() || node.is_none() {
            assert(vrm0_bone_entries(items@.subrange(0, i + 1)) is None);
            proof {
                lemma_vrm0_entries_fail(items@, i as int);
            }
            return None;
        }
        let bone_name = bone_name.unwrap();
        let node = node.unwrap();
        let ghost before = bones@;
        bones.push(Vrm0HumanBone { bone: bone_name.to_owned(), node: node as usize });
        assert(bones@.map_values(|b: Vrm0HumanBone| (b.bone@, b.node)) =~= before.map_values(
            |b: Vrm0HumanBone| (b.bone@, b.node),
        ).push((bone_name@, node as usize)));
        i += 1;
    }
    assert(items@.subrange(0, n as int) =~= items@);
    if bones.len() == 0 {
        return None;
    }
    Some(Vrm0Humanoid { human_bones: bones })
}

/// A malformed element makes every longer prefix unreadable.
proof fn lemma_vrm0_entries_fail(items: Seq<JsonValue>, i: int)
    requires
        0 <= i < items.len(),
        vrm0_bone_entries(items.subrange(0, i + 1)) is None,
    ensures
        vrm0_bone_entries(items) is None,
    decreases items.len() - i,
{
    if i + 1 < items.len() {
        assert(items.subrange(0, i + 2).drop_last() =~= items.subrange(0, i + 1));
        lemma_vrm0_entries_fail(items, i + 1);
    } else {
        assert(items.subrange(0, i + 1) =~= items);
    }
}

/// `t` with the bone `k` set to node `v`: the first bone of that name is
/// updated, or the bone is appended when there is none.
pub open spec fn upsert(t: Seq<(Seq<char>, usize)>, k: Seq<char>, v: usize) -> Seq<(Seq<char>, usize)> {
    match bone_index(t.map_values(|e: (Seq<char>, usize)| e.0), k) {
        Some(i) => t.update(i, (k, v)),
        None => t.push((k, v)),
    }
}

/// The VRM 1.0 humanoid equivalent to a VRM 0.x one: each bone renamed to its
/// VRM 1.0 name, inserted in order (a later bone of the same name replaces an earlier one).
pub open spec fn vrm0_as_vrmc(h0: Seq<(Seq<char>, usize)>) -> Seq<(Seq<char>, usize)>
    decreases h0.len(),
{
    if h0.len() == 0 {
        Seq::empty()
    } else {
        upsert(vrm0_as_vrmc(h0.drop_last()), rename(vrm0_renamed_bones(), h0.last().0), h0.last().1)
    }
}

impl VrmcHumanoid {
    /// Sets the node of a bone, adding the bone when it is new.
    pub fn insert(&mut self, name: String, bone: VrmHumanBone)
        ensures
            final(self)@ == upsert(old(self)@, name@, bone.node),
    {
        let ghost names = old(self)@.map_values(|e: (Seq<char>, usize)| e.0);
        let ghost t = indexed(names);
        let n = self.human_bones.len();
        let mut i: usize = 0;
        assert(t.skip(0) =~= t);
        while i < n
            invariant
                n == self.human_bones@.len(),
                self@ == old(self)@,
                names == old(self)@.map_values(|e: (Seq<char>, usize)| e.0),
                t == indexed(names),
                i <= n,
                assoc(t, name@) == assoc(t.skip(i as int), name@),
            decreases n - i,
        {
            assert(t.skip(i as int)[0] == (self.human_bones@[i as int].0@, i as int));
            if str_eq(self.human_bones[i].0.as_str(), name.as_str()) {
                self.human_bones.set(i, (name, bone));
                assert(self@ =~= old(self)@.update(i as int, (name@, bone.node)));
                return;
            }
            assert(t.skip(i as int).drop_first() =~= t.skip(i + 1));
            i += 1;
        }
        let ghost before = self.human_bones@;
        self.human_bones.push((name, bone));
        assert(self@ =~= old(self)@.push((name@, bone.node)));
    }
}

impl Vrm0Humanoid {
    /// The equivalent VRM 1.0 humanoid (see [`vrm0_as_vrmc`]).
    pub fn to_vrmc(&self) -> (r: VrmcHumanoid)
        ensures
            r@ == vrm0_as_vrmc(self@),
    {
        let mut out = VrmcHumanoid { human_bones: Vec::new() };
        let n = self.human_bones.len();
        let mut i: usize = 0;
        assert(out@ =~= vrm0_as_vrmc(self@.subrange(0, 0)));
        while i < n
            invariant
                n == self.human_bones@.len(),
                i <= n,
                out@ == vrm0_as_vrmc(self@.subrange(0, i as int)),
            decreases n - i,
        {
            let b = &self.human_bones[i];
            assert(self@.subrange(0, i + 1).drop_last() =~= self@.subrange(0, i as int));
            assert(self@.subrange(0, i + 1).last() == (b.bone@, b.node));
            let name = vrm0_to_vrm1_bone_name(b.bone.as_str());
            out.insert(name, VrmHumanBone { node: b.node });
            i += 1;
        }
        assert(self@.subrange(0, n as int) =~= self@);
        out
    }
}

} // verus!

verus! {

/// After setting a bone's node, looking the bone up gives that node, and
/// every other bone keeps its node.
pub proof fn lemma_upsert_then_lookup(t: Seq<(Seq<char>, usize)>, k: Seq<char>, v: usize, other: Seq<char>)
    requires
        other != k,
    ensures
        assoc(upsert(t, k, v), k) == Some(v),
        assoc(upsert(t, k, v), other) == assoc(t, other),
{
    let keys = t.map_values(|e: (Seq<char>, usize)| e.0);
    crate::skeleton::lemma_bone_index_in_range(keys, k);
    match bone_index(keys, k) {
        Some(i) => {
            lemma_assoc_update_first(t, k, v, i, other);
        },
        None => {
            lemma_assoc_absent(t, k, keys);
            lemma_assoc_push(t, k, v, k);
            lemma_assoc_push(t, k, v, other);
        },
    }
}

/// With no entry for `k` before position `i`, the entry at `i` decides the
/// lookup of `k`, and replacing it keeps the other lookups.
proof fn lemma_assoc_update_first(t: Seq<(Seq<char>, usize)>, k: Seq<char>, v: usize, i: int, o: Seq<char>)
    requires
        bone_index(t.map_values(|e: (Seq<char>, usize)| e.0), k) == Some(i),
        0 <= i < t.len(),
        t[i].0 == k,
    ensures
        assoc(t.update(i, (k, v)), k) == Some(v),
        o != k ==> assoc(t.update(i, (k, v)), o) == assoc(t, o),
    decreases t.len(),
{
    let keys = t.map_values(|e: (Seq<char>, usize)| e.0);
    if i == 0 {
        assert(t.update(0, (k, v))[0] == (k, v));
        assert(t.update(0, (k, v)).drop_first() =~= t.drop_first());
    } else {
        assert(t[0].0 != k) by {
            if t[0].0 == k {
                assert(indexed(keys)[0] == (k, 0int));
            }
        }
        assert(indexed(keys).drop_first() =~= indexed(keys.drop_first()).map_values(|e: (Seq<char>, int)| (e.0, e.1 + 1)));
        lemma_assoc_shift(indexed(keys.drop_first()), k);
        assert(keys.drop_first() =~= t.drop_first().map_values(|e: (Seq<char>, usize)| e.0));
        lemma_assoc_update_first(t.drop_first(), k, v, i - 1, o);
        assert(t.update(i, (k, v)).drop_first() =~= t.drop_first().update(i - 1, (k, v)));
        assert(t.update(i, (k, v))[0] == t[0]);
    }
}

/// Shifting every value of a table shifts every lookup.
proof fn lemma_assoc_shift(t: Seq<(Seq<char>, int)>, k: Seq<char>)
    ensures
        assoc(t.map_values(|e: (Seq<char>, int)| (e.0, e.1 + 1)), k) == match assoc(t, k) {
            Some(x) => Some(x + 1),
            None => None,
        },
    decreases t.len(),
{
    if t.len() > 0 {
        assert(t.map_values(|e: (Seq<char>, int)| (e.0, e.1 + 1)).drop_first() =~= t.drop_first().map_values(
            |e: (Seq<char>, int)| (e.0, e.1 + 1),
        ));
        lemma_assoc_shift(t.drop_first(), k);
    }
}

/// A key that no entry has is absent from the table.
proof fn lemma_assoc_absent(t: Seq<(Seq<char>, usize)>, k: Seq<char>, keys: Seq<Seq<char>>)
    requires
        keys == t.map_values(|e: (Seq<char>, usize)| e.0),
        bone_index(keys, k) is None,
    ensures
        forall|j: int| 0 <= j < t.len() ==> (#[trigger] t[j]).0 != k,
{
    assert forall|j: int| 0 <= j < t.len() implies (#[trigger] t[j]).0 != k by {
        if t[j].0 == k {
            assert(indexed(keys)[j].0 == k);
            crate::table::lemma_assoc_first_at_most(indexed(keys), k, j);
        }
    }
}

/// Appending an entry for `k` to a table without one: `k` finds it, other keys are unchanged.
proof fn lemma_assoc_push(t: Seq<(Seq<char>, usize)>, k: Seq<char>, v: usize, o: Seq<char>)
    requires
        forall|j: int| 0 <= j < t.len() ==> (#[trigger] t[j]).0 != k,
    ensures
        assoc(t.push((k, v)), o) == if o == k {
            Some(v)
        } else {
            assoc(t, o)
        },
    decreases t.len(),
{
    if t.len() == 0 {
        assert(t.push((k, v))[0] == (k, v));
        assert(t.push((k, v)).drop_first().len() == 0);
    } else {
        assert(t.push((k, v))[0] == t[0]);
        assert(t.push((k, v)).drop_first() =~= t.drop_first().push((k, v)));
        assert forall|j: int| 0 <= j < t.drop_first().len() implies (#[trigger] t.drop_first()[j]).0 != k by {
            assert(t.drop_first()[j] == t[j + 1]);
        }
        lemma_assoc_push(t.drop_first(), k, v, o);
    }
}

} // verus!

verus! {

/// Bone `e` is the one that some member of `es` gives: the member of its name,
/// whose `node` is an unsigned integer holding its node.
pub open spec fn bone_of_some_member(es: Seq<(Seq<char>, JsonValue)>, e: (Seq<char>, usize)) -> bool {
    exists|j: int|
        0 <= j < es.len() && (#[trigger] member_u64(es[j].1, "node"@)) is Some && e == (
            es[j].0,
            member_u64(es[j].1, "node"@).unwrap() as usize,
        )
}

/// Each VRM 1.0 humanoid bone read from `humanBones` members comes from the
/// member of its name, with the node that member's `node` holds.
proof fn lemma_vrmc_bones_sound(es: Seq<(Seq<char>, JsonValue)>)
    ensures
        forall|k: int|
            0 <= k < vrmc_bone_entries(es).len() ==> bone_of_some_member(es, #[trigger] vrmc_bone_entries(es)[k]),
    decreases es.len(),
{
    if es.len() > 0 {
        let init = es.drop_last();
        lemma_vrmc_bones_sound(init);
        let rest = vrmc_bone_entries(init);
        let all = vrmc_bone_entries(es);
        let last = es.len() - 1;
        assert(es[last] == es.last());
        assert(member_u64(es[last].1, "node"@) == bone_node(es.last().1));
        assert forall|k: int| 0 <= k < all.len() implies bone_of_some_member(es, #[trigger] all[k]) by {
            if k < rest.len() {
                assert(all[k] == rest[k]);
                assert(bone_of_some_member(init, rest[k]));
                let j = choose|j: int|
                    0 <= j < init.len() && (#[trigger] member_u64(init[j].1, "node"@)) is Some && rest[k] == (
                        init[j].0,
                        member_u64(init[j].1, "node"@).unwrap() as usize,
                    );
                assert(es[j] == init[j]);
                assert(member_u64(es[j].1, "node"@) is Some);
            } else {
                assert(all[k] == (es[last].0, member_u64(es[last].1, "node"@).unwrap() as usize));
                assert(member_u64(es[last].1, "node"@) is Some);
            }
        }
    }
}

/// Every `humanBones` member whose `node` is an unsigned integer gives a VRM 1.0 humanoid bone.
proof fn lemma_vrmc_bones_complete(es: Seq<(Seq<char>, JsonValue)>)
    ensures
        forall|j: int|
            0 <= j < es.len() && (#[trigger] member_u64(es[j].1, "node"@)) is Some ==> exists|k: int|
                0 <= k < vrmc_bone_entries(es).len() && #[trigger] vrmc_bone_entries(es)[k] == (
                    es[j].0,
                    member_u64(es[j].1, "node"@).unwrap() as usize,
                ),
    decreases es.len(),
{
    if es.len() > 0 {
        let init = es.drop_last();
        lemma_vrmc_bones_complete(init);
        let rest = vrmc_bone_entries(init);
        let all = vrmc_bone_entries(es);
        assert forall|j: int| 0 <= j < es.len() && (#[trigger] member_u64(es[j].1, "node"@)) is Some implies exists|k: int|
            0 <= k < all.len() && #[trigger] all[k] == (es[j].0, member_u64(es[j].1, "node"@).unwrap() as usize) by {
            if j < init.len() {
                assert(es[j] == init[j]);
                assert(member_u64(init[j].1, "node"@) is Some);
                let k = choose|k: int|
                    0 <= k < rest.len() && #[trigger] rest[k] == (
                        init[j].0,
                        member_u64(init[j].1, "node"@).unwrap() as usize,
                    );
                assert(all[k] == rest[k]);
            } else {
                assert(es[j] == es.last());
                assert(all[rest.len() as int] == (es[j].0, member_u64(es[j].1, "node"@).unwrap() as usize));
            }
        }
    }
}

/// The VRM 1.0 humanoid bones are exactly the `humanBones` members whose `node`
/// is an unsigned integer: each bone comes from the member of its name, on the
/// node that member's `node` holds, and each such member gives a bone.
pub proof fn lemma_vrmc_bones_from_members(es: Seq<(Seq<char>, JsonValue)>)
    ensures
        forall|k: int|
            0 <= k < vrmc_bone_entries(es).len() ==> bone_of_some_member(es, #[trigger] vrmc_bone_entries(es)[k]),
        forall|j: int|
            0 <= j < es.len() && (#[trigger] member_u64(es[j].1, "node"@)) is Some ==> exists|k: int|
                0 <= k < vrmc_bone_entries(es).len() && #[trigger] vrmc_bone_entries(es)[k] == (
                    es[j].0,
                    member_u64(es[j].1, "node"@).unwrap() as usize,
                ),
{
    lemma_vrmc_bones_sound(es);
    lemma_vrmc_bones_complete(es);
}

/// A VRM 0.x humanoid holds one bone per `humanBones` element, in order: the
/// bone named by the element's `bone` member on the node of its `node` member.
pub proof fn lemma_vrm0_bones_from_elements(items: Seq<JsonValue>)
    ensures
        vrm0_bone_entries(items) is Some ==> vrm0_bone_entries(items).unwrap().len() == items.len(),
        forall|k: int|
            0 <= k < items.len() && vrm0_bone_entries(items) is Some ==> {
                let e = vrm0_bone_entries(items).unwrap()[k];
                &&& member_str(#[trigger] items[k], "bone"@) == Some(e.0)
                &&& member_u64(items[k], "node"@) is Some
                &&& e.1 == member_u64(items[k], "node"@).unwrap() as usize
            },
    decreases items.len(),
{
    if items.len() > 0 {
        lemma_vrm0_bones_from_elements(items.drop_last());
        if let Some(bones) = vrm0_bone_entries(items) {
            let rest = vrm0_bone_entries(items.drop_last()).unwrap();
            assert forall|k: int| 0 <= k < items.len() implies {
                let e = bones[k];
                &&& member_str(#[trigger] items[k], "bone"@) == Some(e.0)
                &&& member_u64(items[k], "node"@) is Some
                &&& e.1 == member_u64(items[k], "node"@).unwrap() as usize
            } by {
                if k < items.len() - 1 {
                    assert(items[k] == items.drop_last()[k]);
                    assert(bones[k] == rest[k]);
                }
            }
        }
    }
}

} // verus!
