//! Skeleton hierarchy: bone names, parent links and name resolution.
//!
//! A bone's geometry and physical parameters (offsets, lengths, radii, masses,
//! joint limits, motor gains) are floating-point data that live beside this
//! hierarchy; the indices of `Skeleton::bones` identify bones in both.

use vstd::prelude::*;
use crate::bone_alias::{
    forward_alias_pairs, forward_alias_table, gltf_alias_pairs, gltf_alias_table,
    lemma_reverse_aliases_keep_side, names_left_side, names_right_side, reverse_alias_pairs,
    reverse_alias_table,
};
use crate::names::{mixamo_prefix, without_mixamo_prefix};
use crate::table::{assoc, assoc_exec, lemma_assoc_first_at_most, lemma_assoc_found, table_view};
use crate::text::{dots_to_underscores, dots_to_underscores_spec, has_substring, str_eq, strip_prefix};

verus! {

/// Identifies a bone by its index in `Skeleton::bones`.
#[derive(Debug, Clone, Copy, PartialEq, Eq, Hash)]
pub struct BoneId(pub usize);

/// A bone of the hierarchy.
#[derive(Debug, Clone)]
pub struct BoneDef {
    pub name: String,
    /// The parent bone; none for a root.
    pub parent: Option<BoneId>,
    /// The bone's offset is the world difference from its parent (glTF
    /// skeletons), rather than one that the chain rule interprets.
    pub use_direct_offset: bool,
}

/// A skeleton: its bones, in order.
#[derive(Debug, Clone)]
pub struct Skeleton {
    pub bones: Vec<BoneDef>,
}

/// Names paired with their positions.
pub open spec fn indexed(names: Seq<Seq<char>>) -> Seq<(Seq<char>, int)> {
    names.map(|i: int, n: Seq<char>| (n, i))
}

/// The index of the first bone named `n`.
pub open spec fn bone_index(names: Seq<Seq<char>>, n: Seq<char>) -> Option<int> {
    assoc(indexed(names), n)
}

/// The first alias entry for `name` whose alternative names a bone; that bone.
pub open spec fn forward_hit(names: Seq<Seq<char>>, t: Seq<(Seq<char>, Seq<char>)>, name: Seq<char>) -> Option<int>
    decreases t.len(),
{
    if t.len() == 0 {
        None
    } else if t[0].0 == name && bone_index(names, t[0].1) is Some {
        bone_index(names, t[0].1)
    } else {
        forward_hit(names, t.drop_first(), name)
    }
}

/// The first reverse-alias entry whose alternative (with or without the Mixamo
/// prefix) is `check` and whose anatomical name names a bone; that bone.
pub open spec fn reverse_hit(names: Seq<Seq<char>>, t: Seq<(Seq<char>, Seq<char>)>, check: Seq<char>) -> Option<int>
    decreases t.len(),
{
    if t.len() == 0 {
        None
    } else if (t[0].1 == check || without_mixamo_prefix(t[0].1) == check) && bone_index(names, t[0].0) is Some {
        bone_index(names, t[0].0)
    } else {
        reverse_hit(names, t.drop_first(), check)
    }
}

/// The bone that `name` resolves to, trying in turn: the exact name; the name
/// without a Mixamo prefix; a bone whose name is the Mixamo-prefixed name; the
/// name's aliases; and the anatomical bone whose alias the name is.
pub open spec fn resolve_bone(names: Seq<Seq<char>>, name: Seq<char>) -> Option<int> {
    if bone_index(names, name) is Some {
        bone_index(names, name)
    } else if mixamo_prefix().is_prefix_of(name) && bone_index(names, name.skip(mixamo_prefix().len() as int)) is Some {
        bone_index(names, name.skip(mixamo_prefix().len() as int))
    } else if bone_index(names, mixamo_prefix() + name) is Some {
        bone_index(names, mixamo_prefix() + name)
    } else if forward_hit(names, forward_alias_table(), name) is Some {
        forward_hit(names, forward_alias_table(), name)
    } else {
        reverse_hit(names, reverse_alias_table(), without_mixamo_prefix(name))
    }
}

/// The bone that a glTF joint name resolves to: the name resolved as a bone
/// name; else without a Mixamo prefix; else with dots replaced by underscores;
/// else through the Blender / Rigify alias table; none when all of these fail.
pub open spec fn gltf_joint_match(names: Seq<Seq<char>>, joint: Seq<char>) -> Option<int> {
    let stripped = if mixamo_prefix().is_prefix_of(joint) {
        resolve_bone(names, joint.skip(mixamo_prefix().len() as int))
    } else {
        None
    };
    let underscored = dots_to_underscores_spec(joint);
    let by_underscore = if underscored != joint {
        resolve_bone(names, underscored)
    } else {
        None
    };
    let by_alias = match assoc(gltf_alias_table(), joint) {
        Some(a) => resolve_bone(names, a),
        None => None,
    };
    if resolve_bone(names, joint) is Some {
        resolve_bone(names, joint)
    } else if stripped is Some {
        stripped
    } else if by_underscore is Some {
        by_underscore
    } else {
        by_alias
    }
}

/// The bone that a glTF joint name maps to: the bone it resolves to, else the
/// root bone 0.
pub open spec fn gltf_joint_bone(names: Seq<Seq<char>>, joint: Seq<char>) -> int {
    match gltf_joint_match(names, joint) {
        Some(b) => b,
        None => 0,
    }
}

/// The indices, in order, of the bones among the first `upto` whose names contain `p`.
pub open spec fn bones_containing(names: Seq<Seq<char>>, p: Seq<char>, upto: int) -> Seq<int>
    decreases upto,
{
    if upto <= 0 {
        Seq::empty()
    } else if has_substring(names[upto - 1], p) {
        bones_containing(names, p, upto - 1).push(upto - 1)
    } else {
        bones_containing(names, p, upto - 1)
    }
}

/// The names of bones, in order.
pub open spec fn bone_names(bs: Seq<BoneDef>) -> Seq<Seq<char>> {
    bs.map_values(|b: BoneDef| b.name@)
}

/// The hierarchy of bones: each bone's name and parent index, in order.
pub open spec fn bone_links(bs: Seq<BoneDef>) -> Seq<(Seq<char>, Option<int>)> {
    bs.map_values(
        |b: BoneDef|
            (
                b.name@,
                match b.parent {
                    Some(id) => Some(id.0 as int),
                    None => None,
                },
            ),
    )
}

/// Every bone's parent comes before it.
pub open spec fn parents_precede(t: Seq<(Seq<char>, Option<int>)>) -> bool {
    forall|i: int| 0 <= i < t.len() ==> (#[trigger] t[i].1 matches Some(j) ==> 0 <= j < i)
}

/// The index of the first of `bones` named exactly `name`.
pub fn bone_position(bones: &[BoneDef], name: &str) -> (r: Option<usize>)
    ensures
        match r {
            Some(i) => bone_index(bone_names(bones@), name@) == Some(i as int),
            None => bone_index(bone_names(bones@), name@) is None,
        },
{
    let n = bones.len();
    let ghost t = indexed(bone_names(bones@));
    let mut i: usize = 0;
    assert(t.skip(0) =~= t);
    while i < n
        invariant
            n == bones@.len(),
            t == indexed(bone_names(bones@)),
            i <= n,
            assoc(t, name@) == assoc(t.skip(i as int), name@),
        decreases n - i,
    {
        assert(t.skip(i as int)[0] == (bones@[i as int].name@, i as int));
        if str_eq(bones[i].name.as_str(), name) {
            return Some(i);
        }
        assert(t.skip(i as int).drop_first() =~= t.skip(i + 1));
        i += 1;
    }
    None
}

impl Skeleton {
    /// The names of the bones, in order.
    pub open spec fn names(self) -> Seq<Seq<char>> {
        bone_names(self.bones@)
    }

    /// The hierarchy: each bone's name and parent index.
    pub open spec fn links(self) -> Seq<(Seq<char>, Option<int>)> {
        bone_links(self.bones@)
    }

    /// Whether every bone's parent comes before it.
    pub fn parents_come_first(&self) -> (r: bool)
        ensures
            r == parents_precede(self.links()),
    {
        let n = self.bones.len();
        let mut i: usize = 0;
        while i < n
            invariant
                n == self.bones@.len(),
                i <= n,
                forall|j: int| 0 <= j < i ==> (#[trigger] self.links()[j].1 matches Some(p) ==> 0 <= p < j),
            decreases n - i,
        {
            assert(self.links()[i as int].1 == match self.bones@[i as int].parent {
                Some(id) => Some(id.0 as int),
                None => None::<int>,
            });
            match self.bones[i].parent {
                Some(p) => {
                    if p.0 >= i {
                        assert(!(self.links()[i as int].1 matches Some(q) ==> 0 <= q < i));
                        return false;
                    }
                },
                None => {},
            }
            i += 1;
        }
        true
    }

    /// The number of bones.
    pub fn bone_count(&self) -> (r: usize)
        ensures
            r == self.bones@.len(),
    {
        self.bones.len()
    }

    /// The index of the first bone named exactly `name`.
    fn position(&self, name: &str) -> (r: Option<usize>)
        ensures
            match r {
                Some(i) => bone_index(self.names(), name@) == Some(i as int),
                None => bone_index(self.names(), name@) is None,
            },
    {
        bone_position(self.bones.as_slice(), name)
    }

    /// The first alias of `name` that names a bone.
    fn forward_alias(&self, name: &str) -> (r: Option<usize>)
        ensures
            match r {
                Some(i) => forward_hit(self.names(), forward_alias_table(), name@) == Some(i as int),
                None => forward_hit(self.names(), forward_alias_table(), name@) is None,
            },
    {
        let table = forward_alias_pairs();
        let ghost t = table_view(table@);
        let n = table.len();
        let mut i: usize = 0;
        assert(t.skip(0) =~= t);
        while i < n
            invariant
                n == table@.len(),
                t == table_view(table@),
                t == forward_alias_table(),
                i <= n,
                forward_hit(self.names(), t, name@) == forward_hit(self.names(), t.skip(i as int), name@),
            decreases n - i,
        {
            let (key, alt) = table[i];
            assert(t.skip(i as int)[0] == (key@, alt@));
            if str_eq(key, name) {
                if let Some(b) = self.position(alt) {
                    return Some(b);
                }
            }
            assert(t.skip(i as int).drop_first() =~= t.skip(i + 1));
            i += 1;
        }
        None
    }

    /// The anatomical bone that `check` is an alias of.
    fn reverse_alias(&self, check: &str) -> (r: Option<usize>)
        ensures
            match r {
                Some(i) => reverse_hit(self.names(), reverse_alias_table(), check@) == Some(i as int),
                None => reverse_hit(self.names(), reverse_alias_table(), check@) is None,
            },
    {
        let table = reverse_alias_pairs();
        let ghost t = table_view(table@);
        let n = table.len();
        let mut i: usize = 0;
        proof {
            reveal_strlit("mixamorig:");
        }
        assert(t.skip(0) =~= t);
        while i < n
            invariant
                n == table@.len(),
                t == table_view(table@),
                t == reverse_alias_table(),
                mixamo_prefix() == "mixamorig:"@,
                i <= n,
                reverse_hit(self.names(), t, check@) == reverse_hit(self.names(), t.skip(i as int), check@),
            decreases n - i,
        {
            let (anatomical, alt) = table[i];
            assert(t.skip(i as int)[0] == (anatomical@, alt@));
            let alt_check = match strip_prefix(alt, "mixamorig:") {
                Some(rest) => rest,
                None => alt,
            };
            assert(alt_check@ == without_mixamo_prefix(alt@));
            if str_eq(check, alt) || str_eq(check, alt_check) {
                if let Some(b) = self.position(anatomical) {
                    return Some(b);
                }
            }
            assert(t.skip(i as int).drop_first() =~= t.skip(i + 1));
            i += 1;
        }
        None
    }

    /// Resolves a bone name: the exact name, Mixamo-prefixed and unprefixed
    /// variants, and the Mixamo / Ready Player Me / Rigify / VRM aliases.
    pub fn find_bone(&self, name: &str) -> (r: Option<BoneId>)
        ensures
            match r {
                Some(b) => resolve_bone(self.names(), name@) == Some(b.0 as int),
                None => resolve_bone(self.names(), name@) is None,
            },
    {
        proof {
            reveal_strlit("mixamorig:");
        }
        assert(mixamo_prefix() == "mixamorig:"@);
        if let Some(i) = self.position(name) {
            return Some(BoneId(i));
        }
        if let Some(stripped) = strip_prefix(name, "mixamorig:") {
            if let Some(i) = self.position(stripped) {
                return Some(BoneId(i));
            }
        }
        let mut prefixed = "mixamorig:".to_owned();
        prefixed.append(name);
        if let Some(i) = self.position(prefixed.as_str()) {
            return Some(BoneId(i));
        }
        if let Some(i) = self.forward_alias(name) {
            return Some(BoneId(i));
        }
        let check = match strip_prefix(name, "mixamorig:") {
            Some(rest) => rest,
            None => name,
        };
        assert(check@ == without_mixamo_prefix(name@));
        match self.reverse_alias(check) {
            Some(i) => Some(BoneId(i)),
            None => None,
        }
    }

    /// The bone that one glTF joint name resolves to (see [`gltf_joint_match`]).
    pub fn resolve_gltf_joint(&self, joint: &str) -> (r: Option<usize>)
        ensures
            match r {
                Some(b) => gltf_joint_match(self.names(), joint@) == Some(b as int),
                None => gltf_joint_match(self.names(), joint@) is None,
            },
    {
        proof {
            reveal_strlit("mixamorig:");
        }
        assert(mixamo_prefix() == "mixamorig:"@);
        if let Some(b) = self.find_bone(joint) {
            return Some(b.0);
        }
        if let Some(stripped) = strip_prefix(joint, "mixamorig:") {
            if let Some(b) = self.find_bone(stripped) {
                return Some(b.0);
            }
        }
        let underscored = dots_to_underscores(joint);
        if !str_eq(underscored.as_str(), joint) {
            if let Some(b) = self.find_bone(underscored.as_str()) {
                return Some(b.0);
            }
        }
        let aliases = gltf_alias_pairs();
        if let Some(anatomical) = assoc_exec(&aliases, joint) {
            if let Some(b) = self.find_bone(anatomical) {
                return Some(b.0);
            }
        }
        None
    }

    /// Maps glTF joint names to bone indices: exact and aliased names, the name
    /// without a Mixamo prefix, dots as underscores, the Blender / Rigify
    /// aliases; joints that match nothing map to the root bone 0.
    pub fn map_gltf_joint_names(&self, gltf_names: &[String]) -> (r: Vec<u32>)
        ensures
            r@.len() == gltf_names@.len(),
            forall|i: int|
                0 <= i < gltf_names@.len() ==> #[trigger] r@[i] == gltf_joint_bone(
                    self.names(),
                    gltf_names@[i]@,
                ) as u32,
    {
        let mut out: Vec<u32> = Vec::new();
        let n = gltf_names.len();
        let mut i: usize = 0;
        while i < n
            invariant
                n == gltf_names@.len(),
                i <= n,
                out@.len() == i,
                forall|j: int|
                    0 <= j < i ==> #[trigger] out@[j] == gltf_joint_bone(
                        self.names(),
                        gltf_names@[j]@,
                    ) as u32,
            decreases n - i,
        {
            let b = match self.resolve_gltf_joint(gltf_names[i].as_str()) {
                Some(b) => b,
                None => 0,
            };
            out.push(b as u32);
            i += 1;
        }
        out
    }

    /// The bones whose names contain `pattern`, in order.
    pub fn find_bones_containing(&self, pattern: &str) -> (r: Vec<BoneId>)
        ensures
            r@.map_values(|b: BoneId| b.0 as int) == bones_containing(
                self.names(),
                pattern@,
                self.bones@.len() as int,
            ),
    {
        let mut out: Vec<BoneId> = Vec::new();
        let n = self.bones.len();
        let mut i: usize = 0;
        while i < n
            invariant
                n == self.bones@.len(),
                i <= n,
                out@.map_values(|b: BoneId| b.0 as int) == bones_containing(
                    self.names(),
                    pattern@,
                    i as int,
                ),
            decreases n - i,
        {
            let ghost before = out@;
            if crate::text::contains(self.bones[i].name.as_str(), pattern) {
                out.push(BoneId(i));
                assert(out@.map_values(|b: BoneId| b.0 as int) =~= before.map_values(
                    |b: BoneId| b.0 as int,
                ).push(i as int));
            }
            i += 1;
        }
        out
    }
}

} // verus!

verus! {

/// A bone found by name is a bone of the list.
pub(crate) proof fn lemma_bone_index_in_range(names: Seq<Seq<char>>, n: Seq<char>)
    ensures
        bone_index(names, n) matches Some(i) ==> 0 <= i < names.len() && names[i] == n,
{
    lemma_assoc_found(indexed(names), n);
    if let Some(i) = bone_index(names, n) {
        let j = choose|j: int| 0 <= j < indexed(names).len() && #[trigger] indexed(names)[j] == (n, i);
        assert(indexed(names)[j] == (names[j], j));
    }
}

proof fn lemma_forward_hit_in_range(names: Seq<Seq<char>>, t: Seq<(Seq<char>, Seq<char>)>, name: Seq<char>)
    ensures
        forward_hit(names, t, name) matches Some(i) ==> 0 <= i < names.len(),
    decreases t.len(),
{
    if t.len() > 0 {
        lemma_bone_index_in_range(names, t[0].1);
        lemma_forward_hit_in_range(names, t.drop_first(), name);
    }
}

proof fn lemma_reverse_hit_in_range(names: Seq<Seq<char>>, t: Seq<(Seq<char>, Seq<char>)>, check: Seq<char>)
    ensures
        reverse_hit(names, t, check) matches Some(i) ==> 0 <= i < names.len(),
    decreases t.len(),
{
    if t.len() > 0 {
        lemma_bone_index_in_range(names, t[0].0);
        lemma_reverse_hit_in_range(names, t.drop_first(), check);
    }
}

/// A resolved bone is a bone of the skeleton.
pub proof fn lemma_resolve_bone_in_range(names: Seq<Seq<char>>, name: Seq<char>)
    ensures
        resolve_bone(names, name) matches Some(i) ==> 0 <= i < names.len(),
{
    lemma_bone_index_in_range(names, name);
    lemma_bone_index_in_range(names, name.skip(mixamo_prefix().len() as int));
    lemma_bone_index_in_range(names, mixamo_prefix() + name);
    lemma_forward_hit_in_range(names, forward_alias_table(), name);
    lemma_reverse_hit_in_range(names, reverse_alias_table(), without_mixamo_prefix(name));
}

/// A bone name resolves to the first bone of exactly that name.
pub proof fn lemma_resolve_exact_name(names: Seq<Seq<char>>, i: int)
    requires
        0 <= i < names.len(),
    ensures
        resolve_bone(names, names[i]) matches Some(k) && 0 <= k <= i && names[k] == names[i],
{
    lemma_bone_index_in_range(names, names[i]);
    assert(indexed(names)[i].0 == names[i]);
    lemma_assoc_first_at_most(indexed(names), names[i], i);
    let j = choose|j: int| 0 <= j <= i && #[trigger] indexed(names)[j].0 == names[i] && assoc(indexed(names), names[i]) == Some(indexed(names)[j].1);
    assert(indexed(names)[j].1 == j);
}

/// Every glTF joint maps to a bone of a non-empty skeleton.
pub proof fn lemma_gltf_joint_bone_in_range(names: Seq<Seq<char>>, joint: Seq<char>)
    requires
        names.len() > 0,
    ensures
        0 <= gltf_joint_bone(names, joint) < names.len(),
{
    lemma_resolve_bone_in_range(names, joint);
    lemma_resolve_bone_in_range(names, joint.skip(mixamo_prefix().len() as int));
    lemma_resolve_bone_in_range(names, dots_to_underscores_spec(joint));
    if let Some(a) = assoc(gltf_alias_table(), joint) {
        lemma_resolve_bone_in_range(names, a);
    }
}

} // verus!

verus! {

/// A bone that the reverse alias search finds is that of an entry whose alias
/// is the name looked for, with or without the Mixamo prefix.
proof fn lemma_reverse_hit_found(names: Seq<Seq<char>>, t: Seq<(Seq<char>, Seq<char>)>, check: Seq<char>)
    ensures
        reverse_hit(names, t, check) matches Some(b) ==> exists|j: int|
            0 <= j < t.len() && (t[j].1 == check || without_mixamo_prefix(t[j].1) == check)
                && #[trigger] bone_index(names, t[j].0) == Some(b),
    decreases t.len(),
{
    if t.len() > 0 {
        lemma_reverse_hit_found(names, t.drop_first(), check);
        if (t[0].1 == check || without_mixamo_prefix(t[0].1) == check) && bone_index(names, t[0].0) is Some {
            assert(bone_index(names, t[0].0) == reverse_hit(names, t, check));
        } else if let Some(b) = reverse_hit(names, t, check) {
            let j = choose|j: int|
                0 <= j < t.drop_first().len() && (t.drop_first()[j].1 == check || without_mixamo_prefix(
                    t.drop_first()[j].1,
                ) == check) && #[trigger] bone_index(names, t.drop_first()[j].0) == Some(b);
            assert(t[j + 1] == t.drop_first()[j]);
        }
    }
}

/// Putting the Mixamo prefix before a name keeps a left- or right-side marker:
/// `Left…` becomes `mixamorig:Left…`, and a `….L` ending stays.
proof fn lemma_prefixed_alias_side(alias: Seq<char>, check: Seq<char>)
    requires
        mixamo_prefix().is_prefix_of(alias),
        alias.skip(mixamo_prefix().len() as int) == check,
    ensures
        "Left"@.is_prefix_of(check) ==> names_left_side(alias),
        ".L"@.is_suffix_of(check) ==> names_left_side(alias),
        "Right"@.is_prefix_of(check) ==> names_right_side(alias),
        ".R"@.is_suffix_of(check) ==> names_right_side(alias),
{
    reveal_strlit("mixamorig:");
    reveal_strlit("mixamorig:Left");
    reveal_strlit("mixamorig:Right");
    reveal_strlit("Left");
    reveal_strlit("Right");
    reveal_strlit(".L");
    reveal_strlit(".R");
    assert(mixamo_prefix().len() == 10);
    assert forall|m: int| 0 <= m < 10 implies alias[m] == "mixamorig:"@[m] by {
        assert(alias.subrange(0, 10)[m] == alias[m]);
    }
    assert forall|m: int| 0 <= m < check.len() implies alias[m + 10] == check[m] by {
        assert(alias.skip(10)[m] == alias[m + 10]);
    }
    if "Left"@.is_prefix_of(check) {
        assert forall|m: int| 0 <= m < 4 implies check[m] == "Left"@[m] by {
            assert(check.subrange(0, 4)[m] == check[m]);
        }
        assert(alias.skip(10).len() == check.len());
        assert forall|m: int| 0 <= m < 14 implies #[trigger] alias.subrange(0, 14)[m] == "mixamorig:Left"@[m] by {
            if m >= 10 {
                assert(alias[(m - 10) + 10] == check[m - 10]);
            }
        }
        assert("mixamorig:Left"@ =~= alias.subrange(0, 14));
    }
    if "Right"@.is_prefix_of(check) {
        assert forall|m: int| 0 <= m < 5 implies check[m] == "Right"@[m] by {
            assert(check.subrange(0, 5)[m] == check[m]);
        }
        assert(alias.skip(10).len() == check.len());
        assert forall|m: int| 0 <= m < 15 implies #[trigger] alias.subrange(0, 15)[m] == "mixamorig:Right"@[m] by {
            if m >= 10 {
                assert(alias[(m - 10) + 10] == check[m - 10]);
            }
        }
        assert("mixamorig:Right"@ =~= alias.subrange(0, 15));
    }
    if ".L"@.is_suffix_of(check) {
        assert(check.subrange(check.len() - 2, check.len() as int)[0] == check[check.len() - 2]);
        assert(check.subrange(check.len() - 2, check.len() as int)[1] == check[check.len() - 1]);
        assert(".L"@ =~= alias.subrange(alias.len() - 2, alias.len() as int));
    }
    if ".R"@.is_suffix_of(check) {
        assert(check.subrange(check.len() - 2, check.len() as int)[0] == check[check.len() - 2]);
        assert(check.subrange(check.len() - 2, check.len() as int)[1] == check[check.len() - 1]);
        assert(".R"@ =~= alias.subrange(alias.len() - 2, alias.len() as int));
    }
}

/// A side-marked Mixamo / Rigify name resolves through the reverse alias table
/// only to a bone of the same side: a `Left…` or `….L` name (the Mixamo prefix
/// already stripped, as [`Skeleton::find_bone`] looks it up) to a `…_L` bone,
/// a `Right…` or `….R` name to a `…_R` bone.
pub proof fn lemma_reverse_alias_resolves_same_side(names: Seq<Seq<char>>, check: Seq<char>)
    ensures
        reverse_hit(names, reverse_alias_table(), check) matches Some(b) ==> {
            &&& 0 <= b < names.len()
            &&& ("Left"@.is_prefix_of(check) || ".L"@.is_suffix_of(check)) ==> "_L"@.is_suffix_of(
                names[b],
            )
            &&& ("Right"@.is_prefix_of(check) || ".R"@.is_suffix_of(check)) ==> "_R"@.is_suffix_of(
                names[b],
            )
        },
{
    let t = reverse_alias_table();
    lemma_reverse_hit_found(names, t, check);
    if let Some(b) = reverse_hit(names, t, check) {
        let j = choose|j: int|
            0 <= j < t.len() && (t[j].1 == check || without_mixamo_prefix(t[j].1) == check)
                && #[trigger] bone_index(names, t[j].0) == Some(b);
        lemma_bone_index_in_range(names, t[j].0);
        lemma_reverse_aliases_keep_side(j);
        if t[j].1 != check {
            lemma_prefixed_alias_side(t[j].1, check);
        }
    }
}

} // verus!
