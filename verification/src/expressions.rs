//! The expressions of a VRM model: reading VRM 1.0 `expressions` and VRM 0.x
//! `blendShapeMaster` into one collection of preset and custom expressions.

use vstd::prelude::*;
use crate::expression::{
    override_mode_of, preset_from_name, ExpressionKind, ExpressionPreset, MorphAddressing, OverrideMode,
};
use crate::json::{
    array_member, bool_member, get_bool, get_str_or, get_u64, member_u64, members_view, object_member,
    str_member_or, JsonValue,
};
use crate::text::str_eq;

verus! {

/// The map that a list of entries denotes: each key maps to the value of its first entry.
pub open spec fn entries_map<K, V>(s: Seq<(K, V)>) -> Map<K, V>
    decreases s.len(),
{
    if s.len() == 0 {
        Map::empty()
    } else {
        entries_map(s.drop_first()).insert(s[0].0, s[0].1)
    }
}

/// Replacing the value of the first entry of a key sets that key in the map.
proof fn lemma_entries_map_update<K, V>(s: Seq<(K, V)>, i: int, k: K, v: V)
    requires
        0 <= i < s.len(),
        s[i].0 == k,
        forall|j: int| 0 <= j < i ==> s[j].0 != k,
    ensures
        entries_map(s.update(i, (k, v))) == entries_map(s).insert(k, v),
    decreases s.len(),
{
    if i == 0 {
        assert(s.update(0, (k, v)).drop_first() =~= s.drop_first());
        assert(entries_map(s.update(i, (k, v))) =~= entries_map(s).insert(k, v));
    } else {
        assert(s.update(i, (k, v)).drop_first() =~= s.drop_first().update(i - 1, (k, v)));
        assert forall|j: int| 0 <= j < i - 1 implies s.drop_first()[j].0 != k by {
            assert(s.drop_first()[j] == s[j + 1]);
        }
        lemma_entries_map_update(s.drop_first(), i - 1, k, v);
        assert(s.update(i, (k, v))[0] == s[0]);
        assert(entries_map(s.update(i, (k, v))) =~= entries_map(s).insert(k, v));
    }
}

/// Appending an entry for a new key sets that key in the map.
proof fn lemma_entries_map_push<K, V>(s: Seq<(K, V)>, k: K, v: V)
    requires
        forall|j: int| 0 <= j < s.len() ==> s[j].0 != k,
    ensures
        entries_map(s.push((k, v))) == entries_map(s).insert(k, v),
    decreases s.len(),
{
    if s.len() == 0 {
        assert(s.push((k, v)).drop_first() =~= Seq::<(K, V)>::empty());
        assert(entries_map(s.push((k, v)).drop_first()) == Map::<K, V>::empty());
        assert(entries_map(s) == Map::<K, V>::empty());
        assert(s.push((k, v))[0] == (k, v));
        assert(entries_map(s.push((k, v))) =~= entries_map(s).insert(k, v));
    } else {
        assert(s.push((k, v)).drop_first() =~= s.drop_first().push((k, v)));
        assert forall|j: int| 0 <= j < s.drop_first().len() implies s.drop_first()[j].0 != k by {
            assert(s.drop_first()[j] == s[j + 1]);
        }
        lemma_entries_map_push(s.drop_first(), k, v);
        assert(s.push((k, v))[0] == s[0]);
        assert(entries_map(s.push((k, v))) =~= entries_map(s).insert(k, v));
    }
}

/// The first entry of a key gives the key's value.
proof fn lemma_entries_map_at<K, V>(s: Seq<(K, V)>, i: int)
    requires
        0 <= i < s.len(),
        forall|j: int| 0 <= j < i ==> s[j].0 != s[i].0,
    ensures
        entries_map(s).contains_key(s[i].0),
        entries_map(s)[s[i].0] == s[i].1,
    decreases i,
{
    if i > 0 {
        assert forall|j: int| 0 <= j < i - 1 implies (#[trigger] s.drop_first()[j]).0 != s.drop_first()[i - 1].0 by {
            assert(s.drop_first()[j] == s[j + 1]);
        }
        lemma_entries_map_at(s.drop_first(), i - 1);
    }
}

/// A key that no entry has is not in the map.
proof fn lemma_entries_map_absent<K, V>(s: Seq<(K, V)>, k: K)
    requires
        forall|j: int| 0 <= j < s.len() ==> s[j].0 != k,
    ensures
        !entries_map(s).contains_key(k),
    decreases s.len(),
{
    if s.len() > 0 {
        assert forall|j: int| 0 <= j < s.drop_first().len() implies s.drop_first()[j].0 != k by {
            assert(s.drop_first()[j] == s[j + 1]);
        }
        lemma_entries_map_absent(s.drop_first(), k);
    }
}

/// The map is empty exactly when there are no entries.
proof fn lemma_entries_map_empty<K, V>(s: Seq<(K, V)>)
    ensures
        (entries_map(s) == Map::<K, V>::empty()) <==> s.len() == 0,
{
    if s.len() > 0 {
        assert(entries_map(s).contains_key(s[0].0));
    }
}

/// One morph target weight of an expression.
#[derive(Debug, Clone, Copy, PartialEq, Eq)]
pub struct MorphTargetBind {
    pub addressing: MorphAddressing,
    /// The glTF node (VRM 1.0) or mesh (VRM 0.x) that holds the morph target.
    pub target: usize,
    /// The index of the morph target in the mesh primitives' `targets`.
    pub index: usize,
    /// The JSON `weight`, as the bit pattern of a 64-bit float, when it is a
    /// number. A VRM 1.0 weight runs from 0 to 1 and a VRM 0.x weight from 0
    /// to 100; a missing weight is the full weight.
    pub weight_bits: Option<u64>,
}

impl MorphTargetBind {
    /// The weight that stands for full strength on the bind's scale: 100 for a
    /// VRM 0.x (mesh-addressed) bind, 1 for a VRM 1.0 (node-addressed) one. A
    /// weight divided by it lies on the scale 0 to 1; a missing weight is full.
    pub fn full_weight(&self) -> (r: u32)
        ensures
            r == match self.addressing {
                MorphAddressing::MeshIndex => 100u32,
                MorphAddressing::NodeIndex => 1u32,
            },
    {
        match self.addressing {
            MorphAddressing::MeshIndex => 100,
            MorphAddressing::NodeIndex => 1,
        }
    }
}

/// What an expression is, with a custom name as text.
pub enum ExpressionKindView {
    Preset(ExpressionPreset),
    Custom(Seq<char>),
}

impl View for ExpressionKind {
    type V = ExpressionKindView;

    open spec fn view(&self) -> ExpressionKindView {
        match self {
            ExpressionKind::Preset(p) => ExpressionKindView::Preset(*p),
            ExpressionKind::Custom(s) => ExpressionKindView::Custom(s@),
        }
    }
}

/// One expression: its kind, morph target weights, and how it interacts with
/// blinking, gaze and mouth expressions.
#[derive(Debug, Clone)]
pub struct Expression {
    pub kind: ExpressionKind,
    pub morph_target_binds: Vec<MorphTargetBind>,
    /// Whether the expression snaps to 0 or 1 while active.
    pub is_binary: bool,
    pub override_blink: OverrideMode,
    pub override_look_at: OverrideMode,
    pub override_mouth: OverrideMode,
}

/// The content of an expression.
pub struct ExpressionModel {
    pub kind: ExpressionKindView,
    pub binds: Seq<MorphTargetBind>,
    pub is_binary: bool,
    pub override_blink: OverrideMode,
    pub override_look_at: OverrideMode,
    pub override_mouth: OverrideMode,
}

impl View for Expression {
    type V = ExpressionModel;

    open spec fn view(&self) -> ExpressionModel {
        ExpressionModel {
            kind: self.kind@,
            binds: self.morph_target_binds@,
            is_binary: self.is_binary,
            override_blink: self.override_blink,
            override_look_at: self.override_look_at,
            override_mouth: self.override_mouth,
        }
    }
}

/// The expressions of one model: preset expressions by preset, custom ones by name.
#[derive(Debug, Clone)]
pub struct Expressions {
    presets: Vec<(ExpressionPreset, Expression)>,
    custom: Vec<(String, Expression)>,
}

impl Default for Expressions {
    /// No expressions.
    fn default() -> (r: Self)
        ensures
            r.preset_map() == Map::<ExpressionPreset, ExpressionModel>::empty(),
            r.custom_map() == Map::<Seq<char>, ExpressionModel>::empty(),
    {
        Expressions::new()
    }
}

/// Preset entries by their contents.
pub open spec fn preset_entries(s: Seq<(ExpressionPreset, Expression)>) -> Seq<(ExpressionPreset, ExpressionModel)> {
    s.map_values(|e: (ExpressionPreset, Expression)| (e.0, e.1@))
}

/// Custom entries by their names' text and contents.
pub open spec fn custom_entries(s: Seq<(String, Expression)>) -> Seq<(Seq<char>, ExpressionModel)> {
    s.map_values(|e: (String, Expression)| (e.0@, e.1@))
}

impl Expressions {
    /// The preset expressions.
    pub closed spec fn preset_map(&self) -> Map<ExpressionPreset, ExpressionModel> {
        entries_map(preset_entries(self.presets@))
    }

    /// The custom expressions, by name.
    pub closed spec fn custom_map(&self) -> Map<Seq<char>, ExpressionModel> {
        entries_map(custom_entries(self.custom@))
    }

    /// No expressions.
    pub fn new() -> (r: Self)
        ensures
            r.preset_map() == Map::<ExpressionPreset, ExpressionModel>::empty(),
            r.custom_map() == Map::<Seq<char>, ExpressionModel>::empty(),
    {
        let r = Expressions { presets: Vec::new(), custom: Vec::new() };
        assert(preset_entries(r.presets@).len() == 0);
        assert(custom_entries(r.custom@).len() == 0);
        r
    }

    /// Whether there are no expressions at all.
    pub fn is_empty(&self) -> (r: bool)
        ensures
            r == (self.preset_map() == Map::<ExpressionPreset, ExpressionModel>::empty()
                && self.custom_map() == Map::<Seq<char>, ExpressionModel>::empty()),
    {
        proof {
            lemma_entries_map_empty(preset_entries(self.presets@));
            lemma_entries_map_empty(custom_entries(self.custom@));
        }
        self.presets.len() == 0 && self.custom.len() == 0
    }

    /// The position of the first entry of a preset.
    fn find_preset(&self, preset: ExpressionPreset) -> (r: Option<usize>)
        ensures
            match r {
                Some(i) => i < self.presets@.len() && self.presets@[i as int].0 == preset && forall|j: int|
                    0 <= j < i ==> self.presets@[j].0 != preset,
                None => forall|j: int| 0 <= j < self.presets@.len() ==> self.presets@[j].0 != preset,
            },
    {
        let n = self.presets.len();
        let mut i: usize = 0;
        while i < n
            invariant
                n == self.presets@.len(),
                i <= n,
                forall|j: int| 0 <= j < i ==> self.presets@[j].0 != preset,
            decreases n - i,
        {
            if self.presets[i].0 == preset {
                return Some(i);
            }
            i += 1;
        }
        None
    }

    /// The position of the first entry of a custom name.
    fn find_custom(&self, name: &str) -> (r: Option<usize>)
        ensures
            match r {
                Some(i) => i < self.custom@.len() && self.custom@[i as int].0@ == name@ && forall|j: int|
                    0 <= j < i ==> self.custom@[j].0@ != name@,
                None => forall|j: int| 0 <= j < self.custom@.len() ==> self.custom@[j].0@ != name@,
            },
    {
        let n = self.custom.len();
        let mut i: usize = 0;
        while i < n
            invariant
                n == self.custom@.len(),
                i <= n,
                forall|j: int| 0 <= j < i ==> self.custom@[j].0@ != name@,
            decreases n - i,
        {
            if str_eq(self.custom[i].0.as_str(), name) {
                return Some(i);
            }
            i += 1;
        }
        None
    }

    /// The expression of a preset.
    pub fn get_preset(&self, preset: ExpressionPreset) -> (r: Option<&Expression>)
        ensures
            match r {
                Some(e) => self.preset_map().contains_key(preset) && self.preset_map()[preset] == e@,
                None => !self.preset_map().contains_key(preset),
            },
    {
        let ghost s = preset_entries(self.presets@);
        match self.find_preset(preset) {
            Some(i) => {
                proof {
                    assert forall|j: int| 0 <= j < i implies s[j].0 != s[i as int].0 by {
                        assert(s[j].0 == self.presets@[j].0);
                    }
                    lemma_entries_map_at(s, i as int);
                }
                Some(&self.presets[i].1)
            },
            None => {
                proof {
                    assert forall|j: int| 0 <= j < s.len() implies s[j].0 != preset by {
                        assert(s[j].0 == self.presets@[j].0);
                    }
                    lemma_entries_map_absent(s, preset);
                }
                None
            },
        }
    }

    /// The custom expression of a name.
    pub fn get_custom(&self, name: &str) -> (r: Option<&Expression>)
        ensures
            match r {
                Some(e) => self.custom_map().contains_key(name@) && self.custom_map()[name@] == e@,
                None => !self.custom_map().contains_key(name@),
            },
    {
        let ghost s = custom_entries(self.custom@);
        match self.find_custom(name) {
            Some(i) => {
                proof {
                    assert forall|j: int| 0 <= j < i implies s[j].0 != s[i as int].0 by {
                        assert(s[j].0 == self.custom@[j].0@);
                    }
                    lemma_entries_map_at(s, i as int);
                }
                Some(&self.custom[i].1)
            },
            None => {
                proof {
                    assert forall|j: int| 0 <= j < s.len() implies s[j].0 != name@ by {
                        assert(s[j].0 == self.custom@[j].0@);
                    }
                    lemma_entries_map_absent(s, name@);
                }
                None
            },
        }
    }

    /// Sets the expression of a preset, replacing an earlier one.
    pub fn insert_preset(&mut self, preset: ExpressionPreset, e: Expression)
        ensures
            final(self).preset_map() == old(self).preset_map().insert(preset, e@),
            final(self).custom_map() == old(self).custom_map(),
    {
        let ghost s = preset_entries(self.presets@);
        let ghost ev = e@;
        match self.find_preset(preset) {
            Some(i) => {
                proof {
                    assert forall|j: int| 0 <= j < i implies s[j].0 != preset by {
                        assert(s[j].0 == self.presets@[j].0);
                    }
                    lemma_entries_map_update(s, i as int, preset, ev);
                }
                self.presets.set(i, (preset, e));
                assert(preset_entries(self.presets@) =~= s.update(i as int, (preset, ev)));
            },
            None => {
                proof {
                    assert forall|j: int| 0 <= j < s.len() implies s[j].0 != preset by {
                        assert(s[j].0 == self.presets@[j].0);
                    }
                    lemma_entries_map_push(s, preset, ev);
                }
                self.presets.push((preset, e));
                assert(preset_entries(self.presets@) =~= s.push((preset, ev)));
            },
        }
    }

    /// Sets the custom expression of a name, replacing an earlier one.
    pub fn insert_custom(&mut self, name: String, e: Expression)
        ensures
            final(self).custom_map() == old(self).custom_map().insert(name@, e@),
            final(self).preset_map() == old(self).preset_map(),
    {
        let ghost s = custom_entries(self.custom@);
        let ghost ev = e@;
        let ghost k = name@;
        match self.find_custom(name.as_str()) {
            Some(i) => {
                proof {
                    assert forall|j: int| 0 <= j < i implies s[j].0 != k by {
                        assert(s[j].0 == self.custom@[j].0@);
                    }
                    lemma_entries_map_update(s, i as int, k, ev);
                }
                self.custom.set(i, (name, e));
                assert(custom_entries(self.custom@) =~= s.update(i as int, (k, ev)));
            },
            None => {
                proof {
                    assert forall|j: int| 0 <= j < s.len() implies s[j].0 != k by {
                        assert(s[j].0 == self.custom@[j].0@);
                    }
                    lemma_entries_map_push(s, k, ev);
                }
                self.custom.push((name, e));
                assert(custom_entries(self.custom@) =~= s.push((k, ev)));
            },
        }
    }
}

} // verus!

verus! {






/// The override mode that the string member `key` names; none when it is absent or no string.
pub open spec fn override_member(v: JsonValue, key: Seq<char>) -> OverrideMode {
    match v.field(key) {
        Some(x) => match x.str_value() {
            Some(s) => override_mode_of(s),
            None => OverrideMode::NoOverride,
        },
        None => OverrideMode::NoOverride,
    }
}

/// The member naming the target of a bind: a node in VRM 1.0, a mesh in VRM 0.x.
pub open spec fn target_key(a: MorphAddressing) -> Seq<char> {
    match a {
        MorphAddressing::NodeIndex => "node"@,
        MorphAddressing::MeshIndex => "mesh"@,
    }
}

/// A bind element: its target and morph target index must be unsigned integers.
pub open spec fn bind_of(b: JsonValue, a: MorphAddressing) -> Option<MorphTargetBind> {
    match member_u64(b, target_key(a)) {
        Some(target) => match member_u64(b, "index"@) {
            Some(index) => Some(
                MorphTargetBind {
                    addressing: a,
                    target: target as usize,
                    index: index as usize,
                    weight_bits: match b.field("weight"@) {
                        Some(w) => w.f64_bits_value(),
                        None => None,
                    },
                },
            ),
            None => None,
        },
        None => None,
    }
}

/// The binds of the elements that are well-formed binds, in order.
pub open spec fn binds_of(arr: Seq<JsonValue>, a: MorphAddressing) -> Seq<MorphTargetBind>
    decreases arr.len(),
{
    if arr.len() == 0 {
        Seq::empty()
    } else {
        let rest = binds_of(arr.drop_last(), a);
        match bind_of(arr.last(), a) {
            Some(b) => rest.push(b),
            None => rest,
        }
    }
}

/// A VRM 1.0 expression definition of the given kind.
pub open spec fn vrm1_expression(body: JsonValue, kind: ExpressionKindView) -> ExpressionModel {
    ExpressionModel {
        kind,
        binds: binds_of(array_member(body, "morphTargetBinds"@), MorphAddressing::NodeIndex),
        is_binary: bool_member(body, "isBinary"@),
        override_blink: override_member(body, "overrideBlink"@),
        override_look_at: override_member(body, "overrideLookAt"@),
        override_mouth: override_member(body, "overrideMouth"@),
    }
}

/// The VRM 1.0 preset expressions, in member order: members whose names are no
/// preset are skipped, and a later member of a preset replaces an earlier one.
pub open spec fn vrm1_presets(es: Seq<(Seq<char>, JsonValue)>) -> Map<ExpressionPreset, ExpressionModel>
    decreases es.len(),
{
    if es.len() == 0 {
        Map::empty()
    } else {
        let m = vrm1_presets(es.drop_last());
        match preset_from_name(es.last().0) {
            Some(p) => m.insert(p, vrm1_expression(es.last().1, ExpressionKindView::Preset(p))),
            None => m,
        }
    }
}

/// The VRM 1.0 custom expressions, by member name.
pub open spec fn vrm1_customs(es: Seq<(Seq<char>, JsonValue)>) -> Map<Seq<char>, ExpressionModel>
    decreases es.len(),
{
    if es.len() == 0 {
        Map::empty()
    } else {
        vrm1_customs(es.drop_last()).insert(
            es.last().0,
            vrm1_expression(es.last().1, ExpressionKindView::Custom(es.last().0)),
        )
    }
}

/// The VRM 1.0 expressions of a glTF `extensions` object: preset and custom
/// expressions, when the `VRMC_vrm.expressions` member is there and yields any.
pub open spec fn vrm1_expressions(ext: JsonValue) -> Option<(Map<ExpressionPreset, ExpressionModel>, Map<Seq<char>, ExpressionModel>)> {
    match ext.field("VRMC_vrm"@) {
        Some(vrmc) => match vrmc.field("expressions"@) {
            Some(x) => {
                let p = vrm1_presets(object_member(x, "preset"@));
                let c = vrm1_customs(object_member(x, "custom"@));
                if p == Map::<ExpressionPreset, ExpressionModel>::empty() && c == Map::<
                    Seq<char>,
                    ExpressionModel,
                >::empty() {
                    None
                } else {
                    Some((p, c))
                }
            },
            None => None,
        },
        None => None,
    }
}

/// The preset that a VRM 0.x blend shape group names (`presetName`, `unknown` when absent).
pub open spec fn vrm0_group_preset(g: JsonValue) -> Option<ExpressionPreset> {
    preset_from_name(str_member_or(g, "presetName"@, "unknown"@))
}

/// The name of a VRM 0.x blend shape group (empty when absent).
pub open spec fn vrm0_group_name(g: JsonValue) -> Seq<char> {
    str_member_or(g, "name"@, Seq::empty())
}

/// The expression of a VRM 0.x blend shape group: a preset when its preset
/// name is one, else a custom expression under its name; VRM 0.x has no overrides.
pub open spec fn vrm0_expression(g: JsonValue) -> ExpressionModel {
    ExpressionModel {
        kind: match vrm0_group_preset(g) {
            Some(p) => ExpressionKindView::Preset(p),
            None => ExpressionKindView::Custom(vrm0_group_name(g)),
        },
        binds: binds_of(array_member(g, "binds"@), MorphAddressing::MeshIndex),
        is_binary: bool_member(g, "isBinary"@),
        override_blink: OverrideMode::NoOverride,
        override_look_at: OverrideMode::NoOverride,
        override_mouth: OverrideMode::NoOverride,
    }
}

/// The preset and custom expressions of VRM 0.x blend shape groups, in order
/// (a later group replaces an earlier one of the same preset or name).
pub open spec fn vrm0_groups_fold(gs: Seq<JsonValue>) -> (Map<ExpressionPreset, ExpressionModel>, Map<Seq<char>, ExpressionModel>)
    decreases gs.len(),
{
    if gs.len() == 0 {
        (Map::empty(), Map::empty())
    } else {
        let (p, c) = vrm0_groups_fold(gs.drop_last());
        let g = gs.last();
        match vrm0_group_preset(g) {
            Some(pr) => (p.insert(pr, vrm0_expression(g)), c),
            None => (p, c.insert(vrm0_group_name(g), vrm0_expression(g))),
        }
    }
}

/// The `blendShapeGroups` array of the VRM 0.x extension.
pub open spec fn vrm0_groups(ext: JsonValue) -> Option<Seq<JsonValue>> {
    match ext.field("VRM"@) {
        Some(vrm) => match vrm.field("blendShapeMaster"@) {
            Some(master) => match master.field("blendShapeGroups"@) {
                Some(JsonValue::Array(a)) => Some(a@),
                _ => None,
            },
            None => None,
        },
        None => None,
    }
}

/// The VRM 0.x expressions of a glTF `extensions` object, when the blend shape
/// groups are there and yield any.
pub open spec fn vrm0_expressions(ext: JsonValue) -> Option<(Map<ExpressionPreset, ExpressionModel>, Map<Seq<char>, ExpressionModel>)> {
    match vrm0_groups(ext) {
        Some(gs) => {
            let (p, c) = vrm0_groups_fold(gs);
            if p == Map::<ExpressionPreset, ExpressionModel>::empty() && c == Map::<
                Seq<char>,
                ExpressionModel,
            >::empty() {
                None
            } else {
                Some((p, c))
            }
        },
        None => None,
    }
}

} // verus!

verus! {




fn get_override(v: &JsonValue, key: &str) -> (r: OverrideMode)
    ensures
        r == override_member(*v, key@),
{
    match v.get(key) {
        Some(x) => match x.as_str() {
            Some(s) => OverrideMode::from_str(s),
            None => OverrideMode::NoOverride,
        },
        None => OverrideMode::NoOverride,
    }
}

/// Reads one bind element.
fn parse_bind(b: &JsonValue, a: MorphAddressing) -> (r: Option<MorphTargetBind>)
    ensures
        r == bind_of(*b, a),
{
    let key = match a {
        MorphAddressing::NodeIndex => "node",
        MorphAddressing::MeshIndex => "mesh",
    };
    let target = match get_u64(b, key) {
        Some(t) => t,
        None => return None,
    };
    let index = match get_u64(b, "index") {
        Some(i) => i,
        None => return None,
    };
    let weight_bits = match b.get("weight") {
        Some(w) => w.as_f64_bits(),
        None => None,
    };
    Some(MorphTargetBind { addressing: a, target: target as usize, index: index as usize, weight_bits })
}

/// Reads the array member `key` of binds, skipping malformed elements.
fn parse_binds(v: &JsonValue, key: &str, a: MorphAddressing) -> (r: Vec<MorphTargetBind>)
    ensures
        r@ == binds_of(array_member(*v, key@), a),
{
    let mut out: Vec<MorphTargetBind> = Vec::new();
    let arr = match v.get(key) {
        Some(x) => match x.as_array() {
            Some(arr) => arr,
            None => return out,
        },
        None => return out,
    };
    let n = arr.len();
    let mut i: usize = 0;
    while i < n
        invariant
            n == arr@.len(),
            i <= n,
            array_member(*v, key@) == arr@,
            out@ == binds_of(arr@.subrange(0, i as int), a),
        decreases n - i,
    {
        assert(arr@.subrange(0, i + 1).drop_last() =~= arr@.subrange(0, i as int));
        match parse_bind(&arr[i], a) {
            Some(b) => out.push(b),
            None => {},
        }
        i += 1;
    }
    assert(arr@.subrange(0, n as int) =~= arr@);
    out
}

/// Reads a VRM 1.0 expression definition.
fn parse_vrm1_expression_body(body: &JsonValue, kind: ExpressionKind) -> (r: Expression)
    ensures
        r@ == vrm1_expression(*body, kind@),
{
    Expression {
        kind,
        morph_target_binds: parse_binds(body, "morphTargetBinds", MorphAddressing::NodeIndex),
        is_binary: get_bool(body, "isBinary"),
        override_blink: get_override(body, "overrideBlink"),
        override_look_at: get_override(body, "overrideLookAt"),
        override_mouth: get_override(body, "overrideMouth"),
    }
}

/// Reads the VRM 1.0 expressions (`VRMC_vrm.expressions`) of a glTF
/// `extensions` object; none when they are missing or define no expression.
pub fn parse_vrmc_expressions(extensions: &JsonValue) -> (r: Option<Expressions>)
    ensures
        match r {
            Some(e) => vrm1_expressions(*extensions) == Some((e.preset_map(), e.custom_map())),
            None => vrm1_expressions(*extensions) is None,
        },
{
    let vrmc = match extensions.get("VRMC_vrm") {
        Some(v) => v,
        None => return None,
    };
    let x = match vrmc.get("expressions") {
        Some(v) => v,
        None => return None,
    };
    let mut out = Expressions::new();
    let ghost pm = object_member(*x, "preset"@);
    let ghost cm = object_member(*x, "custom"@);
    match x.get("preset") {
        Some(pv) => match pv.as_object() {
            Some(es) => {
                let n = es.len();
                let mut i: usize = 0;
                while i < n
                    invariant
                        n == es@.len(),
                        i <= n,
                        pm == members_view(es@),
                        out.preset_map() == vrm1_presets(pm.subrange(0, i as int)),
                        out.custom_map() == Map::<Seq<char>, ExpressionModel>::empty(),
                    decreases n - i,
                {
                    assert(pm.subrange(0, i + 1).drop_last() =~= pm.subrange(0, i as int));
                    assert(pm.subrange(0, i + 1).last() == (es@[i as int].0@, es@[i as int].1));
                    match ExpressionPreset::from_any(es[i].0.as_str()) {
                        Some(p) => {
                            let e = parse_vrm1_expression_body(&es[i].1, ExpressionKind::Preset(p));
                            out.insert_preset(p, e);
                        },
                        None => {},
                    }
                    i += 1;
                }
                assert(pm.subrange(0, n as int) =~= pm);
            },
            None => {},
        },
        None => {},
    }
    let ghost presets = out.preset_map();
    assert(presets == vrm1_presets(pm));
    match x.get("custom") {
        Some(cv) => match cv.as_object() {
            Some(es) => {
                let n = es.len();
                let mut i: usize = 0;
                while i < n
                    invariant
                        n == es@.len(),
                        i <= n,
                        cm == members_view(es@),
                        out.preset_map() == presets,
                        out.custom_map() == vrm1_customs(cm.subrange(0, i as int)),
                    decreases n - i,
                {
                    assert(cm.subrange(0, i + 1).drop_last() =~= cm.subrange(0, i as int));
                    assert(cm.subrange(0, i + 1).last() == (es@[i as int].0@, es@[i as int].1));
                    let name = es[i].0.clone();
                    let e = parse_vrm1_expression_body(&es[i].1, ExpressionKind::Custom(es[i].0.clone()));
                    out.insert_custom(name, e);
                    i += 1;
                }
                assert(cm.subrange(0, n as int) =~= cm);
            },
            None => {},
        },
        None => {},
    }
    if out.is_empty() {
        None
    } else {
        Some(out)
    }
}

/// Reads the VRM 0.x blend shape groups (`VRM.blendShapeMaster.blendShapeGroups`)
/// of a glTF `extensions` object; none when they are missing or define no expression.
pub fn parse_vrm0_blend_shapes(extensions: &JsonValue) -> (r: Option<Expressions>)
    ensures
        match r {
            Some(e) => vrm0_expressions(*extensions) == Some((e.preset_map(), e.custom_map())),
            None => vrm0_expressions(*extensions) is None,
        },
{
    let vrm = match extensions.get("VRM") {
        Some(v) => v,
        None => return None,
    };
    let master = match vrm.get("blendShapeMaster") {
        Some(v) => v,
        None => return None,
    };
    let groups = match master.get("blendShapeGroups") {
        Some(v) => match v.as_array() {
            Some(a) => a,
            None => return None,
        },
        None => return None,
    };
    let mut out = Expressions::new();
    let n = groups.len();
    let mut i: usize = 0;
    while i < n
        invariant
            n == groups@.len(),
            i <= n,
            vrm0_groups(*extensions) == Some(groups@),
            (out.preset_map(), out.custom_map()) == vrm0_groups_fold(groups@.subrange(0, i as int)),
        decreases n - i,
    {
        assert(groups@.subrange(0, i + 1).drop_last() =~= groups@.subrange(0, i as int));
        assert(groups@.subrange(0, i + 1).last() == groups@[i as int]);
        let g = &groups[i];
        let name = get_str_or(g, "name", "");
        let preset_name = get_str_or(g, "presetName", "unknown");
        let preset = ExpressionPreset::from_any(preset_name);
        let binds = parse_binds(g, "binds", MorphAddressing::MeshIndex);
        let is_binary = get_bool(g, "isBinary");
        let kind = match preset {
            Some(p) => ExpressionKind::Preset(p),
            None => ExpressionKind::Custom(name.to_owned()),
        };
        let e = Expression {
            kind,
            morph_target_binds: binds,
            is_binary,
            override_blink: OverrideMode::NoOverride,
            override_look_at: OverrideMode::NoOverride,
            override_mouth: OverrideMode::NoOverride,
        };
        proof {
            reveal_strlit("");
        }
        assert(name@ == vrm0_group_name(*g));
        assert(preset == vrm0_group_preset(*g));
        assert(e@ == vrm0_expression(*g));
        match preset {
            Some(p) => out.insert_preset(p, e),
            None => out.insert_custom(name.to_owned(), e),
        }
        i += 1;
    }
    assert(groups@.subrange(0, n as int) =~= groups@);
    if out.is_empty() {
        None
    } else {
        Some(out)
    }
}

} // verus!

verus! {

/// Each override mode of a VRM 1.0 expression is named by the member of its own
/// name (`overrideBlink`, `overrideLookAt`, `overrideMouth`): a string member
/// gives the mode it names (`block`, `blend`, anything else no override), a
/// missing member gives no override, and two bodies that agree on that one
/// member agree on that mode, whatever their other members hold.
pub proof fn lemma_vrm1_override_members(
    b1: JsonValue,
    b2: JsonValue,
    k1: ExpressionKindView,
    k2: ExpressionKindView,
)
    ensures
        b1.field("overrideBlink"@) == b2.field("overrideBlink"@) ==> vrm1_expression(
            b1,
            k1,
        ).override_blink == vrm1_expression(b2, k2).override_blink,
        b1.field("overrideLookAt"@) == b2.field("overrideLookAt"@) ==> vrm1_expression(
            b1,
            k1,
        ).override_look_at == vrm1_expression(b2, k2).override_look_at,
        b1.field("overrideMouth"@) == b2.field("overrideMouth"@) ==> vrm1_expression(
            b1,
            k1,
        ).override_mouth == vrm1_expression(b2, k2).override_mouth,
        b1.field("overrideBlink"@) matches Some(x) ==> (x.str_value() matches Some(s)
            ==> vrm1_expression(b1, k1).override_blink == override_mode_of(s)),
        b1.field("overrideLookAt"@) matches Some(x) ==> (x.str_value() matches Some(s)
            ==> vrm1_expression(b1, k1).override_look_at == override_mode_of(s)),
        b1.field("overrideMouth"@) matches Some(x) ==> (x.str_value() matches Some(s)
            ==> vrm1_expression(b1, k1).override_mouth == override_mode_of(s)),
        b1.field("overrideBlink"@) is None ==> vrm1_expression(b1, k1).override_blink
            == OverrideMode::NoOverride,
        b1.field("overrideLookAt"@) is None ==> vrm1_expression(b1, k1).override_look_at
            == OverrideMode::NoOverride,
        b1.field("overrideMouth"@) is None ==> vrm1_expression(b1, k1).override_mouth
            == OverrideMode::NoOverride,
{
}

} // verus!

verus! {

/// Every bind read from a bind array addresses its target as asked.
proof fn lemma_binds_addressing(arr: Seq<JsonValue>, a: MorphAddressing)
    ensures
        forall|i: int| 0 <= i < binds_of(arr, a).len() ==> (#[trigger] binds_of(arr, a)[i]).addressing == a,
    decreases arr.len(),
{
    if arr.len() > 0 {
        lemma_binds_addressing(arr.drop_last(), a);
    }
}

/// The rest of a VRM 1.0 expression also comes from members of their own
/// names: its kind is the one it is read as, `isBinary` gives whether it is
/// binary (false when missing), and its binds are those of `morphTargetBinds`
/// alone, each addressing a glTF node.
pub proof fn lemma_vrm1_expression_members(
    b1: JsonValue,
    b2: JsonValue,
    k1: ExpressionKindView,
    k2: ExpressionKindView,
)
    ensures
        vrm1_expression(b1, k1).kind == k1,
        b1.field("isBinary"@) == b2.field("isBinary"@) ==> vrm1_expression(b1, k1).is_binary
            == vrm1_expression(b2, k2).is_binary,
        b1.field("isBinary"@) matches Some(x) ==> (x.bool_value() matches Some(v) ==> vrm1_expression(
            b1,
            k1,
        ).is_binary == v),
        b1.field("isBinary"@) is None ==> !vrm1_expression(b1, k1).is_binary,
        b1.field("morphTargetBinds"@) == b2.field("morphTargetBinds"@) ==> vrm1_expression(
            b1,
            k1,
        ).binds == vrm1_expression(b2, k2).binds,
        forall|i: int|
            0 <= i < vrm1_expression(b1, k1).binds.len() ==> (#[trigger] vrm1_expression(
                b1,
                k1,
            ).binds[i]).addressing == MorphAddressing::NodeIndex,
{
    lemma_binds_addressing(array_member(b1, "morphTargetBinds"@), MorphAddressing::NodeIndex);
}

/// A VRM 0.x blend shape group has no overrides; whether it is binary comes
/// from its `isBinary` member (false when missing), and its binds from its
/// `binds` member alone, each addressing a glTF mesh.
pub proof fn lemma_vrm0_expression_members(g1: JsonValue, g2: JsonValue)
    ensures
        vrm0_expression(g1).override_blink == OverrideMode::NoOverride,
        vrm0_expression(g1).override_look_at == OverrideMode::NoOverride,
        vrm0_expression(g1).override_mouth == OverrideMode::NoOverride,
        g1.field("isBinary"@) == g2.field("isBinary"@) ==> vrm0_expression(g1).is_binary
            == vrm0_expression(g2).is_binary,
        g1.field("isBinary"@) matches Some(x) ==> (x.bool_value() matches Some(v)
            ==> vrm0_expression(g1).is_binary == v),
        g1.field("isBinary"@) is None ==> !vrm0_expression(g1).is_binary,
        g1.field("binds"@) == g2.field("binds"@) ==> vrm0_expression(g1).binds == vrm0_expression(
            g2,
        ).binds,
        forall|i: int|
            0 <= i < vrm0_expression(g1).binds.len() ==> (#[trigger] vrm0_expression(g1).binds[i]).addressing
                == MorphAddressing::MeshIndex,
{
    lemma_binds_addressing(array_member(g1, "binds"@), MorphAddressing::MeshIndex);
}

} // verus!
