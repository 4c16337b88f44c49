//! The VRM 1.0 spring bone extension (`VRMC_springBone`): spring chains of
//! joints and the colliders they avoid.

use vstd::prelude::*;
use crate::json::{
    array_member, get_f64_bits, get_str, get_u64, member_f64_bits, member_str, member_u64, JsonValue,
};

verus! {

/// The results of `f` on the elements of `s` for which it gives one, in order.
pub open spec fn filter_map<A, B>(s: Seq<A>, f: spec_fn(A) -> Option<B>) -> Seq<B>
    decreases s.len(),
{
    if s.len() == 0 {
        Seq::empty()
    } else {
        let rest = filter_map(s.drop_last(), f);
        match f(s.last()) {
            Some(b) => rest.push(b),
            None => rest,
        }
    }
}

/// One joint of a spring chain. Its physical parameters are the bit patterns
/// of the JSON numbers (64-bit floats), when given; missing ones take the
/// extension's defaults (hit radius 0, stiffness 1, gravity power 0, drag 0.5).
#[derive(Debug, Clone, Copy, PartialEq, Eq)]
pub struct VrmcSpringJoint {
    pub node: usize,
    pub hit_radius_bits: Option<u64>,
    pub stiffness_bits: Option<u64>,
    pub gravity_power_bits: Option<u64>,
    pub drag_force_bits: Option<u64>,
}

/// A spring chain: an optional name and its joints.
#[derive(Debug, Clone)]
pub struct VrmcSpring {
    pub name: Option<String>,
    pub joints: Vec<VrmcSpringJoint>,
}

/// A collider on a node: its shape (`sphere` or `capsule`) and the bit
/// pattern of its radius (a 64-bit float), when given (the default is 0.05).
#[derive(Debug, Clone)]
pub struct VrmcCollider {
    pub node: usize,
    pub shape_type: String,
    pub radius_bits: Option<u64>,
}

/// The spring bone extension of a model.
#[derive(Debug, Clone)]
pub struct VrmcSpringBone {
    pub springs: Vec<VrmcSpring>,
    pub colliders: Vec<VrmcCollider>,
}

/// What a spring chain holds, with its name as text.
pub struct SpringModel {
    pub name: Option<Seq<char>>,
    pub joints: Seq<VrmcSpringJoint>,
}

/// What a collider holds, with its shape as text.
pub struct ColliderModel {
    pub node: usize,
    pub shape_type: Seq<char>,
    pub radius_bits: Option<u64>,
}

impl View for VrmcSpring {
    type V = SpringModel;

    open spec fn view(&self) -> SpringModel {
        SpringModel {
            name: match self.name {
                Some(s) => Some(s@),
                None => None,
            },
            joints: self.joints@,
        }
    }
}

impl View for VrmcCollider {
    type V = ColliderModel;

    open spec fn view(&self) -> ColliderModel {
        ColliderModel { node: self.node, shape_type: self.shape_type@, radius_bits: self.radius_bits }
    }
}

impl View for VrmcSpringBone {
    type V = (Seq<SpringModel>, Seq<ColliderModel>);

    open spec fn view(&self) -> (Seq<SpringModel>, Seq<ColliderModel>) {
        (
            self.springs@.map_values(|s: VrmcSpring| s@),
            self.colliders@.map_values(|c: VrmcCollider| c@),
        )
    }
}

/// A spring joint element: its node must be an unsigned integer.
pub open spec fn spring_joint_of(j: JsonValue) -> Option<VrmcSpringJoint> {
    match member_u64(j, "node"@) {
        Some(n) => Some(
            VrmcSpringJoint {
                node: n as usize,
                hit_radius_bits: member_f64_bits(j, "hitRadius"@),
                stiffness_bits: member_f64_bits(j, "stiffness"@),
                gravity_power_bits: member_f64_bits(j, "gravityPower"@),
                drag_force_bits: member_f64_bits(j, "dragForce"@),
            },
        ),
        None => None,
    }
}

/// A spring element: it must have a `joints` array; its well-formed joints, in order.
pub open spec fn spring_of(s: JsonValue) -> Option<SpringModel> {
    match s.field("joints"@) {
        Some(JsonValue::Array(js)) => Some(
            SpringModel {
                name: member_str(s, "name"@),
                joints: filter_map(js@, |j: JsonValue| spring_joint_of(j)),
            },
        ),
        _ => None,
    }
}

/// A collider element: its node must be an unsigned integer and its shape a
/// sphere or, failing that, a capsule.
pub open spec fn collider_of(c: JsonValue) -> Option<ColliderModel> {
    match member_u64(c, "node"@) {
        Some(n) => match c.field("shape"@) {
            Some(shape) => match shape.field("sphere"@) {
                Some(sphere) => Some(
                    ColliderModel {
                        node: n as usize,
                        shape_type: "sphere"@,
                        radius_bits: member_f64_bits(sphere, "radius"@),
                    },
                ),
                None => match shape.field("capsule"@) {
                    Some(capsule) => Some(
                        ColliderModel {
                            node: n as usize,
                            shape_type: "capsule"@,
                            radius_bits: member_f64_bits(capsule, "radius"@),
                        },
                    ),
                    None => None,
                },
            },
            None => None,
        },
        None => None,
    }
}

/// The spring bone extension of a glTF `extensions` object: its well-formed
/// springs and colliders, in order, when the extension is there.
pub open spec fn spring_bone_of(ext: JsonValue) -> Option<(Seq<SpringModel>, Seq<ColliderModel>)> {
    match ext.field("VRMC_springBone"@) {
        Some(sb) => Some(
            (
                filter_map(array_member(sb, "springs"@), |s: JsonValue| spring_of(s)),
                filter_map(array_member(sb, "colliders"@), |c: JsonValue| collider_of(c)),
            ),
        ),
        None => None,
    }
}

fn parse_spring_joint(j: &JsonValue) -> (r: Option<VrmcSpringJoint>)
    ensures
        r == spring_joint_of(*j),
{
    let node = match get_u64(j, "node") {
        Some(n) => n,
        None => return None,
    };
    Some(
        VrmcSpringJoint {
            node: node as usize,
            hit_radius_bits: get_f64_bits(j, "hitRadius"),
            stiffness_bits: get_f64_bits(j, "stiffness"),
            gravity_power_bits: get_f64_bits(j, "gravityPower"),
            drag_force_bits: get_f64_bits(j, "dragForce"),
        },
    )
}

fn parse_spring(s: &JsonValue) -> (r: Option<VrmcSpring>)
    ensures
        match r {
            Some(sp) => spring_of(*s) == Some(sp@),
            None => spring_of(*s) is None,
        },
{
    let js = match s.get("joints") {
        Some(v) => match v.as_array() {
            Some(a) => a,
            None => return None,
        },
        None => return None,
    };
    let ghost f = |j: JsonValue| spring_joint_of(j);
    let mut joints: Vec<VrmcSpringJoint> = Vec::new();
    let n = js.len();
    let mut i: usize = 0;
    while i < n
        invariant
            n == js@.len(),
            i <= n,
            f == (|j: JsonValue| spring_joint_of(j)),
            joints@ == filter_map(js@.subrange(0, i as int), f),
        decreases n - i,
    {
        assert(js@.subrange(0, i + 1).drop_last() =~= js@.subrange(0, i as int));
        assert(js@.subrange(0, i + 1).last() == js@[i as int]);
        match parse_spring_joint(&js[i]) {
            Some(j) => joints.push(j),
            None => {},
        }
        i += 1;
    }
    assert(js@.subrange(0, n as int) =~= js@);
    let name = match get_str(s, "name") {
        Some(t) => Some(t.to_owned()),
        None => None,
    };
    Some(VrmcSpring { name, joints })
}

fn parse_collider(c: &JsonValue) -> (r: Option<VrmcCollider>)
    ensures
        match r {
            Some(col) => collider_of(*c) == Some(col@),
            None => collider_of(*c) is None,
        },
{
    let node = match get_u64(c, "node") {
        Some(n) => n,
        None => return None,
    };
    let shape = match c.get("shape") {
        Some(v) => v,
        None => return None,
    };
    match shape.get("sphere") {
        Some(sphere) => Some(
            VrmcCollider {
                node: node as usize,
                shape_type: "sphere".to_owned(),
                radius_bits: get_f64_bits(sphere, "radius"),
            },
        ),
        None => match shape.get("capsule") {
            Some(capsule) => Some(
                VrmcCollider {
                    node: node as usize,
                    shape_type: "capsule".to_owned(),
                    radius_bits: get_f64_bits(capsule, "radius"),
                },
            ),
            None => None,
        },
    }
}

/// Reads the spring bone extension (`VRMC_springBone`) of a glTF `extensions`
/// object: springs without a `joints` array, joints without a node, and
/// colliders without a node or a sphere / capsule shape are skipped.
pub fn parse_vrmc_spring_bone(extensions: &JsonValue) -> (r: Option<VrmcSpringBone>)
    ensures
        match r {
            Some(sb) => spring_bone_of(*extensions) == Some(sb@),
            None => spring_bone_of(*extensions) is None,
        },
{
    let sb = match extensions.get("VRMC_springBone") {
        Some(v) => v,
        None => return None,
    };
    let ghost fs = |s: JsonValue| spring_of(s);
    let ghost fc = |c: JsonValue| collider_of(c);
    let mut springs: Vec<VrmcSpring> = Vec::new();
    match sb.get("springs") {
        Some(v) => match v.as_array() {
            Some(arr) => {
                let n = arr.len();
                let mut i: usize = 0;
                while i < n
                    invariant
                        n == arr@.len(),
                        i <= n,
                        fs == (|s: JsonValue| spring_of(s)),
                        springs@.map_values(|s: VrmcSpring| s@) == filter_map(arr@.subrange(0, i as int), fs),
                    decreases n - i,
                {
                    assert(arr@.subrange(0, i + 1).drop_last() =~= arr@.subrange(0, i as int));
                    assert(arr@.subrange(0, i + 1).last() == arr@[i as int]);
                    let ghost before = springs@;
                    match parse_spring(&arr[i]) {
                        Some(s) => {
                            springs.push(s);
                            assert(springs@.map_values(|s: VrmcSpring| s@) =~= before.map_values(
                                |s: VrmcSpring| s@,
                            ).push(s@));
                        },
                        None => {},
                    }
                    i += 1;
                }
                assert(arr@.subrange(0, n as int) =~= arr@);
            },
            None => {},
        },
        None => {},
    }
    let mut colliders: Vec<VrmcCollider> = Vec::new();
    match sb.get("colliders") {
        Some(v) => match v.as_array() {
            Some(arr) => {
                let n = arr.len();
                let mut i: usize = 0;
                while i < n
                    invariant
                        n == arr@.len(),
                        i <= n,
                        fc == (|c: JsonValue| collider_of(c)),
                        colliders@.map_values(|c: VrmcCollider| c@) == filter_map(arr@.subrange(0, i as int), fc),
                    decreases n - i,
                {
                    assert(arr@.subrange(0, i + 1).drop_last() =~= arr@.subrange(0, i as int));
                    assert(arr@.subrange(0, i + 1).last() == arr@[i as int]);
                    let ghost before = colliders@;
                    match parse_collider(&arr[i]) {
                        Some(c) => {
                            colliders.push(c);
                            assert(colliders@.map_values(|c: VrmcCollider| c@) =~= before.map_values(
                                |c: VrmcCollider| c@,
                            ).push(c@));
                        },
                        None => {},
                    }
                    i += 1;
                }
                assert(arr@.subrange(0, n as int) =~= arr@);
            },
            None => {},
        },
        None => {},
    }
    let r = VrmcSpringBone { springs, colliders };
    assert(r@.0 =~= filter_map(array_member(*sb, "springs"@), fs));
    assert(r@.1 =~= filter_map(array_member(*sb, "colliders"@), fc));
    Some(r)
}

} // verus!
