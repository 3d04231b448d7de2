//! The wire format, as mathematics: what byte sequence each message encodes
//! to, and what message a byte sequence decodes to.
//!
//! Every message is a self-delimiting, tagged binary frame.  Multi-byte
//! integers travel little-endian; lists carry a 64-bit count before their
//! elements; options carry a one-byte presence flag.  A bulk request or
//! response may not nest another bulk inside itself.
//!
//! The executable encoder and decoder in `codec` are verified against these
//! functions, and `roundtrip` proves that decoding inverts encoding.

use vstd::prelude::*;

use crate::protocol::AdditionalMassProperties;
use crate::protocol::BodyKind;
use crate::protocol::ColliderMassProperties;
use crate::protocol::CombineRule;
use crate::protocol::Config;
use crate::protocol::CreatedBody;
use crate::protocol::CreatedCollider;
use crate::protocol::Friction;
use crate::protocol::Pose;
use crate::protocol::ReqItem;
use crate::protocol::ReqModel;
use crate::protocol::RespItem;
use crate::protocol::RespModel;
use crate::protocol::Restitution;
use crate::protocol::Rotation;
use crate::protocol::ShapeKind;
use crate::protocol::SimEntry;
use crate::protocol::StepArgs;
use crate::protocol::TimestepMode;
use crate::protocol::Vect;
use crate::protocol::Velocity;

verus! {

// ---------------------------------------------------------------------------
// Encoding
// ---------------------------------------------------------------------------

pub open spec fn enc_u64(v: u64) -> Seq<u8> {
    seq![
        (v & 0xff) as u8,
        ((v >> 8) & 0xff) as u8,
        ((v >> 16) & 0xff) as u8,
        ((v >> 24) & 0xff) as u8,
        ((v >> 32) & 0xff) as u8,
        ((v >> 40) & 0xff) as u8,
        ((v >> 48) & 0xff) as u8,
        ((v >> 56) & 0xff) as u8,
    ]
}

pub open spec fn enc_i64(v: i64) -> Seq<u8> {
    enc_u64(v as u64)
}

pub open spec fn enc_bool(b: bool) -> Seq<u8> {
    if b {
        seq![1u8]
    } else {
        seq![0u8]
    }
}

pub open spec fn enc_vect(v: Vect) -> Seq<u8> {
    enc_i64(v.x) + enc_i64(v.y) + enc_i64(v.z)
}

pub open spec fn enc_rotation(r: Rotation) -> Seq<u8> {
    enc_i64(r.x) + enc_i64(r.y) + enc_i64(r.z) + enc_i64(r.w)
}

pub open spec fn enc_pose(p: Pose) -> Seq<u8> {
    enc_vect(p.translation) + enc_rotation(p.rotation)
}

pub open spec fn enc_velocity(v: Velocity) -> Seq<u8> {
    enc_vect(v.linvel) + enc_vect(v.angvel)
}

pub open spec fn enc_body_kind(k: BodyKind) -> Seq<u8> {
    match k {
        BodyKind::Dynamic => seq![0u8],
        BodyKind::Fixed => seq![1u8],
        BodyKind::KinematicPositionBased => seq![2u8],
        BodyKind::KinematicVelocityBased => seq![3u8],
    }
}

pub open spec fn enc_combine_rule(c: CombineRule) -> Seq<u8> {
    match c {
        CombineRule::Average => seq![0u8],
        CombineRule::Min => seq![1u8],
        CombineRule::Multiply => seq![2u8],
        CombineRule::Max => seq![3u8],
    }
}

pub open spec fn enc_amp(m: AdditionalMassProperties) -> Seq<u8> {
    match m {
        AdditionalMassProperties::Mass(v) => seq![0u8] + enc_i64(v),
        AdditionalMassProperties::MassProperties { mass, center } => seq![1u8] + enc_i64(mass)
            + enc_vect(center),
    }
}

pub open spec fn enc_cmp(m: ColliderMassProperties) -> Seq<u8> {
    match m {
        ColliderMassProperties::Density(v) => seq![0u8] + enc_i64(v),
        ColliderMassProperties::Mass(v) => seq![1u8] + enc_i64(v),
        ColliderMassProperties::MassProperties { mass, center } => seq![2u8] + enc_i64(mass)
            + enc_vect(center),
    }
}

pub open spec fn enc_friction(f: Friction) -> Seq<u8> {
    enc_i64(f.coefficient) + enc_combine_rule(f.combine_rule)
}

pub open spec fn enc_restitution(r: Restitution) -> Seq<u8> {
    enc_i64(r.coefficient) + enc_combine_rule(r.combine_rule)
}

pub open spec fn enc_shape(s: ShapeKind) -> Seq<u8> {
    match s {
        ShapeKind::Ball { radius } => seq![0u8] + enc_i64(radius),
        ShapeKind::Cuboid { hx, hy, hz } => seq![1u8] + enc_i64(hx) + enc_i64(hy) + enc_i64(hz),
        ShapeKind::Capsule { half_height, radius } => seq![2u8] + enc_i64(half_height) + enc_i64(
            radius,
        ),
    }
}

pub open spec fn enc_timestep_mode(t: TimestepMode) -> Seq<u8> {
    match t {
        TimestepMode::Fixed { dt, substeps } => seq![0u8] + enc_i64(dt) + enc_u64(substeps),
        TimestepMode::Variable { max_dt, time_scale, substeps } => seq![1u8] + enc_i64(max_dt)
            + enc_i64(time_scale) + enc_u64(substeps),
        TimestepMode::Interpolated { dt, time_scale, substeps } => seq![2u8] + enc_i64(dt)
            + enc_i64(time_scale) + enc_u64(substeps),
    }
}

pub open spec fn enc_config(c: Config) -> Seq<u8> {
    enc_vect(c.gravity) + enc_timestep_mode(c.timestep_mode)
}

pub open spec fn enc_step_args(a: StepArgs) -> Seq<u8> {
    enc_vect(a.gravity) + enc_timestep_mode(a.timestep_mode) + enc_u64(a.dt_micros) + enc_i64(
        a.sim_to_render_diff,
    )
}

pub open spec fn enc_opt_pose(o: Option<Pose>) -> Seq<u8> {
    match o {
        Option::None => seq![0u8],
        Option::Some(p) => seq![1u8] + enc_pose(p),
    }
}

pub open spec fn enc_opt_bool(o: Option<bool>) -> Seq<u8> {
    match o {
        Option::None => seq![0u8],
        Option::Some(b) => seq![1u8] + enc_bool(b),
    }
}

pub open spec fn enc_opt_amp(o: Option<AdditionalMassProperties>) -> Seq<u8> {
    match o {
        Option::None => seq![0u8],
        Option::Some(m) => seq![1u8] + enc_amp(m),
    }
}

pub open spec fn enc_opt_cmp(o: Option<ColliderMassProperties>) -> Seq<u8> {
    match o {
        Option::None => seq![0u8],
        Option::Some(m) => seq![1u8] + enc_cmp(m),
    }
}

pub open spec fn enc_opt_friction(o: Option<Friction>) -> Seq<u8> {
    match o {
        Option::None => seq![0u8],
        Option::Some(f) => seq![1u8] + enc_friction(f),
    }
}

pub open spec fn enc_opt_restitution(o: Option<Restitution>) -> Seq<u8> {
    match o {
        Option::None => seq![0u8],
        Option::Some(r) => seq![1u8] + enc_restitution(r),
    }
}

#[verifier::opaque]
pub open spec fn enc_created_body(b: CreatedBody) -> Seq<u8> {
    enc_u64(b.id) + enc_body_kind(b.body) + enc_opt_pose(b.transform) + enc_opt_amp(
        b.additional_mass_properties,
    )
}

#[verifier::opaque]
pub open spec fn enc_created_collider(c: CreatedCollider) -> Seq<u8> {
    enc_u64(c.id) + enc_shape(c.shape) + enc_opt_pose(c.transform) + enc_opt_bool(c.sensor)
        + enc_opt_cmp(c.mass_properties) + enc_opt_friction(c.friction) + enc_opt_restitution(
        c.restitution,
    )
}

pub open spec fn enc_pair(p: (u64, u64)) -> Seq<u8> {
    enc_u64(p.0) + enc_u64(p.1)
}

#[verifier::opaque]
pub open spec fn enc_sim_entry(e: SimEntry) -> Seq<u8> {
    enc_u64(e.handle) + enc_pose(e.pose) + enc_velocity(e.velocity)
}

pub open spec fn enc_body_seq(s: Seq<CreatedBody>) -> Seq<u8>
    decreases s.len(),
{
    if s.len() == 0 {
        Seq::empty()
    } else {
        enc_created_body(s[0]) + enc_body_seq(s.skip(1))
    }
}

pub open spec fn enc_collider_seq(s: Seq<CreatedCollider>) -> Seq<u8>
    decreases s.len(),
{
    if s.len() == 0 {
        Seq::empty()
    } else {
        enc_created_collider(s[0]) + enc_collider_seq(s.skip(1))
    }
}

pub open spec fn enc_pair_seq(s: Seq<(u64, u64)>) -> Seq<u8>
    decreases s.len(),
{
    if s.len() == 0 {
        Seq::empty()
    } else {
        enc_pair(s[0]) + enc_pair_seq(s.skip(1))
    }
}

pub open spec fn enc_sim_seq(s: Seq<SimEntry>) -> Seq<u8>
    decreases s.len(),
{
    if s.len() == 0 {
        Seq::empty()
    } else {
        enc_sim_entry(s[0]) + enc_sim_seq(s.skip(1))
    }
}

/// One non-bulk request, with its leading tag byte.
#[verifier::opaque]
pub open spec fn enc_req_item(i: ReqItem) -> Seq<u8> {
    match i {
        ReqItem::UpdateConfig(c) => seq![0u8] + enc_config(c),
        ReqItem::CreateBodies(s) => seq![1u8] + enc_u64(s.len() as u64) + enc_body_seq(s),
        ReqItem::CreateColliders(s) => seq![2u8] + enc_u64(s.len() as u64) + enc_collider_seq(s),
        ReqItem::SimulateStep(a) => seq![3u8] + enc_step_args(a),
    }
}

pub open spec fn enc_req_item_seq(s: Seq<ReqItem>) -> Seq<u8>
    decreases s.len(),
{
    if s.len() == 0 {
        Seq::empty()
    } else {
        enc_req_item(s[0]) + enc_req_item_seq(s.skip(1))
    }
}

/// A whole request frame.
pub open spec fn enc_req_m(m: ReqModel) -> Seq<u8> {
    match m {
        ReqModel::Item(i) => enc_req_item(i),
        ReqModel::Bulk(s) => seq![4u8] + enc_u64(s.len() as u64) + enc_req_item_seq(s),
    }
}

/// One non-bulk response, with its leading tag byte.
#[verifier::opaque]
pub open spec fn enc_resp_item(i: RespItem) -> Seq<u8> {
    match i {
        RespItem::ConfigUpdated => seq![0u8],
        RespItem::RigidBodyHandles(s) => seq![1u8] + enc_u64(s.len() as u64) + enc_pair_seq(s),
        RespItem::ColliderHandles(s) => seq![2u8] + enc_u64(s.len() as u64) + enc_pair_seq(s),
        RespItem::SimulationResult(s) => seq![3u8] + enc_u64(s.len() as u64) + enc_sim_seq(s),
    }
}

pub open spec fn enc_resp_item_seq(s: Seq<RespItem>) -> Seq<u8>
    decreases s.len(),
{
    if s.len() == 0 {
        Seq::empty()
    } else {
        enc_resp_item(s[0]) + enc_resp_item_seq(s.skip(1))
    }
}

/// A whole response frame.
pub open spec fn enc_resp_m(m: RespModel) -> Seq<u8> {
    match m {
        RespModel::Item(i) => enc_resp_item(i),
        RespModel::Bulk(s) => seq![4u8] + enc_u64(s.len() as u64) + enc_resp_item_seq(s),
    }
}

// ---------------------------------------------------------------------------
// Decoding
// ---------------------------------------------------------------------------

pub open spec fn dec_u64(s: Seq<u8>, pos: int) -> Option<(u64, int)> {
    if 0 <= pos && pos + 8 <= s.len() {
        Option::Some(
            (
                (s[pos] as u64) | (s[pos + 1] as u64) << 8 | (s[pos + 2] as u64) << 16 | (s[pos
                    + 3] as u64) << 24 | (s[pos + 4] as u64) << 32 | (s[pos + 5] as u64) << 40 | (
                s[pos + 6] as u64) << 48 | (s[pos + 7] as u64) << 56,
                pos + 8,
            ),
        )
    } else {
        Option::None
    }
}

pub open spec fn dec_i64(s: Seq<u8>, pos: int) -> Option<(i64, int)> {
    match dec_u64(s, pos) {
        Option::Some((v, p)) => Option::Some((v as i64, p)),
        Option::None => Option::None,
    }
}

pub open spec fn dec_byte(s: Seq<u8>, pos: int) -> Option<(u8, int)> {
    if 0 <= pos && pos + 1 <= s.len() {
        Option::Some((s[pos], pos + 1))
    } else {
        Option::None
    }
}

pub open spec fn dec_bool(s: Seq<u8>, pos: int) -> Option<(bool, int)> {
    match dec_byte(s, pos) {
        Option::Some((0u8, p)) => Option::Some((false, p)),
        Option::Some((1u8, p)) => Option::Some((true, p)),
        _ => Option::None,
    }
}

pub open spec fn dec_vect(s: Seq<u8>, pos: int) -> Option<(Vect, int)> {
    match dec_i64(s, pos) {
        Option::Some((x, p1)) => match dec_i64(s, p1) {
            Option::Some((y, p2)) => match dec_i64(s, p2) {
                Option::Some((z, p3)) => Option::Some((Vect { x, y, z }, p3)),
                Option::None => Option::None,
            },
            Option::None => Option::None,
        },
        Option::None => Option::None,
    }
}

pub open spec fn dec_rotation(s: Seq<u8>, pos: int) -> Option<(Rotation, int)> {
    match dec_i64(s, pos) {
        Option::Some((x, p1)) => match dec_i64(s, p1) {
            Option::Some((y, p2)) => match dec_i64(s, p2) {
                Option::Some((z, p3)) => match dec_i64(s, p3) {
                    Option::Some((w, p4)) => Option::Some((Rotation { x, y, z, w }, p4)),
                    Option::None => Option::None,
                },
                Option::None => Option::None,
            },
            Option::None => Option::None,
        },
        Option::None => Option::None,
    }
}

pub open spec fn dec_pose(s: Seq<u8>, pos: int) -> Option<(Pose, int)> {
    match dec_vect(s, pos) {
        Option::Some((t, p1)) => match dec_rotation(s, p1) {
            Option::Some((r, p2)) => Option::Some((Pose { translation: t, rotation: r }, p2)),
            Option::None => Option::None,
        },
        Option::None => Option::None,
    }
}

pub open spec fn dec_velocity(s: Seq<u8>, pos: int) -> Option<(Velocity, int)> {
    match dec_vect(s, pos) {
        Option::Some((l, p1)) => match dec_vect(s, p1) {
            Option::Some((a, p2)) => Option::Some((Velocity { linvel: l, angvel: a }, p2)),
            Option::None => Option::None,
        },
        Option::None => Option::None,
    }
}

pub open spec fn dec_body_kind(s: Seq<u8>, pos: int) -> Option<(BodyKind, int)> {
    match dec_byte(s, pos) {
        Option::Some((0u8, p)) => Option::Some((BodyKind::Dynamic, p)),
        Option::Some((1u8, p)) => Option::Some((BodyKind::Fixed, p)),
        Option::Some((2u8, p)) => Option::Some((BodyKind::KinematicPositionBased, p)),
        Option::Some((3u8, p)) => Option::Some((BodyKind::KinematicVelocityBased, p)),
        _ => Option::None,
    }
}

pub open spec fn dec_combine_rule(s: Seq<u8>, pos: int) -> Option<(CombineRule, int)> {
    match dec_byte(s, pos) {
        Option::Some((0u8, p)) => Option::Some((CombineRule::Average, p)),
        Option::Some((1u8, p)) => Option::Some((CombineRule::Min, p)),
        Option::Some((2u8, p)) => Option::Some((CombineRule::Multiply, p)),
        Option::Some((3u8, p)) => Option::Some((CombineRule::Max, p)),
        _ => Option::None,
    }
}

pub open spec fn dec_amp(s: Seq<u8>, pos: int) -> Option<(AdditionalMassProperties, int)> {
    match dec_byte(s, pos) {
        Option::Some((0u8, p)) => match dec_i64(s, p) {
            Option::Some((v, p1)) => Option::Some((AdditionalMassProperties::Mass(v), p1)),
            Option::None => Option::None,
        },
        Option::Some((1u8, p)) => match dec_i64(s, p) {
            Option::Some((mass, p1)) => match dec_vect(s, p1) {
                Option::Some((center, p2)) => Option::Some(
                    (AdditionalMassProperties::MassProperties { mass, center }, p2),
                ),
                Option::None => Option::None,
            },
            Option::None => Option::None,
        },
        _ => Option::None,
    }
}

pub open spec fn dec_cmp(s: Seq<u8>, pos: int) -> Option<(ColliderMassProperties, int)> {
    match dec_byte(s, pos) {
        Option::Some((0u8, p)) => match dec_i64(s, p) {
            Option::Some((v, p1)) => Option::Some((ColliderMassProperties::Density(v), p1)),
            Option::None => Option::None,
        },
        Option::Some((1u8, p)) => match dec_i64(s, p) {
            Option::Some((v, p1)) => Option::Some((ColliderMassProperties::Mass(v), p1)),
            Option::None => Option::None,
        },
        Option::Some((2u8, p)) => match dec_i64(s, p) {
            Option::Some((mass, p1)) => match dec_vect(s, p1) {
                Option::Some((center, p2)) => Option::Some(
                    (ColliderMassProperties::MassProperties { mass, center }, p2),
                ),
                Option::None => Option::None,
            },
            Option::None => Option::None,
        },
        _ => Option::None,
    }
}

pub open spec fn dec_friction(s: Seq<u8>, pos: int) -> Option<(Friction, int)> {
    match dec_i64(s, pos) {
        Option::Some((coefficient, p1)) => match dec_combine_rule(s, p1) {
            Option::Some((combine_rule, p2)) => Option::Some(
                (Friction { coefficient, combine_rule }, p2),
            ),
            Option::None => Option::None,
        },
        Option::None => Option::None,
    }
}

pub open spec fn dec_restitution(s: Seq<u8>, pos: int) -> Option<(Restitution, int)> {
    match dec_i64(s, pos) {
        Option::Some((coefficient, p1)) => match dec_combine_rule(s, p1) {
            Option::Some((combine_rule, p2)) => Option::Some(
                (Restitution { coefficient, combine_rule }, p2),
            ),
            Option::None => Option::None,
        },
        Option::None => Option::None,
    }
}

pub open spec fn dec_shape(s: Seq<u8>, pos: int) -> Option<(ShapeKind, int)> {
    match dec_byte(s, pos) {
        Option::Some((0u8, p)) => match dec_i64(s, p) {
            Option::Some((radius, p1)) => Option::Some((ShapeKind::Ball { radius }, p1)),
            Option::None => Option::None,
        },
        Option::Some((1u8, p)) => match dec_i64(s, p) {
            Option::Some((hx, p1)) => match dec_i64(s, p1) {
                Option::Some((hy, p2)) => match dec_i64(s, p2) {
                    Option::Some((hz, p3)) => Option::Some((ShapeKind::Cuboid { hx, hy, hz }, p3)),
                    Option::None => Option::None,
                },
                Option::None => Option::None,
            },
            Option::None => Option::None,
        },
        Option::Some((2u8, p)) => match dec_i64(s, p) {
            Option::Some((half_height, p1)) => match dec_i64(s, p1) {
                Option::Some((radius, p2)) => Option::Some(
                    (ShapeKind::Capsule { half_height, radius }, p2),
                ),
                Option::None => Option::None,
            },
            Option::None => Option::None,
        },
        _ => Option::None,
    }
}

pub open spec fn dec_timestep_mode(s: Seq<u8>, pos: int) -> Option<(TimestepMode, int)> {
    match dec_byte(s, pos) {
        Option::Some((0u8, p)) => match dec_i64(s, p) {
            Option::Some((dt, p1)) => match dec_u64(s, p1) {
                Option::Some((substeps, p2)) => Option::Some(
                    (TimestepMode::Fixed { dt, substeps }, p2),
                ),
                Option::None => Option::None,
            },
            Option::None => Option::None,
        },
        Option::Some((1u8, p)) => match dec_i64(s, p) {
            Option::Some((max_dt, p1)) => match dec_i64(s, p1) {
                Option::Some((time_scale, p2)) => match dec_u64(s, p2) {
                    Option::Some((substeps, p3)) => Option::Some(
                        (TimestepMode::Variable { max_dt, time_scale, substeps }, p3),
                    ),
                    Option::None => Option::None,
                },
                Option::None => Option::None,
            },
            Option::None => Option::None,
        },
        Option::Some((2u8, p)) => match dec_i64(s, p) {
            Option::Some((dt, p1)) => match dec_i64(s, p1) {
                Option::Some((time_scale, p2)) => match dec_u64(s, p2) {
                    Option::Some((substeps, p3)) => Option::Some(
                        (TimestepMode::Interpolated { dt, time_scale, substeps }, p3),
                    ),
                    Option::None => Option::None,
                },
                Option::None => Option::None,
            },
            Option::None => Option::None,
        },
        _ => Option::None,
    }
}

pub open spec fn dec_config(s: Seq<u8>, pos: int) -> Option<(Config, int)> {
    match dec_vect(s, pos) {
        Option::Some((gravity, p1)) => match dec_timestep_mode(s, p1) {
            Option::Some((timestep_mode, p2)) => Option::Some(
                (Config { gravity, timestep_mode }, p2),
            ),
            Option::None => Option::None,
        },
        Option::None => Option::None,
    }
}

pub open spec fn dec_step_args(s: Seq<u8>, pos: int) -> Option<(StepArgs, int)> {
    match dec_vect(s, pos) {
        Option::Some((gravity, p1)) => match dec_timestep_mode(s, p1) {
            Option::Some((timestep_mode, p2)) => match dec_u64(s, p2) {
                Option::Some((dt_micros, p3)) => match dec_i64(s, p3) {
                    Option::Some((sim_to_render_diff, p4)) => Option::Some(
                        (StepArgs { gravity, timestep_mode, dt_micros, sim_to_render_diff }, p4),
                    ),
                    Option::None => Option::None,
                },
                Option::None => Option::None,
            },
            Option::None => Option::None,
        },
        Option::None => Option::None,
    }
}

pub open spec fn dec_opt_pose(s: Seq<u8>, pos: int) -> Option<(Option<Pose>, int)> {
    match dec_byte(s, pos) {
        Option::Some((0u8, p)) => Option::Some((Option::None, p)),
        Option::Some((1u8, p)) => match dec_pose(s, p) {
            Option::Some((v, p1)) => Option::Some((Option::Some(v), p1)),
            Option::None => Option::None,
        },
        _ => Option::None,
    }
}

pub open spec fn dec_opt_bool(s: Seq<u8>, pos: int) -> Option<(Option<bool>, int)> {
    match dec_byte(s, pos) {
        Option::Some((0u8, p)) => Option::Some((Option::None, p)),
        Option::Some((1u8, p)) => match dec_bool(s, p) {
            Option::Some((v, p1)) => Option::Some((Option::Some(v), p1)),
            Option::None => Option::None,
        },
        _ => Option::None,
    }
}

pub open spec fn dec_opt_amp(s: Seq<u8>, pos: int) -> Option<
    (Option<AdditionalMassProperties>, int),
> {
    match dec_byte(s, pos) {
        Option::Some((0u8, p)) => Option::Some((Option::None, p)),
        Option::Some((1u8, p)) => match dec_amp(s, p) {
            Option::Some((v, p1)) => Option::Some((Option::Some(v), p1)),
            Option::None => Option::None,
        },
        _ => Option::None,
    }
}

pub open spec fn dec_opt_cmp(s: Seq<u8>, pos: int) -> Option<(Option<ColliderMassProperties>, int)> {
    match dec_byte(s, pos) {
        Option::Some((0u8, p)) => Option::Some((Option::None, p)),
        Option::Some((1u8, p)) => match dec_cmp(s, p) {
            Option::Some((v, p1)) => Option::Some((Option::Some(v), p1)),
            Option::None => Option::None,
        },
        _ => Option::None,
    }
}

pub open spec fn dec_opt_friction(s: Seq<u8>, pos: int) -> Option<(Option<Friction>, int)> {
    match dec_byte(s, pos) {
        Option::Some((0u8, p)) => Option::Some((Option::None, p)),
        Option::Some((1u8, p)) => match dec_friction(s, p) {
            Option::Some((v, p1)) => Option::Some((Option::Some(v), p1)),
            Option::None => Option::None,
        },
        _ => Option::None,
    }
}

pub open spec fn dec_opt_restitution(s: Seq<u8>, pos: int) -> Option<(Option<Restitution>, int)> {
    match dec_byte(s, pos) {
        Option::Some((0u8, p)) => Option::Some((Option::None, p)),
        Option::Some((1u8, p)) => match dec_restitution(s, p) {
            Option::Some((v, p1)) => Option::Some((Option::Some(v), p1)),
            Option::None => Option::None,
        },
        _ => Option::None,
    }
}

pub open spec fn dec_created_body(s: Seq<u8>, pos: int) -> Option<(CreatedBody, int)> {
    match dec_u64(s, pos) {
        Option::Some((id, p1)) => match dec_body_kind(s, p1) {
            Option::Some((body, p2)) => match dec_opt_pose(s, p2) {
                Option::Some((transform, p3)) => match dec_opt_amp(s, p3) {
                    Option::Some((additional_mass_properties, p4)) => Option::Some(
                        (CreatedBody { id, body, transform, additional_mass_properties }, p4),
                    ),
                    Option::None => Option::None,
                },
                Option::None => Option::None,
            },
            Option::None => Option::None,
        },
        Option::None => Option::None,
    }
}

pub open spec fn dec_created_collider(s: Seq<u8>, pos: int) -> Option<(CreatedCollider, int)> {
    match dec_u64(s, pos) {
        Option::Some((id, p1)) => match dec_shape(s, p1) {
            Option::Some((shape, p2)) => match dec_opt_pose(s, p2) {
                Option::Some((transform, p3)) => match dec_opt_bool(s, p3) {
                    Option::Some((sensor, p4)) => match dec_opt_cmp(s, p4) {
                        Option::Some((mass_properties, p5)) => match dec_opt_friction(s, p5) {
                            Option::Some((friction, p6)) => match dec_opt_restitution(s, p6) {
                                Option::Some((restitution, p7)) => Option::Some(
                                    (
                                        CreatedCollider {
                                            id,
                                            shape,
                                            transform,
                                            sensor,
                                            mass_properties,
                                            friction,
                                            restitution,
                                        },
                                        p7,
                                    ),
                                ),
                                Option::None => Option::None,
                            },
                            Option::None => Option::None,
                        },
                        Option::None => Option::None,
                    },
                    Option::None => Option::None,
                },
                Option::None => Option::None,
            },
            Option::None => Option::None,
        },
        Option::None => Option::None,
    }
}

pub open spec fn dec_pair(s: Seq<u8>, pos: int) -> Option<((u64, u64), int)> {
    match dec_u64(s, pos) {
        Option::Some((a, p1)) => match dec_u64(s, p1) {
            Option::Some((b, p2)) => Option::Some(((a, b), p2)),
            Option::None => Option::None,
        },
        Option::None => Option::None,
    }
}

pub open spec fn dec_sim_entry(s: Seq<u8>, pos: int) -> Option<(SimEntry, int)> {
    match dec_u64(s, pos) {
        Option::Some((handle, p1)) => match dec_pose(s, p1) {
            Option::Some((pose, p2)) => match dec_velocity(s, p2) {
                Option::Some((velocity, p3)) => Option::Some(
                    (SimEntry { handle, pose, velocity }, p3),
                ),
                Option::None => Option::None,
            },
            Option::None => Option::None,
        },
        Option::None => Option::None,
    }
}

pub open spec fn dec_body_seq(s: Seq<u8>, pos: int, n: nat) -> Option<(Seq<CreatedBody>, int)>
    decreases n,
{
    if n == 0 {
        Option::Some((Seq::empty(), pos))
    } else {
        match dec_created_body(s, pos) {
            Option::Some((b, p1)) => match dec_body_seq(s, p1, (n - 1) as nat) {
                Option::Some((rest, p2)) => Option::Some((seq![b] + rest, p2)),
                Option::None => Option::None,
            },
            Option::None => Option::None,
        }
    }
}

pub open spec fn dec_collider_seq(s: Seq<u8>, pos: int, n: nat) -> Option<
    (Seq<CreatedCollider>, int),
>
    decreases n,
{
    if n == 0 {
        Option::Some((Seq::empty(), pos))
    } else {
        match dec_created_collider(s, pos) {
            Option::Some((c, p1)) => match dec_collider_seq(s, p1, (n - 1) as nat) {
                Option::Some((rest, p2)) => Option::Some((seq![c] + rest, p2)),
                Option::None => Option::None,
            },
            Option::None => Option::None,
        }
    }
}

pub open spec fn dec_pair_seq(s: Seq<u8>, pos: int, n: nat) -> Option<(Seq<(u64, u64)>, int)>
    decreases n,
{
    if n == 0 {
        Option::Some((Seq::empty(), pos))
    } else {
        match dec_pair(s, pos) {
            Option::Some((v, p1)) => match dec_pair_seq(s, p1, (n - 1) as nat) {
                Option::Some((rest, p2)) => Option::Some((seq![v] + rest, p2)),
                Option::None => Option::None,
            },
            Option::None => Option::None,
        }
    }
}

pub open spec fn dec_sim_seq(s: Seq<u8>, pos: int, n: nat) -> Option<(Seq<SimEntry>, int)>
    decreases n,
{
    if n == 0 {
        Option::Some((Seq::empty(), pos))
    } else {
        match dec_sim_entry(s, pos) {
            Option::Some((v, p1)) => match dec_sim_seq(s, p1, (n - 1) as nat) {
                Option::Some((rest, p2)) => Option::Some((seq![v] + rest, p2)),
                Option::None => Option::None,
            },
            Option::None => Option::None,
        }
    }
}

/// Decode one non-bulk request (tags 0 to 3).
pub open spec fn dec_req_item(s: Seq<u8>, pos: int) -> Option<(ReqItem, int)> {
    match dec_byte(s, pos) {
        Option::Some((0u8, p)) => match dec_config(s, p) {
            Option::Some((c, p1)) => Option::Some((ReqItem::UpdateConfig(c), p1)),
            Option::None => Option::None,
        },
        Option::Some((1u8, p)) => match dec_u64(s, p) {
            Option::Some((n, p1)) => match dec_body_seq(s, p1, n as nat) {
                Option::Some((items, p2)) => Option::Some((ReqItem::CreateBodies(items), p2)),
                Option::None => Option::None,
            },
            Option::None => Option::None,
        },
        Option::Some((2u8, p)) => match dec_u64(s, p) {
            Option::Some((n, p1)) => match dec_collider_seq(s, p1, n as nat) {
                Option::Some((items, p2)) => Option::Some((ReqItem::CreateColliders(items), p2)),
                Option::None => Option::None,
            },
            Option::None => Option::None,
        },
        Option::Some((3u8, p)) => match dec_step_args(s, p) {
            Option::Some((a, p1)) => Option::Some((ReqItem::SimulateStep(a), p1)),
            Option::None => Option::None,
        },
        _ => Option::None,
    }
}

pub open spec fn dec_req_item_seq(s: Seq<u8>, pos: int, n: nat) -> Option<(Seq<ReqItem>, int)>
    decreases n,
{
    if n == 0 {
        Option::Some((Seq::empty(), pos))
    } else {
        match dec_req_item(s, pos) {
            Option::Some((r, p1)) => match dec_req_item_seq(s, p1, (n - 1) as nat) {
                Option::Some((rest, p2)) => Option::Some((seq![r] + rest, p2)),
                Option::None => Option::None,
            },
            Option::None => Option::None,
        }
    }
}

/// Decode one request: either a plain item, or tag 4 with one layer of
/// items.  A bulk inside a bulk is a protocol violation and decodes to
/// nothing.
pub open spec fn dec_request(s: Seq<u8>, pos: int) -> Option<(ReqModel, int)> {
    match dec_byte(s, pos) {
        Option::Some((4u8, p)) => match dec_u64(s, p) {
            Option::Some((n, p1)) => match dec_req_item_seq(s, p1, n as nat) {
                Option::Some((items, p2)) => Option::Some((ReqModel::Bulk(items), p2)),
                Option::None => Option::None,
            },
            Option::None => Option::None,
        },
        _ => match dec_req_item(s, pos) {
            Option::Some((i, p)) => Option::Some((ReqModel::Item(i), p)),
            Option::None => Option::None,
        },
    }
}

/// Decode one non-bulk response (tags 0 to 3).
pub open spec fn dec_resp_item(s: Seq<u8>, pos: int) -> Option<(RespItem, int)> {
    match dec_byte(s, pos) {
        Option::Some((0u8, p)) => Option::Some((RespItem::ConfigUpdated, p)),
        Option::Some((1u8, p)) => match dec_u64(s, p) {
            Option::Some((n, p1)) => match dec_pair_seq(s, p1, n as nat) {
                Option::Some((items, p2)) => Option::Some((RespItem::RigidBodyHandles(items), p2)),
                Option::None => Option::None,
            },
            Option::None => Option::None,
        },
        Option::Some((2u8, p)) => match dec_u64(s, p) {
            Option::Some((n, p1)) => match dec_pair_seq(s, p1, n as nat) {
                Option::Some((items, p2)) => Option::Some((RespItem::ColliderHandles(items), p2)),
                Option::None => Option::None,
            },
            Option::None => Option::None,
        },
        Option::Some((3u8, p)) => match dec_u64(s, p) {
            Option::Some((n, p1)) => match dec_sim_seq(s, p1, n as nat) {
                Option::Some((items, p2)) => Option::Some((RespItem::SimulationResult(items), p2)),
                Option::None => Option::None,
            },
            Option::None => Option::None,
        },
        _ => Option::None,
    }
}

pub open spec fn dec_resp_item_seq(s: Seq<u8>, pos: int, n: nat) -> Option<(Seq<RespItem>, int)>
    decreases n,
{
    if n == 0 {
        Option::Some((Seq::empty(), pos))
    } else {
        match dec_resp_item(s, pos) {
            Option::Some((r, p1)) => match dec_resp_item_seq(s, p1, (n - 1) as nat) {
                Option::Some((rest, p2)) => Option::Some((seq![r] + rest, p2)),
                Option::None => Option::None,
            },
            Option::None => Option::None,
        }
    }
}

/// Decode one response, with the same bulk-nesting rule as requests.
pub open spec fn dec_response(s: Seq<u8>, pos: int) -> Option<(RespModel, int)> {
    match dec_byte(s, pos) {
        Option::Some((4u8, p)) => match dec_u64(s, p) {
            Option::Some((n, p1)) => match dec_resp_item_seq(s, p1, n as nat) {
                Option::Some((items, p2)) => Option::Some((RespModel::Bulk(items), p2)),
                Option::None => Option::None,
            },
            Option::None => Option::None,
        },
        _ => match dec_resp_item(s, pos) {
            Option::Some((i, p)) => Option::Some((RespModel::Item(i), p)),
            Option::None => Option::None,
        },
    }
}

/// What a whole received frame means: one request, consuming every byte.
pub open spec fn request_of_bytes(s: Seq<u8>) -> Option<ReqModel> {
    match dec_request(s, 0) {
        Option::Some((r, p)) => if p == s.len() {
            Option::Some(r)
        } else {
            Option::None
        },
        Option::None => Option::None,
    }
}

/// What a whole received frame means: one response, consuming every byte.
pub open spec fn response_of_bytes(s: Seq<u8>) -> Option<RespModel> {
    match dec_response(s, 0) {
        Option::Some((r, p)) => if p == s.len() {
            Option::Some(r)
        } else {
            Option::None
        },
        Option::None => Option::None,
    }
}

} // verus!
