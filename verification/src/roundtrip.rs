//! Decoding inverts encoding: for every well-formed message model `m`,
//! the bytes `enc_req_m(m)` decode to exactly `m`, and likewise for
//! responses.  Each lemma here states that one piece of the format decodes
//! back to the value it was encoded from, wherever it stands in a frame.

use vstd::prelude::*;

use crate::protocol::AdditionalMassProperties;
use crate::protocol::BodyKind;
use crate::protocol::ColliderMassProperties;
use crate::protocol::CombineRule;
use crate::protocol::Config;
use crate::protocol::CreatedBody;
use crate::protocol::CreatedCollider;
use crate::protocol::Friction;
use crate::protocol::Pose;
use crate::protocol::ReqItem;
use crate::protocol::ReqModel;
use crate::protocol::RespItem;
use crate::protocol::RespModel;
use crate::protocol::Restitution;
use crate::protocol::Rotation;
use crate::protocol::ShapeKind;
use crate::protocol::SimEntry;
use crate::protocol::StepArgs;
use crate::protocol::TimestepMode;
use crate::protocol::Vect;
use crate::protocol::Velocity;
use crate::protocol::wf_req_item_m;
use crate::protocol::wf_req_m;
use crate::protocol::wf_resp_item_m;
use crate::protocol::wf_resp_m;
use crate::wire::dec_amp;
use crate::wire::dec_body_kind;
use crate::wire::dec_body_seq;
use crate::wire::dec_bool;
use crate::wire::dec_byte;
use crate::wire::dec_cmp;
use crate::wire::dec_collider_seq;
use crate::wire::dec_combine_rule;
use crate::wire::dec_config;
use crate::wire::dec_created_body;
use crate::wire::dec_created_collider;
use crate::wire::dec_friction;
use crate::wire::dec_i64;
use crate::wire::dec_opt_amp;
use crate::wire::dec_opt_bool;
use crate::wire::dec_opt_cmp;
use crate::wire::dec_opt_friction;
use crate::wire::dec_opt_pose;
use crate::wire::dec_opt_restitution;
use crate::wire::dec_pair;
use crate::wire::dec_pair_seq;
use crate::wire::dec_pose;
use crate::wire::dec_req_item;
use crate::wire::dec_req_item_seq;
use crate::wire::dec_resp_item;
use crate::wire::dec_resp_item_seq;
use crate::wire::dec_restitution;
use crate::wire::dec_rotation;
use crate::wire::dec_shape;
use crate::wire::dec_sim_entry;
use crate::wire::dec_sim_seq;
use crate::wire::dec_step_args;
use crate::wire::dec_timestep_mode;
use crate::wire::dec_u64;
use crate::wire::dec_vect;
use crate::wire::dec_velocity;
use crate::wire::enc_amp;
use crate::wire::enc_body_kind;
use crate::wire::enc_body_seq;
use crate::wire::enc_bool;
use crate::wire::enc_cmp;
use crate::wire::enc_collider_seq;
use crate::wire::enc_combine_rule;
use crate::wire::enc_config;
use crate::wire::enc_created_body;
use crate::wire::enc_created_collider;
use crate::wire::enc_friction;
use crate::wire::enc_i64;
use crate::wire::enc_opt_amp;
use crate::wire::enc_opt_bool;
use crate::wire::enc_opt_cmp;
use crate::wire::enc_opt_friction;
use crate::wire::enc_opt_pose;
use crate::wire::enc_opt_restitution;
use crate::wire::enc_pair;
use crate::wire::enc_pair_seq;
use crate::wire::enc_pose;
use crate::wire::enc_req_item;
use crate::wire::enc_req_item_seq;
use crate::wire::enc_req_m;
use crate::wire::enc_resp_item;
use crate::wire::enc_resp_item_seq;
use crate::wire::enc_resp_m;
use crate::wire::enc_restitution;
use crate::wire::enc_rotation;
use crate::wire::enc_shape;
use crate::wire::enc_sim_entry;
use crate::wire::enc_sim_seq;
use crate::wire::enc_step_args;
use crate::wire::enc_timestep_mode;
use crate::wire::enc_u64;
use crate::wire::enc_vect;
use crate::wire::enc_velocity;
use crate::wire::request_of_bytes;
use crate::wire::response_of_bytes;

verus! {

/// A stretch of bytes that holds a concatenation holds each part in turn.
proof fn lemma_split(s: Seq<u8>, pos: int, a: Seq<u8>, b: Seq<u8>)
    requires
        0 <= pos,
        pos + a.len() + b.len() <= s.len(),
        s.subrange(pos, pos + a.len() + b.len()) == a + b,
    ensures
        s.subrange(pos, pos + a.len()) == a,
        s.subrange(pos + a.len(), pos + a.len() + b.len()) == b,
{
    assert forall|k: int| 0 <= k < a.len() implies s.subrange(pos, pos + a.len() as int)[k] == a[k] by {
        assert(s.subrange(pos, pos + a.len() + b.len())[k] == (a + b)[k]);
    }
    assert(s.subrange(pos, pos + a.len() as int) =~= a);
    assert forall|k: int| 0 <= k < b.len() implies s.subrange(
        pos + a.len(),
        pos + a.len() + b.len(),
    )[k] == b[k] by {
        assert((a + b)[a.len() + k] == b[k]);
        assert(s.subrange(pos, pos + a.len() + b.len())[a.len() + k] == (a + b)[a.len() + k]);
        assert(s.subrange(pos, pos + a.len() + b.len())[a.len() + k] == s[pos + a.len() + k]);
        assert(s.subrange(pos + a.len(), pos + a.len() + b.len())[k] == s[pos + a.len() + k]);
    }
    assert(s.subrange(pos + a.len(), pos + a.len() + b.len()) =~= b);
}

proof fn lemma_dec_u64(s: Seq<u8>, pos: int, v: u64)
    requires
        0 <= pos,
        pos + 8 <= s.len(),
        s.subrange(pos, pos + 8) == enc_u64(v),
    ensures
        dec_u64(s, pos) == Option::Some((v, pos + 8)),
{
    assert(s[pos] == enc_u64(v)[0] && s[pos + 1] == enc_u64(v)[1] && s[pos + 2] == enc_u64(v)[2]
        && s[pos + 3] == enc_u64(v)[3] && s[pos + 4] == enc_u64(v)[4] && s[pos + 5] == enc_u64(
        v,
    )[5] && s[pos + 6] == enc_u64(v)[6] && s[pos + 7] == enc_u64(v)[7]) by {
        assert(s.subrange(pos, pos + 8)[0] == enc_u64(v)[0]);
        assert(s.subrange(pos, pos + 8)[1] == enc_u64(v)[1]);
        assert(s.subrange(pos, pos + 8)[2] == enc_u64(v)[2]);
        assert(s.subrange(pos, pos + 8)[3] == enc_u64(v)[3]);
        assert(s.subrange(pos, pos + 8)[4] == enc_u64(v)[4]);
        assert(s.subrange(pos, pos + 8)[5] == enc_u64(v)[5]);
        assert(s.subrange(pos, pos + 8)[6] == enc_u64(v)[6]);
        assert(s.subrange(pos, pos + 8)[7] == enc_u64(v)[7]);
    }
    assert((((v & 0xff) as u8) as u64) | ((((v >> 8) & 0xff) as u8) as u64) << 8 | ((((v >> 16)
        & 0xff) as u8) as u64) << 16 | ((((v >> 24) & 0xff) as u8) as u64) << 24 | ((((v >> 32)
        & 0xff) as u8) as u64) << 32 | ((((v >> 40) & 0xff) as u8) as u64) << 40 | ((((v >> 48)
        & 0xff) as u8) as u64) << 48 | ((((v >> 56) & 0xff) as u8) as u64) << 56 == v)
        by (bit_vector);
}

proof fn lemma_dec_i64(s: Seq<u8>, pos: int, v: i64)
    requires
        0 <= pos,
        pos + 8 <= s.len(),
        s.subrange(pos, pos + 8) == enc_i64(v),
    ensures
        dec_i64(s, pos) == Option::Some((v, pos + 8)),
{
    lemma_dec_u64(s, pos, v as u64);
    assert(((v as u64) as i64) == v) by (bit_vector);
}

proof fn lemma_dec_byte(s: Seq<u8>, pos: int, v: u8)
    requires
        0 <= pos,
        pos + 1 <= s.len(),
        s.subrange(pos, pos + 1) == seq![v],
    ensures
        dec_byte(s, pos) == Option::Some((v, pos + 1)),
{
    assert(s[pos] == v) by {
        assert(seq![v][0] == v);
        assert(s.subrange(pos, pos + 1)[0] == seq![v][0]);
    }
}

proof fn lemma_dec_bool(s: Seq<u8>, pos: int, v: bool)
    requires
        0 <= pos,
        pos + 1 <= s.len(),
        s.subrange(pos, pos + 1) == enc_bool(v),
    ensures
        dec_bool(s, pos) == Option::Some((v, pos + 1)),
{
    if v {
        lemma_dec_byte(s, pos, 1u8);
    } else {
        lemma_dec_byte(s, pos, 0u8);
    }
}

proof fn lemma_dec_vect(s: Seq<u8>, pos: int, v: Vect)
    requires
        0 <= pos,
        pos + 24 <= s.len(),
        s.subrange(pos, pos + 24) == enc_vect(v),
    ensures
        dec_vect(s, pos) == Option::Some((v, pos + 24)),
{
    lemma_split(s, pos, enc_i64(v.x) + enc_i64(v.y), enc_i64(v.z));
    lemma_split(s, pos, enc_i64(v.x), enc_i64(v.y));
    lemma_dec_i64(s, pos, v.x);
    lemma_dec_i64(s, pos + 8, v.y);
    lemma_dec_i64(s, pos + 16, v.z);
}

proof fn lemma_dec_rotation(s: Seq<u8>, pos: int, v: Rotation)
    requires
        0 <= pos,
        pos + 32 <= s.len(),
        s.subrange(pos, pos + 32) == enc_rotation(v),
    ensures
        dec_rotation(s, pos) == Option::Some((v, pos + 32)),
{
    lemma_split(s, pos, enc_i64(v.x) + enc_i64(v.y) + enc_i64(v.z), enc_i64(v.w));
    lemma_split(s, pos, enc_i64(v.x) + enc_i64(v.y), enc_i64(v.z));
    lemma_split(s, pos, enc_i64(v.x), enc_i64(v.y));
    lemma_dec_i64(s, pos, v.x);
    lemma_dec_i64(s, pos + 8, v.y);
    lemma_dec_i64(s, pos + 16, v.z);
    lemma_dec_i64(s, pos + 24, v.w);
}

proof fn lemma_dec_pose(s: Seq<u8>, pos: int, v: Pose)
    requires
        0 <= pos,
        pos + 56 <= s.len(),
        s.subrange(pos, pos + 56) == enc_pose(v),
    ensures
        dec_pose(s, pos) == Option::Some((v, pos + 56)),
{
    lemma_split(s, pos, enc_vect(v.translation), enc_rotation(v.rotation));
    lemma_dec_vect(s, pos, v.translation);
    lemma_dec_rotation(s, pos + 24, v.rotation);
}

proof fn lemma_dec_velocity(s: Seq<u8>, pos: int, v: Velocity)
    requires
        0 <= pos,
        pos + 48 <= s.len(),
        s.subrange(pos, pos + 48) == enc_velocity(v),
    ensures
        dec_velocity(s, pos) == Option::Some((v, pos + 48)),
{
    lemma_split(s, pos, enc_vect(v.linvel), enc_vect(v.angvel));
    lemma_dec_vect(s, pos, v.linvel);
    lemma_dec_vect(s, pos + 24, v.angvel);
}

proof fn lemma_dec_body_kind(s: Seq<u8>, pos: int, v: BodyKind)
    requires
        0 <= pos,
        pos + 1 <= s.len(),
        s.subrange(pos, pos + 1) == enc_body_kind(v),
    ensures
        dec_body_kind(s, pos) == Option::Some((v, pos + 1)),
{
    match v {
        BodyKind::Dynamic => lemma_dec_byte(s, pos, 0u8),
        BodyKind::Fixed => lemma_dec_byte(s, pos, 1u8),
        BodyKind::KinematicPositionBased => lemma_dec_byte(s, pos, 2u8),
        BodyKind::KinematicVelocityBased => lemma_dec_byte(s, pos, 3u8),
    }
}

proof fn lemma_dec_combine_rule(s: Seq<u8>, pos: int, v: CombineRule)
    requires
        0 <= pos,
        pos + 1 <= s.len(),
        s.subrange(pos, pos + 1) == enc_combine_rule(v),
    ensures
        dec_combine_rule(s, pos) == Option::Some((v, pos + 1)),
{
    match v {
        CombineRule::Average => lemma_dec_byte(s, pos, 0u8),
        CombineRule::Min => lemma_dec_byte(s, pos, 1u8),
        CombineRule::Multiply => lemma_dec_byte(s, pos, 2u8),
        CombineRule::Max => lemma_dec_byte(s, pos, 3u8),
    }
}

proof fn lemma_dec_amp(s: Seq<u8>, pos: int, v: AdditionalMassProperties)
    requires
        0 <= pos,
        pos + enc_amp(v).len() <= s.len(),
        s.subrange(pos, pos + enc_amp(v).len()) == enc_amp(v),
    ensures
        dec_amp(s, pos) == Option::Some((v, pos + enc_amp(v).len())),
{
    match v {
        AdditionalMassProperties::Mass(m) => {
            lemma_split(s, pos, seq![0u8], enc_i64(m));
            lemma_dec_byte(s, pos, 0u8);
            lemma_dec_i64(s, pos + 1, m);
        },
        AdditionalMassProperties::MassProperties { mass, center } => {
            lemma_split(s, pos, seq![1u8] + enc_i64(mass), enc_vect(center));
            lemma_split(s, pos, seq![1u8], enc_i64(mass));
            lemma_dec_byte(s, pos, 1u8);
            lemma_dec_i64(s, pos + 1, mass);
            lemma_dec_vect(s, pos + 9, center);
        },
    }
}

proof fn lemma_dec_cmp(s: Seq<u8>, pos: int, v: ColliderMassProperties)
    requires
        0 <= pos,
        pos + enc_cmp(v).len() <= s.len(),
        s.subrange(pos, pos + enc_cmp(v).len()) == enc_cmp(v),
    ensures
        dec_cmp(s, pos) == Option::Some((v, pos + enc_cmp(v).len())),
{
    match v {
        ColliderMassProperties::Density(m) => {
            lemma_split(s, pos, seq![0u8], enc_i64(m));
            lemma_dec_byte(s, pos, 0u8);
            lemma_dec_i64(s, pos + 1, m);
        },
        ColliderMassProperties::Mass(m) => {
            lemma_split(s, pos, seq![1u8], enc_i64(m));
            lemma_dec_byte(s, pos, 1u8);
            lemma_dec_i64(s, pos + 1, m);
        },
        ColliderMassProperties::MassProperties { mass, center } => {
            lemma_split(s, pos, seq![2u8] + enc_i64(mass), enc_vect(center));
            lemma_split(s, pos, seq![2u8], enc_i64(mass));
            lemma_dec_byte(s, pos, 2u8);
            lemma_dec_i64(s, pos + 1, mass);
            lemma_dec_vect(s, pos + 9, center);
        },
    }
}

proof fn lemma_dec_friction(s: Seq<u8>, pos: int, v: Friction)
    requires
        0 <= pos,
        pos + 9 <= s.len(),
        s.subrange(pos, pos + 9) == enc_friction(v),
    ensures
        dec_friction(s, pos) == Option::Some((v, pos + 9)),
{
    lemma_split(s, pos, enc_i64(v.coefficient), enc_combine_rule(v.combine_rule));
    lemma_dec_i64(s, pos, v.coefficient);
    lemma_dec_combine_rule(s, pos + 8, v.combine_rule);
}

proof fn lemma_dec_restitution(s: Seq<u8>, pos: int, v: Restitution)
    requires
        0 <= pos,
        pos + 9 <= s.len(),
        s.subrange(pos, pos + 9) == enc_restitution(v),
    ensures
        dec_restitution(s, pos) == Option::Some((v, pos + 9)),
{
    lemma_split(s, pos, enc_i64(v.coefficient), enc_combine_rule(v.combine_rule));
    lemma_dec_i64(s, pos, v.coefficient);
    lemma_dec_combine_rule(s, pos + 8, v.combine_rule);
}

proof fn lemma_dec_shape(s: Seq<u8>, pos: int, v: ShapeKind)
    requires
        0 <= pos,
        pos + enc_shape(v).len() <= s.len(),
        s.subrange(pos, pos + enc_shape(v).len()) == enc_shape(v),
    ensures
        dec_shape(s, pos) == Option::Some((v, pos + enc_shape(v).len())),
{
    match v {
        ShapeKind::Ball { radius } => {
            lemma_split(s, pos, seq![0u8], enc_i64(radius));
            lemma_dec_byte(s, pos, 0u8);
            lemma_dec_i64(s, pos + 1, radius);
        },
        ShapeKind::Cuboid { hx, hy, hz } => {
            lemma_split(s, pos, seq![1u8] + enc_i64(hx) + enc_i64(hy), enc_i64(hz));
            lemma_split(s, pos, seq![1u8] + enc_i64(hx), enc_i64(hy));
            lemma_split(s, pos, seq![1u8], enc_i64(hx));
            lemma_dec_byte(s, pos, 1u8);
            lemma_dec_i64(s, pos + 1, hx);
            lemma_dec_i64(s, pos + 9, hy);
            lemma_dec_i64(s, pos + 17, hz);
        },
        ShapeKind::Capsule { half_height, radius } => {
            lemma_split(s, pos, seq![2u8] + enc_i64(half_height), enc_i64(radius));
            lemma_split(s, pos, seq![2u8], enc_i64(half_height));
            lemma_dec_byte(s, pos, 2u8);
            lemma_dec_i64(s, pos + 1, half_height);
            lemma_dec_i64(s, pos + 9, radius);
        },
    }
}

proof fn lemma_dec_timestep_mode(s: Seq<u8>, pos: int, v: TimestepMode)
    requires
        0 <= pos,
        pos + enc_timestep_mode(v).len() <= s.len(),
        s.subrange(pos, pos + enc_timestep_mode(v).len()) == enc_timestep_mode(v),
    ensures
        dec_timestep_mode(s, pos) == Option::Some((v, pos + enc_timestep_mode(v).len())),
{
    match v {
        TimestepMode::Fixed { dt, substeps } => {
            lemma_split(s, pos, seq![0u8] + enc_i64(dt), enc_u64(substeps));
            lemma_split(s, pos, seq![0u8], enc_i64(dt));
            lemma_dec_byte(s, pos, 0u8);
            lemma_dec_i64(s, pos + 1, dt);
            lemma_dec_u64(s, pos + 9, substeps);
        },
        TimestepMode::Variable { max_dt, time_scale, substeps } => {
            lemma_split(s, pos, seq![1u8] + enc_i64(max_dt) + enc_i64(time_scale), enc_u64(substeps));
            lemma_split(s, pos, seq![1u8] + enc_i64(max_dt), enc_i64(time_scale));
            lemma_split(s, pos, seq![1u8], enc_i64(max_dt));
            lemma_dec_byte(s, pos, 1u8);
            lemma_dec_i64(s, pos + 1, max_dt);
            lemma_dec_i64(s, pos + 9, time_scale);
            lemma_dec_u64(s, pos + 17, substeps);
        },
        TimestepMode::Interpolated { dt, time_scale, substeps } => {
            lemma_split(s, pos, seq![2u8] + enc_i64(dt) + enc_i64(time_scale), enc_u64(substeps));
            lemma_split(s, pos, seq![2u8] + enc_i64(dt), enc_i64(time_scale));
            lemma_split(s, pos, seq![2u8], enc_i64(dt));
            lemma_dec_byte(s, pos, 2u8);
            lemma_dec_i64(s, pos + 1, dt);
            lemma_dec_i64(s, pos + 9, time_scale);
            lemma_dec_u64(s, pos + 17, substeps);
        },
    }
}

proof fn lemma_dec_config(s: Seq<u8>, pos: int, v: Config)
    requires
        0 <= pos,
        pos + enc_config(v).len() <= s.len(),
        s.subrange(pos, pos + enc_config(v).len()) == enc_config(v),
    ensures
        dec_config(s, pos) == Option::Some((v, pos + enc_config(v).len())),
{
    lemma_split(s, pos, enc_vect(v.gravity), enc_timestep_mode(v.timestep_mode));
    lemma_dec_vect(s, pos, v.gravity);
    lemma_dec_timestep_mode(s, pos + 24, v.timestep_mode);
}

proof fn lemma_dec_step_args(s: Seq<u8>, pos: int, v: StepArgs)
    requires
        0 <= pos,
        pos + enc_step_args(v).len() <= s.len(),
        s.subrange(pos, pos + enc_step_args(v).len()) == enc_step_args(v),
    ensures
        dec_step_args(s, pos) == Option::Some((v, pos + enc_step_args(v).len())),
{
    let a = enc_vect(v.gravity);
    let b = enc_timestep_mode(v.timestep_mode);
    let c = enc_u64(v.dt_micros);
    let d = enc_i64(v.sim_to_render_diff);
    lemma_split(s, pos, a + b + c, d);
    lemma_split(s, pos, a + b, c);
    lemma_split(s, pos, a, b);
    lemma_dec_vect(s, pos, v.gravity);
    lemma_dec_timestep_mode(s, pos + 24, v.timestep_mode);
    lemma_dec_u64(s, pos + 24 + b.len(), v.dt_micros);
    lemma_dec_i64(s, pos + 24 + b.len() + 8, v.sim_to_render_diff);
}

proof fn lemma_dec_opt_pose(s: Seq<u8>, pos: int, v: Option<Pose>)
    requires
        0 <= pos,
        pos + enc_opt_pose(v).len() <= s.len(),
        s.subrange(pos, pos + enc_opt_pose(v).len()) == enc_opt_pose(v),
    ensures
        dec_opt_pose(s, pos) == Option::Some((v, pos + enc_opt_pose(v).len())),
{
    match v {
        Option::None => lemma_dec_byte(s, pos, 0u8),
        Option::Some(p) => {
            lemma_split(s, pos, seq![1u8], enc_pose(p));
            lemma_dec_byte(s, pos, 1u8);
            lemma_dec_pose(s, pos + 1, p);
        },
    }
}

proof fn lemma_dec_opt_bool(s: Seq<u8>, pos: int, v: Option<bool>)
    requires
        0 <= pos,
        pos + enc_opt_bool(v).len() <= s.len(),
        s.subrange(pos, pos + enc_opt_bool(v).len()) == enc_opt_bool(v),
    ensures
        dec_opt_bool(s, pos) == Option::Some((v, pos + enc_opt_bool(v).len())),
{
    match v {
        Option::None => lemma_dec_byte(s, pos, 0u8),
        Option::Some(b) => {
            lemma_split(s, pos, seq![1u8], enc_bool(b));
            lemma_dec_byte(s, pos, 1u8);
            lemma_dec_bool(s, pos + 1, b);
        },
    }
}

proof fn lemma_dec_opt_amp(s: Seq<u8>, pos: int, v: Option<AdditionalMassProperties>)
    requires
        0 <= pos,
        pos + enc_opt_amp(v).len() <= s.len(),
        s.subrange(pos, pos + enc_opt_amp(v).len()) == enc_opt_amp(v),
    ensures
        dec_opt_amp(s, pos) == Option::Some((v, pos + enc_opt_amp(v).len())),
{
    match v {
        Option::None => lemma_dec_byte(s, pos, 0u8),
        Option::Some(m) => {
            lemma_split(s, pos, seq![1u8], enc_amp(m));
            lemma_dec_byte(s, pos, 1u8);
            lemma_dec_amp(s, pos + 1, m);
        },
    }
}

proof fn lemma_dec_opt_cmp(s: Seq<u8>, pos: int, v: Option<ColliderMassProperties>)
    requires
        0 <= pos,
        pos + enc_opt_cmp(v).len() <= s.len(),
        s.subrange(pos, pos + enc_opt_cmp(v).len()) == enc_opt_cmp(v),
    ensures
        dec_opt_cmp(s, pos) == Option::Some((v, pos + enc_opt_cmp(v).len())),
{
    match v {
        Option::None => lemma_dec_byte(s, pos, 0u8),
        Option::Some(m) => {
            lemma_split(s, pos, seq![1u8], enc_cmp(m));
            lemma_dec_byte(s, pos, 1u8);
            lemma_dec_cmp(s, pos + 1, m);
        },
    }
}

proof fn lemma_dec_opt_friction(s: Seq<u8>, pos: int, v: Option<Friction>)
    requires
        0 <= pos,
        pos + enc_opt_friction(v).len() <= s.len(),
        s.subrange(pos, pos + enc_opt_friction(v).len()) == enc_opt_friction(v),
    ensures
        dec_opt_friction(s, pos) == Option::Some((v, pos + enc_opt_friction(v).len())),
{
    match v {
        Option::None => lemma_dec_byte(s, pos, 0u8),
        Option::Some(f) => {
            lemma_split(s, pos, seq![1u8], enc_friction(f));
            lemma_dec_byte(s, pos, 1u8);
            lemma_dec_friction(s, pos + 1, f);
        },
    }
}

proof fn lemma_dec_opt_restitution(s: Seq<u8>, pos: int, v: Option<Restitution>)
    requires
        0 <= pos,
        pos + enc_opt_restitution(v).len() <= s.len(),
        s.subrange(pos, pos + enc_opt_restitution(v).len()) == enc_opt_restitution(v),
    ensures
        dec_opt_restitution(s, pos) == Option::Some((v, pos + enc_opt_restitution(v).len())),
{
    match v {
        Option::None => lemma_dec_byte(s, pos, 0u8),
        Option::Some(r) => {
            lemma_split(s, pos, seq![1u8], enc_restitution(r));
            lemma_dec_byte(s, pos, 1u8);
            lemma_dec_restitution(s, pos + 1, r);
        },
    }
}

proof fn lemma_dec_created_body(s: Seq<u8>, pos: int, v: CreatedBody)
    requires
        0 <= pos,
        pos + enc_created_body(v).len() <= s.len(),
        s.subrange(pos, pos + enc_created_body(v).len()) == enc_created_body(v),
    ensures
        dec_created_body(s, pos) == Option::Some((v, pos + enc_created_body(v).len())),
{
    reveal(enc_created_body);
    let a = enc_u64(v.id);
    let b = enc_body_kind(v.body);
    let c = enc_opt_pose(v.transform);
    let d = enc_opt_amp(v.additional_mass_properties);
    lemma_split(s, pos, a + b + c, d);
    lemma_split(s, pos, a + b, c);
    lemma_split(s, pos, a, b);
    lemma_dec_u64(s, pos, v.id);
    lemma_dec_body_kind(s, pos + 8, v.body);
    lemma_dec_opt_pose(s, pos + 9, v.transform);
    lemma_dec_opt_amp(s, pos + 9 + c.len(), v.additional_mass_properties);
}

#[verifier::rlimit(100)]
#[verifier::spinoff_prover]
proof fn lemma_dec_created_collider(s: Seq<u8>, pos: int, v: CreatedCollider)
    requires
        0 <= pos,
        pos + enc_created_collider(v).len() <= s.len(),
        s.subrange(pos, pos + enc_created_collider(v).len()) == enc_created_collider(v),
    ensures
        dec_created_collider(s, pos) == Option::Some((v, pos + enc_created_collider(v).len())),
{
    reveal(enc_created_collider);
    let a = enc_u64(v.id);
    let b = enc_shape(v.shape);
    let c = enc_opt_pose(v.transform);
    let d = enc_opt_bool(v.sensor);
    let e = enc_opt_cmp(v.mass_properties);
    let f = enc_opt_friction(v.friction);
    let g = enc_opt_restitution(v.restitution);
    lemma_split(s, pos, a + b + c + d + e + f, g);
    lemma_split(s, pos, a + b + c + d + e, f);
    lemma_split(s, pos, a + b + c + d, e);
    lemma_split(s, pos, a + b + c, d);
    lemma_split(s, pos, a + b, c);
    lemma_split(s, pos, a, b);
    lemma_dec_u64(s, pos, v.id);
    lemma_dec_shape(s, pos + 8, v.shape);
    lemma_dec_opt_pose(s, pos + 8 + b.len(), v.transform);
    lemma_dec_opt_bool(s, pos + 8 + b.len() + c.len(), v.sensor);
    lemma_dec_opt_cmp(s, pos + 8 + b.len() + c.len() + d.len(), v.mass_properties);
    lemma_dec_opt_friction(s, pos + 8 + b.len() + c.len() + d.len() + e.len(), v.friction);
    lemma_dec_opt_restitution(
        s,
        pos + 8 + b.len() + c.len() + d.len() + e.len() + f.len(),
        v.restitution,
    );
}

proof fn lemma_dec_pair(s: Seq<u8>, pos: int, v: (u64, u64))
    requires
        0 <= pos,
        pos + 16 <= s.len(),
        s.subrange(pos, pos + 16) == enc_pair(v),
    ensures
        dec_pair(s, pos) == Option::Some((v, pos + 16)),
{
    lemma_split(s, pos, enc_u64(v.0), enc_u64(v.1));
    lemma_dec_u64(s, pos, v.0);
    lemma_dec_u64(s, pos + 8, v.1);
}

proof fn lemma_dec_sim_entry(s: Seq<u8>, pos: int, v: SimEntry)
    requires
        0 <= pos,
        pos + 112 <= s.len(),
        s.subrange(pos, pos + 112) == enc_sim_entry(v),
    ensures
        dec_sim_entry(s, pos) == Option::Some((v, pos + 112)),
{
    reveal(enc_sim_entry);
    lemma_split(s, pos, enc_u64(v.handle) + enc_pose(v.pose), enc_velocity(v.velocity));
    lemma_split(s, pos, enc_u64(v.handle), enc_pose(v.pose));
    lemma_dec_u64(s, pos, v.handle);
    lemma_dec_pose(s, pos + 8, v.pose);
    lemma_dec_velocity(s, pos + 64, v.velocity);
}

proof fn lemma_dec_body_seq(s: Seq<u8>, pos: int, items: Seq<CreatedBody>)
    requires
        0 <= pos,
        pos + enc_body_seq(items).len() <= s.len(),
        s.subrange(pos, pos + enc_body_seq(items).len()) == enc_body_seq(items),
    ensures
        dec_body_seq(s, pos, items.len()) == Option::Some((items, pos + enc_body_seq(items).len())),
    decreases items.len(),
{
    if items.len() == 0 {
        assert(items =~= Seq::<CreatedBody>::empty());
    } else {
        let a = enc_created_body(items[0]);
        let b = enc_body_seq(items.skip(1));
        lemma_split(s, pos, a, b);
        lemma_dec_created_body(s, pos, items[0]);
        lemma_dec_body_seq(s, pos + a.len(), items.skip(1));
        assert(seq![items[0]] + items.skip(1) =~= items);
    }
}

proof fn lemma_dec_collider_seq(s: Seq<u8>, pos: int, items: Seq<CreatedCollider>)
    requires
        0 <= pos,
        pos + enc_collider_seq(items).len() <= s.len(),
        s.subrange(pos, pos + enc_collider_seq(items).len()) == enc_collider_seq(items),
    ensures
        dec_collider_seq(s, pos, items.len()) == Option::Some(
            (items, pos + enc_collider_seq(items).len()),
        ),
    decreases items.len(),
{
    if items.len() == 0 {
        assert(items =~= Seq::<CreatedCollider>::empty());
    } else {
        let a = enc_created_collider(items[0]);
        let b = enc_collider_seq(items.skip(1));
        lemma_split(s, pos, a, b);
        lemma_dec_created_collider(s, pos, items[0]);
        lemma_dec_collider_seq(s, pos + a.len(), items.skip(1));
        assert(seq![items[0]] + items.skip(1) =~= items);
    }
}

proof fn lemma_dec_pair_seq(s: Seq<u8>, pos: int, items: Seq<(u64, u64)>)
    requires
        0 <= pos,
        pos + enc_pair_seq(items).len() <= s.len(),
        s.subrange(pos, pos + enc_pair_seq(items).len()) == enc_pair_seq(items),
    ensures
        dec_pair_seq(s, pos, items.len()) == Option::Some((items, pos + enc_pair_seq(items).len())),
    decreases items.len(),
{
    if items.len() == 0 {
        assert(items =~= Seq::<(u64, u64)>::empty());
    } else {
        let a = enc_pair(items[0]);
        let b = enc_pair_seq(items.skip(1));
        lemma_split(s, pos, a, b);
        lemma_dec_pair(s, pos, items[0]);
        lemma_dec_pair_seq(s, pos + a.len(), items.skip(1));
        assert(seq![items[0]] + items.skip(1) =~= items);
    }
}

#[verifier::rlimit(100)]
#[verifier::spinoff_prover]
proof fn lemma_dec_sim_head(s: Seq<u8>, pos: int, items: Seq<SimEntry>)
    requires
        items.len() > 0,
        0 <= pos,
        pos + enc_sim_seq(items).len() <= s.len(),
        s.subrange(pos, pos + enc_sim_seq(items).len()) == enc_sim_seq(items),
    ensures
        enc_sim_seq(items).len() == 112 + enc_sim_seq(items.skip(1)).len(),
        dec_sim_entry(s, pos) == Option::Some((items[0], pos + 112)),
        s.subrange(pos + 112, pos + enc_sim_seq(items).len()) == enc_sim_seq(items.skip(1)),
{
    reveal(enc_sim_entry);
    let a = enc_sim_entry(items[0]);
    let b = enc_sim_seq(items.skip(1));
    assert(a.len() == 112);
    lemma_split(s, pos, a, b);
    lemma_dec_sim_entry(s, pos, items[0]);
}

proof fn lemma_dec_sim_seq(s: Seq<u8>, pos: int, items: Seq<SimEntry>)
    requires
        0 <= pos,
        pos + enc_sim_seq(items).len() <= s.len(),
        s.subrange(pos, pos + enc_sim_seq(items).len()) == enc_sim_seq(items),
    ensures
        dec_sim_seq(s, pos, items.len()) == Option::Some((items, pos + enc_sim_seq(items).len())),
    decreases items.len(),
{
    if items.len() == 0 {
        assert(items =~= Seq::<SimEntry>::empty());
    } else {
        lemma_dec_sim_head(s, pos, items);
        lemma_dec_sim_seq(s, pos + 112, items.skip(1));
        assert(seq![items[0]] + items.skip(1) =~= items);
    }
}

#[verifier::rlimit(100)]
proof fn lemma_dec_req_item(s: Seq<u8>, pos: int, v: ReqItem)
    requires
        wf_req_item_m(v),
        0 <= pos,
        pos + enc_req_item(v).len() <= s.len(),
        s.subrange(pos, pos + enc_req_item(v).len()) == enc_req_item(v),
    ensures
        dec_req_item(s, pos) == Option::Some((v, pos + enc_req_item(v).len())),
{
    reveal(enc_req_item);
    match v {
        ReqItem::UpdateConfig(c) => {
            lemma_split(s, pos, seq![0u8], enc_config(c));
            lemma_dec_byte(s, pos, 0u8);
            lemma_dec_config(s, pos + 1, c);
        },
        ReqItem::CreateBodies(items) => {
            lemma_split(s, pos, seq![1u8] + enc_u64(items.len() as u64), enc_body_seq(items));
            lemma_split(s, pos, seq![1u8], enc_u64(items.len() as u64));
            lemma_dec_byte(s, pos, 1u8);
            lemma_dec_u64(s, pos + 1, items.len() as u64);
            lemma_dec_body_seq(s, pos + 9, items);
            assert((items.len() as u64) as nat == items.len());
        },
        ReqItem::CreateColliders(items) => {
            lemma_split(s, pos, seq![2u8] + enc_u64(items.len() as u64), enc_collider_seq(items));
            lemma_split(s, pos, seq![2u8], enc_u64(items.len() as u64));
            lemma_dec_byte(s, pos, 2u8);
            lemma_dec_u64(s, pos + 1, items.len() as u64);
            lemma_dec_collider_seq(s, pos + 9, items);
            assert((items.len() as u64) as nat == items.len());
        },
        ReqItem::SimulateStep(a) => {
            lemma_split(s, pos, seq![3u8], enc_step_args(a));
            lemma_dec_byte(s, pos, 3u8);
            lemma_dec_step_args(s, pos + 1, a);
        },
    }
}

proof fn lemma_dec_req_item_seq(s: Seq<u8>, pos: int, items: Seq<ReqItem>)
    requires
        forall|i: int| 0 <= i < items.len() ==> wf_req_item_m(#[trigger] items[i]),
        0 <= pos,
        pos + enc_req_item_seq(items).len() <= s.len(),
        s.subrange(pos, pos + enc_req_item_seq(items).len()) == enc_req_item_seq(items),
    ensures
        dec_req_item_seq(s, pos, items.len()) == Option::Some(
            (items, pos + enc_req_item_seq(items).len()),
        ),
    decreases items.len(),
{
    if items.len() == 0 {
        assert(items =~= Seq::<ReqItem>::empty());
    } else {
        let a = enc_req_item(items[0]);
        let b = enc_req_item_seq(items.skip(1));
        lemma_split(s, pos, a, b);
        lemma_dec_req_item(s, pos, items[0]);
        lemma_dec_req_item_seq(s, pos + a.len(), items.skip(1));
        assert(seq![items[0]] + items.skip(1) =~= items);
    }
}

/// A non-bulk request item never starts with the bulk tag.
proof fn lemma_req_item_tag(v: ReqItem)
    ensures
        enc_req_item(v).len() >= 1,
        enc_req_item(v)[0] != 4u8,
{
    reveal(enc_req_item);
}

/// Round trip for requests: a well-formed request model, encoded and then
/// decoded as a whole frame, comes back unchanged.
#[verifier::rlimit(100)]
#[verifier::spinoff_prover]
pub proof fn lemma_request_round_trip(m: ReqModel)
    requires
        wf_req_m(m),
    ensures
        request_of_bytes(enc_req_m(m)) == Option::Some(m),
{
    let s = enc_req_m(m);
    assert(s.subrange(0, s.len() as int) =~= s);
    match m {
        ReqModel::Item(i) => {
            lemma_dec_req_item(s, 0, i);
            lemma_req_item_tag(i);
            assert(s[0] != 4u8) by {
                assert(s.subrange(0, s.len() as int)[0] == enc_req_item(i)[0]);
            }
        },
        ReqModel::Bulk(items) => {
            lemma_split(s, 0, seq![4u8] + enc_u64(items.len() as u64), enc_req_item_seq(items));
            lemma_split(s, 0, seq![4u8], enc_u64(items.len() as u64));
            lemma_dec_byte(s, 0, 4u8);
            lemma_dec_u64(s, 1, items.len() as u64);
            lemma_dec_req_item_seq(s, 9, items);
            assert((items.len() as u64) as nat == items.len());
        },
    }
}

#[verifier::rlimit(100)]
proof fn lemma_dec_resp_item(s: Seq<u8>, pos: int, v: RespItem)
    requires
        wf_resp_item_m(v),
        0 <= pos,
        pos + enc_resp_item(v).len() <= s.len(),
        s.subrange(pos, pos + enc_resp_item(v).len()) == enc_resp_item(v),
    ensures
        dec_resp_item(s, pos) == Option::Some((v, pos + enc_resp_item(v).len())),
{
    reveal(enc_resp_item);
    match v {
        RespItem::ConfigUpdated => {
            lemma_dec_byte(s, pos, 0u8);
        },
        RespItem::RigidBodyHandles(items) => {
            lemma_split(s, pos, seq![1u8] + enc_u64(items.len() as u64), enc_pair_seq(items));
            lemma_split(s, pos, seq![1u8], enc_u64(items.len() as u64));
            lemma_dec_byte(s, pos, 1u8);
            lemma_dec_u64(s, pos + 1, items.len() as u64);
            lemma_dec_pair_seq(s, pos + 9, items);
            assert((items.len() as u64) as nat == items.len());
        },
        RespItem::ColliderHandles(items) => {
            lemma_split(s, pos, seq![2u8] + enc_u64(items.len() as u64), enc_pair_seq(items));
            lemma_split(s, pos, seq![2u8], enc_u64(items.len() as u64));
            lemma_dec_byte(s, pos, 2u8);
            lemma_dec_u64(s, pos + 1, items.len() as u64);
            lemma_dec_pair_seq(s, pos + 9, items);
            assert((items.len() as u64) as nat == items.len());
        },
        RespItem::SimulationResult(items) => {
            lemma_split(s, pos, seq![3u8] + enc_u64(items.len() as u64), enc_sim_seq(items));
            lemma_split(s, pos, seq![3u8], enc_u64(items.len() as u64));
            lemma_dec_byte(s, pos, 3u8);
            lemma_dec_u64(s, pos + 1, items.len() as u64);
            lemma_dec_sim_seq(s, pos + 9, items);
            assert((items.len() as u64) as nat == items.len());
        },
    }
}

proof fn lemma_dec_resp_item_seq(s: Seq<u8>, pos: int, items: Seq<RespItem>)
    requires
        forall|i: int| 0 <= i < items.len() ==> wf_resp_item_m(#[trigger] items[i]),
        0 <= pos,
        pos + enc_resp_item_seq(items).len() <= s.len(),
        s.subrange(pos, pos + enc_resp_item_seq(items).len()) == enc_resp_item_seq(items),
    ensures
        dec_resp_item_seq(s, pos, items.len()) == Option::Some(
            (items, pos + enc_resp_item_seq(items).len()),
        ),
    decreases items.len(),
{
    if items.len() == 0 {
        assert(items =~= Seq::<RespItem>::empty());
    } else {
        let a = enc_resp_item(items[0]);
        let b = enc_resp_item_seq(items.skip(1));
        lemma_split(s, pos, a, b);
        lemma_dec_resp_item(s, pos, items[0]);
        lemma_dec_resp_item_seq(s, pos + a.len(), items.skip(1));
        assert(seq![items[0]] + items.skip(1) =~= items);
    }
}

/// A non-bulk response item never starts with the bulk tag.
proof fn lemma_resp_item_tag(v: RespItem)
    ensures
        enc_resp_item(v).len() >= 1,
        enc_resp_item(v)[0] != 4u8,
{
    reveal(enc_resp_item);
}

/// Round trip for responses: a well-formed response model, encoded and then
/// decoded as a whole frame, comes back unchanged.
#[verifier::rlimit(100)]
#[verifier::spinoff_prover]
pub proof fn lemma_response_round_trip(m: RespModel)
    requires
        wf_resp_m(m),
    ensures
        response_of_bytes(enc_resp_m(m)) == Option::Some(m),
{
    let s = enc_resp_m(m);
    assert(s.subrange(0, s.len() as int) =~= s);
    match m {
        RespModel::Item(i) => {
            lemma_dec_resp_item(s, 0, i);
            lemma_resp_item_tag(i);
            assert(s[0] != 4u8) by {
                assert(s.subrange(0, s.len() as int)[0] == enc_resp_item(i)[0]);
            }
        },
        RespModel::Bulk(items) => {
            lemma_split(s, 0, seq![4u8] + enc_u64(items.len() as u64), enc_resp_item_seq(items));
            lemma_split(s, 0, seq![4u8], enc_u64(items.len() as u64));
            lemma_dec_byte(s, 0, 4u8);
            lemma_dec_u64(s, 1, items.len() as u64);
            lemma_dec_resp_item_seq(s, 9, items);
            assert((items.len() as u64) as nat == items.len());
        },
    }
}

} // verus!
