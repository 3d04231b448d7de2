//! The executable encoder: turns a request or response into the byte frame
//! that `wire` describes.  Every function appends to a growing buffer and
//! proves that the bytes written are exactly the spec encoding.

use vstd::prelude::*;

use crate::protocol::AdditionalMassProperties;
use crate::protocol::BodyKind;
use crate::protocol::ColliderMassProperties;
use crate::protocol::CombineRule;
use crate::protocol::Config;
use crate::protocol::CreatedBody;
use crate::protocol::CreatedCollider;
use crate::protocol::Friction;
use crate::protocol::Pose;
use crate::protocol::ReqItem;
use crate::protocol::Request;
use crate::protocol::RespItem;
use crate::protocol::Response;
use crate::protocol::Restitution;
use crate::protocol::Rotation;
use crate::protocol::ShapeKind;
use crate::protocol::SimEntry;
use crate::protocol::StepArgs;
use crate::protocol::TimestepMode;
use crate::protocol::Vect;
use crate::protocol::Velocity;
use crate::protocol::req_item_view;
use crate::protocol::req_view;
use crate::protocol::resp_item_view;
use crate::protocol::resp_view;
use crate::protocol::wf_req_elem;
use crate::protocol::wf_request;
use crate::protocol::wf_resp_elem;
use crate::protocol::wf_response;
use crate::wire::enc_amp;
use crate::wire::enc_body_kind;
use crate::wire::enc_body_seq;
use crate::wire::enc_bool;
use crate::wire::enc_cmp;
use crate::wire::enc_collider_seq;
use crate::wire::enc_combine_rule;
use crate::wire::enc_config;
use crate::wire::enc_created_body;
use crate::wire::enc_created_collider;
use crate::wire::enc_friction;
use crate::wire::enc_i64;
use crate::wire::enc_opt_amp;
use crate::wire::enc_opt_bool;
use crate::wire::enc_opt_cmp;
use crate::wire::enc_opt_friction;
use crate::wire::enc_opt_pose;
use crate::wire::enc_opt_restitution;
use crate::wire::enc_pair;
use crate::wire::enc_pair_seq;
use crate::wire::enc_pose;
use crate::wire::enc_req_item;
use crate::wire::enc_req_item_seq;
use crate::wire::enc_req_m;
use crate::wire::enc_resp_item;
use crate::wire::enc_resp_item_seq;
use crate::wire::enc_resp_m;
use crate::wire::enc_restitution;
use crate::wire::enc_rotation;
use crate::wire::enc_shape;
use crate::wire::enc_sim_entry;
use crate::wire::enc_sim_seq;
use crate::wire::enc_step_args;
use crate::wire::enc_timestep_mode;
use crate::wire::enc_u64;
use crate::wire::enc_vect;
use crate::wire::enc_velocity;

verus! {

fn put_u64(out: &mut Vec<u8>, v: u64)
    ensures
        final(out)@ == old(out)@ + enc_u64(v),
{
    out.push((v & 0xff) as u8);
    out.push(((v >> 8) & 0xff) as u8);
    out.push(((v >> 16) & 0xff) as u8);
    out.push(((v >> 24) & 0xff) as u8);
    out.push(((v >> 32) & 0xff) as u8);
    out.push(((v >> 40) & 0xff) as u8);
    out.push(((v >> 48) & 0xff) as u8);
    out.push(((v >> 56) & 0xff) as u8);
    assert(out@ =~= old(out)@ + enc_u64(v));
}

fn put_i64(out: &mut Vec<u8>, v: i64)
    ensures
        final(out)@ == old(out)@ + enc_i64(v),
{
    put_u64(out, v as u64);
}

fn put_bool(out: &mut Vec<u8>, v: bool)
    ensures
        final(out)@ == old(out)@ + enc_bool(v),
{
    if v {
        out.push(1u8);
    } else {
        out.push(0u8);
    }
    assert(out@ =~= old(out)@ + enc_bool(v));
}

fn put_vect(out: &mut Vec<u8>, v: &Vect)
    ensures
        final(out)@ == old(out)@ + enc_vect(*v),
{
    put_i64(out, v.x);
    put_i64(out, v.y);
    put_i64(out, v.z);
    assert(out@ =~= old(out)@ + enc_vect(*v));
}

fn put_rotation(out: &mut Vec<u8>, v: &Rotation)
    ensures
        final(out)@ == old(out)@ + enc_rotation(*v),
{
    put_i64(out, v.x);
    put_i64(out, v.y);
    put_i64(out, v.z);
    put_i64(out, v.w);
    assert(out@ =~= old(out)@ + enc_rotation(*v));
}

fn put_pose(out: &mut Vec<u8>, v: &Pose)
    ensures
        final(out)@ == old(out)@ + enc_pose(*v),
{
    put_vect(out, &v.translation);
    put_rotation(out, &v.rotation);
    assert(out@ =~= old(out)@ + enc_pose(*v));
}

fn put_velocity(out: &mut Vec<u8>, v: &Velocity)
    ensures
        final(out)@ == old(out)@ + enc_velocity(*v),
{
    put_vect(out, &v.linvel);
    put_vect(out, &v.angvel);
    assert(out@ =~= old(out)@ + enc_velocity(*v));
}

fn put_body_kind(out: &mut Vec<u8>, v: &BodyKind)
    ensures
        final(out)@ == old(out)@ + enc_body_kind(*v),
{
    match v {
        BodyKind::Dynamic => out.push(0u8),
        BodyKind::Fixed => out.push(1u8),
        BodyKind::KinematicPositionBased => out.push(2u8),
        BodyKind::KinematicVelocityBased => out.push(3u8),
    }
    assert(out@ =~= old(out)@ + enc_body_kind(*v));
}

fn put_combine_rule(out: &mut Vec<u8>, v: &CombineRule)
    ensures
        final(out)@ == old(out)@ + enc_combine_rule(*v),
{
    match v {
        CombineRule::Average => out.push(0u8),
        CombineRule::Min => out.push(1u8),
        CombineRule::Multiply => out.push(2u8),
        CombineRule::Max => out.push(3u8),
    }
    assert(out@ =~= old(out)@ + enc_combine_rule(*v));
}

fn put_amp(out: &mut Vec<u8>, v: &AdditionalMassProperties)
    ensures
        final(out)@ == old(out)@ + enc_amp(*v),
{
    match v {
        AdditionalMassProperties::Mass(m) => {
            out.push(0u8);
            put_i64(out, *m);
        },
        AdditionalMassProperties::MassProperties { mass, center } => {
            out.push(1u8);
            put_i64(out, *mass);
            put_vect(out, center);
        },
    }
    assert(out@ =~= old(out)@ + enc_amp(*v));
}

fn put_cmp(out: &mut Vec<u8>, v: &ColliderMassProperties)
    ensures
        final(out)@ == old(out)@ + enc_cmp(*v),
{
    match v {
        ColliderMassProperties::Density(m) => {
            out.push(0u8);
            put_i64(out, *m);
        },
        ColliderMassProperties::Mass(m) => {
            out.push(1u8);
            put_i64(out, *m);
        },
        ColliderMassProperties::MassProperties { mass, center } => {
            out.push(2u8);
            put_i64(out, *mass);
            put_vect(out, center);
        },
    }
    assert(out@ =~= old(out)@ + enc_cmp(*v));
}

fn put_friction(out: &mut Vec<u8>, v: &Friction)
    ensures
        final(out)@ == old(out)@ + enc_friction(*v),
{
    put_i64(out, v.coefficient);
    put_combine_rule(out, &v.combine_rule);
    assert(out@ =~= old(out)@ + enc_friction(*v));
}

fn put_restitution(out: &mut Vec<u8>, v: &Restitution)
    ensures
        final(out)@ == old(out)@ + enc_restitution(*v),
{
    put_i64(out, v.coefficient);
    put_combine_rule(out, &v.combine_rule);
    assert(out@ =~= old(out)@ + enc_restitution(*v));
}

fn put_shape(out: &mut Vec<u8>, v: &ShapeKind)
    ensures
        final(out)@ == old(out)@ + enc_shape(*v),
{
    match v {
        ShapeKind::Ball { radius } => {
            out.push(0u8);
            put_i64(out, *radius);
        },
        ShapeKind::Cuboid { hx, hy, hz } => {
            out.push(1u8);
            put_i64(out, *hx);
            put_i64(out, *hy);
            put_i64(out, *hz);
        },
        ShapeKind::Capsule { half_height, radius } => {
            out.push(2u8);
            put_i64(out, *half_height);
            put_i64(out, *radius);
        },
    }
    assert(out@ =~= old(out)@ + enc_shape(*v));
}

fn put_timestep_mode(out: &mut Vec<u8>, v: &TimestepMode)
    ensures
        final(out)@ == old(out)@ + enc_timestep_mode(*v),
{
    match v {
        TimestepMode::Fixed { dt, substeps } => {
            out.push(0u8);
            put_i64(out, *dt);
            put_u64(out, *substeps);
        },
        TimestepMode::Variable { max_dt, time_scale, substeps } => {
            out.push(1u8);
            put_i64(out, *max_dt);
            put_i64(out, *time_scale);
            put_u64(out, *substeps);
        },
        TimestepMode::Interpolated { dt, time_scale, substeps } => {
            out.push(2u8);
            put_i64(out, *dt);
            put_i64(out, *time_scale);
            put_u64(out, *substeps);
        },
    }
    assert(out@ =~= old(out)@ + enc_timestep_mode(*v));
}

fn put_config(out: &mut Vec<u8>, v: &Config)
    ensures
        final(out)@ == old(out)@ + enc_config(*v),
{
    put_vect(out, &v.gravity);
    put_timestep_mode(out, &v.timestep_mode);
    assert(out@ =~= old(out)@ + enc_config(*v));
}

fn put_step_args(out: &mut Vec<u8>, v: &StepArgs)
    ensures
        final(out)@ == old(out)@ + enc_step_args(*v),
{
    put_vect(out, &v.gravity);
    put_timestep_mode(out, &v.timestep_mode);
    put_u64(out, v.dt_micros);
    put_i64(out, v.sim_to_render_diff);
    assert(out@ =~= old(out)@ + enc_step_args(*v));
}

fn put_opt_pose(out: &mut Vec<u8>, v: &Option<Pose>)
    ensures
        final(out)@ == old(out)@ + enc_opt_pose(*v),
{
    match v {
        Option::None => out.push(0u8),
        Option::Some(p) => {
            out.push(1u8);
            put_pose(out, p);
        },
    }
    assert(out@ =~= old(out)@ + enc_opt_pose(*v));
}

fn put_opt_bool(out: &mut Vec<u8>, v: &Option<bool>)
    ensures
        final(out)@ == old(out)@ + enc_opt_bool(*v),
{
    match v {
        Option::None => out.push(0u8),
        Option::Some(b) => {
            out.push(1u8);
            put_bool(out, *b);
        },
    }
    assert(out@ =~= old(out)@ + enc_opt_bool(*v));
}

fn put_opt_amp(out: &mut Vec<u8>, v: &Option<AdditionalMassProperties>)
    ensures
        final(out)@ == old(out)@ + enc_opt_amp(*v),
{
    match v {
        Option::None => out.push(0u8),
        Option::Some(m) => {
            out.push(1u8);
            put_amp(out, m);
        },
    }
    assert(out@ =~= old(out)@ + enc_opt_amp(*v));
}

fn put_opt_cmp(out: &mut Vec<u8>, v: &Option<ColliderMassProperties>)
    ensures
        final(out)@ == old(out)@ + enc_opt_cmp(*v),
{
    match v {
        Option::None => out.push(0u8),
        Option::Some(m) => {
            out.push(1u8);
            put_cmp(out, m);
        },
    }
    assert(out@ =~= old(out)@ + enc_opt_cmp(*v));
}

fn put_opt_friction(out: &mut Vec<u8>, v: &Option<Friction>)
    ensures
        final(out)@ == old(out)@ + enc_opt_friction(*v),
{
    match v {
        Option::None => out.push(0u8),
        Option::Some(f) => {
            out.push(1u8);
            put_friction(out, f);
        },
    }
    assert(out@ =~= old(out)@ + enc_opt_friction(*v));
}

fn put_opt_restitution(out: &mut Vec<u8>, v: &Option<Restitution>)
    ensures
        final(out)@ == old(out)@ + enc_opt_restitution(*v),
{
    match v {
        Option::None => out.push(0u8),
        Option::Some(r) => {
            out.push(1u8);
            put_restitution(out, r);
        },
    }
    assert(out@ =~= old(out)@ + enc_opt_restitution(*v));
}

fn put_created_body(out: &mut Vec<u8>, v: &CreatedBody)
    ensures
        final(out)@ == old(out)@ + enc_created_body(*v),
{
    put_u64(out, v.id);
    put_body_kind(out, &v.body);
    put_opt_pose(out, &v.transform);
    put_opt_amp(out, &v.additional_mass_properties);
    proof {
        reveal(enc_created_body);
    }
    assert(out@ =~= old(out)@ + enc_created_body(*v));
}

fn put_created_collider(out: &mut Vec<u8>, v: &CreatedCollider)
    ensures
        final(out)@ == old(out)@ + enc_created_collider(*v),
{
    put_u64(out, v.id);
    put_shape(out, &v.shape);
    put_opt_pose(out, &v.transform);
    put_opt_bool(out, &v.sensor);
    put_opt_cmp(out, &v.mass_properties);
    put_opt_friction(out, &v.friction);
    put_opt_restitution(out, &v.restitution);
    proof {
        reveal(enc_created_collider);
    }
    assert(out@ =~= old(out)@ + enc_created_collider(*v));
}

fn put_pair(out: &mut Vec<u8>, v: &(u64, u64))
    ensures
        final(out)@ == old(out)@ + enc_pair(*v),
{
    put_u64(out, v.0);
    put_u64(out, v.1);
    assert(out@ =~= old(out)@ + enc_pair(*v));
}

fn put_sim_entry(out: &mut Vec<u8>, v: &SimEntry)
    ensures
        final(out)@ == old(out)@ + enc_sim_entry(*v),
{
    put_u64(out, v.handle);
    put_pose(out, &v.pose);
    put_velocity(out, &v.velocity);
    proof {
        reveal(enc_sim_entry);
    }
    assert(out@ =~= old(out)@ + enc_sim_entry(*v));
}

#[verifier::rlimit(100)]
#[verifier::spinoff_prover]
proof fn lemma_body_seq_push(s: Seq<CreatedBody>, x: CreatedBody)
    ensures
        enc_body_seq(s.push(x)) == enc_body_seq(s) + enc_created_body(x),
    decreases s.len(),
{
    if s.len() == 0 {
        assert(s.push(x)[0] == x);
        assert(s.push(x).skip(1) =~= Seq::<CreatedBody>::empty());
        reveal_with_fuel(enc_body_seq, 2);
        assert(enc_body_seq(s.push(x)) == enc_created_body(x) + Seq::<u8>::empty());
        assert(enc_created_body(x) + Seq::<u8>::empty() =~= enc_created_body(x));
        assert(Seq::<u8>::empty() + enc_created_body(x) =~= enc_created_body(x));
    } else {
        lemma_body_seq_push(s.skip(1), x);
        assert(s.push(x)[0] == s[0]);
        assert(s.push(x).skip(1) =~= s.skip(1).push(x));
        assert(enc_created_body(s[0]) + (enc_body_seq(s.skip(1)) + enc_created_body(x)) =~= (enc_created_body(s[0]) + enc_body_seq(s.skip(1))) + enc_created_body(x));
    }
}

#[verifier::rlimit(100)]
#[verifier::spinoff_prover]
proof fn lemma_collider_seq_push(s: Seq<CreatedCollider>, x: CreatedCollider)
    ensures
        enc_collider_seq(s.push(x)) == enc_collider_seq(s) + enc_created_collider(x),
    decreases s.len(),
{
    if s.len() == 0 {
        assert(s.push(x)[0] == x);
        assert(s.push(x).skip(1) =~= Seq::<CreatedCollider>::empty());
        reveal_with_fuel(enc_collider_seq, 2);
        assert(enc_collider_seq(s.push(x)) == enc_created_collider(x) + Seq::<u8>::empty());
        assert(enc_created_collider(x) + Seq::<u8>::empty() =~= enc_created_collider(x));
        assert(Seq::<u8>::empty() + enc_created_collider(x) =~= enc_created_collider(x));
    } else {
        lemma_collider_seq_push(s.skip(1), x);
        assert(s.push(x)[0] == s[0]);
        assert(s.push(x).skip(1) =~= s.skip(1).push(x));
        assert(enc_created_collider(s[0]) + (enc_collider_seq(s.skip(1)) + enc_created_collider(x)) =~= (enc_created_collider(s[0]) + enc_collider_seq(s.skip(1))) + enc_created_collider(x));
    }
}

#[verifier::rlimit(100)]
#[verifier::spinoff_prover]
proof fn lemma_pair_seq_push(s: Seq<(u64, u64)>, x: (u64, u64))
    ensures
        enc_pair_seq(s.push(x)) == enc_pair_seq(s) + enc_pair(x),
    decreases s.len(),
{
    if s.len() == 0 {
        assert(s.push(x)[0] == x);
        assert(s.push(x).skip(1) =~= Seq::<(u64, u64)>::empty());
        reveal_with_fuel(enc_pair_seq, 2);
        assert(enc_pair_seq(s.push(x)) == enc_pair(x) + Seq::<u8>::empty());
        assert(enc_pair(x) + Seq::<u8>::empty() =~= enc_pair(x));
        assert(Seq::<u8>::empty() + enc_pair(x) =~= enc_pair(x));
    } else {
        lemma_pair_seq_push(s.skip(1), x);
        assert(s.push(x)[0] == s[0]);
        assert(s.push(x).skip(1) =~= s.skip(1).push(x));
        assert(enc_pair(s[0]) + (enc_pair_seq(s.skip(1)) + enc_pair(x)) =~= (enc_pair(s[0]) + enc_pair_seq(s.skip(1))) + enc_pair(x));
    }
}

#[verifier::rlimit(100)]
#[verifier::spinoff_prover]
proof fn lemma_sim_seq_push(s: Seq<SimEntry>, x: SimEntry)
    ensures
        enc_sim_seq(s.push(x)) == enc_sim_seq(s) + enc_sim_entry(x),
    decreases s.len(),
{
    if s.len() == 0 {
        assert(s.push(x)[0] == x);
        assert(s.push(x).skip(1) =~= Seq::<SimEntry>::empty());
        reveal_with_fuel(enc_sim_seq, 2);
        assert(enc_sim_seq(s.push(x)) == enc_sim_entry(x) + Seq::<u8>::empty());
        assert(enc_sim_entry(x) + Seq::<u8>::empty() =~= enc_sim_entry(x));
        assert(Seq::<u8>::empty() + enc_sim_entry(x) =~= enc_sim_entry(x));
    } else {
        lemma_sim_seq_push(s.skip(1), x);
        assert(s.push(x)[0] == s[0]);
        assert(s.push(x).skip(1) =~= s.skip(1).push(x));
        assert(enc_sim_entry(s[0]) + (enc_sim_seq(s.skip(1)) + enc_sim_entry(x)) =~= (enc_sim_entry(s[0]) + enc_sim_seq(s.skip(1))) + enc_sim_entry(x));
    }
}

#[verifier::rlimit(100)]
#[verifier::spinoff_prover]
proof fn lemma_req_item_seq_push(s: Seq<ReqItem>, x: ReqItem)
    ensures
        enc_req_item_seq(s.push(x)) == enc_req_item_seq(s) + enc_req_item(x),
    decreases s.len(),
{
    if s.len() == 0 {
        assert(s.push(x)[0] == x);
        assert(s.push(x).skip(1) =~= Seq::<ReqItem>::empty());
        reveal_with_fuel(enc_req_item_seq, 2);
        assert(enc_req_item_seq(s.push(x)) == enc_req_item(x) + Seq::<u8>::empty());
        assert(enc_req_item(x) + Seq::<u8>::empty() =~= enc_req_item(x));
        assert(Seq::<u8>::empty() + enc_req_item(x) =~= enc_req_item(x));
    } else {
        lemma_req_item_seq_push(s.skip(1), x);
        assert(s.push(x)[0] == s[0]);
        assert(s.push(x).skip(1) =~= s.skip(1).push(x));
        assert(enc_req_item(s[0]) + (enc_req_item_seq(s.skip(1)) + enc_req_item(x)) =~= (enc_req_item(s[0]) + enc_req_item_seq(s.skip(1))) + enc_req_item(x));
    }
}

#[verifier::rlimit(100)]
#[verifier::spinoff_prover]
proof fn lemma_resp_item_seq_push(s: Seq<RespItem>, x: RespItem)
    ensures
        enc_resp_item_seq(s.push(x)) == enc_resp_item_seq(s) + enc_resp_item(x),
    decreases s.len(),
{
    if s.len() == 0 {
        assert(s.push(x)[0] == x);
        assert(s.push(x).skip(1) =~= Seq::<RespItem>::empty());
        reveal_with_fuel(enc_resp_item_seq, 2);
        assert(enc_resp_item_seq(s.push(x)) == enc_resp_item(x) + Seq::<u8>::empty());
        assert(enc_resp_item(x) + Seq::<u8>::empty() =~= enc_resp_item(x));
        assert(Seq::<u8>::empty() + enc_resp_item(x) =~= enc_resp_item(x));
    } else {
        lemma_resp_item_seq_push(s.skip(1), x);
        assert(s.push(x)[0] == s[0]);
        assert(s.push(x).skip(1) =~= s.skip(1).push(x));
        assert(enc_resp_item(s[0]) + (enc_resp_item_seq(s.skip(1)) + enc_resp_item(x)) =~= (enc_resp_item(s[0]) + enc_resp_item_seq(s.skip(1))) + enc_resp_item(x));
    }
}

fn put_body_list(out: &mut Vec<u8>, items: &Vec<CreatedBody>)
    ensures
        final(out)@ == old(out)@ + enc_u64(items@.len() as u64) + enc_body_seq(items@),
{
    let n = items.len();
    put_u64(out, n as u64);
    let ghost base = out@;
    for i in 0..n
        invariant
            n == items@.len(),
            out@ == base + enc_body_seq(items@.take(i as int)),
    {
        proof {
            lemma_body_seq_push(items@.take(i as int), items@[i as int]);
            assert(items@.take(i as int).push(items@[i as int]) =~= items@.take(i + 1));
        }
        put_created_body(out, &items[i]);
    }
    proof {
        assert(items@.take(n as int) =~= items@);
    }
}

fn put_collider_list(out: &mut Vec<u8>, items: &Vec<CreatedCollider>)
    ensures
        final(out)@ == old(out)@ + enc_u64(items@.len() as u64) + enc_collider_seq(items@),
{
    let n = items.len();
    put_u64(out, n as u64);
    let ghost base = out@;
    for i in 0..n
        invariant
            n == items@.len(),
            out@ == base + enc_collider_seq(items@.take(i as int)),
    {
        proof {
            lemma_collider_seq_push(items@.take(i as int), items@[i as int]);
            assert(items@.take(i as int).push(items@[i as int]) =~= items@.take(i + 1));
        }
        put_created_collider(out, &items[i]);
    }
    proof {
        assert(items@.take(n as int) =~= items@);
    }
}

fn put_pair_list(out: &mut Vec<u8>, items: &Vec<(u64, u64)>)
    ensures
        final(out)@ == old(out)@ + enc_u64(items@.len() as u64) + enc_pair_seq(items@),
{
    let n = items.len();
    put_u64(out, n as u64);
    let ghost base = out@;
    for i in 0..n
        invariant
            n == items@.len(),
            out@ == base + enc_pair_seq(items@.take(i as int)),
    {
        proof {
            lemma_pair_seq_push(items@.take(i as int), items@[i as int]);
            assert(items@.take(i as int).push(items@[i as int]) =~= items@.take(i + 1));
        }
        put_pair(out, &items[i]);
    }
    proof {
        assert(items@.take(n as int) =~= items@);
    }
}

fn put_sim_list(out: &mut Vec<u8>, items: &Vec<SimEntry>)
    ensures
        final(out)@ == old(out)@ + enc_u64(items@.len() as u64) + enc_sim_seq(items@),
{
    let n = items.len();
    put_u64(out, n as u64);
    let ghost base = out@;
    for i in 0..n
        invariant
            n == items@.len(),
            out@ == base + enc_sim_seq(items@.take(i as int)),
    {
        proof {
            lemma_sim_seq_push(items@.take(i as int), items@[i as int]);
            assert(items@.take(i as int).push(items@[i as int]) =~= items@.take(i + 1));
        }
        put_sim_entry(out, &items[i]);
    }
    proof {
        assert(items@.take(n as int) =~= items@);
    }
}

/// Append one non-bulk request, tag included.
#[verifier::rlimit(100)]
#[verifier::spinoff_prover]
fn put_req_item(out: &mut Vec<u8>, r: &Request)
    requires
        wf_req_elem(*r),
    ensures
        final(out)@ == old(out)@ + enc_req_item(req_item_view(*r)),
{
    match r {
        Request::UpdateConfig(c) => {
            out.push(0u8);
            put_config(out, c);
        },
        Request::CreateBodies(items) => {
            out.push(1u8);
            put_body_list(out, items);
        },
        Request::CreateColliders(items) => {
            out.push(2u8);
            put_collider_list(out, items);
        },
        Request::SimulateStep(a) => {
            out.push(3u8);
            put_step_args(out, a);
        },
        Request::BulkRequest(_) => {
            proof {
                assert(false);
            }
        },
    }
    proof {
        reveal(enc_req_item);
    }
    assert(out@ =~= old(out)@ + enc_req_item(req_item_view(*r)));
}

/// Encode one request into a fresh frame.
///
/// The bytes are exactly the wire encoding of the request's model, so
/// `decode_request` returns the request unchanged (`roundtrip` proves it).
#[verifier::rlimit(100)]
#[verifier::spinoff_prover]
pub fn encode_request(r: &Request) -> (out: Vec<u8>)
    requires
        wf_request(*r),
    ensures
        out@ == enc_req_m(req_view(*r)),
{
    let mut out: Vec<u8> = Vec::new();
    match r {
        Request::BulkRequest(items) => {
            out.push(4u8);
            let n = items.len();
            put_u64(&mut out, n as u64);
            let ghost views = items@.map_values(|x: Request| req_item_view(x));
            let ghost base = out@;
            for i in 0..n
                invariant
                    n == items@.len(),
                    views == items@.map_values(|x: Request| req_item_view(x)),
                    forall|j: int| 0 <= j < items@.len() ==> wf_req_elem(#[trigger] items@[j]),
                    out@ == base + enc_req_item_seq(views.take(i as int)),
            {
                proof {
                    lemma_req_item_seq_push(views.take(i as int), views[i as int]);
                    assert(views.take(i as int).push(views[i as int]) =~= views.take(i + 1));
                }
                put_req_item(&mut out, &items[i]);
            }
            proof {
                assert(views.take(n as int) =~= views);
            }
        },
        _ => {
            put_req_item(&mut out, r);
        },
    }
    assert(out@ =~= enc_req_m(req_view(*r)));
    out
}

/// Append one non-bulk response, tag included.
#[verifier::rlimit(100)]
#[verifier::spinoff_prover]
fn put_resp_item(out: &mut Vec<u8>, r: &Response)
    requires
        wf_resp_elem(*r),
    ensures
        final(out)@ == old(out)@ + enc_resp_item(resp_item_view(*r)),
{
    match r {
        Response::ConfigUpdated => {
            out.push(0u8);
        },
        Response::RigidBodyHandles(items) => {
            out.push(1u8);
            put_pair_list(out, items);
        },
        Response::ColliderHandles(items) => {
            out.push(2u8);
            put_pair_list(out, items);
        },
        Response::SimulationResult(items) => {
            out.push(3u8);
            put_sim_list(out, items);
        },
        Response::BulkResponse(_) => {
            proof {
                assert(false);
            }
        },
    }
    proof {
        reveal(enc_resp_item);
    }
    assert(out@ =~= old(out)@ + enc_resp_item(resp_item_view(*r)));
}

/// Encode one response into a fresh frame.
#[verifier::rlimit(100)]
#[verifier::spinoff_prover]
pub fn encode_response(r: &Response) -> (out: Vec<u8>)
    requires
        wf_response(*r),
    ensures
        out@ == enc_resp_m(resp_view(*r)),
{
    let mut out: Vec<u8> = Vec::new();
    match r {
        Response::BulkResponse(items) => {
            out.push(4u8);
            let n = items.len();
            put_u64(&mut out, n as u64);
            let ghost views = items@.map_values(|x: Response| resp_item_view(x));
            let ghost base = out@;
            for i in 0..n
                invariant
                    n == items@.len(),
                    views == items@.map_values(|x: Response| resp_item_view(x)),
                    forall|j: int| 0 <= j < items@.len() ==> wf_resp_elem(#[trigger] items@[j]),
                    out@ == base + enc_resp_item_seq(views.take(i as int)),
            {
                proof {
                    lemma_resp_item_seq_push(views.take(i as int), views[i as int]);
                    assert(views.take(i as int).push(views[i as int]) =~= views.take(i + 1));
                }
                put_resp_item(&mut out, &items[i]);
            }
            proof {
                assert(views.take(n as int) =~= views);
            }
        },
        _ => {
            put_resp_item(&mut out, r);
        },
    }
    assert(out@ =~= enc_resp_m(resp_view(*r)));
    out
}

} // verus!
