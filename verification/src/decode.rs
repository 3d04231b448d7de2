//! The executable decoder: reads a byte frame back into a request or
//! response.  Every reader is verified to return exactly what the spec
//! decoder in `wire` says those bytes mean — including returning nothing
//! when the bytes are malformed.

use vstd::prelude::*;

use crate::protocol::AdditionalMassProperties;
use crate::protocol::BodyKind;
use crate::protocol::ColliderMassProperties;
use crate::protocol::CombineRule;
use crate::protocol::Config;
use crate::protocol::CreatedBody;
use crate::protocol::CreatedCollider;
use crate::protocol::Friction;
use crate::protocol::Pose;
use crate::protocol::ReqItem;
use crate::protocol::Request;
use crate::protocol::RespItem;
use crate::protocol::Response;
use crate::protocol::Restitution;
use crate::protocol::Rotation;
use crate::protocol::ShapeKind;
use crate::protocol::SimEntry;
use crate::protocol::StepArgs;
use crate::protocol::TimestepMode;
use crate::protocol::Vect;
use crate::protocol::Velocity;
use crate::protocol::req_item_view;
use crate::protocol::req_view;
use crate::protocol::resp_item_view;
use crate::protocol::resp_view;
use crate::protocol::wf_req_elem;
use crate::protocol::wf_request;
use crate::protocol::wf_resp_elem;
use crate::protocol::wf_response;
use crate::wire::dec_amp;
use crate::wire::dec_body_kind;
use crate::wire::dec_body_seq;
use crate::wire::dec_bool;
use crate::wire::dec_byte;
use crate::wire::dec_cmp;
use crate::wire::dec_collider_seq;
use crate::wire::dec_combine_rule;
use crate::wire::dec_config;
use crate::wire::dec_created_body;
use crate::wire::dec_created_collider;
use crate::wire::dec_friction;
use crate::wire::dec_i64;
use crate::wire::dec_opt_amp;
use crate::wire::dec_opt_bool;
use crate::wire::dec_opt_cmp;
use crate::wire::dec_opt_friction;
use crate::wire::dec_opt_pose;
use crate::wire::dec_opt_restitution;
use crate::wire::dec_pair;
use crate::wire::dec_pair_seq;
use crate::wire::dec_pose;
use crate::wire::dec_req_item;
use crate::wire::dec_req_item_seq;
use crate::wire::dec_resp_item;
use crate::wire::dec_resp_item_seq;
use crate::wire::dec_restitution;
use crate::wire::dec_rotation;
use crate::wire::dec_shape;
use crate::wire::dec_sim_entry;
use crate::wire::dec_sim_seq;
use crate::wire::dec_step_args;
use crate::wire::dec_timestep_mode;
use crate::wire::dec_u64;
use crate::wire::dec_vect;
use crate::wire::dec_velocity;
use crate::wire::request_of_bytes;
use crate::wire::response_of_bytes;

verus! {

/// The result of an executable reader, with its position widened so it can
/// be compared with what the spec decoder returns.
pub open spec fn opt_pos<T>(r: Option<(T, usize)>) -> Option<(T, int)> {
    match r {
        Option::Some((v, p)) => Option::Some((v, p as int)),
        Option::None => Option::None,
    }
}

fn read_byte(bytes: &Vec<u8>, pos: usize) -> (r: Option<(u8, usize)>)
    ensures
        dec_byte(bytes@, pos as int) == opt_pos(r),
        r matches Option::Some(v) ==> v.1 == pos + 1,
{
    if pos < bytes.len() {
        Some((bytes[pos], pos + 1))
    } else {
        None
    }
}

fn read_u64(bytes: &Vec<u8>, pos: usize) -> (r: Option<(u64, usize)>)
    ensures
        dec_u64(bytes@, pos as int) == opt_pos(r),
        r matches Option::Some(v) ==> v.1 == pos + 8,
{
    if bytes.len() >= 8 && pos <= bytes.len() - 8 {
        let v: u64 = (bytes[pos] as u64) | (bytes[pos + 1] as u64) << 8u64 | (bytes[pos
            + 2] as u64) << 16u64 | (bytes[pos + 3] as u64) << 24u64 | (bytes[pos + 4] as u64)
            << 32u64 | (bytes[pos + 5] as u64) << 40u64 | (bytes[pos + 6] as u64) << 48u64 | (
        bytes[pos + 7] as u64) << 56u64;
        Some((v, pos + 8))
    } else {
        None
    }
}

fn read_i64(bytes: &Vec<u8>, pos: usize) -> (r: Option<(i64, usize)>)
    ensures
        dec_i64(bytes@, pos as int) == opt_pos(r),
        r matches Option::Some(v) ==> v.1 == pos + 8,
{
    match read_u64(bytes, pos) {
        Some((v, p)) => Some((v as i64, p)),
        None => None,
    }
}

fn read_bool(bytes: &Vec<u8>, pos: usize) -> (r: Option<(bool, usize)>)
    ensures
        dec_bool(bytes@, pos as int) == opt_pos(r),
        r matches Option::Some(v) ==> v.1 == pos + 1,
{
    match read_byte(bytes, pos) {
        Some((0u8, p)) => Some((false, p)),
        Some((1u8, p)) => Some((true, p)),
        _ => None,
    }
}

fn read_vect(bytes: &Vec<u8>, pos: usize) -> (r: Option<(Vect, usize)>)
    ensures
        dec_vect(bytes@, pos as int) == opt_pos(r),
        r matches Option::Some(v) ==> pos < v.1 <= bytes.len(),
{
    let (x, p1) = match read_i64(bytes, pos) {
        Some(v) => v,
        None => {
            return None;
        },
    };
    let (y, p2) = match read_i64(bytes, p1) {
        Some(v) => v,
        None => {
            return None;
        },
    };
    let (z, p3) = match read_i64(bytes, p2) {
        Some(v) => v,
        None => {
            return None;
        },
    };
    Some((Vect { x, y, z }, p3))
}

fn read_rotation(bytes: &Vec<u8>, pos: usize) -> (r: Option<(Rotation, usize)>)
    ensures
        dec_rotation(bytes@, pos as int) == opt_pos(r),
        r matches Option::Some(v) ==> pos < v.1 <= bytes.len(),
{
    let (x, p1) = match read_i64(bytes, pos) {
        Some(v) => v,
        None => {
            return None;
        },
    };
    let (y, p2) = match read_i64(bytes, p1) {
        Some(v) => v,
        None => {
            return None;
        },
    };
    let (z, p3) = match read_i64(bytes, p2) {
        Some(v) => v,
        None => {
            return None;
        },
    };
    let (w, p4) = match read_i64(bytes, p3) {
        Some(v) => v,
        None => {
            return None;
        },
    };
    Some((Rotation { x, y, z, w }, p4))
}

fn read_pose(bytes: &Vec<u8>, pos: usize) -> (r: Option<(Pose, usize)>)
    ensures
        dec_pose(bytes@, pos as int) == opt_pos(r),
        r matches Option::Some(v) ==> pos < v.1 <= bytes.len(),
{
    let (t, p1) = match read_vect(bytes, pos) {
        Some(v) => v,
        None => {
            return None;
        },
    };
    let (rot, p2) = match read_rotation(bytes, p1) {
        Some(v) => v,
        None => {
            return None;
        },
    };
    Some((Pose { translation: t, rotation: rot }, p2))
}

fn read_velocity(bytes: &Vec<u8>, pos: usize) -> (r: Option<(Velocity, usize)>)
    ensures
        dec_velocity(bytes@, pos as int) == opt_pos(r),
        r matches Option::Some(v) ==> pos < v.1 <= bytes.len(),
{
    let (l, p1) = match read_vect(bytes, pos) {
        Some(v) => v,
        None => {
            return None;
        },
    };
    let (a, p2) = match read_vect(bytes, p1) {
        Some(v) => v,
        None => {
            return None;
        },
    };
    Some((Velocity { linvel: l, angvel: a }, p2))
}

fn read_body_kind(bytes: &Vec<u8>, pos: usize) -> (r: Option<(BodyKind, usize)>)
    ensures
        dec_body_kind(bytes@, pos as int) == opt_pos(r),
        r matches Option::Some(v) ==> pos < v.1 <= bytes.len(),
{
    match read_byte(bytes, pos) {
        Some((0u8, p)) => Some((BodyKind::Dynamic, p)),
        Some((1u8, p)) => Some((BodyKind::Fixed, p)),
        Some((2u8, p)) => Some((BodyKind::KinematicPositionBased, p)),
        Some((3u8, p)) => Some((BodyKind::KinematicVelocityBased, p)),
        _ => None,
    }
}

fn read_combine_rule(bytes: &Vec<u8>, pos: usize) -> (r: Option<(CombineRule, usize)>)
    ensures
        dec_combine_rule(bytes@, pos as int) == opt_pos(r),
        r matches Option::Some(v) ==> pos < v.1 <= bytes.len(),
{
    match read_byte(bytes, pos) {
        Some((0u8, p)) => Some((CombineRule::Average, p)),
        Some((1u8, p)) => Some((CombineRule::Min, p)),
        Some((2u8, p)) => Some((CombineRule::Multiply, p)),
        Some((3u8, p)) => Some((CombineRule::Max, p)),
        _ => None,
    }
}

fn read_amp(bytes: &Vec<u8>, pos: usize) -> (r: Option<(AdditionalMassProperties, usize)>)
    ensures
        dec_amp(bytes@, pos as int) == opt_pos(r),
        r matches Option::Some(v) ==> pos < v.1 <= bytes.len(),
{
    match read_byte(bytes, pos) {
        Some((0u8, p)) => match read_i64(bytes, p) {
            Some((m, p1)) => Some((AdditionalMassProperties::Mass(m), p1)),
            None => None,
        },
        Some((1u8, p)) => {
            let (mass, p1) = match read_i64(bytes, p) {
                Some(v) => v,
                None => {
                    return None;
                },
            };
            let (center, p2) = match read_vect(bytes, p1) {
                Some(v) => v,
                None => {
                    return None;
                },
            };
            Some((AdditionalMassProperties::MassProperties { mass, center }, p2))
        },
        _ => None,
    }
}

fn read_cmp(bytes: &Vec<u8>, pos: usize) -> (r: Option<(ColliderMassProperties, usize)>)
    ensures
        dec_cmp(bytes@, pos as int) == opt_pos(r),
        r matches Option::Some(v) ==> pos < v.1 <= bytes.len(),
{
    match read_byte(bytes, pos) {
        Some((0u8, p)) => match read_i64(bytes, p) {
            Some((m, p1)) => Some((ColliderMassProperties::Density(m), p1)),
            None => None,
        },
        Some((1u8, p)) => match read_i64(bytes, p) {
            Some((m, p1)) => Some((ColliderMassProperties::Mass(m), p1)),
            None => None,
        },
        Some((2u8, p)) => {
            let (mass, p1) = match read_i64(bytes, p) {
                Some(v) => v,
                None => {
                    return None;
                },
            };
            let (center, p2) = match read_vect(bytes, p1) {
                Some(v) => v,
                None => {
                    return None;
                },
            };
            Some((ColliderMassProperties::MassProperties { mass, center }, p2))
        },
        _ => None,
    }
}

fn read_friction(bytes: &Vec<u8>, pos: usize) -> (r: Option<(Friction, usize)>)
    ensures
        dec_friction(bytes@, pos as int) == opt_pos(r),
        r matches Option::Some(v) ==> pos < v.1 <= bytes.len(),
{
    let (coefficient, p1) = match read_i64(bytes, pos) {
        Some(v) => v,
        None => {
            return None;
        },
    };
    let (combine_rule, p2) = match read_combine_rule(bytes, p1) {
        Some(v) => v,
        None => {
            return None;
        },
    };
    Some((Friction { coefficient, combine_rule }, p2))
}

fn read_restitution(bytes: &Vec<u8>, pos: usize) -> (r: Option<(Restitution, usize)>)
    ensures
        dec_restitution(bytes@, pos as int) == opt_pos(r),
        r matches Option::Some(v) ==> pos < v.1 <= bytes.len(),
{
    let (coefficient, p1) = match read_i64(bytes, pos) {
        Some(v) => v,
        None => {
            return None;
        },
    };
    let (combine_rule, p2) = match read_combine_rule(bytes, p1) {
        Some(v) => v,
        None => {
            return None;
        },
    };
    Some((Restitution { coefficient, combine_rule }, p2))
}

fn read_shape(bytes: &Vec<u8>, pos: usize) -> (r: Option<(ShapeKind, usize)>)
    ensures
        dec_shape(bytes@, pos as int) == opt_pos(r),
        r matches Option::Some(v) ==> pos < v.1 <= bytes.len(),
{
    match read_byte(bytes, pos) {
        Some((0u8, p)) => match read_i64(bytes, p) {
            Some((radius, p1)) => Some((ShapeKind::Ball { radius }, p1)),
            None => None,
        },
        Some((1u8, p)) => {
            let (hx, p1) = match read_i64(bytes, p) {
                Some(v) => v,
                None => {
                    return None;
                },
            };
            let (hy, p2) = match read_i64(bytes, p1) {
                Some(v) => v,
                None => {
                    return None;
                },
            };
            let (hz, p3) = match read_i64(bytes, p2) {
                Some(v) => v,
                None => {
                    return None;
                },
            };
            Some((ShapeKind::Cuboid { hx, hy, hz }, p3))
        },
        Some((2u8, p)) => {
            let (half_height, p1) = match read_i64(bytes, p) {
                Some(v) => v,
                None => {
                    return None;
                },
            };
            let (radius, p2) = match read_i64(bytes, p1) {
                Some(v) => v,
                None => {
                    return None;
                },
            };
            Some((ShapeKind::Capsule { half_height, radius }, p2))
        },
        _ => None,
    }
}

fn read_timestep_mode(bytes: &Vec<u8>, pos: usize) -> (r: Option<(TimestepMode, usize)>)
    ensures
        dec_timestep_mode(bytes@, pos as int) == opt_pos(r),
        r matches Option::Some(v) ==> pos < v.1 <= bytes.len(),
{
    match read_byte(bytes, pos) {
        Some((0u8, p)) => {
            let (dt, p1) = match read_i64(bytes, p) {
                Some(v) => v,
                None => {
                    return None;
                },
            };
            let (substeps, p2) = match read_u64(bytes, p1) {
                Some(v) => v,
                None => {
                    return None;
                },
            };
            Some((TimestepMode::Fixed { dt, substeps }, p2))
        },
        Some((1u8, p)) => {
            let (max_dt, p1) = match read_i64(bytes, p) {
                Some(v) => v,
                None => {
                    return None;
                },
            };
            let (time_scale, p2) = match read_i64(bytes, p1) {
                Some(v) => v,
                None => {
                    return None;
                },
            };
            let (substeps, p3) = match read_u64(bytes, p2) {
                Some(v) => v,
                None => {
                    return None;
                },
            };
            Some((TimestepMode::Variable { max_dt, time_scale, substeps }, p3))
        },
        Some((2u8, p)) => {
            let (dt, p1) = match read_i64(bytes, p) {
                Some(v) => v,
                None => {
                    return None;
                },
            };
            let (time_scale, p2) = match read_i64(bytes, p1) {
                Some(v) => v,
                None => {
                    return None;
                },
            };
            let (substeps, p3) = match read_u64(bytes, p2) {
                Some(v) => v,
                None => {
                    return None;
                },
            };
            Some((TimestepMode::Interpolated { dt, time_scale, substeps }, p3))
        },
        _ => None,
    }
}

fn read_config(bytes: &Vec<u8>, pos: usize) -> (r: Option<(Config, usize)>)
    ensures
        dec_config(bytes@, pos as int) == opt_pos(r),
        r matches Option::Some(v) ==> pos < v.1 <= bytes.len(),
{
    let (gravity, p1) = match read_vect(bytes, pos) {
        Some(v) => v,
        None => {
            return None;
        },
    };
    let (timestep_mode, p2) = match read_timestep_mode(bytes, p1) {
        Some(v) => v,
        None => {
            return None;
        },
    };
    Some((Config { gravity, timestep_mode }, p2))
}

fn read_step_args(bytes: &Vec<u8>, pos: usize) -> (r: Option<(StepArgs, usize)>)
    ensures
        dec_step_args(bytes@, pos as int) == opt_pos(r),
        r matches Option::Some(v) ==> pos < v.1 <= bytes.len(),
{
    let (gravity, p1) = match read_vect(bytes, pos) {
        Some(v) => v,
        None => {
            return None;
        },
    };
    let (timestep_mode, p2) = match read_timestep_mode(bytes, p1) {
        Some(v) => v,
        None => {
            return None;
        },
    };
    let (dt_micros, p3) = match read_u64(bytes, p2) {
        Some(v) => v,
        None => {
            return None;
        },
    };
    let (sim_to_render_diff, p4) = match read_i64(bytes, p3) {
        Some(v) => v,
        None => {
            return None;
        },
    };
    Some((StepArgs { gravity, timestep_mode, dt_micros, sim_to_render_diff }, p4))
}

fn read_opt_pose(bytes: &Vec<u8>, pos: usize) -> (r: Option<(Option<Pose>, usize)>)
    ensures
        dec_opt_pose(bytes@, pos as int) == opt_pos(r),
        r matches Option::Some(v) ==> pos < v.1 <= bytes.len(),
{
    match read_byte(bytes, pos) {
        Some((0u8, p)) => Some((None, p)),
        Some((1u8, p)) => match read_pose(bytes, p) {
            Some((v, p1)) => Some((Some(v), p1)),
            None => None,
        },
        _ => None,
    }
}

fn read_opt_bool(bytes: &Vec<u8>, pos: usize) -> (r: Option<(Option<bool>, usize)>)
    ensures
        dec_opt_bool(bytes@, pos as int) == opt_pos(r),
        r matches Option::Some(v) ==> pos < v.1 <= bytes.len(),
{
    match read_byte(bytes, pos) {
        Some((0u8, p)) => Some((None, p)),
        Some((1u8, p)) => match read_bool(bytes, p) {
            Some((v, p1)) => Some((Some(v), p1)),
            None => None,
        },
        _ => None,
    }
}

fn read_opt_amp(bytes: &Vec<u8>, pos: usize) -> (r: Option<
    (Option<AdditionalMassProperties>, usize),
>)
    ensures
        dec_opt_amp(bytes@, pos as int) == opt_pos(r),
        r matches Option::Some(v) ==> pos < v.1 <= bytes.len(),
{
    match read_byte(bytes, pos) {
        Some((0u8, p)) => Some((None, p)),
        Some((1u8, p)) => match read_amp(bytes, p) {
            Some((v, p1)) => Some((Some(v), p1)),
            None => None,
        },
        _ => None,
    }
}

fn read_opt_cmp(bytes: &Vec<u8>, pos: usize) -> (r: Option<(Option<ColliderMassProperties>, usize)>)
    ensures
        dec_opt_cmp(bytes@, pos as int) == opt_pos(r),
        r matches Option::Some(v) ==> pos < v.1 <= bytes.len(),
{
    match read_byte(bytes, pos) {
        Some((0u8, p)) => Some((None, p)),
        Some((1u8, p)) => match read_cmp(bytes, p) {
            Some((v, p1)) => Some((Some(v), p1)),
            None => None,
        },
        _ => None,
    }
}

fn read_opt_friction(bytes: &Vec<u8>, pos: usize) -> (r: Option<(Option<Friction>, usize)>)
    ensures
        dec_opt_friction(bytes@, pos as int) == opt_pos(r),
        r matches Option::Some(v) ==> pos < v.1 <= bytes.len(),
{
    match read_byte(bytes, pos) {
        Some((0u8, p)) => Some((None, p)),
        Some((1u8, p)) => match read_friction(bytes, p) {
            Some((v, p1)) => Some((Some(v), p1)),
            None => None,
        },
        _ => None,
    }
}

fn read_opt_restitution(bytes: &Vec<u8>, pos: usize) -> (r: Option<(Option<Restitution>, usize)>)
    ensures
        dec_opt_restitution(bytes@, pos as int) == opt_pos(r),
        r matches Option::Some(v) ==> pos < v.1 <= bytes.len(),
{
    match read_byte(bytes, pos) {
        Some((0u8, p)) => Some((None, p)),
        Some((1u8, p)) => match read_restitution(bytes, p) {
            Some((v, p1)) => Some((Some(v), p1)),
            None => None,
        },
        _ => None,
    }
}

fn read_created_body(bytes: &Vec<u8>, pos: usize) -> (r: Option<(CreatedBody, usize)>)
    ensures
        dec_created_body(bytes@, pos as int) == opt_pos(r),
        r matches Option::Some(v) ==> pos < v.1 <= bytes.len(),
{
    let (id, p1) = match read_u64(bytes, pos) {
        Some(v) => v,
        None => {
            return None;
        },
    };
    let (body, p2) = match read_body_kind(bytes, p1) {
        Some(v) => v,
        None => {
            return None;
        },
    };
    let (transform, p3) = match read_opt_pose(bytes, p2) {
        Some(v) => v,
        None => {
            return None;
        },
    };
    let (additional_mass_properties, p4) = match read_opt_amp(bytes, p3) {
        Some(v) => v,
        None => {
            return None;
        },
    };
    Some((CreatedBody { id, body, transform, additional_mass_properties }, p4))
}

#[verifier::rlimit(100)]
fn read_created_collider(bytes: &Vec<u8>, pos: usize) -> (r: Option<(CreatedCollider, usize)>)
    ensures
        dec_created_collider(bytes@, pos as int) == opt_pos(r),
        r matches Option::Some(v) ==> pos < v.1 <= bytes.len(),
{
    let (id, p1) = match read_u64(bytes, pos) {
        Some(v) => v,
        None => {
            return None;
        },
    };
    let (shape, p2) = match read_shape(bytes, p1) {
        Some(v) => v,
        None => {
            return None;
        },
    };
    let (transform, p3) = match read_opt_pose(bytes, p2) {
        Some(v) => v,
        None => {
            return None;
        },
    };
    let (sensor, p4) = match read_opt_bool(bytes, p3) {
        Some(v) => v,
        None => {
            return None;
        },
    };
    let (mass_properties, p5) = match read_opt_cmp(bytes, p4) {
        Some(v) => v,
        None => {
            return None;
        },
    };
    let (friction, p6) = match read_opt_friction(bytes, p5) {
        Some(v) => v,
        None => {
            return None;
        },
    };
    let (restitution, p7) = match read_opt_restitution(bytes, p6) {
        Some(v) => v,
        None => {
            return None;
        },
    };
    Some(
        (
            CreatedCollider {
                id,
                shape,
                transform,
                sensor,
                mass_properties,
                friction,
                restitution,
            },
            p7,
        ),
    )
}

fn read_pair(bytes: &Vec<u8>, pos: usize) -> (r: Option<((u64, u64), usize)>)
    ensures
        dec_pair(bytes@, pos as int) == opt_pos(r),
        r matches Option::Some(v) ==> pos < v.1 <= bytes.len(),
{
    let (a, p1) = match read_u64(bytes, pos) {
        Some(v) => v,
        None => {
            return None;
        },
    };
    let (b, p2) = match read_u64(bytes, p1) {
        Some(v) => v,
        None => {
            return None;
        },
    };
    Some(((a, b), p2))
}

fn read_sim_entry(bytes: &Vec<u8>, pos: usize) -> (r: Option<(SimEntry, usize)>)
    ensures
        dec_sim_entry(bytes@, pos as int) == opt_pos(r),
        r matches Option::Some(v) ==> pos < v.1 <= bytes.len(),
{
    let (handle, p1) = match read_u64(bytes, pos) {
        Some(v) => v,
        None => {
            return None;
        },
    };
    let (pose, p2) = match read_pose(bytes, p1) {
        Some(v) => v,
        None => {
            return None;
        },
    };
    let (velocity, p3) = match read_velocity(bytes, p2) {
        Some(v) => v,
        None => {
            return None;
        },
    };
    Some((SimEntry { handle, pose, velocity }, p3))
}

fn read_body_list(bytes: &Vec<u8>, pos: usize, n: u64) -> (r: Option<(Vec<CreatedBody>, usize)>)
    ensures
        (match r {
            Option::Some((items, p)) => items@.len() == n && dec_body_seq(bytes@, pos as int, n as nat)
                == Option::Some((items@, p as int)),
            Option::None => dec_body_seq(bytes@, pos as int, n as nat) is None,
        }),
{
    let mut items: Vec<CreatedBody> = Vec::new();
    let mut cur: usize = pos;
    let mut i: u64 = 0;
    while i < n
        invariant
            i <= n,
            items@.len() == i,
            dec_body_seq(bytes@, pos as int, n as nat) == (match dec_body_seq(
                bytes@,
                cur as int,
                (n - i) as nat,
            ) {
                Option::Some((tail, p)) => Option::Some((items@ + tail, p)),
                Option::None => Option::None::<(Seq<CreatedBody>, int)>,
            }),
        decreases n - i,
    {
        match read_created_body(bytes, cur) {
            Some((b, p)) => {
                items.push(b);
                cur = p;
                i = i + 1;
                proof {
                    assert forall|tail: Seq<CreatedBody>|
                        (items@ + tail)
                            =~= (items@.subrange(0, items@.len() - 1) + (seq![
                        items@[items@.len() - 1],
                    ] + tail)) by {}
                }
            },
            None => {
                return None;
            },
        }
    }
    Some((items, cur))
}

fn read_collider_list(bytes: &Vec<u8>, pos: usize, n: u64) -> (r: Option<
    (Vec<CreatedCollider>, usize),
>)
    ensures
        (match r {
            Option::Some((items, p)) => items@.len() == n && dec_collider_seq(bytes@, pos as int, n as nat)
                == Option::Some((items@, p as int)),
            Option::None => dec_collider_seq(bytes@, pos as int, n as nat) is None,
        }),
{
    let mut items: Vec<CreatedCollider> = Vec::new();
    let mut cur: usize = pos;
    let mut i: u64 = 0;
    while i < n
        invariant
            i <= n,
            items@.len() == i,
            dec_collider_seq(bytes@, pos as int, n as nat) == (match dec_collider_seq(
                bytes@,
                cur as int,
                (n - i) as nat,
            ) {
                Option::Some((tail, p)) => Option::Some((items@ + tail, p)),
                Option::None => Option::None::<(Seq<CreatedCollider>, int)>,
            }),
        decreases n - i,
    {
        match read_created_collider(bytes, cur) {
            Some((b, p)) => {
                items.push(b);
                cur = p;
                i = i + 1;
                proof {
                    assert forall|tail: Seq<CreatedCollider>|
                        (items@ + tail)
                            =~= (items@.subrange(0, items@.len() - 1) + (seq![
                        items@[items@.len() - 1],
                    ] + tail)) by {}
                }
            },
            None => {
                return None;
            },
        }
    }
    Some((items, cur))
}

fn read_pair_list(bytes: &Vec<u8>, pos: usize, n: u64) -> (r: Option<(Vec<(u64, u64)>, usize)>)
    ensures
        (match r {
            Option::Some((items, p)) => items@.len() == n && dec_pair_seq(bytes@, pos as int, n as nat)
                == Option::Some((items@, p as int)),
            Option::None => dec_pair_seq(bytes@, pos as int, n as nat) is None,
        }),
{
    let mut items: Vec<(u64, u64)> = Vec::new();
    let mut cur: usize = pos;
    let mut i: u64 = 0;
    while i < n
        invariant
            i <= n,
            items@.len() == i,
            dec_pair_seq(bytes@, pos as int, n as nat) == (match dec_pair_seq(
                bytes@,
                cur as int,
                (n - i) as nat,
            ) {
                Option::Some((tail, p)) => Option::Some((items@ + tail, p)),
                Option::None => Option::None::<(Seq<(u64, u64)>, int)>,
            }),
        decreases n - i,
    {
        match read_pair(bytes, cur) {
            Some((b, p)) => {
                items.push(b);
                cur = p;
                i = i + 1;
                proof {
                    assert forall|tail: Seq<(u64, u64)>|
                        (items@ + tail)
                            =~= (items@.subrange(0, items@.len() - 1) + (seq![
                        items@[items@.len() - 1],
                    ] + tail)) by {}
                }
            },
            None => {
                return None;
            },
        }
    }
    Some((items, cur))
}

fn read_sim_list(bytes: &Vec<u8>, pos: usize, n: u64) -> (r: Option<(Vec<SimEntry>, usize)>)
    ensures
        (match r {
            Option::Some((items, p)) => items@.len() == n && dec_sim_seq(bytes@, pos as int, n as nat)
                == Option::Some((items@, p as int)),
            Option::None => dec_sim_seq(bytes@, pos as int, n as nat) is None,
        }),
{
    let mut items: Vec<SimEntry> = Vec::new();
    let mut cur: usize = pos;
    let mut i: u64 = 0;
    while i < n
        invariant
            i <= n,
            items@.len() == i,
            dec_sim_seq(bytes@, pos as int, n as nat) == (match dec_sim_seq(
                bytes@,
                cur as int,
                (n - i) as nat,
            ) {
                Option::Some((tail, p)) => Option::Some((items@ + tail, p)),
                Option::None => Option::None::<(Seq<SimEntry>, int)>,
            }),
        decreases n - i,
    {
        match read_sim_entry(bytes, cur) {
            Some((b, p)) => {
                items.push(b);
                cur = p;
                i = i + 1;
                proof {
                    assert forall|tail: Seq<SimEntry>|
                        (items@ + tail)
                            =~= (items@.subrange(0, items@.len() - 1) + (seq![
                        items@[items@.len() - 1],
                    ] + tail)) by {}
                }
            },
            None => {
                return None;
            },
        }
    }
    Some((items, cur))
}

/// Read one non-bulk request.
fn read_req_item(bytes: &Vec<u8>, pos: usize) -> (r: Option<(Request, usize)>)
    ensures
        (match r {
            Option::Some((m, p)) => wf_req_elem(m) && dec_req_item(bytes@, pos as int)
                == Option::Some((req_item_view(m), p as int)),
            Option::None => dec_req_item(bytes@, pos as int) is None,
        }),
{
    match read_byte(bytes, pos) {
        Some((0u8, p)) => match read_config(bytes, p) {
            Some((c, p1)) => Some((Request::UpdateConfig(c), p1)),
            None => None,
        },
        Some((1u8, p)) => {
            let (n, p1) = match read_u64(bytes, p) {
                Some(v) => v,
                None => {
                    return None;
                },
            };
            match read_body_list(bytes, p1, n) {
                Some((items, p2)) => Some((Request::CreateBodies(items), p2)),
                None => None,
            }
        },
        Some((2u8, p)) => {
            let (n, p1) = match read_u64(bytes, p) {
                Some(v) => v,
                None => {
                    return None;
                },
            };
            match read_collider_list(bytes, p1, n) {
                Some((items, p2)) => Some((Request::CreateColliders(items), p2)),
                None => None,
            }
        },
        Some((3u8, p)) => match read_step_args(bytes, p) {
            Some((a, p1)) => Some((Request::SimulateStep(a), p1)),
            None => None,
        },
        _ => None,
    }
}

/// Read one non-bulk response.
fn read_resp_item(bytes: &Vec<u8>, pos: usize) -> (r: Option<(Response, usize)>)
    ensures
        (match r {
            Option::Some((m, p)) => wf_resp_elem(m) && dec_resp_item(bytes@, pos as int)
                == Option::Some((resp_item_view(m), p as int)),
            Option::None => dec_resp_item(bytes@, pos as int) is None,
        }),
{
    match read_byte(bytes, pos) {
        Some((0u8, p)) => Some((Response::ConfigUpdated, p)),
        Some((1u8, p)) => {
            let (n, p1) = match read_u64(bytes, p) {
                Some(v) => v,
                None => {
                    return None;
                },
            };
            match read_pair_list(bytes, p1, n) {
                Some((items, p2)) => Some((Response::RigidBodyHandles(items), p2)),
                None => None,
            }
        },
        Some((2u8, p)) => {
            let (n, p1) = match read_u64(bytes, p) {
                Some(v) => v,
                None => {
                    return None;
                },
            };
            match read_pair_list(bytes, p1, n) {
                Some((items, p2)) => Some((Response::ColliderHandles(items), p2)),
                None => None,
            }
        },
        Some((3u8, p)) => {
            let (n, p1) = match read_u64(bytes, p) {
                Some(v) => v,
                None => {
                    return None;
                },
            };
            match read_sim_list(bytes, p1, n) {
                Some((items, p2)) => Some((Response::SimulationResult(items), p2)),
                None => None,
            }
        },
        _ => None,
    }
}

/// Decode one request frame.  Returns the request when the bytes are
/// exactly one well-formed frame, and nothing otherwise — a truncated
/// frame, an unknown tag, trailing bytes and a bulk nested in a bulk are
/// all rejected.
#[verifier::loop_isolation(false)]
pub fn decode_request(bytes: &Vec<u8>) -> (r: Option<Request>)
    ensures
        (match r {
            Option::Some(m) => wf_request(m) && request_of_bytes(bytes@) == Option::Some(
                req_view(m),
            ),
            Option::None => request_of_bytes(bytes@) is None,
        }),
{
    match read_byte(bytes, 0) {
        Some((4u8, p)) => {
            let (n, p1) = match read_u64(bytes, p) {
                Some(v) => v,
                None => {
                    return None;
                },
            };
            let mut items: Vec<Request> = Vec::new();
            let mut cur: usize = p1;
            let mut i: u64 = 0;
            let ghost views0 = items@.map_values(|x: Request| req_item_view(x));
            while i < n
                invariant
                    i <= n,
                    items@.len() == i,
                    forall|j: int| 0 <= j < items@.len() ==> wf_req_elem(#[trigger] items@[j]),
                    dec_req_item_seq(bytes@, p1 as int, n as nat) == (match dec_req_item_seq(
                        bytes@,
                        cur as int,
                        (n - i) as nat,
                    ) {
                        Option::Some((tail, q)) => Option::Some(
                            (items@.map_values(|x: Request| req_item_view(x)) + tail, q),
                        ),
                        Option::None => Option::None::<(Seq<ReqItem>, int)>,
                    }),
                decreases n - i,
            {
                let ghost old_items = items@;
                match read_req_item(bytes, cur) {
                    Some((m, q)) => {
                        items.push(m);
                        cur = q;
                        i = i + 1;
                        proof {
                            let f = |x: Request| req_item_view(x);
                            assert(items@.map_values(f) =~= old_items.map_values(f).push(
                                req_item_view(m),
                            ));
                            assert forall|tail: Seq<ReqItem>|
                                (items@.map_values(f) + tail) =~= (old_items.map_values(f) + (seq![
                                req_item_view(m),
                            ] + tail)) by {}
                        }
                    },
                    None => {
                        return None;
                    },
                }
            }
            if cur == bytes.len() {
                proof {
                    assert(items@.map_values(|x: Request| req_item_view(x)) + Seq::<
                        ReqItem,
                    >::empty() =~= items@.map_values(|x: Request| req_item_view(x)));
                }
                Some(Request::BulkRequest(items))
            } else {
                None
            }
        },
        _ => {
            match read_req_item(bytes, 0) {
                Some((m, p)) => {
                    if p == bytes.len() {
                        Some(m)
                    } else {
                        None
                    }
                },
                None => None,
            }
        },
    }
}

/// Decode one response frame, with the same rules as `decode_request`.
#[verifier::loop_isolation(false)]
pub fn decode_response(bytes: &Vec<u8>) -> (r: Option<Response>)
    ensures
        (match r {
            Option::Some(m) => wf_response(m) && response_of_bytes(bytes@) == Option::Some(
                resp_view(m),
            ),
            Option::None => response_of_bytes(bytes@) is None,
        }),
{
    match read_byte(bytes, 0) {
        Some((4u8, p)) => {
            let (n, p1) = match read_u64(bytes, p) {
                Some(v) => v,
                None => {
                    return None;
                },
            };
            let mut items: Vec<Response> = Vec::new();
            let mut cur: usize = p1;
            let mut i: u64 = 0;
            while i < n
                invariant
                    i <= n,
                    items@.len() == i,
                    forall|j: int| 0 <= j < items@.len() ==> wf_resp_elem(#[trigger] items@[j]),
                    dec_resp_item_seq(bytes@, p1 as int, n as nat) == (match dec_resp_item_seq(
                        bytes@,
                        cur as int,
                        (n - i) as nat,
                    ) {
                        Option::Some((tail, q)) => Option::Some(
                            (items@.map_values(|x: Response| resp_item_view(x)) + tail, q),
                        ),
                        Option::None => Option::None::<(Seq<RespItem>, int)>,
                    }),
                decreases n - i,
            {
                let ghost old_items = items@;
                match read_resp_item(bytes, cur) {
                    Some((m, q)) => {
                        items.push(m);
                        cur = q;
                        i = i + 1;
                        proof {
                            let f = |x: Response| resp_item_view(x);
                            assert(items@.map_values(f) =~= old_items.map_values(f).push(
                                resp_item_view(m),
                            ));
                            assert forall|tail: Seq<RespItem>|
                                (items@.map_values(f) + tail) =~= (old_items.map_values(f) + (seq![
                                resp_item_view(m),
                            ] + tail)) by {}
                        }
                    },
                    None => {
                        return None;
                    },
                }
            }
            if cur == bytes.len() {
                proof {
                    assert(items@.map_values(|x: Response| resp_item_view(x)) + Seq::<
                        RespItem,
                    >::empty() =~= items@.map_values(|x: Response| resp_item_view(x)));
                }
                Some(Response::BulkResponse(items))
            } else {
                None
            }
        },
        _ => {
            match read_resp_item(bytes, 0) {
                Some((m, p)) => {
                    if p == bytes.len() {
                        Some(m)
                    } else {
                        None
                    }
                },
                None => None,
            }
        },
    }
}

} // verus!
