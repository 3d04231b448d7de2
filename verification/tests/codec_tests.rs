//! Round trips and rejection cases for the wire codec.

use physics_bridge::codec::{encode_request, encode_response};
use physics_bridge::decode::{decode_request, decode_response};
use physics_bridge::protocol::{
    request_is_wf, response_is_wf, AdditionalMassProperties, BodyKind, ColliderMassProperties,
    CombineRule, Config, CreatedBody, CreatedCollider, Friction, Pose, Request, Response,
    Restitution, Rotation, ShapeKind, SimEntry, StepArgs, TimestepMode, Vect, Velocity,
};

fn v(x: i64, y: i64, z: i64) -> Vect {
    Vect { x, y, z }
}

fn sample_pose() -> Pose {
    Pose { translation: v(1_000_000, -2_500_000, 3), rotation: Rotation { x: 0, y: 0, z: 0, w: 1_000_000 } }
}

fn sample_config() -> Config {
    Config {
        gravity: v(0, -9_810_000, 0),
        timestep_mode: TimestepMode::Variable { max_dt: 16_666, time_scale: 1_000_000, substeps: 1 },
    }
}

fn sample_body(id: u64) -> CreatedBody {
    CreatedBody {
        id,
        body: BodyKind::Dynamic,
        transform: Some(sample_pose()),
        additional_mass_properties: Some(AdditionalMassProperties::Mass(2_000_000)),
    }
}

fn sample_collider(id: u64) -> CreatedCollider {
    CreatedCollider {
        id,
        shape: ShapeKind::Ball { radius: 500_000 },
        transform: None,
        sensor: Some(false),
        mass_properties: Some(ColliderMassProperties::Density(1_200_000)),
        friction: Some(Friction { coefficient: 500_000, combine_rule: CombineRule::Average }),
        restitution: Some(Restitution { coefficient: 700_000, combine_rule: CombineRule::Max }),
    }
}

fn step_args() -> StepArgs {
    StepArgs {
        gravity: v(0, -9_810_000, 0),
        timestep_mode: TimestepMode::Fixed { dt: 16_666, substeps: 4 },
        dt_micros: 16_666,
        sim_to_render_diff: -42,
    }
}

fn roundtrip_request(r: Request) {
    let bytes = encode_request(&r);
    assert_eq!(decode_request(&bytes), Some(r));
}

fn roundtrip_response(r: Response) {
    let bytes = encode_response(&r);
    assert_eq!(decode_response(&bytes), Some(r));
}

#[test]
fn request_update_config_roundtrip() {
    roundtrip_request(Request::UpdateConfig(sample_config()));
}

#[test]
fn request_create_bodies_roundtrip() {
    roundtrip_request(Request::CreateBodies(vec![sample_body(1), sample_body(2)]));
}

#[test]
fn request_create_bodies_empty_roundtrip() {
    roundtrip_request(Request::CreateBodies(vec![]));
}

#[test]
fn request_create_bodies_boundary_values_roundtrip() {
    let b = CreatedBody {
        id: u64::MAX,
        body: BodyKind::KinematicVelocityBased,
        transform: Some(Pose {
            translation: v(i64::MIN, i64::MAX, 0),
            rotation: Rotation { x: i64::MIN, y: -1, z: i64::MAX, w: 1 },
        }),
        additional_mass_properties: Some(AdditionalMassProperties::MassProperties {
            mass: i64::MAX,
            center: v(-1, -2, -3),
        }),
    };
    roundtrip_request(Request::CreateBodies(vec![b]));
}

#[test]
fn request_create_colliders_roundtrip() {
    let mut all_shapes = vec![sample_collider(7)];
    all_shapes.push(CreatedCollider {
        shape: ShapeKind::Cuboid { hx: 1, hy: 2, hz: 3 },
        transform: Some(sample_pose()),
        sensor: None,
        mass_properties: None,
        friction: None,
        restitution: None,
        ..sample_collider(8)
    });
    all_shapes.push(CreatedCollider {
        shape: ShapeKind::Capsule { half_height: 10, radius: 4 },
        sensor: Some(true),
        ..sample_collider(9)
    });
    roundtrip_request(Request::CreateColliders(all_shapes));
}

#[test]
fn request_simulate_step_roundtrip() {
    roundtrip_request(Request::SimulateStep(step_args()));
}

#[test]
fn request_bulk_roundtrip() {
    roundtrip_request(Request::BulkRequest(vec![
        Request::UpdateConfig(sample_config()),
        Request::CreateBodies(vec![sample_body(3)]),
        Request::CreateColliders(vec![sample_collider(3)]),
        Request::SimulateStep(step_args()),
    ]));
}

#[test]
fn request_bulk_empty_roundtrip() {
    roundtrip_request(Request::BulkRequest(vec![]));
}

#[test]
fn request_large_batch_roundtrip() {
    let bodies: Vec<CreatedBody> = (0..512).map(sample_body).collect();
    roundtrip_request(Request::CreateBodies(bodies));
}

#[test]
fn response_config_updated_roundtrip() {
    roundtrip_response(Response::ConfigUpdated);
}

#[test]
fn response_handles_roundtrip() {
    roundtrip_response(Response::RigidBodyHandles(vec![(1, 0), (2, 1), (u64::MAX, 2)]));
    roundtrip_response(Response::ColliderHandles(vec![]));
}

#[test]
fn response_simulation_result_roundtrip() {
    roundtrip_response(Response::SimulationResult(vec![SimEntry {
        handle: 0,
        pose: sample_pose(),
        velocity: Velocity { linvel: v(1, 2, 3), angvel: v(-1, -2, -3) },
    }]));
    roundtrip_response(Response::SimulationResult(vec![]));
}

#[test]
fn response_bulk_roundtrip() {
    roundtrip_response(Response::BulkResponse(vec![
        Response::ConfigUpdated,
        Response::RigidBodyHandles(vec![(5, 0)]),
        Response::SimulationResult(vec![]),
    ]));
}

#[test]
fn decode_rejects_unknown_tag() {
    assert_eq!(decode_request(&vec![9u8]), None);
    assert_eq!(decode_response(&vec![200u8]), None);
}

#[test]
fn decode_rejects_empty_frame() {
    assert_eq!(decode_request(&vec![]), None);
    assert_eq!(decode_response(&vec![]), None);
}

#[test]
fn decode_rejects_truncated_frame() {
    let mut bytes = encode_request(&Request::SimulateStep(step_args()));
    bytes.pop();
    assert_eq!(decode_request(&bytes), None);
}

#[test]
fn decode_rejects_trailing_bytes() {
    let mut bytes = encode_request(&Request::UpdateConfig(sample_config()));
    bytes.push(0);
    assert_eq!(decode_request(&bytes), None);
}

#[test]
fn decode_rejects_nested_bulk() {
    // A bulk request may not nest another bulk: build the bytes of one by
    // hand — tag 4, count 1, then a bulk element — and watch it bounce.
    let inner = encode_request(&Request::BulkRequest(vec![]));
    let mut bytes = vec![4u8];
    bytes.extend_from_slice(&1u64.to_le_bytes());
    bytes.extend_from_slice(&inner);
    assert_eq!(decode_request(&bytes), None);
}

#[test]
fn request_name_gives_variant() {
    assert_eq!(Request::UpdateConfig(sample_config()).name(), "UpdateConfig");
    assert_eq!(Request::CreateBodies(vec![]).name(), "CreateBodies");
    assert_eq!(Request::CreateColliders(vec![]).name(), "CreateColliders");
    assert_eq!(Request::SimulateStep(step_args()).name(), "SimulateStep");
    assert_eq!(Request::BulkRequest(vec![]).name(), "BulkRequest");
}

#[test]
fn nested_bulk_is_not_well_formed() {
    assert!(request_is_wf(&Request::BulkRequest(vec![Request::UpdateConfig(sample_config())])));
    assert!(!request_is_wf(&Request::BulkRequest(vec![Request::BulkRequest(vec![])])));
    assert!(response_is_wf(&Response::BulkResponse(vec![Response::ConfigUpdated])));
    assert!(!response_is_wf(&Response::BulkResponse(vec![Response::BulkResponse(vec![])])));
}
