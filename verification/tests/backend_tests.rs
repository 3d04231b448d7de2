//! Scenarios against the backend: handle identity, parenting, config
//! idempotence, step determinism and bulk equivalence.

use physics_bridge::backend::PhysicsBackend;
use physics_bridge::protocol::{
    BodyKind, Config, CreatedBody, CreatedCollider, Pose, Request, Response, Rotation, ShapeKind,
    StepArgs, TimestepMode, Vect, Velocity,
};

fn v(x: i64, y: i64, z: i64) -> Vect {
    Vect { x, y, z }
}

fn zero_gravity_config() -> Config {
    Config {
        gravity: v(0, 0, 0),
        timestep_mode: TimestepMode::Variable { max_dt: 16_666, time_scale: 1_000_000, substeps: 1 },
    }
}

fn pose_at(x: i64, y: i64, z: i64) -> Pose {
    Pose { translation: v(x, y, z), rotation: Rotation { x: 0, y: 0, z: 0, w: 1_000_000 } }
}

fn body_at(id: u64, kind: BodyKind, x: i64, y: i64, z: i64) -> CreatedBody {
    CreatedBody { id, body: kind, transform: Some(pose_at(x, y, z)), additional_mass_properties: None }
}

fn ball_for(id: u64) -> CreatedCollider {
    CreatedCollider {
        id,
        shape: ShapeKind::Ball { radius: 500_000 },
        transform: None,
        sensor: None,
        mass_properties: None,
        friction: None,
        restitution: None,
    }
}

fn step(gravity: Vect, dt_micros: u64) -> Request {
    Request::SimulateStep(StepArgs {
        gravity,
        timestep_mode: TimestepMode::Fixed { dt: 16_666, substeps: 1 },
        dt_micros,
        sim_to_render_diff: 0,
    })
}

#[test]
fn create_bodies_returns_handles_in_submission_order() {
    let mut backend = PhysicsBackend::new(zero_gravity_config());
    let bodies = vec![
        body_at(100, BodyKind::Dynamic, 0, 0, 0),
        body_at(200, BodyKind::Fixed, 1, 1, 1),
        body_at(300, BodyKind::Dynamic, 2, 2, 2),
    ];
    let resp = backend.process_request(&Request::CreateBodies(bodies));
    // One handle per descriptor, same order, correct entity ids,
    // consecutive fresh handles.
    assert_eq!(resp, Response::RigidBodyHandles(vec![(100, 0), (200, 1), (300, 2)]));
}

#[test]
fn collider_with_registered_body_moves_with_it() {
    let mut backend = PhysicsBackend::new(zero_gravity_config());
    backend.process_request(&Request::CreateBodies(vec![body_at(
        7,
        BodyKind::KinematicVelocityBased,
        0,
        0,
        0,
    )]));
    // Entity 7 has a registered body handle, so its collider is attached;
    // entity 8 has none, so its collider stands free at its own pose.
    let free_pose = pose_at(5_000_000, 0, 0);
    let resp = backend.process_request(&Request::CreateColliders(vec![
        ball_for(7),
        CreatedCollider { transform: Some(free_pose), ..ball_for(8) },
    ]));
    assert_eq!(resp, Response::ColliderHandles(vec![(7, 0), (8, 1)]));

    // Give the body a velocity by stepping under gravity, then step again
    // and watch the attached collider follow while the free one stays.
    backend.process_request(&step(v(1_000_000, 0, 0), 1_000_000));
    let attached = backend.collider_world_pose(0).unwrap();
    let free = backend.collider_world_pose(1).unwrap();
    assert_eq!(attached, pose_at(0, 0, 0)); // kinematic body ignores gravity
    assert_eq!(free, free_pose);

    // Now a dynamic body: it picks up velocity and moves, and so does its
    // attached collider.
    let mut dynamic = PhysicsBackend::new(zero_gravity_config());
    dynamic.process_request(&Request::CreateBodies(vec![body_at(9, BodyKind::Dynamic, 0, 0, 0)]));
    dynamic.process_request(&Request::CreateColliders(vec![ball_for(9), CreatedCollider {
        transform: Some(free_pose),
        ..ball_for(10)
    }]));
    dynamic.process_request(&step(v(2_000_000, 0, 0), 1_000_000));
    let attached = dynamic.collider_world_pose(0).unwrap();
    assert_eq!(attached.translation, v(2_000_000, 0, 0));
    assert_eq!(dynamic.collider_world_pose(1).unwrap(), free_pose);
}

#[test]
fn update_config_twice_acknowledges_twice_and_changes_nothing() {
    let mut backend = PhysicsBackend::new(zero_gravity_config());
    backend.process_request(&Request::CreateBodies(vec![body_at(1, BodyKind::Dynamic, 0, 0, 0)]));
    let config = Config {
        gravity: v(0, -9_810_000, 0),
        timestep_mode: TimestepMode::Fixed { dt: 8_333, substeps: 2 },
    };
    let first = backend.process_request(&Request::UpdateConfig(config));
    let second = backend.process_request(&Request::UpdateConfig(config));
    assert_eq!(first, Response::ConfigUpdated);
    assert_eq!(second, Response::ConfigUpdated);

    // No observable simulation difference after the repeat: stepping a
    // twin backend that got the config once gives identical results.
    let mut twin = PhysicsBackend::new(zero_gravity_config());
    twin.process_request(&Request::CreateBodies(vec![body_at(1, BodyKind::Dynamic, 0, 0, 0)]));
    twin.process_request(&Request::UpdateConfig(config));
    let a = backend.process_request(&step(v(0, -1_000_000, 0), 16_666));
    let b = twin.process_request(&step(v(0, -1_000_000, 0), 16_666));
    assert_eq!(a, b);
}

#[test]
fn identical_backends_step_identically() {
    let build = || {
        let mut backend = PhysicsBackend::new(zero_gravity_config());
        backend.process_request(&Request::CreateBodies(vec![
            body_at(1, BodyKind::Dynamic, 0, 10_000_000, 0),
            body_at(2, BodyKind::Fixed, 0, 0, 0),
        ]));
        backend
    };
    let mut first = build();
    let mut second = build();
    let req = step(v(0, -9_810_000, 0), 16_666);
    assert_eq!(first.process_request(&req), second.process_request(&req));
    // And again: the states evolved identically too.
    assert_eq!(first.process_request(&req), second.process_request(&req));
}

#[test]
fn dynamic_sphere_in_zero_gravity_does_not_drift() {
    let mut backend = PhysicsBackend::new(zero_gravity_config());
    backend.process_request(&Request::CreateBodies(vec![body_at(1, BodyKind::Dynamic, 3, 4, 5)]));
    // One full second in zero gravity with zero initial velocity.
    let resp = backend.process_request(&step(v(0, 0, 0), 1_000_000));
    match resp {
        Response::SimulationResult(entries) => {
            assert_eq!(entries.len(), 1);
            assert_eq!(entries[0].pose, pose_at(3, 4, 5));
            assert_eq!(entries[0].velocity, Velocity { linvel: v(0, 0, 0), angvel: v(0, 0, 0) });
        }
        other => panic!("expected a simulation result, got {:?}", other),
    }
}

#[test]
fn gravity_accelerates_dynamic_bodies_exactly() {
    let mut backend = PhysicsBackend::new(zero_gravity_config());
    backend.process_request(&Request::CreateBodies(vec![body_at(1, BodyKind::Dynamic, 0, 0, 0)]));
    // One second under gravity of -9.81 units/s (fixed point at 1e6):
    // velocity becomes -9_810_000 and the body moves by one second of it.
    let resp = backend.process_request(&step(v(0, -9_810_000, 0), 1_000_000));
    match resp {
        Response::SimulationResult(entries) => {
            assert_eq!(entries[0].velocity.linvel, v(0, -9_810_000, 0));
            assert_eq!(entries[0].pose.translation, v(0, -9_810_000, 0));
        }
        other => panic!("expected a simulation result, got {:?}", other),
    }
}

#[test]
fn bulk_request_equals_individual_sends() {
    let parts = || {
        vec![
            Request::UpdateConfig(zero_gravity_config()),
            Request::CreateBodies(vec![body_at(1, BodyKind::Dynamic, 0, 0, 0)]),
            Request::CreateColliders(vec![ball_for(1)]),
            Request::SimulateStep(StepArgs {
                gravity: v(0, -1_000_000, 0),
                timestep_mode: TimestepMode::Fixed { dt: 16_666, substeps: 1 },
                dt_micros: 500_000,
                sim_to_render_diff: 0,
            }),
        ]
    };
    let mut bulk_backend = PhysicsBackend::new(zero_gravity_config());
    let bulk_resp = bulk_backend.process_request(&Request::BulkRequest(parts()));

    let mut single_backend = PhysicsBackend::new(zero_gravity_config());
    let singles: Vec<Response> =
        parts().iter().map(|r| single_backend.process_request(r)).collect();

    assert_eq!(bulk_resp, Response::BulkResponse(singles));
}

#[test]
fn simulation_result_covers_every_live_body() {
    let mut backend = PhysicsBackend::new(zero_gravity_config());
    backend.process_request(&Request::CreateBodies(vec![
        body_at(1, BodyKind::Dynamic, 0, 0, 0),
        body_at(2, BodyKind::Fixed, 1, 0, 0),
        body_at(3, BodyKind::KinematicPositionBased, 2, 0, 0),
    ]));
    let resp = backend.process_request(&step(v(0, 0, 0), 16_666));
    match resp {
        Response::SimulationResult(entries) => {
            let handles: Vec<u64> = entries.iter().map(|e| e.handle).collect();
            assert_eq!(handles, vec![0, 1, 2]);
        }
        other => panic!("expected a simulation result, got {:?}", other),
    }
}

#[test]
fn backend_accepts_requests_within_its_handle_space() {
    let backend = PhysicsBackend::new(zero_gravity_config());
    assert!(backend.can_accept(&Request::UpdateConfig(zero_gravity_config())));
    assert!(backend.can_accept(&Request::CreateBodies(vec![body_at(1, BodyKind::Dynamic, 0, 0, 0)])));
    assert!(backend.can_accept(&Request::BulkRequest(vec![
        Request::CreateBodies(vec![body_at(1, BodyKind::Dynamic, 0, 0, 0)]),
        Request::CreateColliders(vec![ball_for(1)]),
    ])));
}
