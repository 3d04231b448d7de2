//! The frame-side layer: scanning, queueing order, handle recording, and
//! writeback with change suppression.

use physics_bridge::frame::{
    flush_queue, handle_init_colliders_response, handle_init_rigid_bodies_response,
    handle_simulate_step_response, handle_update_config_response, init_colliders,
    init_rigid_bodies, process_responses, simulate_step, update_config, BodySeed, ColliderSeed,
    FrameEntity, FrameWorld, RequestQueue,
};
use physics_bridge::protocol::{
    BodyKind, Config, Pose, Request, Response, Rotation, ShapeKind, SimEntry, StepArgs,
    TimestepMode, Vect, Velocity,
};

fn v(x: i64, y: i64, z: i64) -> Vect {
    Vect { x, y, z }
}

fn pose_at(x: i64, y: i64, z: i64) -> Pose {
    Pose { translation: v(x, y, z), rotation: Rotation { x: 0, y: 0, z: 0, w: 1_000_000 } }
}

fn vel(x: i64, y: i64, z: i64) -> Velocity {
    Velocity { linvel: v(x, y, z), angvel: v(0, 0, 0) }
}

fn config() -> Config {
    Config {
        gravity: v(0, -9_810_000, 0),
        timestep_mode: TimestepMode::Variable { max_dt: 16_666, time_scale: 1_000_000, substeps: 1 },
    }
}

fn entity(id: u64) -> FrameEntity {
    FrameEntity {
        entity: id,
        body_seed: None,
        collider_seed: None,
        body_handle: None,
        collider_handle: None,
        pose: pose_at(0, 0, 0),
        velocity: vel(0, 0, 0),
    }
}

fn body_seed() -> BodySeed {
    BodySeed { body: BodyKind::Dynamic, transform: None, additional_mass_properties: None }
}

fn collider_seed() -> ColliderSeed {
    ColliderSeed {
        shape: ShapeKind::Ball { radius: 500_000 },
        transform: None,
        sensor: None,
        mass_properties: None,
        friction: None,
        restitution: None,
    }
}

fn step_args() -> StepArgs {
    StepArgs {
        gravity: v(0, -9_810_000, 0),
        timestep_mode: TimestepMode::Fixed { dt: 16_666, substeps: 1 },
        dt_micros: 16_666,
        sim_to_render_diff: 0,
    }
}

#[test]
fn frame_queues_in_protocol_order() {
    let world = FrameWorld {
        entities: vec![
            FrameEntity { body_seed: Some(body_seed()), collider_seed: Some(collider_seed()), ..entity(1) },
            FrameEntity { body_seed: Some(body_seed()), body_handle: Some(9), ..entity(2) },
        ],
    };
    let mut queue = RequestQueue::default();
    update_config(true, &config(), &mut queue);
    init_rigid_bodies(&world, &mut queue);
    init_colliders(&world, &mut queue);
    simulate_step(&step_args(), &mut queue);

    let bulk = flush_queue(queue);
    match bulk {
        Request::BulkRequest(parts) => {
            assert_eq!(parts.len(), 4);
            assert!(matches!(parts[0], Request::UpdateConfig(_)));
            match &parts[1] {
                Request::CreateBodies(ds) => {
                    // Only entity 1 lacks a body handle.
                    assert_eq!(ds.len(), 1);
                    assert_eq!(ds[0].id, 1);
                }
                other => panic!("expected CreateBodies, got {:?}", other),
            }
            match &parts[2] {
                Request::CreateColliders(ds) => {
                    assert_eq!(ds.len(), 1);
                    assert_eq!(ds[0].id, 1);
                }
                other => panic!("expected CreateColliders, got {:?}", other),
            }
            assert!(matches!(parts[3], Request::SimulateStep(_)));
        }
        other => panic!("expected a bulk request, got {:?}", other),
    }
}

#[test]
fn unchanged_config_queues_nothing() {
    let mut queue = RequestQueue::default();
    update_config(false, &config(), &mut queue);
    let world = FrameWorld { entities: vec![entity(1)] };
    init_rigid_bodies(&world, &mut queue);
    init_colliders(&world, &mut queue);
    match flush_queue(queue) {
        Request::BulkRequest(parts) => assert_eq!(parts.len(), 0),
        other => panic!("expected a bulk request, got {:?}", other),
    }
}

#[test]
fn handles_are_recorded_against_their_entities() {
    let mut world = FrameWorld {
        entities: vec![
            FrameEntity { body_seed: Some(body_seed()), ..entity(10) },
            FrameEntity { body_seed: Some(body_seed()), ..entity(20) },
        ],
    };
    handle_init_rigid_bodies_response(&mut world, &Response::RigidBodyHandles(vec![(10, 0), (20, 1)]));
    assert_eq!(world.entities[0].body_handle, Some(0));
    assert_eq!(world.entities[1].body_handle, Some(1));

    handle_init_colliders_response(&mut world, &Response::ColliderHandles(vec![(20, 5)]));
    assert_eq!(world.entities[0].collider_handle, None);
    assert_eq!(world.entities[1].collider_handle, Some(5));
}

#[test]
fn mismatched_response_changes_nothing() {
    let mut world = FrameWorld {
        entities: vec![FrameEntity { body_seed: Some(body_seed()), ..entity(10) }],
    };
    handle_init_rigid_bodies_response(&mut world, &Response::ConfigUpdated);
    assert_eq!(world.entities[0].body_handle, None);
    let written = handle_simulate_step_response(&mut world, &Response::ConfigUpdated);
    assert_eq!(written, 0);
    assert!(handle_update_config_response(&Response::ConfigUpdated));
    assert!(!handle_update_config_response(&Response::RigidBodyHandles(vec![])));
}

#[test]
fn writeback_suppresses_equal_velocities() {
    // Three tracked entities: one whose velocity changed, one whose
    // velocity is equal to the result, one with no handle at all.  The
    // write count equals the number that actually differ — one — not the
    // number of entities.
    let mut world = FrameWorld {
        entities: vec![
            FrameEntity { body_handle: Some(0), velocity: vel(0, 0, 0), ..entity(1) },
            FrameEntity { body_handle: Some(1), velocity: vel(5, 5, 5), ..entity(2) },
            entity(3),
        ],
    };
    let result = Response::SimulationResult(vec![
        SimEntry { handle: 0, pose: pose_at(1, 2, 3), velocity: vel(9, 9, 9) },
        SimEntry { handle: 1, pose: pose_at(4, 5, 6), velocity: vel(5, 5, 5) },
    ]);
    let written = handle_simulate_step_response(&mut world, &result);
    assert_eq!(written, 1);
    // Poses are written for every tracked entity; velocities end equal to
    // the result either way.
    assert_eq!(world.entities[0].pose, pose_at(1, 2, 3));
    assert_eq!(world.entities[0].velocity, vel(9, 9, 9));
    assert_eq!(world.entities[1].pose, pose_at(4, 5, 6));
    assert_eq!(world.entities[1].velocity, vel(5, 5, 5));
    assert_eq!(world.entities[2].pose, pose_at(0, 0, 0));
}

#[test]
fn bulk_response_dispatches_in_receipt_order() {
    let mut world = FrameWorld {
        entities: vec![FrameEntity { body_seed: Some(body_seed()), ..entity(1) }],
    };
    let bulk = Response::BulkResponse(vec![
        Response::ConfigUpdated,
        Response::RigidBodyHandles(vec![(1, 0)]),
        Response::ColliderHandles(vec![(1, 0)]),
        Response::SimulationResult(vec![SimEntry {
            handle: 0,
            pose: pose_at(7, 8, 9),
            velocity: vel(1, 0, 0),
        }]),
    ]);
    let written = process_responses(&mut world, &bulk);
    // The handle recorded by the second element is already visible to the
    // fourth: the writeback found the entity and wrote its velocity.
    assert_eq!(written, 1);
    assert_eq!(world.entities[0].body_handle, Some(0));
    assert_eq!(world.entities[0].collider_handle, Some(0));
    assert_eq!(world.entities[0].pose, pose_at(7, 8, 9));
    assert_eq!(world.entities[0].velocity, vel(1, 0, 0));
}
