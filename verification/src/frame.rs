//! The frame-side synchronization layer.  Once per frame the observer
//! scans its entities for bodies and colliders that still lack a backend
//! handle, queues creation requests, queues one step request, and — when
//! the responses arrive — records the returned handles and writes poses
//! and velocities back, never overwriting a velocity with an equal value.
//!
//! In the batching arrangement the queued requests are flattened into one
//! bulk request per frame and the bulk response is dispatched back to the
//! matching handler, in order.

use vstd::prelude::*;

use crate::protocol::AdditionalMassProperties;
use crate::protocol::BodyKind;
use crate::protocol::ColliderMassProperties;
use crate::protocol::Config;
use crate::protocol::CreatedBody;
use crate::protocol::CreatedCollider;
use crate::protocol::Friction;
use crate::protocol::Pose;
use crate::protocol::Request;
use crate::protocol::Response;
use crate::protocol::Restitution;
use crate::protocol::ShapeKind;
use crate::protocol::SimEntry;
use crate::protocol::StepArgs;
use crate::protocol::Velocity;
use crate::protocol::wf_req_elem;
use crate::protocol::wf_request;

verus! {

/// What an entity needs from the backend to get a body.
#[derive(Clone, Copy, PartialEq, Eq, Structural, Debug)]
pub struct BodySeed {
    pub body: BodyKind,
    pub transform: Option<Pose>,
    pub additional_mass_properties: Option<AdditionalMassProperties>,
}

/// What an entity needs from the backend to get a collider.
#[derive(Clone, Copy, PartialEq, Eq, Structural, Debug)]
pub struct ColliderSeed {
    pub shape: ShapeKind,
    pub transform: Option<Pose>,
    pub sensor: Option<bool>,
    pub mass_properties: Option<ColliderMassProperties>,
    pub friction: Option<Friction>,
    pub restitution: Option<Restitution>,
}

/// One observed entity: its stable id, what physics it wants, which
/// handles it has so far, and the pose and velocity the frame loop sees.
#[derive(Clone, Copy, PartialEq, Eq, Structural, Debug)]
pub struct FrameEntity {
    pub entity: u64,
    pub body_seed: Option<BodySeed>,
    pub collider_seed: Option<ColliderSeed>,
    pub body_handle: Option<u64>,
    pub collider_handle: Option<u64>,
    pub pose: Pose,
    pub velocity: Velocity,
}

/// The scene state the frame side reads and writes each frame.
pub struct FrameWorld {
    pub entities: Vec<FrameEntity>,
}

/// How the frame side talks to the backend: whether queued requests are
/// flattened into one bulk request per frame, and whether frames are
/// compressed on the wire.
pub struct RapierPhysicsPluginConfiguration {
    pub bulk_requests: bool,
    pub compression: bool,
}

impl Default for RapierPhysicsPluginConfiguration {
    /// Both batching and compression are on unless turned off.
    fn default() -> (r: RapierPhysicsPluginConfiguration)
        ensures
            r.bulk_requests,
            r.compression,
    {
        RapierPhysicsPluginConfiguration { bulk_requests: true, compression: true }
    }
}

/// Requests queued during a frame, flattened into one bulk request at the
/// frame's end.
pub struct RequestQueue(pub Vec<Request>);

impl Default for RequestQueue {
    fn default() -> (r: RequestQueue)
        ensures
            r.0@.len() == 0,
    {
        RequestQueue(Vec::new())
    }
}

/// Every queued request is a plain item, so the flattened bulk request is
/// well formed.
pub open spec fn wf_queue(q: RequestQueue) -> bool {
    forall|i: int| 0 <= i < q.0@.len() ==> wf_req_elem(#[trigger] q.0@[i])
}

/// An entity that wants a body and has none yet.
pub open spec fn needs_body(e: FrameEntity) -> bool {
    e.body_seed is Some && e.body_handle is None
}

/// The descriptor built for such an entity.
pub open spec fn body_descriptor(e: FrameEntity) -> CreatedBody {
    CreatedBody {
        id: e.entity,
        body: e.body_seed->0.body,
        transform: e.body_seed->0.transform,
        additional_mass_properties: e.body_seed->0.additional_mass_properties,
    }
}

/// The body descriptors a scan of the world produces, in entity order.
pub open spec fn pending_bodies(s: Seq<FrameEntity>) -> Seq<CreatedBody>
    decreases s.len(),
{
    if s.len() == 0 {
        Seq::empty()
    } else if needs_body(s[0]) {
        seq![body_descriptor(s[0])] + pending_bodies(s.skip(1))
    } else {
        pending_bodies(s.skip(1))
    }
}

/// An entity that wants a collider and has none yet.
pub open spec fn needs_collider(e: FrameEntity) -> bool {
    e.collider_seed is Some && e.collider_handle is None
}

/// The descriptor built for such an entity.
pub open spec fn collider_descriptor(e: FrameEntity) -> CreatedCollider {
    CreatedCollider {
        id: e.entity,
        shape: e.collider_seed->0.shape,
        transform: e.collider_seed->0.transform,
        sensor: e.collider_seed->0.sensor,
        mass_properties: e.collider_seed->0.mass_properties,
        friction: e.collider_seed->0.friction,
        restitution: e.collider_seed->0.restitution,
    }
}

/// The collider descriptors a scan of the world produces, in entity order.
pub open spec fn pending_colliders(s: Seq<FrameEntity>) -> Seq<CreatedCollider>
    decreases s.len(),
{
    if s.len() == 0 {
        Seq::empty()
    } else if needs_collider(s[0]) {
        seq![collider_descriptor(s[0])] + pending_colliders(s.skip(1))
    } else {
        pending_colliders(s.skip(1))
    }
}

/// Queue an `UpdateConfig` when — and only when — the configuration
/// changed since the last frame.
pub fn update_config(config_changed: bool, config: &Config, queue: &mut RequestQueue)
    ensures
        config_changed ==> final(queue).0@ == old(queue).0@.push(Request::UpdateConfig(*config)),
        !config_changed ==> final(queue).0@ == old(queue).0@,
        wf_queue(*old(queue)) ==> wf_queue(*final(queue)),
{
    if config_changed {
        queue.0.push(Request::UpdateConfig(*config));
    }
}

/// Scan for entities lacking a body handle and queue one `CreateBodies`
/// request for them; queue nothing when the scan finds nothing.
pub fn init_rigid_bodies(world: &FrameWorld, queue: &mut RequestQueue)
    ensures
        pending_bodies(world.entities@).len() == 0 ==> final(queue).0@ == old(queue).0@,
        pending_bodies(world.entities@).len() > 0 ==> (final(queue).0@.len() == old(
            queue,
        ).0@.len() + 1 && final(queue).0@.take(old(queue).0@.len() as int) == old(queue).0@ && (
        final(queue).0@.last() matches Request::CreateBodies(v) && v@ == pending_bodies(
            world.entities@,
        ))),
        wf_queue(*old(queue)) ==> wf_queue(*final(queue)),
{
    let mut created: Vec<CreatedBody> = Vec::new();
    let n = world.entities.len();
    proof {
        assert(world.entities@.skip(0) =~= world.entities@);
    }
    let mut i: usize = 0;
    while i < n
        invariant
            i <= n,
            n == world.entities@.len(),
            pending_bodies(world.entities@) == created@ + pending_bodies(
                world.entities@.skip(i as int),
            ),
        decreases n - i,
    {
        let ghost rem = world.entities@.skip(i as int);
        proof {
            assert(rem[0] == world.entities@[i as int]);
            assert(rem.skip(1) =~= world.entities@.skip(i + 1));
        }
        let e = &world.entities[i];
        if e.body_seed.is_some() && e.body_handle.is_none() {
            let seed = e.body_seed.unwrap();
            created.push(
                CreatedBody {
                    id: e.entity,
                    body: seed.body,
                    transform: seed.transform,
                    additional_mass_properties: seed.additional_mass_properties,
                },
            );
            proof {
                assert(created@ + pending_bodies(world.entities@.skip(i + 1)) =~= created@.subrange(
                    0,
                    created@.len() - 1,
                ) + (seq![body_descriptor(rem[0])] + pending_bodies(world.entities@.skip(i + 1))));
            }
        }
        i = i + 1;
    }
    proof {
        assert(world.entities@.skip(n as int) =~= Seq::<FrameEntity>::empty());
        assert(created@ + Seq::<CreatedBody>::empty() =~= created@);
    }
    if created.len() > 0 {
        queue.0.push(Request::CreateBodies(created));
        proof {
            assert(final(queue).0@.take(old(queue).0@.len() as int) =~= old(queue).0@);
        }
    }
}

/// Scan for entities lacking a collider handle and queue one
/// `CreateColliders` request for them; queue nothing when the scan finds
/// nothing.  Runs after `init_rigid_bodies`, so parent bodies created
/// this frame are already visible to the backend when it resolves
/// parenting.
pub fn init_colliders(world: &FrameWorld, queue: &mut RequestQueue)
    ensures
        pending_colliders(world.entities@).len() == 0 ==> final(queue).0@ == old(queue).0@,
        pending_colliders(world.entities@).len() > 0 ==> (final(queue).0@.len() == old(
            queue,
        ).0@.len() + 1 && final(queue).0@.take(old(queue).0@.len() as int) == old(queue).0@ && (
        final(queue).0@.last() matches Request::CreateColliders(v) && v@ == pending_colliders(
            world.entities@,
        ))),
        wf_queue(*old(queue)) ==> wf_queue(*final(queue)),
{
    let mut created: Vec<CreatedCollider> = Vec::new();
    let n = world.entities.len();
    proof {
        assert(world.entities@.skip(0) =~= world.entities@);
    }
    let mut i: usize = 0;
    while i < n
        invariant
            i <= n,
            n == world.entities@.len(),
            pending_colliders(world.entities@) == created@ + pending_colliders(
                world.entities@.skip(i as int),
            ),
        decreases n - i,
    {
        let ghost rem = world.entities@.skip(i as int);
        proof {
            assert(rem[0] == world.entities@[i as int]);
            assert(rem.skip(1) =~= world.entities@.skip(i + 1));
        }
        let e = &world.entities[i];
        if e.collider_seed.is_some() && e.collider_handle.is_none() {
            let seed = e.collider_seed.unwrap();
            created.push(
                CreatedCollider {
                    id: e.entity,
                    shape: seed.shape,
                    transform: seed.transform,
                    sensor: seed.sensor,
                    mass_properties: seed.mass_properties,
                    friction: seed.friction,
                    restitution: seed.restitution,
                },
            );
            proof {
                assert(created@ + pending_colliders(world.entities@.skip(i + 1)) =~= created@
                    .subrange(0, created@.len() - 1) + (seq![collider_descriptor(rem[0])]
                    + pending_colliders(world.entities@.skip(i + 1))));
            }
        }
        i = i + 1;
    }
    proof {
        assert(world.entities@.skip(n as int) =~= Seq::<FrameEntity>::empty());
        assert(created@ + Seq::<CreatedCollider>::empty() =~= created@);
    }
    if created.len() > 0 {
        queue.0.push(Request::CreateColliders(created));
        proof {
            assert(final(queue).0@.take(old(queue).0@.len() as int) =~= old(queue).0@);
        }
    }
}

/// Queue the frame's one step request.
pub fn simulate_step(args: &StepArgs, queue: &mut RequestQueue)
    ensures
        final(queue).0@ == old(queue).0@.push(Request::SimulateStep(*args)),
        wf_queue(*old(queue)) ==> wf_queue(*final(queue)),
{
    queue.0.push(Request::SimulateStep(*args));
}

/// Flatten the frame's queue into one bulk request.
pub fn flush_queue(queue: RequestQueue) -> (r: Request)
    requires
        wf_queue(queue),
    ensures
        r matches Request::BulkRequest(v) && v@ == queue.0@,
        wf_request(r),
{
    let _len = queue.0.len();
    Request::BulkRequest(queue.0)
}

/// An entity after one handle pair has been recorded: every entity the
/// pair names gets the handle.
pub open spec fn record_body_pair(e: FrameEntity, pair: (u64, u64)) -> FrameEntity {
    if e.entity == pair.0 {
        FrameEntity { body_handle: Option::Some(pair.1), ..e }
    } else {
        e
    }
}

/// The world after a list of body-handle pairs has been recorded.
pub open spec fn record_body_pairs(s: Seq<FrameEntity>, pairs: Seq<(u64, u64)>) -> Seq<FrameEntity>
    decreases pairs.len(),
{
    if pairs.len() == 0 {
        s
    } else {
        record_body_pairs(s.map_values(|e: FrameEntity| record_body_pair(e, pairs[0])), pairs.skip(1))
    }
}

pub open spec fn record_collider_pair(e: FrameEntity, pair: (u64, u64)) -> FrameEntity {
    if e.entity == pair.0 {
        FrameEntity { collider_handle: Option::Some(pair.1), ..e }
    } else {
        e
    }
}

pub open spec fn record_collider_pairs(s: Seq<FrameEntity>, pairs: Seq<(u64, u64)>) -> Seq<
    FrameEntity,
>
    decreases pairs.len(),
{
    if pairs.len() == 0 {
        s
    } else {
        record_collider_pairs(
            s.map_values(|e: FrameEntity| record_collider_pair(e, pairs[0])),
            pairs.skip(1),
        )
    }
}

/// Record the body handles a `RigidBodyHandles` response returns, each
/// against its entity id.  Any other response variant is a protocol
/// mismatch and changes nothing.
pub fn handle_init_rigid_bodies_response(world: &mut FrameWorld, resp: &Response)
    ensures
        (resp matches Response::RigidBodyHandles(pairs) ==> final(world).entities@
            == record_body_pairs(old(world).entities@, pairs@)),
        !(*resp is RigidBodyHandles) ==> final(world).entities@ == old(world).entities@,
{
    match resp {
        Response::RigidBodyHandles(pairs) => {
            let np = pairs.len();
            proof {
                assert(pairs@.skip(0) =~= pairs@);
            }
            let mut k: usize = 0;
            while k < np
                invariant
                    k <= np,
                    np == pairs@.len(),
                    record_body_pairs(old(world).entities@, pairs@) == record_body_pairs(
                        world.entities@,
                        pairs@.skip(k as int),
                    ),
                decreases np - k,
            {
                let ghost rem = pairs@.skip(k as int);
                let ghost before = world.entities@;
                proof {
                    assert(rem[0] == pairs@[k as int]);
                    assert(rem.skip(1) =~= pairs@.skip(k + 1));
                }
                let pair = pairs[k];
                let n = world.entities.len();
                let mut i: usize = 0;
                while i < n
                    invariant
                        i <= n,
                        n == world.entities@.len(),
                        before.len() == n,
                        forall|j: int|
                            0 <= j < i ==> world.entities@[j] == record_body_pair(
                                before[j],
                                pair,
                            ),
                        forall|j: int| i <= j < n ==> world.entities@[j] == before[j],
                    decreases n - i,
                {
                    if world.entities[i].entity == pair.0 {
                        let e = world.entities[i];
                        world.entities.set(i, FrameEntity { body_handle: Some(pair.1), ..e });
                    }
                    i = i + 1;
                }
                proof {
                    assert(world.entities@ =~= before.map_values(
                        |e: FrameEntity| record_body_pair(e, pair),
                    ));
                }
                k = k + 1;
            }
            proof {
                assert(pairs@.skip(np as int) =~= Seq::<(u64, u64)>::empty());
            }
        },
        _ => {
        },
    }
}

/// Record the collider handles a `ColliderHandles` response returns.
pub fn handle_init_colliders_response(world: &mut FrameWorld, resp: &Response)
    ensures
        (resp matches Response::ColliderHandles(pairs) ==> final(world).entities@
            == record_collider_pairs(old(world).entities@, pairs@)),
        !(*resp is ColliderHandles) ==> final(world).entities@ == old(world).entities@,
{
    match resp {
        Response::ColliderHandles(pairs) => {
            let np = pairs.len();
            proof {
                assert(pairs@.skip(0) =~= pairs@);
            }
            let mut k: usize = 0;
            while k < np
                invariant
                    k <= np,
                    np == pairs@.len(),
                    record_collider_pairs(old(world).entities@, pairs@) == record_collider_pairs(
                        world.entities@,
                        pairs@.skip(k as int),
                    ),
                decreases np - k,
            {
                let ghost rem = pairs@.skip(k as int);
                let ghost before = world.entities@;
                proof {
                    assert(rem[0] == pairs@[k as int]);
                    assert(rem.skip(1) =~= pairs@.skip(k + 1));
                }
                let pair = pairs[k];
                let n = world.entities.len();
                let mut i: usize = 0;
                while i < n
                    invariant
                        i <= n,
                        n == world.entities@.len(),
                        before.len() == n,
                        forall|j: int|
                            0 <= j < i ==> world.entities@[j] == record_collider_pair(
                                before[j],
                                pair,
                            ),
                        forall|j: int| i <= j < n ==> world.entities@[j] == before[j],
                    decreases n - i,
                {
                    if world.entities[i].entity == pair.0 {
                        let e = world.entities[i];
                        world.entities.set(i, FrameEntity { collider_handle: Some(pair.1), ..e });
                    }
                    i = i + 1;
                }
                proof {
                    assert(world.entities@ =~= before.map_values(
                        |e: FrameEntity| record_collider_pair(e, pair),
                    ));
                }
                k = k + 1;
            }
            proof {
                assert(pairs@.skip(np as int) =~= Seq::<(u64, u64)>::empty());
            }
        },
        _ => {
        },
    }
}

/// The first result entry for a handle, if any.
pub open spec fn entry_for(entries: Seq<SimEntry>, h: u64) -> Option<SimEntry>
    decreases entries.len(),
{
    if entries.len() == 0 {
        Option::None
    } else if entries[0].handle == h {
        Option::Some(entries[0])
    } else {
        entry_for(entries.skip(1), h)
    }
}

/// What one entity looks like after writeback: an entity with a recorded
/// body handle takes the pose and velocity its body's result entry holds;
/// everything else stands untouched.
pub open spec fn write_back_entity(e: FrameEntity, entries: Seq<SimEntry>) -> FrameEntity {
    match e.body_handle {
        Option::Some(h) => match entry_for(entries, h) {
            Option::Some(en) => FrameEntity { pose: en.pose, velocity: en.velocity, ..e },
            Option::None => e,
        },
        Option::None => e,
    }
}

/// Whether writeback actually writes the entity's velocity: only when the
/// new value differs from the stored one.
pub open spec fn velocity_write_needed(e: FrameEntity, entries: Seq<SimEntry>) -> bool {
    match e.body_handle {
        Option::Some(h) => match entry_for(entries, h) {
            Option::Some(en) => en.velocity != e.velocity,
            Option::None => false,
        },
        Option::None => false,
    }
}

/// How many entities writeback writes a velocity into.
pub open spec fn velocity_writes(s: Seq<FrameEntity>, entries: Seq<SimEntry>) -> nat
    decreases s.len(),
{
    if s.len() == 0 {
        0
    } else {
        (if velocity_write_needed(s[0], entries) {
            1nat
        } else {
            0nat
        }) + velocity_writes(s.skip(1), entries)
    }
}

proof fn lemma_velocity_writes_push(s: Seq<FrameEntity>, e: FrameEntity, entries: Seq<SimEntry>)
    ensures
        velocity_writes(s.push(e), entries) == velocity_writes(s, entries) + (
        if velocity_write_needed(e, entries) {
            1nat
        } else {
            0nat
        }),
    decreases s.len(),
{
    if s.len() == 0 {
        reveal_with_fuel(velocity_writes, 2);
        assert(s.push(e)[0] == e);
        assert(s.push(e).skip(1) =~= Seq::<FrameEntity>::empty());
    } else {
        lemma_velocity_writes_push(s.skip(1), e, entries);
        assert(s.push(e)[0] == s[0]);
        assert(s.push(e).skip(1) =~= s.skip(1).push(e));
    }
}

fn find_entry(entries: &Vec<SimEntry>, h: u64) -> (r: Option<SimEntry>)
    ensures
        r == entry_for(entries@, h),
{
    let n = entries.len();
    proof {
        assert(entries@.skip(0) =~= entries@);
    }
    let mut i: usize = 0;
    while i < n
        invariant
            i <= n,
            n == entries@.len(),
            entry_for(entries@, h) == entry_for(entries@.skip(i as int), h),
        decreases n - i,
    {
        proof {
            assert(entries@.skip(i as int)[0] == entries@[i as int]);
            assert(entries@.skip(i as int).skip(1) =~= entries@.skip(i + 1));
        }
        if entries[i].handle == h {
            return Some(entries[i]);
        }
        i = i + 1;
    }
    proof {
        assert(entries@.skip(n as int) =~= Seq::<SimEntry>::empty());
    }
    None
}

/// Write a simulation result back into the world: every tracked entity
/// with a recorded body handle takes its new pose, and takes its new
/// velocity only if that velocity differs from the stored one — equal
/// values are never rewritten, so nothing is marked as changed without
/// having changed.  Returns how many velocities were written, which
/// equals the number of entities whose velocity actually differed.  Any
/// other response variant is a protocol mismatch and changes nothing.
pub fn handle_simulate_step_response(world: &mut FrameWorld, resp: &Response) -> (written: usize)
    ensures
        (resp matches Response::SimulationResult(entries) ==> (final(world).entities@ == old(
            world,
        ).entities@.map_values(|e: FrameEntity| write_back_entity(e, entries@)) && written
            == velocity_writes(old(world).entities@, entries@))),
        !(*resp is SimulationResult) ==> final(world).entities@ == old(world).entities@ && written
            == 0,
{
    match resp {
        Response::SimulationResult(entries) => {
            let ghost before = world.entities@;
            let mut written: usize = 0;
            let n = world.entities.len();
            proof {
                assert(before.take(0) =~= Seq::<FrameEntity>::empty());
            }
            let mut i: usize = 0;
            while i < n
                invariant
                    i <= n,
                    n == world.entities@.len(),
                    before.len() == n,
                    written == velocity_writes(before.take(i as int), entries@),
                    written <= i,
                    forall|j: int|
                        0 <= j < i ==> world.entities@[j] == write_back_entity(
                            before[j],
                            entries@,
                        ),
                    forall|j: int| i <= j < n ==> world.entities@[j] == before[j],
                decreases n - i,
            {
                let e = world.entities[i];
                match e.body_handle {
                    Some(h) => {
                        match find_entry(entries, h) {
                            Some(en) => {
                                let new_velocity = if en.velocity != e.velocity {
                                    written = written + 1;
                                    en.velocity
                                } else {
                                    e.velocity
                                };
                                world.entities.set(
                                    i,
                                    FrameEntity {
                                        pose: en.pose,
                                        velocity: new_velocity,
                                        ..e
                                    },
                                );
                            },
                            None => {
                            },
                        }
                    },
                    None => {
                    },
                }
                i = i + 1;
                proof {
                    lemma_velocity_writes_push(before.take(i - 1), before[i - 1], entries@);
                    assert(before.take(i - 1).push(before[i - 1]) =~= before.take(i as int));
                }
            }
            proof {
                assert(before.take(n as int) =~= before);
                assert(world.entities@ =~= before.map_values(
                    |e: FrameEntity| write_back_entity(e, entries@),
                ));
            }
            written
        },
        _ => 0,
    }
}

/// Nothing of the world depends on a configuration acknowledgement; a
/// response of any other variant in its place is a protocol mismatch.
/// Either way the world stands unchanged; the caller may log.
pub fn handle_update_config_response(resp: &Response) -> (acknowledged: bool)
    ensures
        acknowledged == (*resp is ConfigUpdated),
{
    match resp {
        Response::ConfigUpdated => true,
        _ => false,
    }
}

/// The world after one response has been dispatched to its handler.
pub open spec fn apply_response(s: Seq<FrameEntity>, r: Response) -> Seq<FrameEntity> {
    match r {
        Response::RigidBodyHandles(pairs) => record_body_pairs(s, pairs@),
        Response::ColliderHandles(pairs) => record_collider_pairs(s, pairs@),
        Response::SimulationResult(entries) => s.map_values(
            |e: FrameEntity| write_back_entity(e, entries@),
        ),
        _ => s,
    }
}

/// The world after a whole bulk response, element by element in receipt
/// order.
pub open spec fn apply_responses(s: Seq<FrameEntity>, rs: Seq<Response>) -> Seq<FrameEntity>
    decreases rs.len(),
{
    if rs.len() == 0 {
        s
    } else {
        apply_responses(apply_response(s, rs[0]), rs.skip(1))
    }
}

/// Dispatch each element of a bulk response to the handler for its kind,
/// in receipt order.  Returns how many velocities the simulation results
/// wrote.  A response that is not a bulk response is a protocol mismatch
/// and changes nothing.
pub fn process_responses(world: &mut FrameWorld, resp: &Response) -> (written: usize)
    ensures
        (resp matches Response::BulkResponse(rs) ==> final(world).entities@ == apply_responses(
            old(world).entities@,
            rs@,
        )),
        !(*resp is BulkResponse) ==> final(world).entities@ == old(world).entities@,
{
    match resp {
        Response::BulkResponse(rs) => {
            let n = rs.len();
            proof {
                assert(rs@.skip(0) =~= rs@);
            }
            let mut written: usize = 0;
            let mut i: usize = 0;
            while i < n
                invariant
                    i <= n,
                    n == rs@.len(),
                    apply_responses(old(world).entities@, rs@) == apply_responses(
                        world.entities@,
                        rs@.skip(i as int),
                    ),
                decreases n - i,
            {
                let ghost rem = rs@.skip(i as int);
                proof {
                    assert(rem[0] == rs@[i as int]);
                    assert(rem.skip(1) =~= rs@.skip(i + 1));
                }
                let r = &rs[i];
                match r {
                    Response::ConfigUpdated => {
                        let _ack = handle_update_config_response(r);
                    },
                    Response::RigidBodyHandles(_) => {
                        handle_init_rigid_bodies_response(world, r);
                    },
                    Response::ColliderHandles(_) => {
                        handle_init_colliders_response(world, r);
                    },
                    Response::SimulationResult(_) => {
                        let w = handle_simulate_step_response(world, r);
                        if written <= usize::MAX - w {
                            written = written + w;
                        }
                    },
                    Response::BulkResponse(_) => {
                    },
                }
                i = i + 1;
            }
            proof {
                assert(rs@.skip(n as int) =~= Seq::<Response>::empty());
            }
            written
        },
        _ => 0,
    }
}

} // verus!
