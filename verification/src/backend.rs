//! The simulation backend: owns the body and collider store, the handle
//! registry and the active configuration, and answers one request at a
//! time.  `process_request` is a pure function of the backend's state and
//! the request — the spec interpreter `process` says exactly what it does,
//! and the laws at the bottom of this file are proved against it.
//!
//! The numerical model is a deterministic fixed-point kinematic step:
//! dynamic bodies gain `gravity * dt` of velocity and move by
//! `velocity * dt`; velocity-kinematic bodies move without gaining
//! velocity; everything else stands still.  Collision response and
//! constraint solving are the physics engine's own affair and out of
//! scope here.

use vstd::prelude::*;

use crate::protocol::BodyKind;
use crate::protocol::Config;
use crate::protocol::CreatedBody;
use crate::protocol::CreatedCollider;
use crate::protocol::Pose;
use crate::protocol::ReqItem;
use crate::protocol::ReqModel;
use crate::protocol::Request;
use crate::protocol::RespItem;
use crate::protocol::RespModel;
use crate::protocol::Response;
use crate::protocol::ShapeKind;
use crate::protocol::SimEntry;
use crate::protocol::StepArgs;
use crate::protocol::Vect;
use crate::protocol::Velocity;
use crate::protocol::identity_pose;
use crate::protocol::req_view;
use crate::protocol::resp_view;
use crate::protocol::wf_req_elem;
use crate::protocol::wf_request;
use crate::protocol::wf_resp_elem;
use crate::protocol::wf_response;
use crate::registry::HandleRegistry;

verus! {

// ---------------------------------------------------------------------------
// Fixed-point arithmetic: saturating addition, and scaling by microseconds
// ---------------------------------------------------------------------------

/// One million: the number of microseconds in a second, the unit in which
/// elapsed time arrives.
pub open spec fn micros_per_second() -> int {
    1000000
}

pub open spec fn clip_i64(x: int) -> i64 {
    if x > i64::MAX {
        i64::MAX
    } else if x < i64::MIN {
        i64::MIN
    } else {
        x as i64
    }
}

pub open spec fn sat_add_spec(a: i64, b: i64) -> i64 {
    clip_i64(a + b)
}

pub open spec fn abs_i64(v: i64) -> int {
    if v >= 0 {
        v as int
    } else {
        0 - v
    }
}

/// `v` taken as units-per-second, scaled by `dt` microseconds, rounded
/// toward zero and saturated.
pub open spec fn scale_spec(v: i64, dt: u64) -> i64 {
    if v >= 0 {
        clip_i64((abs_i64(v) * dt) / micros_per_second())
    } else {
        clip_i64(0 - ((abs_i64(v) * dt) / micros_per_second()))
    }
}

fn sat_add(a: i64, b: i64) -> (r: i64)
    ensures
        r == sat_add_spec(a, b),
{
    let s: i128 = a as i128 + b as i128;
    if s > i64::MAX as i128 {
        i64::MAX
    } else if s < i64::MIN as i128 {
        i64::MIN
    } else {
        s as i64
    }
}

fn scale_by_micros(v: i64, dt: u64) -> (r: i64)
    ensures
        r == scale_spec(v, dt),
{
    let neg: bool = v < 0;
    let mag_i: i128 = if neg {
        -(v as i128)
    } else {
        v as i128
    };
    let mag: u128 = mag_i as u128;
    assert(mag == abs_i64(v));
    assert(mag * (dt as u128) < 0x80000000000000000000000000000000) by (nonlinear_arith)
        requires
            mag <= 0x8000000000000000,
            (dt as u128) < 0x10000000000000000,
    ;
    let prod: u128 = mag * (dt as u128);
    let q: u128 = prod / 1000000u128;
    assert(q == (abs_i64(v) * dt) / micros_per_second()) by {
        assert(prod == abs_i64(v) * dt);
    }
    if neg {
        if q >= 0x8000000000000000u128 {
            i64::MIN
        } else {
            -(q as i64)
        }
    } else {
        if q > i64::MAX as u128 {
            i64::MAX
        } else {
            q as i64
        }
    }
}

pub open spec fn vect_sat_add_spec(a: Vect, b: Vect) -> Vect {
    Vect { x: sat_add_spec(a.x, b.x), y: sat_add_spec(a.y, b.y), z: sat_add_spec(a.z, b.z) }
}

pub open spec fn vect_scale_spec(v: Vect, dt: u64) -> Vect {
    Vect { x: scale_spec(v.x, dt), y: scale_spec(v.y, dt), z: scale_spec(v.z, dt) }
}

fn vect_sat_add(a: &Vect, b: &Vect) -> (r: Vect)
    ensures
        r == vect_sat_add_spec(*a, *b),
{
    Vect { x: sat_add(a.x, b.x), y: sat_add(a.y, b.y), z: sat_add(a.z, b.z) }
}

fn vect_scale(v: &Vect, dt: u64) -> (r: Vect)
    ensures
        r == vect_scale_spec(*v, dt),
{
    Vect { x: scale_by_micros(v.x, dt), y: scale_by_micros(v.y, dt), z: scale_by_micros(v.z, dt) }
}

// ---------------------------------------------------------------------------
// The backend's state and its mathematical model
// ---------------------------------------------------------------------------

/// One live body.
#[derive(Clone, Copy, PartialEq, Eq, Structural, Debug)]
pub struct BodyState {
    pub handle: u64,
    pub entity: u64,
    pub kind: BodyKind,
    pub pose: Pose,
    pub velocity: Velocity,
}

/// Where a collider stands: glued to a body, or free at its own pose.
/// The backend attaches child colliders at the identity offset, so an
/// attached collider shares its parent body's pose.
#[derive(Clone, Copy, PartialEq, Eq, Structural, Debug)]
pub enum Attachment {
    Attached { body: u64 },
    Free { pose: Pose },
}

/// One live collider.
#[derive(Clone, Copy, PartialEq, Eq, Structural, Debug)]
pub struct ColliderState {
    pub handle: u64,
    pub entity: u64,
    pub shape: ShapeKind,
    pub sensor: bool,
    pub attachment: Attachment,
}

/// The mathematical model of a backend.
pub struct BackendView {
    pub bodies: Seq<BodyState>,
    pub colliders: Seq<ColliderState>,
    pub body_map: Map<u64, u64>,
    pub collider_map: Map<u64, u64>,
    pub config: Config,
    pub next_body_handle: u64,
    pub next_collider_handle: u64,
}

/// The view of a freshly started backend.
pub open spec fn initial_view(config: Config) -> BackendView {
    BackendView {
        bodies: Seq::empty(),
        colliders: Seq::empty(),
        body_map: Map::empty(),
        collider_map: Map::empty(),
        config: config,
        next_body_handle: 0,
        next_collider_handle: 0,
    }
}

// ---------------------------------------------------------------------------
// The spec interpreter: what each request does to the model
// ---------------------------------------------------------------------------

/// Create one body: assign the next handle, record it, remember the body.
pub open spec fn create_one_body(v: BackendView, b: CreatedBody) -> (BackendView, (u64, u64)) {
    let handle = v.next_body_handle;
    let state = BodyState {
        handle: handle,
        entity: b.id,
        kind: b.body,
        pose: (match b.transform {
            Option::Some(p) => p,
            Option::None => identity_pose(),
        }),
        velocity: Velocity { linvel: Vect { x: 0, y: 0, z: 0 }, angvel: Vect { x: 0, y: 0, z: 0 } },
    };
    (
        BackendView {
            bodies: v.bodies.push(state),
            body_map: v.body_map.insert(b.id, handle),
            next_body_handle: (v.next_body_handle + 1) as u64,
            ..v
        },
        (b.id, handle),
    )
}

/// Create a batch of bodies in order.
pub open spec fn create_bodies_fold(v: BackendView, s: Seq<CreatedBody>) -> (
    BackendView,
    Seq<(u64, u64)>,
)
    decreases s.len(),
{
    if s.len() == 0 {
        (v, Seq::empty())
    } else {
        let (v1, pair) = create_one_body(v, s[0]);
        let (v2, rest) = create_bodies_fold(v1, s.skip(1));
        (v2, seq![pair] + rest)
    }
}

/// Create one collider.  An entity that already has a body handle gets its
/// collider attached to that body; otherwise the collider stands free at
/// its declared pose, or at the identity if none was declared.
pub open spec fn create_one_collider(v: BackendView, c: CreatedCollider) -> (
    BackendView,
    (u64, u64),
) {
    let handle = v.next_collider_handle;
    let attachment = if v.body_map.dom().contains(c.id) {
        Attachment::Attached { body: v.body_map[c.id] }
    } else {
        Attachment::Free {
            pose: (match c.transform {
                Option::Some(p) => p,
                Option::None => identity_pose(),
            }),
        }
    };
    let state = ColliderState {
        handle: handle,
        entity: c.id,
        shape: c.shape,
        sensor: (match c.sensor {
            Option::Some(b) => b,
            Option::None => false,
        }),
        attachment: attachment,
    };
    (
        BackendView {
            colliders: v.colliders.push(state),
            collider_map: v.collider_map.insert(c.id, handle),
            next_collider_handle: (v.next_collider_handle + 1) as u64,
            ..v
        },
        (c.id, handle),
    )
}

/// Create a batch of colliders in order.
pub open spec fn create_colliders_fold(v: BackendView, s: Seq<CreatedCollider>) -> (
    BackendView,
    Seq<(u64, u64)>,
)
    decreases s.len(),
{
    if s.len() == 0 {
        (v, Seq::empty())
    } else {
        let (v1, pair) = create_one_collider(v, s[0]);
        let (v2, rest) = create_colliders_fold(v1, s.skip(1));
        (v2, seq![pair] + rest)
    }
}

/// Advance one body by `dt` microseconds under the given gravity.
pub open spec fn step_body(b: BodyState, gravity: Vect, dt: u64) -> BodyState {
    match b.kind {
        BodyKind::Dynamic => {
            let new_linvel = vect_sat_add_spec(b.velocity.linvel, vect_scale_spec(gravity, dt));
            BodyState {
                pose: Pose {
                    translation: vect_sat_add_spec(
                        b.pose.translation,
                        vect_scale_spec(new_linvel, dt),
                    ),
                    ..b.pose
                },
                velocity: Velocity { linvel: new_linvel, ..b.velocity },
                ..b
            }
        },
        BodyKind::KinematicVelocityBased => BodyState {
            pose: Pose {
                translation: vect_sat_add_spec(
                    b.pose.translation,
                    vect_scale_spec(b.velocity.linvel, dt),
                ),
                ..b.pose
            },
            ..b
        },
        BodyKind::Fixed => b,
        BodyKind::KinematicPositionBased => b,
    }
}

/// The report for one body after a step.
pub open spec fn entry_of_body(b: BodyState) -> SimEntry {
    SimEntry { handle: b.handle, pose: b.pose, velocity: b.velocity }
}

/// Process one non-bulk request.
pub open spec fn process_item(v: BackendView, i: ReqItem) -> (BackendView, RespItem) {
    match i {
        ReqItem::UpdateConfig(c) => (BackendView { config: c, ..v }, RespItem::ConfigUpdated),
        ReqItem::CreateBodies(s) => {
            let (v2, pairs) = create_bodies_fold(v, s);
            (v2, RespItem::RigidBodyHandles(pairs))
        },
        ReqItem::CreateColliders(s) => {
            let (v2, pairs) = create_colliders_fold(v, s);
            (v2, RespItem::ColliderHandles(pairs))
        },
        ReqItem::SimulateStep(a) => {
            let stepped = v.bodies.map_values(|b: BodyState| step_body(b, a.gravity, a.dt_micros));
            (
                BackendView { bodies: stepped, ..v },
                RespItem::SimulationResult(stepped.map_values(|b: BodyState| entry_of_body(b))),
            )
        },
    }
}

/// Process a batch of non-bulk requests in order, each one on the state
/// the one before left behind.
pub open spec fn process_items(v: BackendView, s: Seq<ReqItem>) -> (BackendView, Seq<RespItem>)
    decreases s.len(),
{
    if s.len() == 0 {
        (v, Seq::empty())
    } else {
        let (v1, r) = process_item(v, s[0]);
        let (v2, rest) = process_items(v1, s.skip(1));
        (v2, seq![r] + rest)
    }
}

/// Process one request: a plain item directly, a bulk request as its items
/// in order, answered by one bulk response of the same length and order.
pub open spec fn process(v: BackendView, m: ReqModel) -> (BackendView, RespModel) {
    match m {
        ReqModel::Item(i) => {
            let (v2, r) = process_item(v, i);
            (v2, RespModel::Item(r))
        },
        ReqModel::Bulk(s) => {
            let (v2, rs) = process_items(v, s);
            (v2, RespModel::Bulk(rs))
        },
    }
}

/// Handle space left for one non-bulk request: the machine limit on how
/// many objects one backend can ever create.
pub open spec fn can_item(v: BackendView, i: ReqItem) -> bool {
    match i {
        ReqItem::UpdateConfig(_) => true,
        ReqItem::CreateBodies(s) => v.next_body_handle + s.len() <= u64::MAX,
        ReqItem::CreateColliders(s) => v.next_collider_handle + s.len() <= u64::MAX,
        ReqItem::SimulateStep(_) => true,
    }
}

pub open spec fn can_items(v: BackendView, s: Seq<ReqItem>) -> bool
    decreases s.len(),
{
    s.len() == 0 || (can_item(v, s[0]) && can_items(process_item(v, s[0]).0, s.skip(1)))
}

/// Handle space left for a whole request.
pub open spec fn can_process(v: BackendView, m: ReqModel) -> bool {
    match m {
        ReqModel::Item(i) => can_item(v, i),
        ReqModel::Bulk(s) => can_items(v, s),
    }
}

// ---------------------------------------------------------------------------
// The executable backend
// ---------------------------------------------------------------------------

/// The state a backend owns: one per connection or per worker thread,
/// never shared.
pub struct PhysicsBackend {
    bodies: Vec<BodyState>,
    colliders: Vec<ColliderState>,
    registry: HandleRegistry,
    config: Config,
    next_body_handle: u64,
    next_collider_handle: u64,
}

impl PhysicsBackend {
    /// The backend's mathematical model.
    pub closed spec fn model(&self) -> BackendView {
        BackendView {
            bodies: self.bodies@,
            colliders: self.colliders@,
            body_map: self.registry.body_map(),
            collider_map: self.registry.collider_map(),
            config: self.config,
            next_body_handle: self.next_body_handle,
            next_collider_handle: self.next_collider_handle,
        }
    }

    /// A fresh backend with no objects and the given configuration.
    pub fn new(config: Config) -> (r: PhysicsBackend)
        ensures
            r.model() == initial_view(config),
    {
        let r = PhysicsBackend {
            bodies: Vec::new(),
            colliders: Vec::new(),
            registry: HandleRegistry::new(),
            config: config,
            next_body_handle: 0,
            next_collider_handle: 0,
        };
        proof {
            assert(r.model().bodies =~= initial_view(config).bodies);
            assert(r.model().colliders =~= initial_view(config).colliders);
        }
        r
    }

    /// How many bodies are live.
    pub fn body_count(&self) -> (r: usize)
        ensures
            r == self.model().bodies.len(),
    {
        self.bodies.len()
    }

    fn apply_create_bodies(&mut self, list: &Vec<CreatedBody>) -> (r: Vec<(u64, u64)>)
        requires
            old(self).model().next_body_handle + list@.len() <= u64::MAX,
        ensures
            final(self).model() == create_bodies_fold(old(self).model(), list@).0,
            r@ == create_bodies_fold(old(self).model(), list@).1,
    {
        let ghost v0 = self.model();
        let mut r: Vec<(u64, u64)> = Vec::new();
        let n = list.len();
        proof {
            assert(list@.skip(0) =~= list@);
        }
        let mut i: usize = 0;
        while i < n
            invariant
                i <= n,
                n == list@.len(),
                self.model().next_body_handle + (n - i) <= u64::MAX,
                create_bodies_fold(v0, list@) == (
                    create_bodies_fold(self.model(), list@.skip(i as int)).0,
                    r@ + create_bodies_fold(self.model(), list@.skip(i as int)).1,
                ),
            decreases n - i,
        {
            let ghost vcur = self.model();
            let ghost rem = list@.skip(i as int);
            proof {
                assert(rem[0] == list@[i as int]);
                assert(rem.skip(1) =~= list@.skip(i + 1));
            }
            let b = &list[i];
            let handle = self.next_body_handle;
            let pose = match b.transform {
                Some(p) => p,
                None => Pose::identity(),
            };
            self.bodies.push(
                BodyState {
                    handle: handle,
                    entity: b.id,
                    kind: b.body,
                    pose: pose,
                    velocity: Velocity::zero(),
                },
            );
            self.registry.register_body(b.id, handle);
            self.next_body_handle = self.next_body_handle + 1;
            r.push((b.id, handle));
            i = i + 1;
            proof {
                assert(self.model() == create_one_body(vcur, list@[i - 1]).0);
                let (vafter, pair) = create_one_body(vcur, list@[i - 1]);
                let (vf, rest) = create_bodies_fold(self.model(), list@.skip(i as int));
                assert(r@ + rest =~= (r@.subrange(0, r@.len() - 1)) + (seq![pair] + rest));
            }
        }
        proof {
            assert(list@.skip(n as int) =~= Seq::<CreatedBody>::empty());
            assert(r@ + Seq::<(u64, u64)>::empty() =~= r@);
        }
        r
    }

    fn apply_create_colliders(&mut self, list: &Vec<CreatedCollider>) -> (r: Vec<(u64, u64)>)
        requires
            old(self).model().next_collider_handle + list@.len() <= u64::MAX,
        ensures
            final(self).model() == create_colliders_fold(old(self).model(), list@).0,
            r@ == create_colliders_fold(old(self).model(), list@).1,
    {
        let ghost v0 = self.model();
        let mut r: Vec<(u64, u64)> = Vec::new();
        let n = list.len();
        proof {
            assert(list@.skip(0) =~= list@);
        }
        let mut i: usize = 0;
        while i < n
            invariant
                i <= n,
                n == list@.len(),
                self.model().next_collider_handle + (n - i) <= u64::MAX,
                create_colliders_fold(v0, list@) == (
                    create_colliders_fold(self.model(), list@.skip(i as int)).0,
                    r@ + create_colliders_fold(self.model(), list@.skip(i as int)).1,
                ),
            decreases n - i,
        {
            let ghost vcur = self.model();
            let ghost rem = list@.skip(i as int);
            proof {
                assert(rem[0] == list@[i as int]);
                assert(rem.skip(1) =~= list@.skip(i + 1));
            }
            let c = &list[i];
            let handle = self.next_collider_handle;
            let attachment = match self.registry.lookup_body(c.id) {
                Some(body) => Attachment::Attached { body },
                None => Attachment::Free {
                    pose: (match c.transform {
                        Some(p) => p,
                        None => Pose::identity(),
                    }),
                },
            };
            let sensor = match c.sensor {
                Some(b) => b,
                None => false,
            };
            self.colliders.push(
                ColliderState {
                    handle: handle,
                    entity: c.id,
                    shape: c.shape,
                    sensor: sensor,
                    attachment: attachment,
                },
            );
            self.registry.register_collider(c.id, handle);
            self.next_collider_handle = self.next_collider_handle + 1;
            r.push((c.id, handle));
            i = i + 1;
            proof {
                assert(self.model() == create_one_collider(vcur, list@[i - 1]).0);
                let (vafter, pair) = create_one_collider(vcur, list@[i - 1]);
                let (vf, rest) = create_colliders_fold(self.model(), list@.skip(i as int));
                assert(r@ + rest =~= (r@.subrange(0, r@.len() - 1)) + (seq![pair] + rest));
            }
        }
        proof {
            assert(list@.skip(n as int) =~= Seq::<CreatedCollider>::empty());
            assert(r@ + Seq::<(u64, u64)>::empty() =~= r@);
        }
        r
    }

    fn apply_simulate_step(&mut self, args: &StepArgs) -> (r: Vec<SimEntry>)
        ensures
            final(self).model() == process_item(
                old(self).model(),
                ReqItem::SimulateStep(*args),
            ).0,
            process_item(old(self).model(), ReqItem::SimulateStep(*args)).1
                == RespItem::SimulationResult(r@),
    {
        let ghost orig = self.bodies@;
        let ghost f = |b: BodyState| step_body(b, args.gravity, args.dt_micros);
        let mut entries: Vec<SimEntry> = Vec::new();
        let n = self.bodies.len();
        let mut i: usize = 0;
        while i < n
            invariant
                i <= n,
                n == self.bodies@.len(),
                orig.len() == n,
                entries@.len() == i,
                forall|j: int|
                    0 <= j < i ==> self.bodies@[j] == step_body(
                        orig[j],
                        args.gravity,
                        args.dt_micros,
                    ),
                forall|j: int| i <= j < n ==> self.bodies@[j] == orig[j],
                forall|j: int| 0 <= j < i ==> entries@[j] == entry_of_body(self.bodies@[j]),
                self.model().colliders == old(self).model().colliders,
                self.model().body_map == old(self).model().body_map,
                self.model().collider_map == old(self).model().collider_map,
                self.model().config == old(self).model().config,
                self.model().next_body_handle == old(self).model().next_body_handle,
                self.model().next_collider_handle == old(self).model().next_collider_handle,
            decreases n - i,
        {
            let b = self.bodies[i];
            let stepped = step_body_exec(&b, &args.gravity, args.dt_micros);
            self.bodies.set(i, stepped);
            entries.push(
                SimEntry { handle: stepped.handle, pose: stepped.pose, velocity: stepped.velocity },
            );
            i = i + 1;
        }
        proof {
            let g = |b: BodyState| step_body(b, args.gravity, args.dt_micros);
            assert(self.bodies@ =~= orig.map_values(g));
            assert(entries@ =~= orig.map_values(g).map_values(|b: BodyState| entry_of_body(b)));
        }
        entries
    }

    /// Process one non-bulk request and produce its response.
    fn process_one(&mut self, req: &Request) -> (resp: Response)
        requires
            wf_req_elem(*req),
            can_item(old(self).model(), crate::protocol::req_item_view(*req)),
        ensures
            final(self).model() == process_item(
                old(self).model(),
                crate::protocol::req_item_view(*req),
            ).0,
            wf_resp_elem(resp),
            crate::protocol::resp_item_view(resp) == process_item(
                old(self).model(),
                crate::protocol::req_item_view(*req),
            ).1,
    {
        match req {
            Request::UpdateConfig(c) => {
                self.config = *c;
                Response::ConfigUpdated
            },
            Request::CreateBodies(list) => {
                let pairs = self.apply_create_bodies(list);
                // Reading the length pins it within the machine's limits.
                let _len = pairs.len();
                proof {
                    lemma_create_fold_len(old(self).model(), list@);
                    assert(pairs@.len() <= u64::MAX);
                }
                Response::RigidBodyHandles(pairs)
            },
            Request::CreateColliders(list) => {
                let pairs = self.apply_create_colliders(list);
                // Reading the length pins it within the machine's limits.
                let _len = pairs.len();
                proof {
                    lemma_create_colliders_fold_len(old(self).model(), list@);
                    assert(pairs@.len() <= u64::MAX);
                }
                Response::ColliderHandles(pairs)
            },
            Request::SimulateStep(a) => {
                let entries = self.apply_simulate_step(a);
                // Reading the length pins it within the machine's limits.
                let _len = entries.len();
                proof {
                    assert(entries@.len() <= u64::MAX);
                }
                Response::SimulationResult(entries)
            },
            Request::BulkRequest(_) => {
                proof {
                    assert(false);
                }
                Response::ConfigUpdated
            },
        }
    }

    /// Process one request.  A plain request is handled directly; a bulk
    /// request is handled as its parts in order, each as if it had been
    /// sent alone, and answered with one bulk response in the same order.
    #[verifier::loop_isolation(false)]
    pub fn process_request(&mut self, req: &Request) -> (resp: Response)
        requires
            wf_request(*req),
            can_process(old(self).model(), req_view(*req)),
        ensures
            final(self).model() == process(old(self).model(), req_view(*req)).0,
            wf_response(resp),
            resp_view(resp) == process(old(self).model(), req_view(*req)).1,
    {
        let ghost v0 = self.model();
        match req {
            Request::BulkRequest(items) => {
                let ghost views = items@.map_values(|x: Request| crate::protocol::req_item_view(x));
                let mut responses: Vec<Response> = Vec::new();
                let n = items.len();
                proof {
                    assert(views.skip(0) =~= views);
                }
                let mut i: usize = 0;
                while i < n
                    invariant
                        i <= n,
                        responses@.len() == i,
                        forall|j: int|
                            0 <= j < responses@.len() ==> wf_resp_elem(#[trigger] responses@[j]),
                        can_items(self.model(), views.skip(i as int)),
                        process_items(v0, views) == (
                            process_items(self.model(), views.skip(i as int)).0,
                            responses@.map_values(|x: Response| crate::protocol::resp_item_view(x))
                                + process_items(self.model(), views.skip(i as int)).1,
                        ),
                    decreases n - i,
                {
                    let ghost vcur = self.model();
                    let ghost rem = views.skip(i as int);
                    proof {
                        assert(rem[0] == views[i as int]);
                        assert(rem.skip(1) =~= views.skip(i + 1));
                    }
                    let ghost old_responses = responses@;
                    let r = self.process_one(&items[i]);
                    responses.push(r);
                    i = i + 1;
                    proof {
                        let g = |x: Response| crate::protocol::resp_item_view(x);
                        let (v1, rr) = process_item(vcur, views[i - 1]);
                        let (vf, rest) = process_items(self.model(), views.skip(i as int));
                        assert(responses@.map_values(g) =~= old_responses.map_values(g).push(
                            crate::protocol::resp_item_view(r),
                        ));
                        assert(responses@.map_values(g) + rest =~= old_responses.map_values(g) + (
                        seq![rr] + rest));
                    }
                }
                proof {
                    assert(views.skip(n as int) =~= Seq::<ReqItem>::empty());
                    let g = |x: Response| crate::protocol::resp_item_view(x);
                    assert(responses@.map_values(g) + Seq::<RespItem>::empty() =~= responses@
                        .map_values(g));
                }
                Response::BulkResponse(responses)
            },
            _ => {
                let r = self.process_one(req);
                r
            },
        }
    }
}

fn step_body_exec(b: &BodyState, gravity: &Vect, dt: u64) -> (r: BodyState)
    ensures
        r == step_body(*b, *gravity, dt),
{
    match b.kind {
        BodyKind::Dynamic => {
            let new_linvel = vect_sat_add(&b.velocity.linvel, &vect_scale(gravity, dt));
            BodyState {
                pose: Pose {
                    translation: vect_sat_add(&b.pose.translation, &vect_scale(&new_linvel, dt)),
                    rotation: b.pose.rotation,
                },
                velocity: Velocity { linvel: new_linvel, angvel: b.velocity.angvel },
                ..*b
            }
        },
        BodyKind::KinematicVelocityBased => BodyState {
            pose: Pose {
                translation: vect_sat_add(
                    &b.pose.translation,
                    &vect_scale(&b.velocity.linvel, dt),
                ),
                rotation: b.pose.rotation,
            },
            ..*b
        },
        BodyKind::Fixed => *b,
        BodyKind::KinematicPositionBased => *b,
    }
}

/// The first body carrying a handle, if any.  Handles are assigned once,
/// so at most one body ever carries a given handle.
pub open spec fn body_by_handle(bodies: Seq<BodyState>, h: u64) -> Option<BodyState>
    decreases bodies.len(),
{
    if bodies.len() == 0 {
        Option::None
    } else if bodies[0].handle == h {
        Option::Some(bodies[0])
    } else {
        body_by_handle(bodies.skip(1), h)
    }
}

/// The first collider carrying a handle, if any.
pub open spec fn collider_by_handle(colliders: Seq<ColliderState>, h: u64) -> Option<ColliderState>
    decreases colliders.len(),
{
    if colliders.len() == 0 {
        Option::None
    } else if colliders[0].handle == h {
        Option::Some(colliders[0])
    } else {
        collider_by_handle(colliders.skip(1), h)
    }
}

/// Where a collider stands in the world: an attached collider shares its
/// parent body's pose, a free one stands at its own.
pub open spec fn world_pose(v: BackendView, c: ColliderState) -> Option<Pose> {
    match c.attachment {
        Attachment::Attached { body } => match body_by_handle(v.bodies, body) {
            Option::Some(b) => Option::Some(b.pose),
            Option::None => Option::None,
        },
        Attachment::Free { pose } => Option::Some(pose),
    }
}

impl PhysicsBackend {
    fn find_body(&self, h: u64) -> (r: Option<BodyState>)
        ensures
            r == body_by_handle(self.model().bodies, h),
    {
        let n = self.bodies.len();
        let mut i: usize = 0;
        proof {
            assert(self.bodies@.skip(0) =~= self.bodies@);
        }
        while i < n
            invariant
                i <= n,
                n == self.bodies@.len(),
                body_by_handle(self.model().bodies, h) == body_by_handle(
                    self.bodies@.skip(i as int),
                    h,
                ),
            decreases n - i,
        {
            proof {
                assert(self.bodies@.skip(i as int)[0] == self.bodies@[i as int]);
                assert(self.bodies@.skip(i as int).skip(1) =~= self.bodies@.skip(i + 1));
            }
            if self.bodies[i].handle == h {
                return Some(self.bodies[i]);
            }
            i = i + 1;
        }
        proof {
            assert(self.bodies@.skip(n as int) =~= Seq::<BodyState>::empty());
        }
        None
    }

    fn find_collider(&self, h: u64) -> (r: Option<ColliderState>)
        ensures
            r == collider_by_handle(self.model().colliders, h),
    {
        let n = self.colliders.len();
        let mut i: usize = 0;
        proof {
            assert(self.colliders@.skip(0) =~= self.colliders@);
        }
        while i < n
            invariant
                i <= n,
                n == self.colliders@.len(),
                collider_by_handle(self.model().colliders, h) == collider_by_handle(
                    self.colliders@.skip(i as int),
                    h,
                ),
            decreases n - i,
        {
            proof {
                assert(self.colliders@.skip(i as int)[0] == self.colliders@[i as int]);
                assert(self.colliders@.skip(i as int).skip(1) =~= self.colliders@.skip(i + 1));
            }
            if self.colliders[i].handle == h {
                return Some(self.colliders[i]);
            }
            i = i + 1;
        }
        proof {
            assert(self.colliders@.skip(n as int) =~= Seq::<ColliderState>::empty());
        }
        None
    }

    /// Where the collider with this handle stands in the world right now.
    pub fn collider_world_pose(&self, collider_handle: u64) -> (r: Option<Pose>)
        ensures
            r == (match collider_by_handle(self.model().colliders, collider_handle) {
                Option::Some(c) => world_pose(self.model(), c),
                Option::None => Option::None::<Pose>,
            }),
    {
        match self.find_collider(collider_handle) {
            Some(c) => match c.attachment {
                Attachment::Attached { body } => match self.find_body(body) {
                    Some(b) => Some(b.pose),
                    None => None,
                },
                Attachment::Free { pose } => Some(pose),
            },
            None => None,
        }
    }
}

/// How many body handles a request consumes.
pub open spec fn body_delta(i: ReqItem) -> nat {
    match i {
        ReqItem::CreateBodies(s) => s.len(),
        _ => 0,
    }
}

/// How many collider handles a request consumes.
pub open spec fn collider_delta(i: ReqItem) -> nat {
    match i {
        ReqItem::CreateColliders(s) => s.len(),
        _ => 0,
    }
}

proof fn lemma_bodies_fold_counters(v: BackendView, s: Seq<CreatedBody>)
    requires
        v.next_body_handle + s.len() <= u64::MAX,
    ensures
        create_bodies_fold(v, s).0.next_body_handle == v.next_body_handle + s.len(),
        create_bodies_fold(v, s).0.next_collider_handle == v.next_collider_handle,
    decreases s.len(),
{
    if s.len() > 0 {
        lemma_bodies_fold_counters(create_one_body(v, s[0]).0, s.skip(1));
    }
}

proof fn lemma_colliders_fold_counters(v: BackendView, s: Seq<CreatedCollider>)
    requires
        v.next_collider_handle + s.len() <= u64::MAX,
    ensures
        create_colliders_fold(v, s).0.next_collider_handle == v.next_collider_handle + s.len(),
        create_colliders_fold(v, s).0.next_body_handle == v.next_body_handle,
    decreases s.len(),
{
    if s.len() > 0 {
        lemma_colliders_fold_counters(create_one_collider(v, s[0]).0, s.skip(1));
    }
}

/// A request within its handle budget moves the two counters by exactly
/// what it creates.
pub proof fn lemma_item_counters(v: BackendView, i: ReqItem)
    requires
        can_item(v, i),
    ensures
        process_item(v, i).0.next_body_handle == v.next_body_handle + body_delta(i),
        process_item(v, i).0.next_collider_handle == v.next_collider_handle + collider_delta(i),
{
    match i {
        ReqItem::CreateBodies(s) => {
            lemma_bodies_fold_counters(v, s);
        },
        ReqItem::CreateColliders(s) => {
            lemma_colliders_fold_counters(v, s);
        },
        _ => {
        },
    }
}

impl PhysicsBackend {
    /// Whether the backend has handle space left for this request: the
    /// run-time test for the machine limit `process_request` requires.
    #[verifier::loop_isolation(false)]
    pub fn can_accept(&self, req: &Request) -> (r: bool)
        requires
            wf_request(*req),
        ensures
            r == can_process(self.model(), req_view(*req)),
    {
        match req {
            Request::UpdateConfig(_) => true,
            Request::SimulateStep(_) => true,
            Request::CreateBodies(v) => self.next_body_handle <= u64::MAX - (v.len() as u64),
            Request::CreateColliders(v) => self.next_collider_handle <= u64::MAX - (
            v.len() as u64),
            Request::BulkRequest(items) => {
                let ghost views = items@.map_values(|x: Request| crate::protocol::req_item_view(x));
                let ghost mut cur = self.model();
                let mut nb: u64 = self.next_body_handle;
                let mut nc: u64 = self.next_collider_handle;
                let n = items.len();
                proof {
                    assert(views.skip(0) =~= views);
                }
                let mut i: usize = 0;
                while i < n
                    invariant
                        i <= n,
                        cur.next_body_handle == nb,
                        cur.next_collider_handle == nc,
                        can_process(self.model(), req_view(*req)) == can_items(
                            cur,
                            views.skip(i as int),
                        ),
                    decreases n - i,
                {
                    let ghost rem = views.skip(i as int);
                    proof {
                        assert(rem[0] == views[i as int]);
                        assert(rem.skip(1) =~= views.skip(i + 1));
                    }
                    let elem = &items[i];
                    match elem {
                        Request::CreateBodies(v) => {
                            if nb > u64::MAX - (v.len() as u64) {
                                proof {
                                    assert(!can_item(cur, views[i as int]));
                                }
                                return false;
                            }
                            nb = nb + (v.len() as u64);
                        },
                        Request::CreateColliders(v) => {
                            if nc > u64::MAX - (v.len() as u64) {
                                proof {
                                    assert(!can_item(cur, views[i as int]));
                                }
                                return false;
                            }
                            nc = nc + (v.len() as u64);
                        },
                        _ => {
                        },
                    }
                    proof {
                        assert(can_item(cur, views[i as int]));
                        lemma_item_counters(cur, views[i as int]);
                        cur = process_item(cur, views[i as int]).0;
                    }
                    i = i + 1;
                }
                proof {
                    assert(views.skip(n as int) =~= Seq::<ReqItem>::empty());
                }
                true
            },
        }
    }
}

/// A body-creation batch hands back one handle pair per descriptor.
pub proof fn lemma_create_fold_len(v: BackendView, s: Seq<CreatedBody>)
    ensures
        create_bodies_fold(v, s).1.len() == s.len(),
    decreases s.len(),
{
    if s.len() > 0 {
        lemma_create_fold_len(create_one_body(v, s[0]).0, s.skip(1));
    }
}

/// A collider-creation batch hands back one handle pair per descriptor.
pub proof fn lemma_create_colliders_fold_len(v: BackendView, s: Seq<CreatedCollider>)
    ensures
        create_colliders_fold(v, s).1.len() == s.len(),
    decreases s.len(),
{
    if s.len() > 0 {
        lemma_create_colliders_fold_len(create_one_collider(v, s[0]).0, s.skip(1));
    }
}

} // verus!
