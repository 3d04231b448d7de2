//! Messages exchanged between the frame side and the simulation backend.
//!
//! Every physical quantity is carried as fixed-point integers so that the
//! wire format is exact: a coordinate, a velocity component or a coefficient
//! is an `i64` holding the value scaled by a fixed factor chosen by the
//! caller.  Entity ids and backend handles are plain `u64` values.

use vstd::prelude::*;

verus! {

/// A three-component vector in fixed-point coordinates.
#[derive(Clone, Copy, PartialEq, Eq, Structural, Debug)]
pub struct Vect {
    pub x: i64,
    pub y: i64,
    pub z: i64,
}

/// A rotation stored as fixed-point quaternion components.
#[derive(Clone, Copy, PartialEq, Eq, Structural, Debug)]
pub struct Rotation {
    pub x: i64,
    pub y: i64,
    pub z: i64,
    pub w: i64,
}

/// A rigid placement: where something is and how it is turned.
#[derive(Clone, Copy, PartialEq, Eq, Structural, Debug)]
pub struct Pose {
    pub translation: Vect,
    pub rotation: Rotation,
}

/// Linear and angular velocity of a body.
#[derive(Clone, Copy, PartialEq, Eq, Structural, Debug)]
pub struct Velocity {
    pub linvel: Vect,
    pub angvel: Vect,
}

/// How a body participates in the simulation.
#[derive(Clone, Copy, PartialEq, Eq, Structural, Debug)]
pub enum BodyKind {
    Dynamic,
    Fixed,
    KinematicPositionBased,
    KinematicVelocityBased,
}

/// How two touching materials combine a coefficient.
#[derive(Clone, Copy, PartialEq, Eq, Structural, Debug)]
pub enum CombineRule {
    Average,
    Min,
    Multiply,
    Max,
}

/// Mass added to a body on top of what its colliders contribute.
#[derive(Clone, Copy, PartialEq, Eq, Structural, Debug)]
pub enum AdditionalMassProperties {
    Mass(i64),
    MassProperties { mass: i64, center: Vect },
}

/// Mass contributed by a collider.
#[derive(Clone, Copy, PartialEq, Eq, Structural, Debug)]
pub enum ColliderMassProperties {
    Density(i64),
    Mass(i64),
    MassProperties { mass: i64, center: Vect },
}

/// Surface friction of a collider.
#[derive(Clone, Copy, PartialEq, Eq, Structural, Debug)]
pub struct Friction {
    pub coefficient: i64,
    pub combine_rule: CombineRule,
}

/// Bounciness of a collider.
#[derive(Clone, Copy, PartialEq, Eq, Structural, Debug)]
pub struct Restitution {
    pub coefficient: i64,
    pub combine_rule: CombineRule,
}

/// The geometry of a collider.
#[derive(Clone, Copy, PartialEq, Eq, Structural, Debug)]
pub enum ShapeKind {
    Ball { radius: i64 },
    Cuboid { hx: i64, hy: i64, hz: i64 },
    Capsule { half_height: i64, radius: i64 },
}

/// A body the frame side wants the backend to create.
#[derive(Clone, Copy, PartialEq, Eq, Structural, Debug)]
pub struct CreatedBody {
    pub id: u64,
    pub body: BodyKind,
    pub transform: Option<Pose>,
    pub additional_mass_properties: Option<AdditionalMassProperties>,
}

/// A collider the frame side wants the backend to create.
#[derive(Clone, Copy, PartialEq, Eq, Structural, Debug)]
pub struct CreatedCollider {
    pub id: u64,
    pub shape: ShapeKind,
    pub transform: Option<Pose>,
    pub sensor: Option<bool>,
    pub mass_properties: Option<ColliderMassProperties>,
    pub friction: Option<Friction>,
    pub restitution: Option<Restitution>,
}

/// When and how the backend advances simulated time.
#[derive(Clone, Copy, PartialEq, Eq, Structural, Debug)]
pub enum TimestepMode {
    Fixed { dt: i64, substeps: u64 },
    Variable { max_dt: i64, time_scale: i64, substeps: u64 },
    Interpolated { dt: i64, time_scale: i64, substeps: u64 },
}

/// The simulation settings both sides hold.
#[derive(Clone, Copy, PartialEq, Eq, Structural, Debug)]
pub struct Config {
    pub gravity: Vect,
    pub timestep_mode: TimestepMode,
}

/// Arguments of one step request: how far to advance and under what rules.
#[derive(Clone, Copy, PartialEq, Eq, Structural, Debug)]
pub struct StepArgs {
    pub gravity: Vect,
    pub timestep_mode: TimestepMode,
    /// Elapsed frame time, in microseconds.
    pub dt_micros: u64,
    /// Carry-over remainder between simulated and rendered time, for
    /// fixed-timestep interpolation.
    pub sim_to_render_diff: i64,
}

/// What the frame side asks of the backend.
#[derive(PartialEq, Eq, Debug)]
pub enum Request {
    UpdateConfig(Config),
    CreateBodies(Vec<CreatedBody>),
    CreateColliders(Vec<CreatedCollider>),
    SimulateStep(StepArgs),
    BulkRequest(Vec<Request>),
}

/// One entry of a simulation result: a body's handle with its new placement
/// and velocity.
#[derive(Clone, Copy, PartialEq, Eq, Structural, Debug)]
pub struct SimEntry {
    pub handle: u64,
    pub pose: Pose,
    pub velocity: Velocity,
}

/// What the backend answers.  Responses match requests one to one and arrive
/// in request order.
#[derive(PartialEq, Eq, Debug)]
pub enum Response {
    ConfigUpdated,
    RigidBodyHandles(Vec<(u64, u64)>),
    ColliderHandles(Vec<(u64, u64)>),
    SimulationResult(Vec<SimEntry>),
    BulkResponse(Vec<Response>),
}

impl Vect {
    /// The zero vector.
    pub fn zero() -> (r: Vect)
        ensures
            r == (Vect { x: 0i64, y: 0i64, z: 0i64 }),
    {
        Vect { x: 0, y: 0, z: 0 }
    }
}

impl Rotation {
    /// The identity rotation (unit quaternion at full scale).
    pub fn identity() -> (r: Rotation)
        ensures
            r == (Rotation { x: 0i64, y: 0i64, z: 0i64, w: 1i64 }),
    {
        Rotation { x: 0, y: 0, z: 0, w: 1 }
    }
}

/// The identity placement, used when a descriptor leaves its pose out.
pub open spec fn identity_pose() -> Pose {
    Pose {
        translation: Vect { x: 0, y: 0, z: 0 },
        rotation: Rotation { x: 0, y: 0, z: 0, w: 1 },
    }
}

impl Pose {
    /// The identity placement.
    pub fn identity() -> (r: Pose)
        ensures
            r == identity_pose(),
    {
        Pose { translation: Vect::zero(), rotation: Rotation::identity() }
    }
}

impl Velocity {
    /// A body at rest.
    pub fn zero() -> (r: Velocity)
        ensures
            r == (Velocity {
                linvel: Vect { x: 0i64, y: 0i64, z: 0i64 },
                angvel: Vect { x: 0i64, y: 0i64, z: 0i64 },
            }),
    {
        Velocity { linvel: Vect::zero(), angvel: Vect::zero() }
    }
}

// ---------------------------------------------------------------------------
// Mathematical models of messages
// ---------------------------------------------------------------------------
// Contracts speak of these models rather than of `Request` and `Response`
// directly: a list is a `Seq`, and a bulk message is one layer of items,
// which is all the protocol allows.

/// The model of a request that is not a bulk request.
pub enum ReqItem {
    UpdateConfig(Config),
    CreateBodies(Seq<CreatedBody>),
    CreateColliders(Seq<CreatedCollider>),
    SimulateStep(StepArgs),
}

/// The model of a request: a single item, or one bulk layer of items.
pub enum ReqModel {
    Item(ReqItem),
    Bulk(Seq<ReqItem>),
}

/// The model of a response that is not a bulk response.
pub enum RespItem {
    ConfigUpdated,
    RigidBodyHandles(Seq<(u64, u64)>),
    ColliderHandles(Seq<(u64, u64)>),
    SimulationResult(Seq<SimEntry>),
}

/// The model of a response.
pub enum RespModel {
    Item(RespItem),
    Bulk(Seq<RespItem>),
}

/// A non-bulk request whose lists fit the wire format's 64-bit counts.
pub open spec fn wf_req_elem(r: Request) -> bool {
    match r {
        Request::UpdateConfig(_) => true,
        Request::CreateBodies(v) => v@.len() <= u64::MAX,
        Request::CreateColliders(v) => v@.len() <= u64::MAX,
        Request::SimulateStep(_) => true,
        Request::BulkRequest(_) => false,
    }
}

/// A request the protocol can carry: list lengths fit the 64-bit count
/// field, and a bulk request holds only plain requests.
pub open spec fn wf_request(r: Request) -> bool {
    match r {
        Request::BulkRequest(v) => v@.len() <= u64::MAX && forall|i: int|
            0 <= i < v@.len() ==> wf_req_elem(#[trigger] v@[i]),
        _ => wf_req_elem(r),
    }
}

/// A non-bulk response whose lists fit the wire format's 64-bit counts.
pub open spec fn wf_resp_elem(r: Response) -> bool {
    match r {
        Response::ConfigUpdated => true,
        Response::RigidBodyHandles(v) => v@.len() <= u64::MAX,
        Response::ColliderHandles(v) => v@.len() <= u64::MAX,
        Response::SimulationResult(v) => v@.len() <= u64::MAX,
        Response::BulkResponse(_) => false,
    }
}

/// A response the protocol can carry.
pub open spec fn wf_response(r: Response) -> bool {
    match r {
        Response::BulkResponse(v) => v@.len() <= u64::MAX && forall|i: int|
            0 <= i < v@.len() ==> wf_resp_elem(#[trigger] v@[i]),
        _ => wf_resp_elem(r),
    }
}

/// A request-item model whose lists fit the 64-bit count field.
pub open spec fn wf_req_item_m(i: ReqItem) -> bool {
    match i {
        ReqItem::UpdateConfig(_) => true,
        ReqItem::CreateBodies(s) => s.len() <= u64::MAX,
        ReqItem::CreateColliders(s) => s.len() <= u64::MAX,
        ReqItem::SimulateStep(_) => true,
    }
}

/// A request model the protocol can carry.
pub open spec fn wf_req_m(m: ReqModel) -> bool {
    match m {
        ReqModel::Item(i) => wf_req_item_m(i),
        ReqModel::Bulk(s) => s.len() <= u64::MAX && forall|i: int|
            0 <= i < s.len() ==> wf_req_item_m(#[trigger] s[i]),
    }
}

/// A response-item model whose lists fit the 64-bit count field.
pub open spec fn wf_resp_item_m(i: RespItem) -> bool {
    match i {
        RespItem::ConfigUpdated => true,
        RespItem::RigidBodyHandles(s) => s.len() <= u64::MAX,
        RespItem::ColliderHandles(s) => s.len() <= u64::MAX,
        RespItem::SimulationResult(s) => s.len() <= u64::MAX,
    }
}

/// A response model the protocol can carry.
pub open spec fn wf_resp_m(m: RespModel) -> bool {
    match m {
        RespModel::Item(i) => wf_resp_item_m(i),
        RespModel::Bulk(s) => s.len() <= u64::MAX && forall|i: int|
            0 <= i < s.len() ==> wf_resp_item_m(#[trigger] s[i]),
    }
}

/// The model of a non-bulk request.  Meaningful only under `wf_req_elem`.
pub open spec fn req_item_view(r: Request) -> ReqItem {
    match r {
        Request::UpdateConfig(c) => ReqItem::UpdateConfig(c),
        Request::CreateBodies(v) => ReqItem::CreateBodies(v@),
        Request::CreateColliders(v) => ReqItem::CreateColliders(v@),
        Request::SimulateStep(a) => ReqItem::SimulateStep(a),
        Request::BulkRequest(_) => vstd::pervasive::arbitrary(),
    }
}

/// The model of a request.  Meaningful only under `wf_request`.
pub open spec fn req_view(r: Request) -> ReqModel {
    match r {
        Request::BulkRequest(v) => ReqModel::Bulk(
            v@.map_values(|x: Request| req_item_view(x)),
        ),
        _ => ReqModel::Item(req_item_view(r)),
    }
}

/// The model of a non-bulk response.  Meaningful only under `wf_resp_elem`.
pub open spec fn resp_item_view(r: Response) -> RespItem {
    match r {
        Response::ConfigUpdated => RespItem::ConfigUpdated,
        Response::RigidBodyHandles(v) => RespItem::RigidBodyHandles(v@),
        Response::ColliderHandles(v) => RespItem::ColliderHandles(v@),
        Response::SimulationResult(v) => RespItem::SimulationResult(v@),
        Response::BulkResponse(_) => vstd::pervasive::arbitrary(),
    }
}

/// The model of a response.  Meaningful only under `wf_response`.
pub open spec fn resp_view(r: Response) -> RespModel {
    match r {
        Response::BulkResponse(v) => RespModel::Bulk(
            v@.map_values(|x: Response| resp_item_view(x)),
        ),
        _ => RespModel::Item(resp_item_view(r)),
    }
}

/// Whether a request is one the protocol can carry, checked at run time:
/// list lengths always fit the wire format's counts, so the one thing to
/// test is that a bulk request holds only plain requests.
#[verifier::loop_isolation(false)]
pub fn request_is_wf(req: &Request) -> (r: bool)
    ensures
        r == wf_request(*req),
{
    match req {
        Request::UpdateConfig(_) => true,
        Request::CreateBodies(v) => {
            // Reading the length pins it within the machine's limits.
            let _len = v.len();
            true
        },
        Request::CreateColliders(v) => {
            // Reading the length pins it within the machine's limits.
            let _len = v.len();
            true
        },
        Request::SimulateStep(_) => true,
        Request::BulkRequest(items) => {
            let n = items.len();
            let mut i: usize = 0;
            while i < n
                invariant
                    i <= n,
                    n == items@.len(),
                    forall|j: int| 0 <= j < i ==> wf_req_elem(#[trigger] items@[j]),
                decreases n - i,
            {
                let elem = &items[i];
                proof {
                    assert(*elem == items@[i as int]);
                }
                match elem {
                    Request::UpdateConfig(_) => {
                    },
                    Request::CreateBodies(v) => {
                        // Reading the length pins it within the machine's limits.
                        let _len = v.len();
                    },
                    Request::CreateColliders(v) => {
                        // Reading the length pins it within the machine's limits.
                        let _len = v.len();
                    },
                    Request::SimulateStep(_) => {
                    },
                    Request::BulkRequest(_) => {
                        proof {
                            assert(!wf_req_elem(items@[i as int]));
                        }
                        return false;
                    },
                }
                proof {
                    assert(wf_req_elem(items@[i as int]));
                }
                i = i + 1;
            }
            true
        },
    }
}

/// Whether a response is one the protocol can carry, checked at run time:
/// the one thing to test is that a bulk response holds only plain
/// responses.
#[verifier::loop_isolation(false)]
pub fn response_is_wf(resp: &Response) -> (r: bool)
    ensures
        r == wf_response(*resp),
{
    match resp {
        Response::ConfigUpdated => true,
        Response::RigidBodyHandles(v) => {
            // Reading the length pins it within the machine's limits.
            let _len = v.len();
            true
        },
        Response::ColliderHandles(v) => {
            // Reading the length pins it within the machine's limits.
            let _len = v.len();
            true
        },
        Response::SimulationResult(v) => {
            // Reading the length pins it within the machine's limits.
            let _len = v.len();
            true
        },
        Response::BulkResponse(items) => {
            let n = items.len();
            let mut i: usize = 0;
            while i < n
                invariant
                    i <= n,
                    forall|j: int| 0 <= j < i ==> wf_resp_elem(#[trigger] items@[j]),
                decreases n - i,
            {
                let elem = &items[i];
                match elem {
                    Response::ConfigUpdated => {
                    },
                    Response::RigidBodyHandles(v) => {
                        // Reading the length pins it within the machine's limits.
                        let _len = v.len();
                    },
                    Response::ColliderHandles(v) => {
                        // Reading the length pins it within the machine's limits.
                        let _len = v.len();
                    },
                    Response::SimulationResult(v) => {
                        // Reading the length pins it within the machine's limits.
                        let _len = v.len();
                    },
                    Response::BulkResponse(_) => {
                        proof {
                            assert(!wf_resp_elem(items@[i as int]));
                        }
                        return false;
                    },
                }
                proof {
                    assert(wf_resp_elem(items@[i as int]));
                }
                i = i + 1;
            }
            true
        },
    }
}

impl Request {
    /// A short name for the request's variant, for logs and error messages.
    pub fn name(&self) -> (r: &'static str)
        ensures
            *self is UpdateConfig ==> r@ == "UpdateConfig"@,
            *self is CreateBodies ==> r@ == "CreateBodies"@,
            *self is CreateColliders ==> r@ == "CreateColliders"@,
            *self is SimulateStep ==> r@ == "SimulateStep"@,
            *self is BulkRequest ==> r@ == "BulkRequest"@,
    {
        match self {
            Request::UpdateConfig(_) => "UpdateConfig",
            Request::CreateBodies(_) => "CreateBodies",
            Request::CreateColliders(_) => "CreateColliders",
            Request::SimulateStep(_) => "SimulateStep",
            Request::BulkRequest(_) => "BulkRequest",
        }
    }
}

} // verus!
