//! The laws the backend obeys, proved against the spec interpreter in
//! `backend`.  Each public proof function here states one guarantee of the
//! protocol as a whole: handle identity, collider parenting, config
//! idempotence, step determinism and bulk equivalence.

use vstd::prelude::*;

use crate::backend::Attachment;
use crate::backend::BackendView;
use crate::backend::BodyState;
use crate::backend::ColliderState;
use crate::backend::abs_i64;
use crate::backend::body_by_handle;
use crate::backend::create_bodies_fold;
use crate::backend::create_colliders_fold;
use crate::backend::create_one_body;
use crate::backend::create_one_collider;
use crate::backend::micros_per_second;
use crate::backend::process;
use crate::backend::process_item;
use crate::backend::process_items;
use crate::backend::scale_spec;
use crate::backend::step_body;
use crate::backend::vect_sat_add_spec;
use crate::backend::vect_scale_spec;
use crate::backend::world_pose;
use crate::protocol::Config;
use crate::protocol::CreatedBody;
use crate::protocol::CreatedCollider;
use crate::protocol::Pose;
use crate::protocol::ReqItem;
use crate::protocol::ReqModel;
use crate::protocol::RespItem;
use crate::protocol::RespModel;
use crate::protocol::StepArgs;
use crate::protocol::Vect;
use crate::protocol::identity_pose;

verus! {

/// Identity invariant: a batch of body descriptors is answered by one
/// handle pair per descriptor, in the same order, each pair naming the
/// descriptor's entity id, with handles assigned consecutively — so every
/// handle correlates to exactly one submitted descriptor.
pub proof fn lemma_create_bodies_identity(v: BackendView, s: Seq<CreatedBody>)
    requires
        v.next_body_handle + s.len() <= u64::MAX,
    ensures
        create_bodies_fold(v, s).1.len() == s.len(),
        forall|i: int|
            0 <= i < s.len() ==> #[trigger] create_bodies_fold(v, s).1[i] == (
                s[i].id,
                (v.next_body_handle + i) as u64,
            ),
    decreases s.len(),
{
    if s.len() > 0 {
        let (v1, pair) = create_one_body(v, s[0]);
        lemma_create_bodies_identity(v1, s.skip(1));
        assert forall|i: int| 0 <= i < s.len() implies #[trigger] create_bodies_fold(v, s).1[i] == (
            s[i].id,
            (v.next_body_handle + i) as u64,
        ) by {
            if i > 0 {
                assert(create_bodies_fold(v1, s.skip(1)).1[i - 1] == (
                    s.skip(1)[i - 1].id,
                    (v1.next_body_handle + (i - 1)) as u64,
                ));
            }
        }
    }
}

/// The same identity invariant for collider batches.
pub proof fn lemma_create_colliders_identity(v: BackendView, s: Seq<CreatedCollider>)
    requires
        v.next_collider_handle + s.len() <= u64::MAX,
    ensures
        create_colliders_fold(v, s).1.len() == s.len(),
        forall|i: int|
            0 <= i < s.len() ==> #[trigger] create_colliders_fold(v, s).1[i] == (
                s[i].id,
                (v.next_collider_handle + i) as u64,
            ),
    decreases s.len(),
{
    if s.len() > 0 {
        let (v1, pair) = create_one_collider(v, s[0]);
        lemma_create_colliders_identity(v1, s.skip(1));
        assert forall|i: int|
            0 <= i < s.len() implies #[trigger] create_colliders_fold(v, s).1[i] == (
            s[i].id,
            (v.next_collider_handle + i) as u64,
        ) by {
            if i > 0 {
                assert(create_colliders_fold(v1, s.skip(1)).1[i - 1] == (
                    s.skip(1)[i - 1].id,
                    (v1.next_collider_handle + (i - 1)) as u64,
                ));
            }
        }
    }
}

/// The pose a collider descriptor asks for when it stands free.
pub open spec fn declared_pose(c: CreatedCollider) -> Pose {
    match c.transform {
        Option::Some(p) => p,
        Option::None => identity_pose(),
    }
}

/// Parenting rule: a collider whose entity id already has a registered
/// body handle is attached to that body; one without stands free at its
/// declared pose.  Creating colliders never touches the bodies or the
/// body map, so every descriptor is resolved against the map as it stood
/// when the request arrived.
pub proof fn lemma_collider_parenting(v: BackendView, s: Seq<CreatedCollider>)
    ensures
        create_colliders_fold(v, s).0.bodies == v.bodies,
        create_colliders_fold(v, s).0.body_map == v.body_map,
        create_colliders_fold(v, s).0.colliders.len() == v.colliders.len() + s.len(),
        forall|i: int|
            0 <= i < v.colliders.len() ==> #[trigger] create_colliders_fold(v, s).0.colliders[i]
                == v.colliders[i],
        forall|i: int|
            0 <= i < s.len() ==> (#[trigger] create_colliders_fold(v, s).0.colliders[v.colliders.len()
                + i]).attachment == (if v.body_map.dom().contains(s[i].id) {
                Attachment::Attached { body: v.body_map[s[i].id] }
            } else {
                Attachment::Free { pose: declared_pose(s[i]) }
            }),
        forall|i: int|
            0 <= i < s.len() ==> (#[trigger] create_colliders_fold(v, s).0.colliders[v.colliders.len()
                + i]).entity == s[i].id,
    decreases s.len(),
{
    if s.len() > 0 {
        let (v1, pair) = create_one_collider(v, s[0]);
        lemma_collider_parenting(v1, s.skip(1));
        assert(v1.colliders.len() == v.colliders.len() + 1);
        assert forall|i: int|
            0 <= i < s.len() implies (#[trigger] create_colliders_fold(v, s).0.colliders[v.colliders.len()
            + i]).attachment == (if v.body_map.dom().contains(s[i].id) {
            Attachment::Attached { body: v.body_map[s[i].id] }
        } else {
            Attachment::Free { pose: declared_pose(s[i]) }
        }) by {
            if i > 0 {
                assert(create_colliders_fold(v1, s.skip(1)).0.colliders[v1.colliders.len() + (i
                    - 1)].attachment == (if v1.body_map.dom().contains(s.skip(1)[i - 1].id) {
                    Attachment::Attached { body: v1.body_map[s.skip(1)[i - 1].id] }
                } else {
                    Attachment::Free { pose: declared_pose(s.skip(1)[i - 1]) }
                }));
            } else {
                assert(create_colliders_fold(v1, s.skip(1)).0.colliders[v.colliders.len() as int]
                    == v1.colliders[v.colliders.len() as int]);
            }
        }
        assert forall|i: int|
            0 <= i < s.len() implies (#[trigger] create_colliders_fold(v, s).0.colliders[v.colliders.len()
            + i]).entity == s[i].id by {
            if i > 0 {
                assert(create_colliders_fold(v1, s.skip(1)).0.colliders[v1.colliders.len() + (i
                    - 1)].entity == s.skip(1)[i - 1].id);
            } else {
                assert(create_colliders_fold(v1, s.skip(1)).0.colliders[v.colliders.len() as int]
                    == v1.colliders[v.colliders.len() as int]);
            }
        }
    }
}

/// Stepping maps each body through `step_body` and keeps its handle, and
/// touches nothing else.
pub proof fn lemma_step_effect(v: BackendView, a: StepArgs)
    ensures
        process_item(v, ReqItem::SimulateStep(a)).0.bodies.len() == v.bodies.len(),
        forall|i: int|
            0 <= i < v.bodies.len() ==> #[trigger] process_item(
                v,
                ReqItem::SimulateStep(a),
            ).0.bodies[i] == step_body(v.bodies[i], a.gravity, a.dt_micros),
        process_item(v, ReqItem::SimulateStep(a)).0.colliders == v.colliders,
        forall|b: BodyState| #[trigger] step_body(b, a.gravity, a.dt_micros).handle == b.handle,
{
}

/// Looking a handle up among stepped bodies finds the stepped original:
/// stepping changes no handle, so the search walks the same path.
proof fn lemma_body_by_handle_step(bodies: Seq<BodyState>, gravity: Vect, dt: u64, h: u64)
    ensures
        body_by_handle(bodies.map_values(|b: BodyState| step_body(b, gravity, dt)), h) == (
        match body_by_handle(bodies, h) {
            Option::Some(b) => Option::Some(step_body(b, gravity, dt)),
            Option::None => Option::None,
        }),
    decreases bodies.len(),
{
    let f = |b: BodyState| step_body(b, gravity, dt);
    if bodies.len() > 0 {
        lemma_body_by_handle_step(bodies.skip(1), gravity, dt, h);
        assert(bodies.map_values(f).skip(1) =~= bodies.skip(1).map_values(f));
        assert(bodies.map_values(f)[0] == f(bodies[0]));
    }
}

/// Parenting, observed through a step: after a simulation step an attached
/// collider stands exactly where its parent body now stands — it moved
/// with the body — while a free collider stands where it was declared,
/// however the bodies moved.
pub proof fn lemma_attached_collider_follows_body(v: BackendView, a: StepArgs, c: ColliderState)
    ensures
        c.attachment matches Attachment::Attached { body } ==> (body_by_handle(v.bodies, body)
            matches Option::Some(b) ==> world_pose(process_item(v, ReqItem::SimulateStep(a)).0, c)
            == Option::Some(step_body(b, a.gravity, a.dt_micros).pose)),
        c.attachment matches Attachment::Free { pose } ==> world_pose(
            process_item(v, ReqItem::SimulateStep(a)).0,
            c,
        ) == Option::Some(pose),
{
    match c.attachment {
        Attachment::Attached { body } => {
            lemma_body_by_handle_step(v.bodies, a.gravity, a.dt_micros, body);
        },
        Attachment::Free { pose } => {
        },
    }
}

/// Idempotent configuration: sending the same `UpdateConfig` twice yields
/// two acknowledgements, and the state after the second send is the state
/// after the first — the repeat changes nothing.
pub proof fn lemma_update_config_idempotent(v: BackendView, c: Config)
    ensures
        process_item(v, ReqItem::UpdateConfig(c)).1 == RespItem::ConfigUpdated,
        process_item(process_item(v, ReqItem::UpdateConfig(c)).0, ReqItem::UpdateConfig(c)).1
            == RespItem::ConfigUpdated,
        process_item(process_item(v, ReqItem::UpdateConfig(c)).0, ReqItem::UpdateConfig(c)).0
            == process_item(v, ReqItem::UpdateConfig(c)).0,
{
}

/// Step determinism: the interpreter is a function of the state and the
/// request alone, so equal states fed the same request — on one backend or
/// on two freshly started ones — produce equal states and equal responses.
pub proof fn lemma_step_determinism(v1: BackendView, v2: BackendView, m1: ReqModel, m2: ReqModel)
    requires
        v1 == v2,
        m1 == m2,
    ensures
        process(v1, m1) == process(v2, m2),
{
}

/// A body at rest under zero gravity does not move: stepping by any
/// elapsed time leaves its pose and velocity exactly as they were.
pub proof fn lemma_zero_motion(v: BackendView, a: StepArgs)
    requires
        a.gravity == (Vect { x: 0i64, y: 0i64, z: 0i64 }),
        forall|i: int|
            0 <= i < v.bodies.len() ==> (#[trigger] v.bodies[i]).velocity.linvel == (Vect {
                x: 0i64,
                y: 0i64,
                z: 0i64,
            }),
    ensures
        process_item(v, ReqItem::SimulateStep(a)).0.bodies.len() == v.bodies.len(),
        forall|i: int|
            0 <= i < v.bodies.len() ==> (#[trigger] process_item(
                v,
                ReqItem::SimulateStep(a),
            ).0.bodies[i]).pose == v.bodies[i].pose,
        forall|i: int|
            0 <= i < v.bodies.len() ==> (#[trigger] process_item(
                v,
                ReqItem::SimulateStep(a),
            ).0.bodies[i]).velocity == v.bodies[i].velocity,
{
    let f = |b: BodyState| step_body(b, a.gravity, a.dt_micros);
    assert(scale_spec(0i64, a.dt_micros) == 0i64) by {
        assert(abs_i64(0i64) == 0);
        assert(0int * (a.dt_micros as int) == 0) by (nonlinear_arith);
        assert(0int / micros_per_second() == 0);
    }
    assert forall|i: int|
        0 <= i < v.bodies.len() implies (#[trigger] process_item(
        v,
        ReqItem::SimulateStep(a),
    ).0.bodies[i]).pose == v.bodies[i].pose && (process_item(
        v,
        ReqItem::SimulateStep(a),
    ).0.bodies[i]).velocity == v.bodies[i].velocity by {
        let b = v.bodies[i];
        assert(v.bodies.map_values(f)[i] == f(b));
        assert(vect_scale_spec(a.gravity, a.dt_micros) == (Vect { x: 0i64, y: 0i64, z: 0i64 }));
        assert(vect_sat_add_spec(b.velocity.linvel, Vect { x: 0i64, y: 0i64, z: 0i64 })
            == b.velocity.linvel);
        assert(vect_sat_add_spec(b.pose.translation, Vect { x: 0i64, y: 0i64, z: 0i64 })
            == b.pose.translation);
    }
}

/// One step of the bulk chain: response `k` of a batch is what the item
/// would have answered had it been sent alone on the state the first `k`
/// items left behind.
proof fn lemma_items_index(v: BackendView, s: Seq<ReqItem>, k: int)
    requires
        0 <= k < s.len(),
    ensures
        process_items(v, s).1.len() == s.len(),
        process_items(v, s).1[k] == process_item(process_items(v, s.take(k)).0, s[k]).1,
        process_items(v, s.take(k + 1)).0 == process_item(process_items(v, s.take(k)).0, s[k]).0,
    decreases s.len(),
{
    reveal_with_fuel(process_items, 3);
    lemma_items_len(v, s);
    let (v1, r) = process_item(v, s[0]);
    if k == 0 {
        assert(s.take(0) =~= Seq::<ReqItem>::empty());
        assert(s.take(1)[0] == s[0]);
        assert(s.take(1).skip(1) =~= Seq::<ReqItem>::empty());
    } else {
        lemma_items_index(v1, s.skip(1), k - 1);
        assert(s.skip(1)[k - 1] == s[k]);
        assert(s.take(k)[0] == s[0]);
        assert(s.take(k).skip(1) =~= s.skip(1).take(k - 1));
        assert(s.take(k + 1)[0] == s[0]);
        assert(s.take(k + 1).skip(1) =~= s.skip(1).take(k));
        assert(process_items(v, s).1[k] == process_items(v1, s.skip(1)).1[k - 1]);
    }
}

proof fn lemma_items_len(v: BackendView, s: Seq<ReqItem>)
    ensures
        process_items(v, s).1.len() == s.len(),
    decreases s.len(),
{
    if s.len() > 0 {
        lemma_items_len(process_item(v, s[0]).0, s.skip(1));
    }
}

/// Bulk equivalence: a bulk request is answered by one bulk response of
/// the same length and order, and each element equals the response the
/// same item would have produced sent individually, in order, on a
/// backend in the same starting state.
pub proof fn lemma_bulk_equivalence(v: BackendView, s: Seq<ReqItem>)
    ensures
        process(v, ReqModel::Bulk(s)).0 == process_items(v, s).0,
        process(v, ReqModel::Bulk(s)).1 == RespModel::Bulk(process_items(v, s).1),
        process_items(v, s).1.len() == s.len(),
        forall|k: int|
            0 <= k < s.len() ==> #[trigger] process_items(v, s).1[k] == process_item(
                process_items(v, s.take(k)).0,
                s[k],
            ).1,
        forall|k: int|
            0 <= k < s.len() ==> #[trigger] process_items(v, s.take(k + 1)).0 == process_item(
                process_items(v, s.take(k)).0,
                s[k],
            ).0,
        process_items(v, s.take(s.len() as int)).0 == process_items(v, s).0,
{
    lemma_items_len(v, s);
    assert forall|k: int| 0 <= k < s.len() implies #[trigger] process_items(v, s).1[k]
        == process_item(process_items(v, s.take(k)).0, s[k]).1 by {
        lemma_items_index(v, s, k);
    }
    assert forall|k: int| 0 <= k < s.len() implies #[trigger] process_items(v, s.take(k + 1)).0
        == process_item(process_items(v, s.take(k)).0, s[k]).0 by {
        lemma_items_index(v, s, k);
    }
    assert(s.take(s.len() as int) =~= s);
}

} // verus!
