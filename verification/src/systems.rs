//! The three per-tick subsystems: movement, collision detection and collision
//! handling, each a function over a plain entity store.
//!
//! The host owns the real entity store, the scheduler and the event channel;
//! it hands each system the store as a vector of `EntityState` records and
//! appends the returned events to its channel.

use vstd::pervasive::VecAdditionalExecFns;
use vstd::prelude::*;

use crate::components::{
    in_coord_range, Collider2D, HandleCollisionMode, Transform2D, Vector2, Velocity,
};
use crate::events::{participant_in_range, spec_from_collision, CollisionEvent};
use crate::utils::{
    get_components, handle_collision, spec_get_components, spec_handle_collision, VelocityUpdate,
};

verus! {

/// The subsystems a `ColliderPhysicsBundle` can install, named for the host's
/// scheduler.
#[derive(Clone, Copy, Debug, PartialEq, Eq, Structural)]
pub enum SystemKind {
    Movement,
    Collision,
    HandleCollisions,
}

/// One entity of the host's store, as this core reads it: a stable id, the
/// optional components, and the two marker flags. An absent component means
/// the entity is silently skipped wherever that component is needed.
#[derive(Clone, Copy, Debug, PartialEq, Eq, Structural)]
pub struct EntityState {
    pub id: u64,
    pub collider: Option<Collider2D>,
    pub transform: Option<Transform2D>,
    pub velocity: Option<Velocity>,
    pub mode: Option<HandleCollisionMode>,
    pub passive: bool,
    pub deactivated: bool,
}

/// Active entities iterate as the outer side of pair enumeration.
pub open spec fn is_active(e: EntityState) -> bool {
    &&& e.collider is Some
    &&& e.transform is Some
    &&& !e.deactivated
    &&& !e.passive
}

/// Collidable entities can appear as the inner side of a pair; passive ones
/// are included, deactivated ones never.
pub open spec fn is_collidable(e: EntityState) -> bool {
    &&& e.collider is Some
    &&& e.transform is Some
    &&& !e.deactivated
}

/// Host stores hand out each entity id at most once.
pub open spec fn distinct_ids(s: Seq<EntityState>) -> bool {
    forall|i: int, j: int| 0 <= i < j < s.len() ==> s[i].id != s[j].id
}

pub open spec fn entity_in_range(e: EntityState) -> bool {
    e.collider is Some && e.transform is Some ==> participant_in_range(
        e.collider->0,
        e.transform->0,
    )
}

pub open spec fn store_in_range(s: Seq<EntityState>) -> bool {
    forall|i: int| 0 <= i < s.len() ==> entity_in_range(#[trigger] s[i])
}

/// Whether detection tests the ordered pair `(i, j)` of store indices: the
/// outer entity must be active, the inner collidable, the two distinct, and
/// the inner must not already have been dequeued as an outer — every active
/// entity at or before the current outer has been.
pub open spec fn pair_tested(s: Seq<EntityState>, i: int, j: int) -> bool {
    &&& 0 <= i < s.len()
    &&& 0 <= j < s.len()
    &&& is_active(s[i])
    &&& is_collidable(s[j])
    &&& !(j <= i && is_active(s[j]))
}

/// The event the pair `(first, second)` contributes, when their colliders
/// overlap.
pub open spec fn spec_pair_event(first: EntityState, second: EntityState) -> Option<
    CollisionEvent,
> {
    spec_from_collision(
        first.id,
        second.id,
        first.collider->0,
        second.collider->0,
        first.transform->0,
        second.transform->0,
    )
}

/// Events emitted by outer entity `i` against inner entities `0 .. j`.
pub open spec fn inner_events_before(s: Seq<EntityState>, i: int, j: int) -> Seq<CollisionEvent>
    decreases j,
{
    if j <= 0 {
        Seq::empty()
    } else {
        inner_events_before(s, i, j - 1) + (
        if pair_tested(s, i, j - 1) && spec_pair_event(s[i], s[j - 1]) is Some {
            seq![spec_pair_event(s[i], s[j - 1])->0]
        } else {
            Seq::empty()
        })
    }
}

/// Events emitted by outer entities `0 .. i`, each against the whole store.
pub open spec fn events_before(s: Seq<EntityState>, i: int) -> Seq<CollisionEvent>
    decreases i,
{
    if i <= 0 {
        Seq::empty()
    } else {
        events_before(s, i - 1) + inner_events_before(s, i - 1, s.len() as int)
    }
}

/// All events one detection tick emits over the store, in order.
pub open spec fn spec_tick_events(s: Seq<EntityState>) -> Seq<CollisionEvent> {
    events_before(s, s.len() as int)
}

/// Whether the ordered index pair `(i, j)` contributes an event: detection
/// tests it and the two colliders overlap.
pub open spec fn pair_emits(s: Seq<EntityState>, i: int, j: int) -> bool {
    pair_tested(s, i, j) && spec_pair_event(s[i], s[j]) is Some
}

/// The index pairs outer `i` emits against inners `0 .. j`, in order.
pub open spec fn inner_pairs_before(s: Seq<EntityState>, i: int, j: int) -> Seq<(int, int)>
    decreases j,
{
    if j <= 0 {
        Seq::empty()
    } else {
        inner_pairs_before(s, i, j - 1) + (
        if pair_emits(s, i, j - 1) {
            seq![(i, j - 1)]
        } else {
            Seq::empty()
        })
    }
}

/// The index pairs outers `0 .. i` emit, in enumeration order.
pub open spec fn pairs_before(s: Seq<EntityState>, i: int) -> Seq<(int, int)>
    decreases i,
{
    if i <= 0 {
        Seq::empty()
    } else {
        pairs_before(s, i - 1) + inner_pairs_before(s, i - 1, s.len() as int)
    }
}

/// The index pairs behind the events of one tick, positionally aligned with
/// `spec_tick_events`.
pub open spec fn spec_tick_pairs(s: Seq<EntityState>) -> Seq<(int, int)> {
    pairs_before(s, s.len() as int)
}

proof fn lemma_inner_alignment(s: Seq<EntityState>, i: int, j: int)
    requires
        0 <= j <= s.len(),
    ensures
        inner_events_before(s, i, j).len() == inner_pairs_before(s, i, j).len(),
        forall|k: int|
            0 <= k < inner_pairs_before(s, i, j).len() ==> {
                let p = #[trigger] inner_pairs_before(s, i, j)[k];
                &&& p.0 == i
                &&& 0 <= p.1 < j
                &&& pair_emits(s, i, p.1)
                &&& inner_events_before(s, i, j)[k] == spec_pair_event(s[i], s[p.1])->0
            },
        forall|k1: int, k2: int|
            0 <= k1 < k2 < inner_pairs_before(s, i, j).len() ==> #[trigger] inner_pairs_before(
                s,
                i,
                j,
            )[k1].1 < #[trigger] inner_pairs_before(s, i, j)[k2].1,
    decreases j,
{
    if j > 0 {
        lemma_inner_alignment(s, i, j - 1);
    }
}

proof fn lemma_tick_alignment(s: Seq<EntityState>, i: int)
    requires
        0 <= i <= s.len(),
    ensures
        events_before(s, i).len() == pairs_before(s, i).len(),
        forall|k: int|
            0 <= k < pairs_before(s, i).len() ==> {
                let p = #[trigger] pairs_before(s, i)[k];
                &&& 0 <= p.0 < i
                &&& pair_emits(s, p.0, p.1)
                &&& events_before(s, i)[k] == spec_pair_event(s[p.0], s[p.1])->0
            },
        forall|k1: int, k2: int|
            0 <= k1 < k2 < pairs_before(s, i).len() ==> {
                let p1 = #[trigger] pairs_before(s, i)[k1];
                let p2 = #[trigger] pairs_before(s, i)[k2];
                p1.0 < p2.0 || (p1.0 == p2.0 && p1.1 < p2.1)
            },
    decreases i,
{
    if i > 0 {
        lemma_tick_alignment(s, i - 1);
        lemma_inner_alignment(s, i - 1, s.len() as int);
    }
}

/// Two events cover the same unordered entity pair.
pub open spec fn same_unordered_pair(a: CollisionEvent, b: CollisionEvent) -> bool {
    let a0 = a.collisions.0.entity;
    let a1 = a.collisions.1.entity;
    let b0 = b.collisions.0.entity;
    let b1 = b.collisions.1.entity;
    (a0 == b0 && a1 == b1) || (a0 == b1 && a1 == b0)
}

/// No self-pairs: no event of a tick contains the same entity twice.
pub proof fn lemma_no_self_pairs(s: Seq<EntityState>)
    requires
        distinct_ids(s),
    ensures
        forall|k: int|
            0 <= k < spec_tick_events(s).len() ==> (#[trigger] spec_tick_events(
                s,
            )[k]).collisions.0.entity != spec_tick_events(s)[k].collisions.1.entity,
{
    let n = s.len() as int;
    lemma_tick_alignment(s, n);
    assert forall|k: int|
        0 <= k < spec_tick_events(s).len() implies (#[trigger] spec_tick_events(
        s,
    )[k]).collisions.0.entity != spec_tick_events(s)[k].collisions.1.entity by {
        let p = pairs_before(s, n)[k];
        assert(pair_emits(s, p.0, p.1));
        assert(p.0 != p.1);
    }
}

/// Passive exclusion: the outer (first) participant of an event is never a
/// passive entity; a pair of two passive entities therefore never produces
/// an event.
pub proof fn lemma_passive_exclusion(s: Seq<EntityState>)
    requires
        distinct_ids(s),
    ensures
        forall|k: int, m: int|
            0 <= k < spec_tick_events(s).len() && 0 <= m < s.len() && (#[trigger] s[m]).id == (
            #[trigger] spec_tick_events(s)[k]).collisions.0.entity ==> !s[m].passive,
{
    let n = s.len() as int;
    lemma_tick_alignment(s, n);
    assert forall|k: int, m: int|
        0 <= k < spec_tick_events(s).len() && 0 <= m < s.len() && (#[trigger] s[m]).id == (
        #[trigger] spec_tick_events(s)[k]).collisions.0.entity implies !s[m].passive by {
        let p = pairs_before(s, n)[k];
        assert(pair_emits(s, p.0, p.1));
        assert(s[m].id == s[p.0].id);
        lemma_same_id_same_index(s, m, p.0);
    }
}

/// Deactivation exclusion: no event of a tick contains a deactivated entity,
/// on either side.
pub proof fn lemma_deactivation_exclusion(s: Seq<EntityState>)
    requires
        distinct_ids(s),
    ensures
        forall|k: int, m: int|
            0 <= k < spec_tick_events(s).len() && 0 <= m < s.len() && ((#[trigger] s[m]).id == (
            #[trigger] spec_tick_events(s)[k]).collisions.0.entity || s[m].id == spec_tick_events(
                s,
            )[k].collisions.1.entity) ==> !s[m].deactivated,
{
    let n = s.len() as int;
    lemma_tick_alignment(s, n);
    assert forall|k: int, m: int|
        0 <= k < spec_tick_events(s).len() && 0 <= m < s.len() && ((#[trigger] s[m]).id == (
        #[trigger] spec_tick_events(s)[k]).collisions.0.entity || s[m].id == spec_tick_events(
            s,
        )[k].collisions.1.entity) implies !s[m].deactivated by {
        let p = pairs_before(s, n)[k];
        assert(pair_emits(s, p.0, p.1));
        if s[m].id == spec_tick_events(s)[k].collisions.0.entity {
            assert(s[m].id == s[p.0].id);
            lemma_same_id_same_index(s, m, p.0);
        } else {
            assert(s[m].id == s[p.1].id);
            lemma_same_id_same_index(s, m, p.1);
        }
    }
}

proof fn lemma_same_id_same_index(s: Seq<EntityState>, a: int, b: int)
    requires
        distinct_ids(s),
        0 <= a < s.len(),
        0 <= b < s.len(),
        s[a].id == s[b].id,
    ensures
        a == b,
{
    if a < b {
        assert(s[a].id != s[b].id);
    } else if b < a {
        assert(s[b].id != s[a].id);
    }
}

/// Deduplication: across one tick, no unordered entity pair appears in two
/// events.
pub proof fn lemma_deduplication(s: Seq<EntityState>)
    requires
        distinct_ids(s),
    ensures
        forall|k1: int, k2: int|
            0 <= k1 < k2 < spec_tick_events(s).len() ==> !same_unordered_pair(
                #[trigger] spec_tick_events(s)[k1],
                #[trigger] spec_tick_events(s)[k2],
            ),
{
    let n = s.len() as int;
    lemma_tick_alignment(s, n);
    assert forall|k1: int, k2: int|
        0 <= k1 < k2 < spec_tick_events(s).len() implies !same_unordered_pair(
        #[trigger] spec_tick_events(s)[k1],
        #[trigger] spec_tick_events(s)[k2],
    ) by {
        let p1 = pairs_before(s, n)[k1];
        let p2 = pairs_before(s, n)[k2];
        assert(pair_emits(s, p1.0, p1.1));
        assert(pair_emits(s, p2.0, p2.1));
        let e1 = spec_tick_events(s)[k1];
        let e2 = spec_tick_events(s)[k2];
        assert(e1.collisions.0.entity == s[p1.0].id && e1.collisions.1.entity == s[p1.1].id);
        assert(e2.collisions.0.entity == s[p2.0].id && e2.collisions.1.entity == s[p2.1].id);
        if same_unordered_pair(e1, e2) {
            if s[p1.0].id == s[p2.0].id && s[p1.1].id == s[p2.1].id {
                lemma_same_id_same_index(s, p1.0, p2.0);
                lemma_same_id_same_index(s, p1.1, p2.1);
                // same ordered index pair twice contradicts the strict
                // enumeration order
                assert(false);
            } else {
                lemma_same_id_same_index(s, p1.0, p2.1);
                lemma_same_id_same_index(s, p1.1, p2.0);
                // the later outer would have re-tested an earlier outer as
                // its inner, which the covered set rules out
                assert(pair_tested(s, p2.0, p2.1));
                assert(is_active(s[p1.0]));
                assert(false);
            }
        }
    }
}

proof fn lemma_inner_events_inactive(s: Seq<EntityState>, i: int, j: int)
    requires
        0 <= i < s.len(),
        !is_active(s[i]),
    ensures
        inner_events_before(s, i, j) == Seq::<CollisionEvent>::empty(),
    decreases j,
{
    if j > 0 {
        lemma_inner_events_inactive(s, i, j - 1);
        assert(inner_events_before(s, i, j) =~= Seq::<CollisionEvent>::empty());
    }
}

/// Test for collisions and return the events of this tick, in enumeration
/// order, for the host to append to its `CollisionEvent` channel.
pub struct CollisionSystem;

impl CollisionSystem {
    pub fn run(&self, entities: &Vec<EntityState>) -> (events: Vec<CollisionEvent>)
        requires
            store_in_range(entities@),
        ensures
            events@ == spec_tick_events(entities@),
    {
        let n: usize = entities.len();
        let mut events: Vec<CollisionEvent> = Vec::new();
        let mut i: usize = 0;
        while i < n
            invariant
                n == entities@.len(),
                i <= n,
                store_in_range(entities@),
                events@ == events_before(entities@, i as int),
            decreases n - i,
        {
            let e = entities[i];
            let e_active = e.collider.is_some() && e.transform.is_some() && !e.deactivated
                && !e.passive;
            if e_active {
                let mut j: usize = 0;
                while j < n
                    invariant
                        n == entities@.len(),
                        i < n,
                        j <= n,
                        store_in_range(entities@),
                        e == entities@[i as int],
                        is_active(e),
                        events@ == events_before(entities@, i as int) + inner_events_before(
                            entities@,
                            i as int,
                            j as int,
                        ),
                    decreases n - j,
                {
                    let o = entities[j];
                    let collidable = o.collider.is_some() && o.transform.is_some()
                        && !o.deactivated;
                    let covered = j <= i && collidable && !o.passive;
                    if collidable && !covered {
                        match (&e.collider, &e.transform, &o.collider, &o.transform) {
                            (Some(c1), Some(t1), Some(c2), Some(t2)) => {
                                match CollisionEvent::from_collision(e.id, o.id, c1, c2, t1, t2) {
                                    Some(event) => {
                                        events.push(event);
                                    },
                                    None => {},
                                }
                            },
                            _ => {},
                        }
                    }
                    proof {
                        assert(events@ =~= events_before(entities@, i as int)
                            + inner_events_before(entities@, i as int, j as int + 1));
                    }
                    j = j + 1;
                }
            } else {
                proof {
                    lemma_inner_events_inactive(entities@, i as int, n as int);
                }
            }
            proof {
                assert(events@ =~= events_before(entities@, i as int + 1));
            }
            i = i + 1;
        }
        events
    }
}

/// Updates each participant's velocity update from the `HandleCollisionMode`
/// of the entity. For example, if the collision mode is `Reflect`, the entity
/// performs an elastic collision. An entity opts out by not carrying a
/// `HandleCollisionMode`, or by setting it to `Ignore`.
///
/// The system holds the one piece of cross-tick state of this core: the
/// cursor of its event-channel reader.
pub struct HandleCollisionsSystem {
    reader: Option<usize>,
}

impl Default for HandleCollisionsSystem {
    fn default() -> (r: Self)
        ensures
            r.spec_reader() is None,
    {
        HandleCollisionsSystem { reader: None }
    }
}

/// The updates one event asks for: first the first participant's, then the
/// second's, each present only when that entity holds both a mode and a
/// velocity.
pub open spec fn spec_event_updates(ev: CollisionEvent, s: Seq<EntityState>) -> Seq<
    (u64, VelocityUpdate),
> {
    (match spec_get_components(s, ev.collisions.0.entity) {
        Some(c) => seq![
            (ev.collisions.0.entity, spec_handle_collision(ev.collisions.0, ev.collisions.1, c)),
        ],
        None => Seq::empty(),
    }) + (match spec_get_components(s, ev.collisions.1.entity) {
        Some(c) => seq![
            (ev.collisions.1.entity, spec_handle_collision(ev.collisions.1, ev.collisions.0, c)),
        ],
        None => Seq::empty(),
    })
}

/// The updates a run over the given events asks for, in event order.
pub open spec fn spec_response_updates(evs: Seq<CollisionEvent>, s: Seq<EntityState>) -> Seq<
    (u64, VelocityUpdate),
>
    decreases evs.len(),
{
    if evs.len() == 0 {
        Seq::empty()
    } else {
        spec_event_updates(evs[0], s) + spec_response_updates(evs.drop_first(), s)
    }
}

proof fn lemma_response_updates_snoc(evs: Seq<CollisionEvent>, ev: CollisionEvent, s: Seq<EntityState>)
    ensures
        spec_response_updates(evs.push(ev), s) == spec_response_updates(evs, s)
            + spec_event_updates(ev, s),
    decreases evs.len(),
{
    if evs.len() == 0 {
        assert(evs.push(ev)[0] == ev);
        assert(evs.push(ev).drop_first() =~= Seq::<CollisionEvent>::empty());
        assert(spec_response_updates(Seq::<CollisionEvent>::empty(), s) == Seq::<
            (u64, VelocityUpdate),
        >::empty());
        assert(spec_response_updates(evs.push(ev), s) =~= spec_response_updates(evs, s)
            + spec_event_updates(ev, s));
    } else {
        assert(evs.push(ev)[0] == evs[0]);
        assert(evs.push(ev).drop_first() =~= evs.drop_first().push(ev));
        lemma_response_updates_snoc(evs.drop_first(), ev, s);
        assert(spec_response_updates(evs.push(ev), s) =~= spec_response_updates(evs, s)
            + spec_event_updates(ev, s));
    }
}

impl HandleCollisionsSystem {
    pub closed spec fn spec_reader(self) -> Option<usize> {
        self.reader
    }

    pub fn new() -> (r: Self)
        ensures
            r.spec_reader() is None,
    {
        HandleCollisionsSystem { reader: None }
    }

    /// Where the system's channel reader stands: `None` until `setup` has
    /// run, then the index of the first unread event. A host has to keep the
    /// cursor within its channel — it only ever appends — to call `run`.
    pub fn reader_position(&self) -> (r: Option<usize>)
        ensures
            r == self.spec_reader(),
    {
        self.reader
    }

    /// Register with the host's event channel: the cursor starts at the
    /// current end of the channel, so only later events are read.
    pub fn setup(&mut self, channel: &Vec<CollisionEvent>)
        ensures
            final(self).spec_reader() == Some(channel@.len() as usize),
    {
        self.reader = Some(channel.len());
    }

    /// Read every event appended since the last run and decide, for each
    /// participant that carries both a mode and a velocity, how its velocity
    /// changes. The updates come back in event order, first participant
    /// before second, for the host to apply.
    pub fn run(&mut self, channel: &Vec<CollisionEvent>, entities: &Vec<EntityState>) -> (updates:
        Vec<(u64, VelocityUpdate)>)
        requires
            old(self).spec_reader() is Some,
            old(self).spec_reader()->0 <= channel@.len(),
        ensures
            final(self).spec_reader() == Some(channel@.len() as usize),
            updates@ == spec_response_updates(
                channel@.skip(old(self).spec_reader()->0 as int),
                entities@,
            ),
    {
        let start: usize = match self.reader {
            Some(c) => c,
            None => 0,
        };
        let n: usize = channel.len();
        let mut updates: Vec<(u64, VelocityUpdate)> = Vec::new();
        let mut k: usize = start;
        while k < n
            invariant
                n == channel@.len(),
                start <= k <= n,
                updates@ == spec_response_updates(
                    channel@.subrange(start as int, k as int),
                    entities@,
                ),
            decreases n - k,
        {
            let ev = channel[k];
            let ghost prev = updates@;
            match get_components(entities, ev.collisions.0.entity) {
                Some(comps) => {
                    let update = handle_collision(&ev.collisions.0, &ev.collisions.1, &comps);
                    updates.push((ev.collisions.0.entity, update));
                },
                None => {},
            }
            match get_components(entities, ev.collisions.1.entity) {
                Some(comps) => {
                    let update = handle_collision(&ev.collisions.1, &ev.collisions.0, &comps);
                    updates.push((ev.collisions.1.entity, update));
                },
                None => {},
            }
            proof {
                assert(updates@ =~= prev + spec_event_updates(ev, entities@));
                assert(channel@.subrange(start as int, k as int + 1) =~= channel@.subrange(
                    start as int,
                    k as int,
                ).push(ev));
                lemma_response_updates_snoc(
                    channel@.subrange(start as int, k as int),
                    ev,
                    entities@,
                );
            }
            k = k + 1;
        }
        proof {
            assert(channel@.subrange(start as int, n as int) =~= channel@.skip(start as int));
        }
        self.reader = Some(n);
        updates
    }
}

/// How movement advances one entity over a tick: the translation moves by
/// velocity times the elapsed time, the scale stays; entities missing a
/// transform or a velocity stay as they are.
pub open spec fn spec_moved(e: EntityState, delta: int) -> EntityState {
    match (e.transform, e.velocity) {
        (Some(t), Some(v)) => EntityState {
            id: e.id,
            collider: e.collider,
            transform: Some(
                Transform2D {
                    translation: Vector2 {
                        x: (t.translation.x + v.0.x * delta) as i64,
                        y: (t.translation.y + v.0.y * delta) as i64,
                    },
                    scale: t.scale,
                },
            ),
            velocity: e.velocity,
            mode: e.mode,
            passive: e.passive,
            deactivated: e.deactivated,
        },
        _ => e,
    }
}

/// The bounds under which one movement step of an entity stays inside `i64`.
pub open spec fn movement_in_range(e: EntityState, delta: int) -> bool {
    e.transform is Some && e.velocity is Some ==> {
        let t = e.transform->0;
        let v = e.velocity->0;
        &&& in_coord_range(v.0.x * delta)
        &&& in_coord_range(v.0.y * delta)
        &&& in_coord_range(t.translation.x + v.0.x * delta)
        &&& in_coord_range(t.translation.y + v.0.y * delta)
    }
}

/// Update the entities' positions based on their `Velocity` component.
pub struct MovementSystem;

impl MovementSystem {
    /// Advance every entity that has both a transform and a velocity by
    /// `delta_seconds`, the host's elapsed time for this tick in its own
    /// fixed-point unit. The position change is exactly velocity times
    /// elapsed time; nothing else of the entity changes.
    pub fn run(&self, entities: &mut Vec<EntityState>, delta_seconds: i64)
        requires
            forall|i: int|
                0 <= i < old(entities)@.len() ==> movement_in_range(
                    #[trigger] old(entities)@[i],
                    delta_seconds as int,
                ),
        ensures
            final(entities)@.len() == old(entities)@.len(),
            forall|i: int|
                0 <= i < old(entities)@.len() ==> #[trigger] final(entities)@[i] == spec_moved(
                    old(entities)@[i],
                    delta_seconds as int,
                ),
            forall|i: int|
                0 <= i < old(entities)@.len() && old(entities)@[i].transform is Some
                    && old(entities)@[i].velocity is Some ==> {
                    let before = old(entities)@[i];
                    let after = #[trigger] final(entities)@[i];
                    &&& after.transform->0.translation.x == before.transform->0.translation.x + (
                    before.velocity->0).0.x * delta_seconds
                    &&& after.transform->0.translation.y == before.transform->0.translation.y + (
                    before.velocity->0).0.y * delta_seconds
                },
    {
        let n: usize = entities.len();
        let mut i: usize = 0;
        while i < n
            invariant
                n == entities@.len(),
                i <= n,
                forall|k: int|
                    0 <= k < n ==> movement_in_range(
                        #[trigger] old(entities)@[k],
                        delta_seconds as int,
                    ),
                forall|k: int| i <= k < n ==> entities@[k] == old(entities)@[k],
                forall|k: int|
                    0 <= k < i ==> #[trigger] entities@[k] == spec_moved(
                        old(entities)@[k],
                        delta_seconds as int,
                    ),
            decreases n - i,
        {
            let e = entities[i];
            match (&e.transform, &e.velocity) {
                (Some(t), Some(v)) => {
                    let moved = EntityState {
                        transform: Some(
                            Transform2D {
                                translation: Vector2 {
                                    x: t.translation.x + v.0.x * delta_seconds,
                                    y: t.translation.y + v.0.y * delta_seconds,
                                },
                                scale: t.scale,
                            },
                        ),
                        ..e
                    };
                    entities.set(i, moved);
                },
                _ => {},
            }
            i = i + 1;
        }
    }
}

} // verus!
