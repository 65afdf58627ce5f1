//! Notification types and the typed event bus.
//!
//! Every notification kind the core produces or consumes is a record here,
//! and the [`EventBus`] keeps one queue per kind: producers publish during a
//! tick, consumers drain during the same or a later tick. Draining empties
//! the queue, so each published notification is observed at most once per
//! queue.

use vstd::prelude::*;
use vstd::view::View as _;

use crate::entities::Entity;
use crate::view::ChunkPosition;
use crate::view::View;
use crate::view::sort_by_distance_from;
use crate::view::sorted_by_distance;
use std::sync::Arc;

verus! {

/// Terrain payload of one chunk, as handed over by the chunk pipeline. The
/// core never inspects it; it only carries the handle to its consumers.
#[derive(Debug)]
pub struct ChunkData {
    pub payload: Vec<u8>,
}

/// Relies on `lock_api::RwLock` (the struct behind `parking_lot::RwLock`):
/// declared so that a shared chunk handle can stand in an event field. The
/// core treats the lock as opaque and never reads through it.
#[verifier::external_type_specification]
#[verifier::external_body]
#[verifier::reject_recursive_types(R)]
#[verifier::reject_recursive_types(T)]
pub struct ExRwLock<R, T: ?Sized>(lock_api::RwLock<R, T>);

/// Relies on `parking_lot::RawRwLock`: the raw lock that instantiates
/// `lock_api::RwLock` in `parking_lot`. Declared only so the alias
/// `parking_lot::RwLock<T>` can appear in fields; never touched directly.
#[verifier::external_type_specification]
#[verifier::external_body]
pub struct ExRawRwLock(parking_lot::RawRwLock);

/// Triggered when a player joins the simulation.
#[derive(Debug)]
pub struct PlayerJoinEvent;

/// Triggered when a participant's [`View`] is replaced: they crossed into a
/// new cell. Produced exactly once per replacement.
#[derive(Debug)]
pub struct ViewUpdateEvent {
    pub old_view: View,
    pub new_view: View,
    /// Cells in `new_view` but not `old_view`, nearest to the new center
    /// first.
    pub new_chunks: Vec<ChunkPosition>,
    /// Cells in `old_view` but not `new_view`, nearest to the old center
    /// first.
    pub old_chunks: Vec<ChunkPosition>,
}

impl ViewUpdateEvent {
    /// Diffs the two views: `new_chunks` holds exactly the cells entering
    /// the region, sorted by ascending squared distance from the new center;
    /// `old_chunks` exactly the cells leaving it, sorted by ascending squared
    /// distance from the old center. Ties keep a deterministic,
    /// implementation-defined order. Equal views produce two empty lists.
    pub fn new(old_view: View, new_view: View) -> (e: ViewUpdateEvent)
        requires
            old_view.wf(),
            new_view.wf(),
        ensures
            e.old_view == old_view,
            e.new_view == new_view,
            forall|p: ChunkPosition| #![all_triggers]
                e.new_chunks@.contains(p) <==> (new_view.covers(p) && !old_view.covers(p)),
            forall|p: ChunkPosition| #![all_triggers]
                e.old_chunks@.contains(p) <==> (old_view.covers(p) && !new_view.covers(p)),
            forall|p: ChunkPosition| #![all_triggers]
                !(e.new_chunks@.contains(p) && e.old_chunks@.contains(p)),
            forall|p: ChunkPosition| #![all_triggers]
                (e.new_chunks@.contains(p) || e.old_chunks@.contains(p)) <==> (new_view.covers(p)
                    != old_view.covers(p)),
            e.new_chunks@.no_duplicates(),
            e.old_chunks@.no_duplicates(),
            sorted_by_distance(e.new_chunks@, new_view.center),
            sorted_by_distance(e.old_chunks@, old_view.center),
            old_view == new_view ==> e.new_chunks@.len() == 0 && e.old_chunks@.len() == 0,
    {
        let new_chunks = sort_by_distance_from(new_view.difference(old_view), new_view.center());
        let old_chunks = sort_by_distance_from(old_view.difference(new_view), old_view.center());
        let e = ViewUpdateEvent { old_view, new_view, new_chunks, old_chunks };
        proof {
            if old_view == new_view {
                assert(e.new_chunks@.len() == 0) by {
                    if e.new_chunks@.len() > 0 {
                        assert(e.new_chunks@.contains(e.new_chunks@[0]));
                    }
                }
                assert(e.old_chunks@.len() == 0) by {
                    if e.old_chunks@.len() > 0 {
                        assert(e.old_chunks@.contains(e.old_chunks@[0]));
                    }
                }
            }
        }
        e
    }
}

/// Triggered when an entity crosses into a new cell. Unlike
/// [`ViewUpdateEvent`], this fires for every entity, participant or not.
pub struct ChunkCrossEvent {
    pub old_chunk: ChunkPosition,
    pub new_chunk: ChunkPosition,
}

/// Triggered when the chunk pipeline has loaded a chunk.
pub struct ChunkLoadEvent {
    pub position: ChunkPosition,
    pub chunk: Arc<parking_lot::RwLock<ChunkData>>,
}

/// Triggered when the chunk pipeline failed to load a chunk.
#[derive(Debug)]
pub struct ChunkLoadFailEvent {
    pub position: ChunkPosition,
}

/// Triggered when an entity's removal is requested. The entity stays
/// readable for the rest of that tick so consumers can observe its last
/// state.
#[derive(Debug)]
pub struct EntityRemoveEvent;

/// Triggered when an entity is added into the world.
#[derive(Debug)]
pub struct EntityCreateEvent;

/// One queue per notification kind. Entity-scoped notifications carry the
/// subject entity next to the payload.
pub struct EventBus {
    player_join: Vec<(Entity, PlayerJoinEvent)>,
    view_update: Vec<(Entity, ViewUpdateEvent)>,
    chunk_cross: Vec<(Entity, ChunkCrossEvent)>,
    chunk_load: Vec<ChunkLoadEvent>,
    chunk_load_fail: Vec<ChunkLoadFailEvent>,
    entity_create: Vec<(Entity, EntityCreateEvent)>,
    entity_remove: Vec<(Entity, EntityRemoveEvent)>,
}

impl EventBus {
    /// The queued player-join notifications, oldest first.
    pub closed spec fn player_join_q(&self) -> Seq<(Entity, PlayerJoinEvent)> {
        self.player_join@
    }

    /// The queued view-update notifications, oldest first.
    pub closed spec fn view_update_q(&self) -> Seq<(Entity, ViewUpdateEvent)> {
        self.view_update@
    }

    /// The queued chunk-cross notifications, oldest first.
    pub closed spec fn chunk_cross_q(&self) -> Seq<(Entity, ChunkCrossEvent)> {
        self.chunk_cross@
    }

    /// The queued chunk-load notifications, oldest first.
    pub closed spec fn chunk_load_q(&self) -> Seq<ChunkLoadEvent> {
        self.chunk_load@
    }

    /// The queued chunk-load-failure notifications, oldest first.
    pub closed spec fn chunk_load_fail_q(&self) -> Seq<ChunkLoadFailEvent> {
        self.chunk_load_fail@
    }

    /// The queued entity-create notifications, oldest first.
    pub closed spec fn entity_create_q(&self) -> Seq<(Entity, EntityCreateEvent)> {
        self.entity_create@
    }

    /// The queued entity-remove notifications, oldest first.
    pub closed spec fn entity_remove_q(&self) -> Seq<(Entity, EntityRemoveEvent)> {
        self.entity_remove@
    }

    /// All queues keep their contents except where stated otherwise.
    pub open spec fn frame_except_player_join(pre: &EventBus, post: &EventBus) -> bool {
        &&& post.view_update_q() == pre.view_update_q()
        &&& post.chunk_cross_q() == pre.chunk_cross_q()
        &&& post.chunk_load_q() == pre.chunk_load_q()
        &&& post.chunk_load_fail_q() == pre.chunk_load_fail_q()
        &&& post.entity_create_q() == pre.entity_create_q()
        &&& post.entity_remove_q() == pre.entity_remove_q()
    }

    /// As [`EventBus::frame_except_player_join`], for the view-update queue.
    pub open spec fn frame_except_view_update(pre: &EventBus, post: &EventBus) -> bool {
        &&& post.player_join_q() == pre.player_join_q()
        &&& post.chunk_cross_q() == pre.chunk_cross_q()
        &&& post.chunk_load_q() == pre.chunk_load_q()
        &&& post.chunk_load_fail_q() == pre.chunk_load_fail_q()
        &&& post.entity_create_q() == pre.entity_create_q()
        &&& post.entity_remove_q() == pre.entity_remove_q()
    }

    /// As [`EventBus::frame_except_player_join`], for the chunk-cross queue.
    pub open spec fn frame_except_chunk_cross(pre: &EventBus, post: &EventBus) -> bool {
        &&& post.player_join_q() == pre.player_join_q()
        &&& post.view_update_q() == pre.view_update_q()
        &&& post.chunk_load_q() == pre.chunk_load_q()
        &&& post.chunk_load_fail_q() == pre.chunk_load_fail_q()
        &&& post.entity_create_q() == pre.entity_create_q()
        &&& post.entity_remove_q() == pre.entity_remove_q()
    }

    /// As [`EventBus::frame_except_player_join`], for the chunk-load queue.
    pub open spec fn frame_except_chunk_load(pre: &EventBus, post: &EventBus) -> bool {
        &&& post.player_join_q() == pre.player_join_q()
        &&& post.view_update_q() == pre.view_update_q()
        &&& post.chunk_cross_q() == pre.chunk_cross_q()
        &&& post.chunk_load_fail_q() == pre.chunk_load_fail_q()
        &&& post.entity_create_q() == pre.entity_create_q()
        &&& post.entity_remove_q() == pre.entity_remove_q()
    }

    /// As [`EventBus::frame_except_player_join`], for the chunk-load-failure
    /// queue.
    pub open spec fn frame_except_chunk_load_fail(pre: &EventBus, post: &EventBus) -> bool {
        &&& post.player_join_q() == pre.player_join_q()
        &&& post.view_update_q() == pre.view_update_q()
        &&& post.chunk_cross_q() == pre.chunk_cross_q()
        &&& post.chunk_load_q() == pre.chunk_load_q()
        &&& post.entity_create_q() == pre.entity_create_q()
        &&& post.entity_remove_q() == pre.entity_remove_q()
    }

    /// As [`EventBus::frame_except_player_join`], for the entity-create
    /// queue.
    pub open spec fn frame_except_entity_create(pre: &EventBus, post: &EventBus) -> bool {
        &&& post.player_join_q() == pre.player_join_q()
        &&& post.view_update_q() == pre.view_update_q()
        &&& post.chunk_cross_q() == pre.chunk_cross_q()
        &&& post.chunk_load_q() == pre.chunk_load_q()
        &&& post.chunk_load_fail_q() == pre.chunk_load_fail_q()
        &&& post.entity_remove_q() == pre.entity_remove_q()
    }

    /// As [`EventBus::frame_except_player_join`], for the entity-remove
    /// queue.
    pub open spec fn frame_except_entity_remove(pre: &EventBus, post: &EventBus) -> bool {
        &&& post.player_join_q() == pre.player_join_q()
        &&& post.view_update_q() == pre.view_update_q()
        &&& post.chunk_cross_q() == pre.chunk_cross_q()
        &&& post.chunk_load_q() == pre.chunk_load_q()
        &&& post.chunk_load_fail_q() == pre.chunk_load_fail_q()
        &&& post.entity_create_q() == pre.entity_create_q()
    }

    /// A bus with every queue empty.
    pub fn new() -> (b: EventBus)
        ensures
            b.player_join_q() == Seq::<(Entity, PlayerJoinEvent)>::empty(),
            b.view_update_q() == Seq::<(Entity, ViewUpdateEvent)>::empty(),
            b.chunk_cross_q() == Seq::<(Entity, ChunkCrossEvent)>::empty(),
            b.chunk_load_q() == Seq::<ChunkLoadEvent>::empty(),
            b.chunk_load_fail_q() == Seq::<ChunkLoadFailEvent>::empty(),
            b.entity_create_q() == Seq::<(Entity, EntityCreateEvent)>::empty(),
            b.entity_remove_q() == Seq::<(Entity, EntityRemoveEvent)>::empty(),
    {
        EventBus {
            player_join: Vec::new(),
            view_update: Vec::new(),
            chunk_cross: Vec::new(),
            chunk_load: Vec::new(),
            chunk_load_fail: Vec::new(),
            entity_create: Vec::new(),
            entity_remove: Vec::new(),
        }
    }

    /// Publishes a player-join notification about `e`.
    pub fn publish_player_join(&mut self, e: Entity, ev: PlayerJoinEvent)
        ensures
            final(self).player_join_q() == old(self).player_join_q().push((e, ev)),
            EventBus::frame_except_player_join(old(self), final(self)),
    {
        self.player_join.push((e, ev));
    }

    /// Drains the player-join queue: every queued notification, oldest
    /// first; the queue is empty afterwards.
    pub fn drain_player_join(&mut self) -> (r: Vec<(Entity, PlayerJoinEvent)>)
        ensures
            r@ == old(self).player_join_q(),
            final(self).player_join_q() == Seq::<(Entity, PlayerJoinEvent)>::empty(),
            EventBus::frame_except_player_join(old(self), final(self)),
    {
        let mut out: Vec<(Entity, PlayerJoinEvent)> = Vec::new();
        std::mem::swap(&mut self.player_join, &mut out);
        out
    }

    /// Publishes a view-update notification about `e`.
    pub fn publish_view_update(&mut self, e: Entity, ev: ViewUpdateEvent)
        ensures
            final(self).view_update_q() == old(self).view_update_q().push((e, ev)),
            EventBus::frame_except_view_update(old(self), final(self)),
    {
        self.view_update.push((e, ev));
    }

    /// Drains the view-update queue, oldest first; empty afterwards.
    pub fn drain_view_update(&mut self) -> (r: Vec<(Entity, ViewUpdateEvent)>)
        ensures
            r@ == old(self).view_update_q(),
            final(self).view_update_q() == Seq::<(Entity, ViewUpdateEvent)>::empty(),
            EventBus::frame_except_view_update(old(self), final(self)),
    {
        let mut out: Vec<(Entity, ViewUpdateEvent)> = Vec::new();
        std::mem::swap(&mut self.view_update, &mut out);
        out
    }

    /// Publishes a chunk-cross notification about `e`.
    pub fn publish_chunk_cross(&mut self, e: Entity, ev: ChunkCrossEvent)
        ensures
            final(self).chunk_cross_q() == old(self).chunk_cross_q().push((e, ev)),
            EventBus::frame_except_chunk_cross(old(self), final(self)),
    {
        self.chunk_cross.push((e, ev));
    }

    /// Drains the chunk-cross queue, oldest first; empty afterwards.
    pub fn drain_chunk_cross(&mut self) -> (r: Vec<(Entity, ChunkCrossEvent)>)
        ensures
            r@ == old(self).chunk_cross_q(),
            final(self).chunk_cross_q() == Seq::<(Entity, ChunkCrossEvent)>::empty(),
            EventBus::frame_except_chunk_cross(old(self), final(self)),
    {
        let mut out: Vec<(Entity, ChunkCrossEvent)> = Vec::new();
        std::mem::swap(&mut self.chunk_cross, &mut out);
        out
    }

    /// Publishes a chunk-load notification.
    pub fn publish_chunk_load(&mut self, ev: ChunkLoadEvent)
        ensures
            final(self).chunk_load_q() == old(self).chunk_load_q().push(ev),
            EventBus::frame_except_chunk_load(old(self), final(self)),
    {
        self.chunk_load.push(ev);
    }

    /// Drains the chunk-load queue, oldest first; empty afterwards.
    pub fn drain_chunk_load(&mut self) -> (r: Vec<ChunkLoadEvent>)
        ensures
            r@ == old(self).chunk_load_q(),
            final(self).chunk_load_q() == Seq::<ChunkLoadEvent>::empty(),
            EventBus::frame_except_chunk_load(old(self), final(self)),
    {
        let mut out: Vec<ChunkLoadEvent> = Vec::new();
        std::mem::swap(&mut self.chunk_load, &mut out);
        out
    }

    /// Publishes a chunk-load-failure notification.
    pub fn publish_chunk_load_fail(&mut self, ev: ChunkLoadFailEvent)
        ensures
            final(self).chunk_load_fail_q() == old(self).chunk_load_fail_q().push(ev),
            EventBus::frame_except_chunk_load_fail(old(self), final(self)),
    {
        self.chunk_load_fail.push(ev);
    }

    /// Drains the chunk-load-failure queue, oldest first; empty afterwards.
    pub fn drain_chunk_load_fail(&mut self) -> (r: Vec<ChunkLoadFailEvent>)
        ensures
            r@ == old(self).chunk_load_fail_q(),
            final(self).chunk_load_fail_q() == Seq::<ChunkLoadFailEvent>::empty(),
            EventBus::frame_except_chunk_load_fail(old(self), final(self)),
    {
        let mut out: Vec<ChunkLoadFailEvent> = Vec::new();
        std::mem::swap(&mut self.chunk_load_fail, &mut out);
        out
    }

    /// Publishes an entity-create notification about `e`.
    pub fn publish_entity_create(&mut self, e: Entity, ev: EntityCreateEvent)
        ensures
            final(self).entity_create_q() == old(self).entity_create_q().push((e, ev)),
            EventBus::frame_except_entity_create(old(self), final(self)),
    {
        self.entity_create.push((e, ev));
    }

    /// Drains the entity-create queue, oldest first; empty afterwards.
    pub fn drain_entity_create(&mut self) -> (r: Vec<(Entity, EntityCreateEvent)>)
        ensures
            r@ == old(self).entity_create_q(),
            final(self).entity_create_q() == Seq::<(Entity, EntityCreateEvent)>::empty(),
            EventBus::frame_except_entity_create(old(self), final(self)),
    {
        let mut out: Vec<(Entity, EntityCreateEvent)> = Vec::new();
        std::mem::swap(&mut self.entity_create, &mut out);
        out
    }

    /// Publishes an entity-remove notification about `e`.
    pub fn publish_entity_remove(&mut self, e: Entity, ev: EntityRemoveEvent)
        ensures
            final(self).entity_remove_q() == old(self).entity_remove_q().push((e, ev)),
            EventBus::frame_except_entity_remove(old(self), final(self)),
    {
        self.entity_remove.push((e, ev));
    }

    /// Drains the entity-remove queue, oldest first; empty afterwards.
    pub fn drain_entity_remove(&mut self) -> (r: Vec<(Entity, EntityRemoveEvent)>)
        ensures
            r@ == old(self).entity_remove_q(),
            final(self).entity_remove_q() == Seq::<(Entity, EntityRemoveEvent)>::empty(),
            EventBus::frame_except_entity_remove(old(self), final(self)),
    {
        let mut out: Vec<(Entity, EntityRemoveEvent)> = Vec::new();
        std::mem::swap(&mut self.entity_remove, &mut out);
        out
    }
}

} // verus!
