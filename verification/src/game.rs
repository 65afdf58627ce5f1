//! The simulation state: entity store, event bus and the server resource.
//!
//! A [`Game`] is the context value threaded into every routine call: the
//! entity/component store, the typed notification queues, and — once
//! [`crate::systems::register`] has run — the server-side resource. Spawning
//! and removal go through [`Game`] so that the matching lifecycle
//! notification is published in the same tick, exactly once.

use vstd::prelude::*;

use crate::entities::Entity;
use crate::entities::EntityStore;
use crate::events::EntityCreateEvent;
use crate::events::EntityRemoveEvent;
use crate::events::EventBus;
use crate::net::Server;

verus! {

/// The simulation state.
pub struct Game {
    pub store: EntityStore,
    pub events: EventBus,
    pub server: Option<Server>,
}

impl Game {
    /// An empty simulation: no entities, no queued notifications, no server
    /// resource yet.
    pub fn new() -> (g: Game)
        ensures
            g.store.slot_count() == 0,
            forall|e: Entity| !g.store.alive(e),
            g.events.player_join_q().len() == 0,
            g.events.view_update_q().len() == 0,
            g.events.chunk_cross_q().len() == 0,
            g.events.chunk_load_q().len() == 0,
            g.events.chunk_load_fail_q().len() == 0,
            g.events.entity_create_q().len() == 0,
            g.events.entity_remove_q().len() == 0,
            g.server is None,
    {
        Game { store: EntityStore::new(), events: EventBus::new(), server: None }
    }

    /// Spawns a fresh entity and publishes the entity-create notification in
    /// the same tick.
    pub fn spawn_entity(&mut self) -> (e: Entity)
        ensures
            final(self).store.alive(e),
            !old(self).store.alive(e),
            !final(self).store.removal_pending(e),
            final(self).store.name_spec(e) is None,
            final(self).store.client_spec(e) is None,
            final(self).store.view_spec(e) is None,
            e.index == old(self).store.slot_count(),
            final(self).store.slot_count() == old(self).store.slot_count() + 1,
            forall|e2: Entity|
                e2 != e ==> {
                    &&& #[trigger] final(self).store.alive(e2) == old(self).store.alive(e2)
                    &&& final(self).store.removal_pending(e2) == old(self).store.removal_pending(
                        e2,
                    )
                    &&& final(self).store.name_spec(e2) == old(self).store.name_spec(e2)
                    &&& final(self).store.client_spec(e2) == old(self).store.client_spec(e2)
                    &&& final(self).store.view_spec(e2) == old(self).store.view_spec(e2)
                },
            final(self).events.entity_create_q() == old(self).events.entity_create_q().push(
                (e, EntityCreateEvent),
            ),
            EventBus::frame_except_entity_create(&old(self).events, &final(self).events),
            final(self).server == old(self).server,
    {
        let e = self.store.spawn();
        self.events.publish_entity_create(e, EntityCreateEvent);
        e
    }

    /// Requests removal of `e` and, if the request took effect, publishes
    /// the entity-remove notification. The entity stays readable for the
    /// rest of the tick; the identifier becomes invalid at the next tick
    /// boundary.
    pub fn remove_entity(&mut self, e: Entity) -> (r: bool)
        ensures
            r == (old(self).store.alive(e) && !old(self).store.removal_pending(e)),
            final(self).store.slot_count() == old(self).store.slot_count(),
            final(self).store.alive(e) == old(self).store.alive(e),
            old(self).store.alive(e) ==> final(self).store.removal_pending(e),
            final(self).store.name_spec(e) == old(self).store.name_spec(e),
            final(self).store.client_spec(e) == old(self).store.client_spec(e),
            final(self).store.view_spec(e) == old(self).store.view_spec(e),
            forall|e2: Entity|
                e2 != e ==> {
                    &&& #[trigger] final(self).store.alive(e2) == old(self).store.alive(e2)
                    &&& final(self).store.removal_pending(e2) == old(self).store.removal_pending(
                        e2,
                    )
                    &&& final(self).store.name_spec(e2) == old(self).store.name_spec(e2)
                    &&& final(self).store.client_spec(e2) == old(self).store.client_spec(e2)
                    &&& final(self).store.view_spec(e2) == old(self).store.view_spec(e2)
                },
            r ==> final(self).events.entity_remove_q() == old(self).events.entity_remove_q().push(
                (e, EntityRemoveEvent),
            ),
            !r ==> final(self).events.entity_remove_q() == old(self).events.entity_remove_q(),
            EventBus::frame_except_entity_remove(&old(self).events, &final(self).events),
            final(self).server == old(self).server,
    {
        let r = self.store.queue_removal(e);
        if r {
            self.events.publish_entity_remove(e, EntityRemoveEvent);
        }
        r
    }
}

} // verus!
