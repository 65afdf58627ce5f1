//! Tests for the tick scheduler, message dispatch, keepalives, the event
//! bus and the entity lifecycle.

use std::sync::Arc;

use tick_core::entities::Entity;
use tick_core::events::ChunkCrossEvent;
use tick_core::events::ChunkData;
use tick_core::events::ChunkLoadEvent;
use tick_core::events::ChunkLoadFailEvent;
use tick_core::events::PlayerJoinEvent;
use tick_core::game::Game;
use tick_core::net::ClientId;
use tick_core::net::Connection;
use tick_core::net::Message;
use tick_core::net::OutboundMessage;
use tick_core::net::Server;
use tick_core::systems::collect_packets;
use tick_core::systems::handle_packets;
use tick_core::systems::register;
use tick_core::systems::send_keepalives;
use tick_core::systems::MessageHandler;
use tick_core::systems::OwnershipGroup;
use tick_core::systems::Routine;
use tick_core::systems::SysError;
use tick_core::systems::HandlerError;
use tick_core::systems::SystemExecutor;
use tick_core::view::ChunkPosition;
use tick_core::view::View;
use tick_core::events::ViewUpdateEvent;

fn msg(kind: u32, body: u64) -> Message {
    Message { kind, body }
}

/// A handler that records every call and fails on one message kind.
struct RecordingHandler {
    fail_kind: u32,
    calls: Vec<(Entity, Message)>,
}

impl MessageHandler for RecordingHandler {
    fn handle(
        &mut self,
        _game: &mut Game,
        _server: &mut Server,
        entity: Entity,
        message: Message,
    ) -> Result<(), HandlerError> {
        self.calls.push((entity, message));
        if message.kind == self.fail_kind {
            Err(HandlerError { detail: String::from("unexpected message") })
        } else {
            Ok(())
        }
    }
}

fn participant(game: &mut Game, server: &mut Server, name: &str) -> (Entity, ClientId) {
    let e = game.spawn_entity();
    let id = server.clients.register_connection(Connection::new());
    assert!(game.store.set_name(e, String::from(name)));
    assert!(game.store.set_client(e, id));
    assert_eq!(game.store.client_of(e), Some(id));
    (e, id)
}

/// Draining a connection twice without new arrivals returns nothing the
/// second time.
#[test]
fn drain_twice_returns_nothing() {
    let mut c = Connection::new();
    c.push_inbound(msg(1, 10));
    c.push_inbound(msg(2, 20));
    let first = c.received_messages();
    assert_eq!(first, vec![msg(1, 10), msg(2, 20)]);
    let second = c.received_messages();
    assert!(second.is_empty());
    // new arrivals are picked up by the next drain, exactly once
    c.push_inbound(msg(3, 30));
    assert_eq!(c.received_messages(), vec![msg(3, 30)]);
    assert!(c.received_messages().is_empty());
}

#[test]
fn registry_drain_and_removal() {
    let mut server = Server::new(0);
    let id = server.clients.register_connection(Connection::new());
    assert!(server.clients.push_inbound(id, msg(9, 1)));
    assert_eq!(server.clients.drain(id), Some(vec![msg(9, 1)]));
    assert_eq!(server.clients.drain(id), Some(vec![]));
    assert!(server.clients.remove_connection(id));
    assert_eq!(server.clients.drain(id), None);
    assert!(!server.clients.push_inbound(id, msg(9, 2)));
}

/// Keepalive debounce: nothing happens before the 5 s threshold; the first
/// check at or past it broadcasts to every connection and restamps.
#[test]
fn keepalive_debounce() {
    let mut server = Server::new(1000);
    let a = server.clients.register_connection(Connection::new());
    let b = server.clients.register_connection(Connection::new());

    assert!(send_keepalives(&mut server, 5000).is_ok());
    assert_eq!(server.last_keepalive_time, 1000);
    assert_eq!(server.clients.sent_messages(a), Some(vec![]));

    assert!(send_keepalives(&mut server, 5999).is_ok());
    assert_eq!(server.last_keepalive_time, 1000);
    assert_eq!(server.clients.sent_messages(b), Some(vec![]));

    assert!(send_keepalives(&mut server, 6000).is_ok());
    assert_eq!(server.last_keepalive_time, 6000);
    assert_eq!(server.clients.sent_messages(a), Some(vec![OutboundMessage::Keepalive]));
    assert_eq!(server.clients.sent_messages(b), Some(vec![OutboundMessage::Keepalive]));

    assert!(send_keepalives(&mut server, 10999).is_ok());
    assert_eq!(server.last_keepalive_time, 6000);

    assert!(send_keepalives(&mut server, 11000).is_ok());
    assert_eq!(server.last_keepalive_time, 11000);
    assert_eq!(
        server.clients.sent_messages(a),
        Some(vec![OutboundMessage::Keepalive, OutboundMessage::Keepalive])
    );
}

#[test]
fn collect_gathers_in_participant_order() {
    let mut game = Game::new();
    let mut server = Server::new(0);
    let (e1, id1) = participant(&mut game, &mut server, "first");
    let (e2, id2) = participant(&mut game, &mut server, "second");
    server.clients.push_inbound(id1, msg(1, 11));
    server.clients.push_inbound(id1, msg(2, 12));
    server.clients.push_inbound(id2, msg(3, 23));

    let pairs = collect_packets(&game.store, &mut server);
    assert_eq!(pairs, vec![(e1, msg(1, 11)), (e1, msg(2, 12)), (e2, msg(3, 23))]);

    // everything was drained: a second pass collects nothing
    let again = collect_packets(&game.store, &mut server);
    assert!(again.is_empty());
}

/// A failure for one participant does not keep a later message — from the
/// same drain — from being handled.
#[test]
fn failure_does_not_stop_later_messages() {
    let mut game = Game::new();
    let mut server = Server::new(0);
    let (x, idx) = participant(&mut game, &mut server, "xena");
    let (y, idy) = participant(&mut game, &mut server, "yorick");
    server.clients.push_inbound(idx, msg(7, 1));
    server.clients.push_inbound(idy, msg(1, 2));

    let mut handler = RecordingHandler { fail_kind: 7, calls: Vec::new() };
    let outs = handle_packets(&mut game, &mut server, &mut handler).expect("routine succeeds");

    // both messages were dispatched, in collection order
    assert_eq!(handler.calls, vec![(x, msg(7, 1)), (y, msg(1, 2))]);
    assert_eq!(outs.len(), 2);
    assert_eq!(outs[0].entity, x);
    let failure = outs[0].failure.as_ref().expect("x's handler failed");
    assert_eq!(failure.participant, "xena");
    assert_eq!(failure.error.detail, "unexpected message");
    assert_eq!(outs[1].entity, y);
    assert!(outs[1].failure.is_none());
}

/// A handler failure for a participant with no name is a routine-level
/// failure.
#[test]
fn missing_name_fails_routine() {
    let mut game = Game::new();
    let mut server = Server::new(0);
    let e = game.spawn_entity();
    let id = server.clients.register_connection(Connection::new());
    assert!(game.store.set_client(e, id));
    server.clients.push_inbound(id, msg(7, 1));

    let mut handler = RecordingHandler { fail_kind: 7, calls: Vec::new() };
    let r = handle_packets(&mut game, &mut server, &mut handler);
    assert_eq!(r.err(), Some(SysError::NameMissing(e)));
}

#[test]
fn register_schedules_core_routines() {
    let mut game = Game::new();
    let mut systems = SystemExecutor::new();
    register(Server::new(0), &mut game, &mut systems);
    assert!(game.server.is_some());

    let mut handler = RecordingHandler { fail_kind: u32::MAX, calls: Vec::new() };
    let reports = systems.run_tick(&mut game, &mut handler, 0);
    assert_eq!(reports.len(), 2);
    assert_eq!(reports[0].routine, Routine::HandlePackets);
    assert_eq!(reports[1].routine, Routine::SendKeepalives);
    assert!(reports[0].outcome.is_ok());
    assert!(reports[1].outcome.is_ok());
}

/// An entity whose removal is requested on tick T stays readable for the
/// rest of tick T and is gone — identifier invalid — from tick T+1 on.
#[test]
fn removal_readable_until_next_tick() {
    let mut game = Game::new();
    let mut systems = SystemExecutor::new();
    register(Server::new(0), &mut game, &mut systems);

    let e = game.spawn_entity();
    assert!(game.store.set_name(e, String::from("ghost")));

    assert!(game.remove_entity(e));
    // same tick: the removal notification is out, the components still read
    let removed = game.events.drain_entity_remove();
    assert_eq!(removed.len(), 1);
    assert_eq!(removed[0].0, e);
    assert!(game.store.is_alive(e));
    assert_eq!(game.store.get_name(e), Some(&String::from("ghost")));

    // next tick: the identifier is invalid
    let mut handler = RecordingHandler { fail_kind: u32::MAX, calls: Vec::new() };
    systems.run_tick(&mut game, &mut handler, 0);
    assert!(!game.store.is_alive(e));
    assert_eq!(game.store.get_name(e), None);
    assert!(!game.remove_entity(e));
}

#[test]
fn spawn_publishes_create_event() {
    let mut game = Game::new();
    let e = game.spawn_entity();
    let created = game.events.drain_entity_create();
    assert_eq!(created.len(), 1);
    assert_eq!(created[0].0, e);
    assert!(game.events.drain_entity_create().is_empty());
}

#[test]
fn event_bus_queues_are_independent() {
    let mut game = Game::new();
    let e = game.spawn_entity();
    game.events.publish_player_join(e, PlayerJoinEvent);
    game.events.publish_chunk_cross(
        e,
        ChunkCrossEvent {
            old_chunk: ChunkPosition { x: 0, z: 0 },
            new_chunk: ChunkPosition { x: 1, z: 0 },
        },
    );
    game.events.publish_chunk_load_fail(ChunkLoadFailEvent {
        position: ChunkPosition { x: 4, z: 4 },
    });

    let joins = game.events.drain_player_join();
    assert_eq!(joins.len(), 1);
    assert_eq!(joins[0].0, e);
    let crossings = game.events.drain_chunk_cross();
    assert_eq!(crossings.len(), 1);
    assert_eq!(crossings[0].1.old_chunk, ChunkPosition { x: 0, z: 0 });
    assert_eq!(crossings[0].1.new_chunk, ChunkPosition { x: 1, z: 0 });
    let failures = game.events.drain_chunk_load_fail();
    assert_eq!(failures.len(), 1);
    assert_eq!(failures[0].position, ChunkPosition { x: 4, z: 4 });
    // the create event from the spawn is still queued, untouched
    assert_eq!(game.events.drain_entity_create().len(), 1);
}

#[test]
fn chunk_load_event_carries_shared_handle() {
    let mut game = Game::new();
    let handle = Arc::new(parking_lot::RwLock::new(ChunkData { payload: vec![1, 2, 3] }));
    game.events.publish_chunk_load(ChunkLoadEvent {
        position: ChunkPosition { x: -2, z: 9 },
        chunk: Arc::clone(&handle),
    });
    let loads = game.events.drain_chunk_load();
    assert_eq!(loads.len(), 1);
    assert_eq!(loads[0].position, ChunkPosition { x: -2, z: 9 });
    assert_eq!(loads[0].chunk.read().payload, vec![1, 2, 3]);
    assert!(game.events.drain_chunk_load().is_empty());
}

/// A participant's view is replaced wholesale, and the view-update
/// notification travels its own queue.
#[test]
fn view_component_and_update_queue() {
    let mut game = Game::new();
    let e = game.spawn_entity();
    let o = View { center: ChunkPosition { x: 0, z: 0 }, radius: 1 };
    let n = View { center: ChunkPosition { x: 1, z: 0 }, radius: 1 };
    assert!(game.store.set_view(e, o));
    assert_eq!(game.store.view_of(e), Some(o));
    assert!(game.store.set_view(e, n));
    assert_eq!(game.store.view_of(e), Some(n));

    game.events.publish_view_update(e, ViewUpdateEvent::new(o, n));
    let updates = game.events.drain_view_update();
    assert_eq!(updates.len(), 1);
    assert_eq!(updates[0].0, e);
    assert_eq!(updates[0].1.old_view, o);
    assert_eq!(updates[0].1.new_view, n);
    assert_eq!(updates[0].1.new_chunks.len(), 3);
    assert_eq!(updates[0].1.old_chunks.len(), 3);
    assert!(game.events.drain_view_update().is_empty());
}

/// With nothing buffered the dispatch routine succeeds, dispatches nothing
/// and leaves the state alone.
#[test]
fn handle_packets_nothing_buffered() {
    let mut game = Game::new();
    let mut server = Server::new(42);
    let (e, id) = participant(&mut game, &mut server, "idle");

    let mut handler = RecordingHandler { fail_kind: u32::MAX, calls: Vec::new() };
    let outs = handle_packets(&mut game, &mut server, &mut handler).expect("routine succeeds");
    assert!(outs.is_empty());
    assert!(handler.calls.is_empty());
    assert_eq!(server.last_keepalive_time, 42);
    assert_eq!(server.clients.sent_messages(id), Some(vec![]));
    assert_eq!(game.store.get_name(e), Some(&String::from("idle")));
}

/// A tick whose schedule holds no dispatch routine still flushes the
/// removals queued last tick and leaves the event queues alone.
#[test]
fn tick_without_dispatch_still_flushes() {
    let mut game = Game::new();
    game.server = Some(Server::new(0));
    let mut systems = SystemExecutor::new();
    systems.add_system(OwnershipGroup::Server, Routine::SendKeepalives);

    let e = game.spawn_entity();
    assert!(game.remove_entity(e));
    assert!(game.store.is_alive(e));

    let mut handler = RecordingHandler { fail_kind: u32::MAX, calls: Vec::new() };
    let reports = systems.run_tick(&mut game, &mut handler, 0);
    assert_eq!(reports.len(), 1);
    assert!(reports[0].outcome.is_ok());
    assert!(!game.store.is_alive(e));
    // the lifecycle notifications from last tick are still queued
    assert_eq!(game.events.drain_entity_create().len(), 1);
    assert_eq!(game.events.drain_entity_remove().len(), 1);
}
