//! The core's update routines and the ordered tick scheduler.
//!
//! [`register`] inserts the server resource into the simulation state and
//! registers this core's routines — message dispatch and the keepalive timer
//! — with the scheduler. [`SystemExecutor::run_tick`] runs every registered
//! routine once, in registration order; a routine's failure is recorded and
//! does not stop the routines after it.

use vstd::prelude::*;

use crate::entities::Entity;
use crate::entities::EntityStore;
use crate::game::Game;
use crate::net::ClientId;
use crate::net::Clients;
use crate::net::Message;
use crate::net::Server;

verus! {

/// Milliseconds between liveness broadcasts.
pub const KEEPALIVE_INTERVAL_MS: u64 = 5000;

/// A routine-level failure: it aborts the failing routine for the current
/// tick and nothing else.
#[derive(Clone, PartialEq, Eq, Debug, Structural)]
pub enum SysError {
    /// A participant whose handler failed has no name component to log with:
    /// a consistency violation, so the routine as a whole fails.
    NameMissing(Entity),
}

/// A failure reported by a message handler for one message. The message is
/// dropped, not requeued; processing continues.
#[derive(Clone, PartialEq, Eq, Debug)]
pub struct HandlerError {
    pub detail: String,
}

/// What happened to one collected message during dispatch.
pub struct MessageOutcome {
    pub entity: Entity,
    pub message: Message,
    /// `None` when the handler succeeded; otherwise the participant's name
    /// and the handler's error, ready for the caller to log.
    pub failure: Option<DispatchFailure>,
}

/// The logging context for one failed message.
pub struct DispatchFailure {
    pub participant: String,
    pub error: HandlerError,
}

/// The collaborator boundary: the protocol layer supplies the handler that
/// routes each drained message by its kind. The core calls it once per
/// collected message and only records failures and continues.
pub trait MessageHandler {
    /// Handles one message from `entity`.
    fn handle(
        &mut self,
        game: &mut Game,
        server: &mut Server,
        entity: Entity,
        message: Message,
    ) -> Result<(), HandlerError>;
}

/// The routines this core registers.
#[derive(Clone, Copy, PartialEq, Eq, Debug, Structural)]
pub enum Routine {
    /// Drain and dispatch inbound messages.
    HandlePackets,
    /// Broadcast liveness probes on a debounced timer.
    SendKeepalives,
}

/// The ownership group a routine was registered under. Groups only control
/// relative ordering at registration time.
#[derive(Clone, Copy, PartialEq, Eq, Debug, Structural)]
pub enum OwnershipGroup {
    /// Routines owned by the server resource.
    Server,
}

/// One scheduler entry.
#[derive(Clone, Copy, PartialEq, Eq, Debug, Structural)]
pub struct RoutineEntry {
    pub group: OwnershipGroup,
    pub routine: Routine,
}

/// What one routine did during a tick.
pub struct RoutineReport {
    pub routine: Routine,
    /// `Ok` carries the per-message outcomes the routine produced (empty for
    /// routines that dispatch no messages).
    pub outcome: Result<Vec<MessageOutcome>, SysError>,
}

/// The ordered collection of update routines: they run once per tick, in
/// registration order.
pub struct SystemExecutor {
    routines: Vec<RoutineEntry>,
}

/// The messages `(entity, id)` contributes to a collection pass: its
/// connection's pending messages, paired with the entity; nothing if `id` is
/// not registered.
pub open spec fn pending_pairs(p: (Entity, ClientId), clients: Clients) -> Seq<(Entity, Message)> {
    if clients.valid(p.1) {
        clients.conn(p.1).pending().map_values(|m: Message| (p.0, m))
    } else {
        Seq::empty()
    }
}

/// The concatenation, in participant order, of every participant's pending
/// messages.
pub open spec fn collected_from(ps: Seq<(Entity, ClientId)>, clients: Clients) -> Seq<
    (Entity, Message),
>
    decreases ps.len(),
{
    if ps.len() == 0 {
        Seq::empty()
    } else {
        collected_from(ps.drop_last(), clients) + pending_pairs(ps.last(), clients)
    }
}

/// Everything one dispatch pass collects: the pending messages of every
/// readable entity with a connection identifier, in slot order.
pub open spec fn collected(store: EntityStore, clients: Clients) -> Seq<(Entity, Message)> {
    collected_from(store.participants_seq(), clients)
}

/// When a collection pass yields nothing, every participant's contribution
/// is itself empty.
proof fn lemma_collected_from_parts_empty(ps: Seq<(Entity, ClientId)>, clients: Clients, k: int)
    requires
        collected_from(ps, clients).len() == 0,
        0 <= k < ps.len(),
    ensures
        pending_pairs(ps[k], clients).len() == 0,
    decreases ps.len(),
{
    assert(collected_from(ps, clients) == collected_from(ps.drop_last(), clients) + pending_pairs(
        ps.last(),
        clients,
    ));
    if k == ps.len() - 1 {
        assert(ps.last() == ps[k]);
    } else {
        lemma_collected_from_parts_empty(ps.drop_last(), clients, k);
        assert(ps.drop_last()[k] == ps[k]);
    }
}

/// Drains every participant's connection and collects the `(entity,
/// message)` pairs, in participant order, before any of them is processed.
/// Non-blocking: a connection with nothing buffered contributes nothing,
/// and a pass over empty queues changes nothing.
pub fn collect_packets(store: &EntityStore, server: &mut Server) -> (pairs: Vec<(Entity, Message)>)
    ensures
        final(server).last_keepalive_time == old(server).last_keepalive_time,
        final(server).clients.slot_count() == old(server).clients.slot_count(),
        forall|id: ClientId|
            #[trigger] final(server).clients.valid(id) == old(server).clients.valid(id),
        forall|id: ClientId|
            old(server).clients.valid(id) ==> {
                &&& (#[trigger] final(server).clients.conn(id)).inbound_log() == old(
                    server,
                ).clients.conn(id).inbound_log()
                &&& final(server).clients.conn(id).sent() == old(server).clients.conn(id).sent()
            },
        forall|k: int|
            0 <= k < store.participants_seq().len() && old(server).clients.valid(
                (#[trigger] store.participants_seq()[k]).1,
            ) ==> final(server).clients.conn(store.participants_seq()[k].1).pending()
                == Seq::<Message>::empty(),
        forall|id: ClientId|
            old(server).clients.valid(id) && (forall|k: int|
                0 <= k < store.participants_seq().len() ==> (
                #[trigger] store.participants_seq()[k]).1 != id)
                ==> #[trigger] final(server).clients.conn(id) == old(server).clients.conn(id),
        collected(*store, old(server).clients).len() == 0 ==> {
            &&& pairs@.len() == 0
            &&& forall|id: ClientId|
                old(server).clients.valid(id) ==> #[trigger] final(server).clients.conn(id)
                    == old(server).clients.conn(id)
        },
        store.clients_injective() ==> pairs@ == collected(*store, old(server).clients),
{
    let ps = store.participants();
    proof {
        if store.clients_injective() {
            assert forall|k1: int, k2: int|
                0 <= k1 < k2 < ps@.len() implies (#[trigger] ps@[k1]).1 != (
            #[trigger] ps@[k2]).1 by {
                assert(ps@[k1].0.index < ps@[k2].0.index);
                assert(store.client_spec(ps@[k1].0) == Some(ps@[k1].1));
                assert(store.client_spec(ps@[k2].0) == Some(ps@[k2].1));
            }
        }
    }
    let mut pairs: Vec<(Entity, Message)> = Vec::new();
    let mut i: usize = 0;
    while i < ps.len()
        invariant
            i <= ps@.len(),
            ps@ == store.participants_seq(),
            store.clients_injective() ==> forall|k1: int, k2: int|
                0 <= k1 < k2 < ps@.len() ==> (#[trigger] ps@[k1]).1 != (#[trigger] ps@[k2]).1,
            server.last_keepalive_time == old(server).last_keepalive_time,
            server.clients.slot_count() == old(server).clients.slot_count(),
            forall|id: ClientId|
                #[trigger] server.clients.valid(id) == old(server).clients.valid(id),
            forall|id: ClientId|
                old(server).clients.valid(id) ==> {
                    &&& (#[trigger] server.clients.conn(id)).inbound_log() == old(
                        server,
                    ).clients.conn(id).inbound_log()
                    &&& server.clients.conn(id).sent() == old(server).clients.conn(id).sent()
                },
            forall|k: int|
                0 <= k < i && old(server).clients.valid((#[trigger] ps@[k]).1) ==> server.clients.conn(
                    ps@[k].1,
                ).pending() == Seq::<Message>::empty(),
            forall|id: ClientId|
                old(server).clients.valid(id) && (forall|k: int|
                    0 <= k < ps@.len() ==> (#[trigger] ps@[k]).1 != id) ==> #[trigger] server.clients.conn(
                    id,
                ) == old(server).clients.conn(id),
            collected_from(ps@, old(server).clients).len() == 0 ==> {
                &&& pairs@.len() == 0
                &&& forall|id: ClientId|
                    old(server).clients.valid(id) ==> #[trigger] server.clients.conn(id) == old(
                        server,
                    ).clients.conn(id)
            },
            store.clients_injective() ==> forall|k: int|
                i <= k < ps@.len() && old(server).clients.valid((#[trigger] ps@[k]).1)
                    ==> server.clients.conn(ps@[k].1) == old(server).clients.conn(ps@[k].1),
            store.clients_injective() ==> pairs@ == collected_from(
                ps@.take(i as int),
                old(server).clients,
            ),
        decreases ps@.len() - i,
    {
        let p = ps[i];
        let e = p.0;
        let id = p.1;
        let ghost base = pairs@;
        proof {
            if collected_from(ps@, old(server).clients).len() == 0 {
                lemma_collected_from_parts_empty(ps@, old(server).clients, i as int);
                if old(server).clients.valid(id) {
                    assert(pending_pairs(ps@[i as int], old(server).clients).len() == old(
                        server,
                    ).clients.conn(id).pending().len());
                }
            }
        }
        match server.clients.drain(id) {
            Some(msgs) => {
                let mut j: usize = 0;
                while j < msgs.len()
                    invariant
                        j <= msgs@.len(),
                        pairs@ == base + msgs@.take(j as int).map_values(
                            |m: Message| (e, m),
                        ),
                    decreases msgs@.len() - j,
                {
                    let ghost prev = pairs@;
                    pairs.push((e, msgs[j]));
                    proof {
                        assert(msgs@.take(j as int + 1).map_values(|m: Message| (e, m))
                            =~= msgs@.take(j as int).map_values(|m: Message| (e, m)).push(
                            (e, msgs@[j as int]),
                        ));
                    }
                    j = j + 1;
                }
                proof {
                    assert(msgs@.take(msgs@.len() as int) =~= msgs@);
                }
            },
            None => {},
        }
        proof {
            assert(base + Seq::<(Entity, Message)>::empty() =~= base);
            if store.clients_injective() {
                let oldc = old(server).clients;
                assert(ps@.take(i as int + 1).drop_last() =~= ps@.take(i as int));
                assert(ps@.take(i as int + 1).last() == ps@[i as int]);
                assert(collected_from(ps@.take(i as int + 1), oldc) == collected_from(
                    ps@.take(i as int),
                    oldc,
                ) + pending_pairs(ps@[i as int], oldc));
            }
        }
        i = i + 1;
    }
    proof {
        assert(ps@.take(ps@.len() as int) =~= ps@);
    }
    pairs
}

/// Turns the handler's verdict on one message into the record the caller
/// logs from: success leaves no failure, a handler error is recorded with
/// the participant's name and the error detail, and a missing name is the
/// routine-level failure.
pub fn record_outcome(
    store: &EntityStore,
    entity: Entity,
    message: Message,
    handled: Result<(), HandlerError>,
) -> (r: Result<MessageOutcome, SysError>)
    ensures
        handled is Ok ==> (r matches Ok(o) && o.entity == entity && o.message == message
            && o.failure is None),
        handled matches Err(e) ==> match store.name_spec(entity) {
            Some(name) => r matches Ok(o) && o.entity == entity && o.message == message
                && o.failure == Some(DispatchFailure { participant: name, error: e }),
            None => r == Result::<MessageOutcome, SysError>::Err(SysError::NameMissing(entity)),
        },
{
    match handled {
        Ok(_) => Ok(MessageOutcome { entity, message, failure: None }),
        Err(error) => {
            match store.get_name(entity) {
                Some(n) => {
                    let participant = n.clone();
                    Ok(MessageOutcome { entity, message, failure: Some(DispatchFailure { participant, error }) })
                },
                None => Err(SysError::NameMissing(entity)),
            }
        },
    }
}

/// Routes each collected message to the handler, in order, and records each
/// verdict through [`record_outcome`]: a handler failure is recorded with
/// the participant's name and processing continues; only a missing name
/// aborts the routine. With nothing collected there is nothing to do and
/// nothing changes.
pub fn dispatch_collected<H: MessageHandler>(
    game: &mut Game,
    server: &mut Server,
    pairs: Vec<(Entity, Message)>,
    handler: &mut H,
) -> (r: Result<Vec<MessageOutcome>, SysError>)
    ensures
        r matches Ok(outs) ==> {
            &&& outs@.len() == pairs@.len()
            &&& forall|k: int|
                0 <= k < pairs@.len() ==> (#[trigger] outs@[k]).entity == pairs@[k].0
                    && outs@[k].message == pairs@[k].1
        },
        r matches Err(err) ==> err is NameMissing,
        (r matches Err(SysError::NameMissing(e)) ==> exists|k: int|
            0 <= k < pairs@.len() && (#[trigger] pairs@[k]).0 == e),
        pairs@.len() == 0 ==> {
            &&& r is Ok
            &&& *final(game) == *old(game)
            &&& *final(server) == *old(server)
        },
{
    if pairs.len() == 0 {
        return Ok(Vec::new());
    }
    let mut outs: Vec<MessageOutcome> = Vec::new();
    let mut i: usize = 0;
    while i < pairs.len()
        invariant
            pairs@.len() > 0,
            i <= pairs@.len(),
            outs@.len() == i,
            forall|k: int|
                0 <= k < i ==> (#[trigger] outs@[k]).entity == pairs@[k].0 && outs@[k].message
                    == pairs@[k].1,
        decreases pairs@.len() - i,
    {
        let p = pairs[i];
        let handled = handler.handle(game, server, p.0, p.1);
        match record_outcome(&game.store, p.0, p.1, handled) {
            Ok(o) => {
                outs.push(o);
            },
            Err(err) => {
                proof {
                    assert(pairs@[i as int].0 == p.0);
                }
                return Err(err);
            },
        }
        i = i + 1;
    }
    Ok(outs)
}

/// Polls for messages received from every participant and dispatches them.
///
/// All currently buffered messages are collected first, so draining is not
/// affected by anything a handler does mid-pass; each message is then routed
/// to the handler exactly once, in collection order, and its verdict is
/// recorded through [`record_outcome`]. A failing message is dropped after
/// being recorded — at-most-once processing. With nothing buffered the
/// routine succeeds, dispatches nothing and changes nothing.
pub fn handle_packets<H: MessageHandler>(
    game: &mut Game,
    server: &mut Server,
    handler: &mut H,
) -> (r: Result<Vec<MessageOutcome>, SysError>)
    ensures
        r matches Err(err) ==> err is NameMissing,
        collected(old(game).store, old(server).clients).len() == 0 ==> {
            &&& r matches Ok(outs) && outs@.len() == 0
            &&& *final(game) == *old(game)
            &&& final(server).last_keepalive_time == old(server).last_keepalive_time
            &&& final(server).clients.slot_count() == old(server).clients.slot_count()
            &&& forall|id: ClientId|
                #[trigger] final(server).clients.valid(id) == old(server).clients.valid(id)
            &&& forall|id: ClientId|
                old(server).clients.valid(id) ==> #[trigger] final(server).clients.conn(id)
                    == old(server).clients.conn(id)
        },
        old(game).store.clients_injective() ==> (r matches Ok(outs) ==> {
            &&& outs@.len() == collected(old(game).store, old(server).clients).len()
            &&& forall|k: int|
                0 <= k < outs@.len() ==> (#[trigger] outs@[k]).entity == collected(
                    old(game).store,
                    old(server).clients,
                )[k].0 && outs@[k].message == collected(old(game).store, old(server).clients)[k].1
        }),
        old(game).store.clients_injective() ==> (r matches Err(SysError::NameMissing(e))
            ==> exists|k: int|
                0 <= k < collected(old(game).store, old(server).clients).len() && (
                #[trigger] collected(old(game).store, old(server).clients)[k]).0 == e),
{
    let pairs = collect_packets(&game.store, server);
    dispatch_collected(game, server, pairs, handler)
}

/// Broadcasts a liveness probe to every registered connection once the
/// debounce interval has elapsed, and stamps the broadcast time.
///
/// If less than the interval has passed since the last broadcast, nothing
/// changes; on the first check at or past the interval, every connection
/// gets a probe and the timestamp becomes that check's time.
pub fn send_keepalives(server: &mut Server, now_ms: u64) -> (r: Result<(), SysError>)
    ensures
        r is Ok,
        now_ms - old(server).last_keepalive_time < KEEPALIVE_INTERVAL_MS ==> *final(server)
            == *old(server),
        now_ms - old(server).last_keepalive_time >= KEEPALIVE_INTERVAL_MS ==> {
            &&& final(server).last_keepalive_time == now_ms
            &&& final(server).clients.slot_count() == old(server).clients.slot_count()
            &&& forall|id: ClientId|
                #[trigger] final(server).clients.valid(id) == old(server).clients.valid(id)
            &&& forall|id: ClientId|
                old(server).clients.valid(id) ==> {
                    &&& (#[trigger] final(server).clients.conn(id)).sent() == old(
                        server,
                    ).clients.conn(id).sent().push(crate::net::OutboundMessage::Keepalive)
                    &&& final(server).clients.conn(id).pending() == old(server).clients.conn(
                        id,
                    ).pending()
                    &&& final(server).clients.conn(id).inbound_log() == old(server).clients.conn(
                        id,
                    ).inbound_log()
                }
        },
{
    if now_ms >= server.last_keepalive_time && now_ms - server.last_keepalive_time
        >= KEEPALIVE_INTERVAL_MS {
        server.broadcast_keepalive();
        server.last_keepalive_time = now_ms;
    }
    Ok(())
}

impl SystemExecutor {
    /// The registered routines, in registration order.
    pub closed spec fn schedule(&self) -> Seq<RoutineEntry> {
        self.routines@
    }

    /// A scheduler with nothing registered.
    pub fn new() -> (s: SystemExecutor)
        ensures
            s.schedule() == Seq::<RoutineEntry>::empty(),
    {
        SystemExecutor { routines: Vec::new() }
    }

    /// Registers `routine` under `group`, after everything registered so
    /// far. Routines run in registration order.
    pub fn add_system(&mut self, group: OwnershipGroup, routine: Routine)
        ensures
            final(self).schedule() == old(self).schedule().push(RoutineEntry { group, routine }),
    {
        self.routines.push(RoutineEntry { group, routine });
    }

    /// Runs one tick: flushes the removals queued last tick (their
    /// identifiers become invalid now), then runs every registered routine
    /// once, in order, handing each the simulation state and the server
    /// resource. A failed routine is recorded and the next one still runs;
    /// one report comes back per registered routine, in schedule order, and
    /// the keepalive routine never fails. When no message-dispatch routine
    /// is scheduled — in particular with an empty schedule — the state's
    /// entities are exactly the flush of the old store and the event queues
    /// are untouched.
    pub fn run_tick<H: MessageHandler>(
        &self,
        game: &mut Game,
        handler: &mut H,
        now_ms: u64,
    ) -> (reports: Vec<RoutineReport>)
        requires
            old(game).server is Some,
        ensures
            reports@.len() == self.schedule().len(),
            forall|k: int|
                0 <= k < reports@.len() ==> (#[trigger] reports@[k]).routine
                    == self.schedule()[k].routine,
            forall|k: int|
                0 <= k < reports@.len() && (#[trigger] reports@[k]).routine is SendKeepalives
                    ==> reports@[k].outcome is Ok,
            final(game).server is Some,
            (forall|k: int|
                0 <= k < self.schedule().len() ==> !((#[trigger] self.schedule()[k]).routine
                    is HandlePackets)) ==> {
                &&& final(game).events == old(game).events
                &&& final(game).store.slot_count() == old(game).store.slot_count()
                &&& forall|e: Entity|
                    #[trigger] final(game).store.alive(e) == (old(game).store.alive(e) && !old(
                        game,
                    ).store.removal_pending(e))
                &&& forall|e: Entity| !(#[trigger] final(game).store.removal_pending(e))
                &&& forall|e: Entity|
                    old(game).store.alive(e) && !old(game).store.removal_pending(e) ==> {
                        &&& #[trigger] final(game).store.name_spec(e) == old(game).store.name_spec(
                            e,
                        )
                        &&& final(game).store.client_spec(e) == old(game).store.client_spec(e)
                        &&& final(game).store.view_spec(e) == old(game).store.view_spec(e)
                    }
            },
    {
        game.store.flush_removals();
        let mut server_opt: Option<Server> = None;
        std::mem::swap(&mut game.server, &mut server_opt);
        let mut server = server_opt.unwrap();
        let ghost flushed = *game;
        let ghost no_dispatch = forall|k: int|
            0 <= k < self.schedule().len() ==> !((#[trigger] self.schedule()[k]).routine
                is HandlePackets);
        let mut reports: Vec<RoutineReport> = Vec::new();
        let mut i: usize = 0;
        while i < self.routines.len()
            invariant
                i <= self.routines@.len(),
                reports@.len() == i,
                forall|k: int|
                    0 <= k < i ==> (#[trigger] reports@[k]).routine == self.routines@[k].routine,
                forall|k: int|
                    0 <= k < i && (#[trigger] reports@[k]).routine is SendKeepalives
                        ==> reports@[k].outcome is Ok,
                no_dispatch == forall|k: int|
                    0 <= k < self.schedule().len() ==> !((#[trigger] self.schedule()[k]).routine
                        is HandlePackets),
                no_dispatch ==> *game == flushed,
            decreases self.routines@.len() - i,
        {
            let entry = self.routines[i];
            let outcome: Result<Vec<MessageOutcome>, SysError>;
            match entry.routine {
                Routine::HandlePackets => {
                    proof {
                        assert(self.schedule()[i as int].routine is HandlePackets);
                    }
                    outcome = handle_packets(game, &mut server, handler);
                },
                Routine::SendKeepalives => {
                    match send_keepalives(&mut server, now_ms) {
                        Ok(_) => {
                            outcome = Ok(Vec::new());
                        },
                        Err(err) => {
                            outcome = Err(err);
                        },
                    }
                },
            }
            reports.push(RoutineReport { routine: entry.routine, outcome });
            i = i + 1;
        }
        game.server = Some(server);
        reports
    }
}

/// Wires this core into a server: inserts the server resource into the
/// simulation state and registers the core's routines, in order, under the
/// server's ownership group. Calling it twice duplicates the routines —
/// that is the caller's responsibility.
pub fn register(server: Server, game: &mut Game, systems: &mut SystemExecutor)
    ensures
        final(game).server == Some(server),
        final(game).store == old(game).store,
        final(game).events == old(game).events,
        final(systems).schedule() == old(systems).schedule().push(
            RoutineEntry { group: OwnershipGroup::Server, routine: Routine::HandlePackets },
        ).push(RoutineEntry { group: OwnershipGroup::Server, routine: Routine::SendKeepalives }),
{
    game.server = Some(server);
    systems.add_system(OwnershipGroup::Server, Routine::HandlePackets);
    systems.add_system(OwnershipGroup::Server, Routine::SendKeepalives);
}

} // verus!
