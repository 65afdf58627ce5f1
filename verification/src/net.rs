//! Connection registry: per-connection message queues and the server resource.
//!
//! A [`Connection`] buffers the messages received from one participant and the
//! liveness probes sent back to it. Draining is non-destructive: every message
//! ever received stays in the connection's log, and a cursor marks how far the
//! core has read, so a drained message is never returned twice. The
//! [`Clients`] registry maps a lightweight [`ClientId`] to its live
//! connection; [`Server`] couples the registry with the timestamp of the last
//! liveness broadcast.

use vstd::prelude::*;

verus! {

/// An inbound message as the core sees it: a kind tag to route on and an
/// opaque body word. The concrete kind set belongs to the protocol layer.
#[derive(Clone, Copy, PartialEq, Eq, Hash, Debug, Structural)]
pub struct Message {
    pub kind: u32,
    pub body: u64,
}

/// An outgoing notification this core can enqueue on a connection.
#[derive(Clone, Copy, PartialEq, Eq, Debug, Structural)]
pub enum OutboundMessage {
    /// A liveness probe.
    Keepalive,
}

/// Identifier of a registered connection.
#[derive(Clone, Copy, PartialEq, Eq, Hash, Debug, Structural)]
pub struct ClientId {
    pub index: usize,
}

/// One participant's live connection handle.
pub struct Connection {
    inbound: Vec<Message>,
    drained: usize,
    outbound: Vec<OutboundMessage>,
}

impl Connection {
    /// The read cursor never passes the end of the inbound log.
    #[verifier::type_invariant]
    spec fn inv(&self) -> bool {
        self.drained <= self.inbound@.len()
    }

    /// Every message ever received on this connection, oldest first.
    pub closed spec fn inbound_log(&self) -> Seq<Message> {
        self.inbound@
    }

    /// The received messages that no drain has returned yet.
    pub closed spec fn pending(&self) -> Seq<Message> {
        self.inbound@.skip(self.drained as int)
    }

    /// Everything enqueued for sending on this connection, oldest first.
    pub closed spec fn sent(&self) -> Seq<OutboundMessage> {
        self.outbound@
    }

    /// A fresh connection: nothing received, nothing pending, nothing sent.
    pub fn new() -> (c: Connection)
        ensures
            c.inbound_log() == Seq::<Message>::empty(),
            c.pending() == Seq::<Message>::empty(),
            c.sent() == Seq::<OutboundMessage>::empty(),
    {
        let c = Connection { inbound: Vec::new(), drained: 0, outbound: Vec::new() };
        proof {
            assert(c.pending() =~= Seq::<Message>::empty());
        }
        c
    }

    /// A message arrives from the transport: it joins the log and the pending
    /// tail.
    pub fn push_inbound(&mut self, m: Message)
        ensures
            final(self).inbound_log() == old(self).inbound_log().push(m),
            final(self).pending() == old(self).pending().push(m),
            final(self).sent() == old(self).sent(),
    {
        proof {
            use_type_invariant(&*self);
        }
        let saved: usize = self.drained;
        self.drained = 0;
        let mut inb: Vec<Message> = Vec::new();
        std::mem::swap(&mut self.inbound, &mut inb);
        inb.push(m);
        self.inbound = inb;
        self.drained = saved;
        proof {
            assert(final(self).pending() =~= old(self).pending().push(m));
        }
    }

    /// Non-destructive, non-blocking drain: returns every pending message, in
    /// arrival order, and advances the cursor past them. Messages already
    /// returned by an earlier drain are not returned again, so a second drain
    /// with no new arrivals returns nothing.
    pub fn received_messages(&mut self) -> (r: Vec<Message>)
        ensures
            r@ == old(self).pending(),
            final(self).pending() == Seq::<Message>::empty(),
            final(self).inbound_log() == old(self).inbound_log(),
            final(self).sent() == old(self).sent(),
            old(self).pending().len() == 0 ==> *final(self) == *old(self),
    {
        proof {
            use_type_invariant(&*self);
        }
        let mut r: Vec<Message> = Vec::new();
        let mut i: usize = self.drained;
        while i < self.inbound.len()
            invariant
                self.drained <= i <= self.inbound@.len(),
                r@ == self.inbound@.subrange(self.drained as int, i as int),
            decreases self.inbound@.len() - i,
        {
            let ghost prev = r@;
            r.push(self.inbound[i]);
            proof {
                assert(r@ =~= self.inbound@.subrange(self.drained as int, i + 1));
            }
            i = i + 1;
        }
        proof {
            assert(r@ =~= old(self).pending());
        }
        self.drained = i;
        proof {
            assert(final(self).pending() =~= Seq::<Message>::empty());
        }
        r
    }

    /// Enqueue a liveness probe for this connection.
    pub fn send_keepalive(&mut self)
        ensures
            final(self).sent() == old(self).sent().push(OutboundMessage::Keepalive),
            final(self).pending() == old(self).pending(),
            final(self).inbound_log() == old(self).inbound_log(),
    {
        proof {
            use_type_invariant(&*self);
        }
        let mut outb: Vec<OutboundMessage> = Vec::new();
        std::mem::swap(&mut self.outbound, &mut outb);
        outb.push(OutboundMessage::Keepalive);
        self.outbound = outb;
    }

    /// The probes and notifications enqueued so far, oldest first.
    pub fn sent_messages(&self) -> (r: Vec<OutboundMessage>)
        ensures
            r@ == self.sent(),
    {
        let mut r: Vec<OutboundMessage> = Vec::new();
        let mut i: usize = 0;
        while i < self.outbound.len()
            invariant
                i <= self.outbound@.len(),
                r@ == self.outbound@.take(i as int),
            decreases self.outbound@.len() - i,
        {
            r.push(self.outbound[i]);
            proof {
                assert(r@ =~= self.outbound@.take(i + 1));
            }
            i = i + 1;
        }
        proof {
            assert(self.outbound@.take(self.outbound@.len() as int) =~= self.outbound@);
        }
        r
    }
}

/// Mutable access to one registry slot.
fn slot_at_mut(slots: &mut Vec<Option<Connection>>, i: usize) -> (ret: &mut Option<Connection>)
    requires
        i < old(slots).len(),
    ensures
        *ret == old(slots)@[i as int],
        final(slots)@ == old(slots)@.update(i as int, *final(ret)),
{
    &mut slots[i]
}

/// The connection registry: maps a [`ClientId`] to a live connection.
pub struct Clients {
    slots: Vec<Option<Connection>>,
}

impl Clients {
    /// How many identifiers have ever been handed out.
    pub closed spec fn slot_count(&self) -> nat {
        self.slots@.len()
    }

    /// Whether `id` currently maps to a live connection.
    pub closed spec fn valid(&self, id: ClientId) -> bool {
        id.index < self.slots@.len() && self.slots@[id.index as int] is Some
    }

    /// The connection registered under `id`.
    pub closed spec fn conn(&self, id: ClientId) -> Connection
        recommends
            self.valid(id),
    {
        self.slots@[id.index as int]->0
    }

    /// An empty registry.
    pub fn new() -> (c: Clients)
        ensures
            c.slot_count() == 0,
            forall|id: ClientId| !c.valid(id),
    {
        Clients { slots: Vec::new() }
    }

    /// Registers a live connection and returns its identifier.
    pub fn register_connection(&mut self, c: Connection) -> (id: ClientId)
        ensures
            final(self).valid(id),
            !old(self).valid(id),
            id.index == old(self).slot_count(),
            final(self).slot_count() == old(self).slot_count() + 1,
            final(self).conn(id) == c,
            forall|id2: ClientId|
                #[trigger] final(self).valid(id2) == (old(self).valid(id2) || id2 == id),
            forall|id2: ClientId|
                old(self).valid(id2) ==> #[trigger] final(self).conn(id2) == old(self).conn(id2),
    {
        let id = ClientId { index: self.slots.len() };
        self.slots.push(Some(c));
        id
    }

    /// Drops the connection registered under `id`; returns whether one was
    /// registered.
    pub fn remove_connection(&mut self, id: ClientId) -> (r: bool)
        ensures
            r == old(self).valid(id),
            !final(self).valid(id),
            final(self).slot_count() == old(self).slot_count(),
            forall|id2: ClientId|
                #[trigger] final(self).valid(id2) == (old(self).valid(id2) && id2 != id),
            forall|id2: ClientId|
                old(self).valid(id2) && id2 != id ==> #[trigger] final(self).conn(id2) == old(
                    self,
                ).conn(id2),
    {
        if id.index < self.slots.len() {
            let was = matches!(self.slots[id.index], Some(_));
            self.slots[id.index] = None;
            was
        } else {
            false
        }
    }

    /// A message arrives for `id`; returns whether `id` was registered.
    pub fn push_inbound(&mut self, id: ClientId, m: Message) -> (r: bool)
        ensures
            r == old(self).valid(id),
            final(self).slot_count() == old(self).slot_count(),
            forall|id2: ClientId|
                #[trigger] final(self).valid(id2) == old(self).valid(id2),
            old(self).valid(id) ==> {
                &&& final(self).conn(id).pending() == old(self).conn(id).pending().push(m)
                &&& final(self).conn(id).inbound_log() == old(self).conn(id).inbound_log().push(m)
                &&& final(self).conn(id).sent() == old(self).conn(id).sent()
            },
            forall|id2: ClientId|
                old(self).valid(id2) && id2 != id ==> #[trigger] final(self).conn(id2) == old(
                    self,
                ).conn(id2),
    {
        if id.index < self.slots.len() {
            let slot = slot_at_mut(&mut self.slots, id.index);
            match slot {
                Some(c) => {
                    c.push_inbound(m);
                    true
                },
                None => false,
            }
        } else {
            false
        }
    }

    /// Drains the pending messages of `id`'s connection, oldest first;
    /// `None` if `id` is not registered.
    pub fn drain(&mut self, id: ClientId) -> (r: Option<Vec<Message>>)
        ensures
            r is Some <==> old(self).valid(id),
            final(self).slot_count() == old(self).slot_count(),
            forall|id2: ClientId|
                #[trigger] final(self).valid(id2) == old(self).valid(id2),
            old(self).valid(id) ==> {
                &&& r->0@ == old(self).conn(id).pending()
                &&& final(self).conn(id).pending() == Seq::<Message>::empty()
                &&& final(self).conn(id).inbound_log() == old(self).conn(id).inbound_log()
                &&& final(self).conn(id).sent() == old(self).conn(id).sent()
            },
            old(self).valid(id) && old(self).conn(id).pending().len() == 0 ==> final(self).conn(
                id,
            ) == old(self).conn(id),
            forall|id2: ClientId|
                old(self).valid(id2) && id2 != id ==> #[trigger] final(self).conn(id2) == old(
                    self,
                ).conn(id2),
    {
        if id.index < self.slots.len() {
            let slot = slot_at_mut(&mut self.slots, id.index);
            match slot {
                Some(c) => Some(c.received_messages()),
                None => None,
            }
        } else {
            None
        }
    }

    /// Enqueues a liveness probe on every registered connection.
    pub fn broadcast_keepalive(&mut self)
        ensures
            final(self).slot_count() == old(self).slot_count(),
            forall|id: ClientId|
                #[trigger] final(self).valid(id) == old(self).valid(id),
            forall|id: ClientId|
                old(self).valid(id) ==> {
                    &&& (#[trigger] final(self).conn(id)).sent() == old(self).conn(
                        id,
                    ).sent().push(OutboundMessage::Keepalive)
                    &&& final(self).conn(id).pending() == old(self).conn(id).pending()
                    &&& final(self).conn(id).inbound_log() == old(self).conn(id).inbound_log()
                },
    {
        let n = self.slots.len();
        let mut i: usize = 0;
        while i < n
            invariant
                n == self.slots@.len(),
                old(self).slots@.len() == n,
                i <= n,
                forall|j: int| #![all_triggers]
                    0 <= j < n ==> (self.slots@[j] is Some <==> old(self).slots@[j] is Some),
                forall|j: int| #![all_triggers]
                    0 <= j < i && old(self).slots@[j] is Some ==> {
                        &&& self.slots@[j]->0.sent() == old(self).slots@[j]->0.sent().push(
                            OutboundMessage::Keepalive,
                        )
                        &&& self.slots@[j]->0.pending() == old(self).slots@[j]->0.pending()
                        &&& self.slots@[j]->0.inbound_log() == old(self).slots@[j]->0.inbound_log()
                    },
                forall|j: int| #![all_triggers]
                    i <= j < n ==> self.slots@[j] == old(self).slots@[j],
            decreases n - i,
        {
            let ghost pre = self.slots@;
            let slot = slot_at_mut(&mut self.slots, i);
            match slot {
                Some(c) => {
                    c.send_keepalive();
                },
                None => {},
            }
            proof {
                assert(self.slots@.len() == pre.len());
                assert(forall|j: int| #![all_triggers]
                    0 <= j < pre.len() && j != i ==> self.slots@[j] == pre[j]);
                if pre[i as int] is Some {
                    assert(self.slots@[i as int] is Some);
                } else {
                    assert(self.slots@[i as int] is None);
                }
            }
            i = i + 1;
        }
        proof {
            assert forall|id: ClientId| #[trigger] final(self).valid(id) == old(self).valid(
                id,
            ) by {
                if id.index < self.slots@.len() {
                    assert(self.slots@[id.index as int] is Some <==> old(self).slots@[id.index as int]
                        is Some);
                }
            }
            assert forall|id: ClientId| old(self).valid(id) implies {
                &&& (#[trigger] final(self).conn(id)).sent() == old(self).conn(id).sent().push(
                    OutboundMessage::Keepalive,
                )
                &&& final(self).conn(id).pending() == old(self).conn(id).pending()
                &&& final(self).conn(id).inbound_log() == old(self).conn(id).inbound_log()
            } by {
                assert(0 <= id.index < self.slots@.len() && old(self).slots@[id.index as int]
                    is Some);
            }
        }
    }

    /// The probes and notifications enqueued for `id` so far; `None` if `id`
    /// is not registered.
    pub fn sent_messages(&self, id: ClientId) -> (r: Option<Vec<OutboundMessage>>)
        ensures
            r is Some <==> self.valid(id),
            self.valid(id) ==> r->0@ == self.conn(id).sent(),
    {
        if id.index < self.slots.len() {
            match &self.slots[id.index] {
                Some(c) => Some(c.sent_messages()),
                None => None,
            }
        } else {
            None
        }
    }
}

/// The server-side resource: the connection registry plus the timestamp of
/// the last liveness broadcast, in milliseconds.
pub struct Server {
    pub clients: Clients,
    pub last_keepalive_time: u64,
}

impl Server {
    /// A server resource with an empty registry; `now_ms` becomes the initial
    /// broadcast timestamp.
    pub fn new(now_ms: u64) -> (s: Server)
        ensures
            s.last_keepalive_time == now_ms,
            s.clients.slot_count() == 0,
            forall|id: ClientId| !s.clients.valid(id),
    {
        Server { clients: Clients::new(), last_keepalive_time: now_ms }
    }

    /// Enqueues a liveness probe on every registered connection.
    pub fn broadcast_keepalive(&mut self)
        ensures
            final(self).last_keepalive_time == old(self).last_keepalive_time,
            final(self).clients.slot_count() == old(self).clients.slot_count(),
            forall|id: ClientId|
                #[trigger] final(self).clients.valid(id) == old(self).clients.valid(id),
            forall|id: ClientId|
                old(self).clients.valid(id) ==> {
                    &&& (#[trigger] final(self).clients.conn(id)).sent() == old(
                        self,
                    ).clients.conn(id).sent().push(OutboundMessage::Keepalive)
                    &&& final(self).clients.conn(id).pending() == old(self).clients.conn(
                        id,
                    ).pending()
                    &&& final(self).clients.conn(id).inbound_log() == old(self).clients.conn(
                        id,
                    ).inbound_log()
                },
    {
        self.clients.broadcast_keepalive();
    }
}

} // verus!
