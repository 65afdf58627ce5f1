//! Entity/component store with generation-checked identifiers.
//!
//! An [`Entity`] is an opaque identifier — a slot index plus a generation —
//! with no intrinsic data; state is attached through components (a name, a
//! connection identifier, a visibility view). Removal is deferred: requesting
//! removal marks the slot, the components stay readable for the rest of the
//! tick, and the identifier becomes invalid only when the removals are
//! flushed at the next tick boundary, by bumping the slot's generation.

use vstd::prelude::*;
use vstd::view::View as _;

use crate::net::ClientId;
use crate::view::View;

verus! {

/// Identifier of a simulated entity: a storage slot plus the generation that
/// was current when the entity was spawned.
#[derive(Clone, Copy, PartialEq, Eq, Hash, Debug, Structural)]
pub struct Entity {
    pub index: usize,
    pub generation: u64,
}

#[derive(Clone, Copy, PartialEq, Eq, Debug, Structural)]
enum SlotState {
    Free,
    Alive,
    Removing,
}

struct Slot {
    generation: u64,
    state: SlotState,
    name: Option<String>,
    client: Option<ClientId>,
    view: Option<View>,
}

/// Mutable access to one storage slot.
fn slot_mut(slots: &mut Vec<Slot>, i: usize) -> (ret: &mut Slot)
    requires
        i < old(slots).len(),
    ensures
        *ret == old(slots)@[i as int],
        final(slots)@ == old(slots)@.update(i as int, *final(ret)),
{
    &mut slots[i]
}

/// The entity/component store.
pub struct EntityStore {
    slots: Vec<Slot>,
}

impl EntityStore {
    /// How many slots have ever been handed out.
    pub closed spec fn slot_count(&self) -> nat {
        self.slots@.len()
    }

    /// Whether `e` is currently readable: spawned, not yet flushed. An entity
    /// whose removal was requested this tick is still readable.
    pub closed spec fn alive(&self, e: Entity) -> bool {
        &&& e.index < self.slots@.len()
        &&& self.slots@[e.index as int].generation == e.generation
        &&& !(self.slots@[e.index as int].state is Free)
    }

    /// Whether `e`'s removal has been requested and not yet flushed.
    pub closed spec fn removal_pending(&self, e: Entity) -> bool {
        self.alive(e) && self.slots@[e.index as int].state is Removing
    }

    /// The name component of `e`, if `e` is readable and has one.
    pub closed spec fn name_spec(&self, e: Entity) -> Option<String> {
        if self.alive(e) {
            self.slots@[e.index as int].name
        } else {
            None
        }
    }

    /// The connection identifier component of `e`, if any.
    pub closed spec fn client_spec(&self, e: Entity) -> Option<ClientId> {
        if self.alive(e) {
            self.slots@[e.index as int].client
        } else {
            None
        }
    }

    /// The view component of `e`, if any.
    pub closed spec fn view_spec(&self, e: Entity) -> Option<View> {
        if self.alive(e) {
            self.slots@[e.index as int].view
        } else {
            None
        }
    }

    /// The participants among the first `n` slots, in slot order.
    spec fn participants_upto(&self, n: int) -> Seq<(Entity, ClientId)>
        decreases n,
    {
        if n <= 0 {
            Seq::empty()
        } else {
            let rest = self.participants_upto(n - 1);
            if n - 1 < self.slots@.len() && !(self.slots@[n - 1].state is Free)
                && self.slots@[n - 1].client is Some {
                rest.push(
                    (
                        Entity {
                            index: (n - 1) as usize,
                            generation: self.slots@[n - 1].generation,
                        },
                        self.slots@[n - 1].client->0,
                    ),
                )
            } else {
                rest
            }
        }
    }

    /// Every readable entity that carries a connection identifier, paired
    /// with that identifier, in slot order.
    pub closed spec fn participants_seq(&self) -> Seq<(Entity, ClientId)> {
        self.participants_upto(self.slots@.len() as int)
    }

    /// No two readable entities share a connection identifier.
    pub open spec fn clients_injective(&self) -> bool {
        forall|e1: Entity, e2: Entity|
            e1 != e2 && #[trigger] self.client_spec(e1) is Some ==> self.client_spec(e1)
                != #[trigger] self.client_spec(e2)
    }

    /// Law: an identifier that is not readable reads no components. In
    /// particular, once a flush has invalidated an entity, every component
    /// lookup on it fails.
    pub proof fn lemma_dead_entity_has_no_components(&self, e: Entity)
        requires
            !self.alive(e),
        ensures
            self.name_spec(e) is None,
            self.client_spec(e) is None,
            self.view_spec(e) is None,
    {
    }

    /// An empty store.
    pub fn new() -> (s: EntityStore)
        ensures
            s.slot_count() == 0,
            forall|e: Entity| !s.alive(e),
    {
        EntityStore { slots: Vec::new() }
    }

    /// Whether `e` is currently readable.
    pub fn is_alive(&self, e: Entity) -> (r: bool)
        ensures
            r == self.alive(e),
    {
        e.index < self.slots.len() && self.slots[e.index].generation == e.generation && !matches!(
            self.slots[e.index].state,
            SlotState::Free,
        )
    }

    /// Spawns a fresh entity with no components.
    pub fn spawn(&mut self) -> (e: Entity)
        ensures
            final(self).alive(e),
            !old(self).alive(e),
            !final(self).removal_pending(e),
            final(self).name_spec(e) is None,
            final(self).client_spec(e) is None,
            final(self).view_spec(e) is None,
            e.index == old(self).slot_count(),
            final(self).slot_count() == old(self).slot_count() + 1,
            forall|e2: Entity|
                e2 != e ==> {
                    &&& #[trigger] final(self).alive(e2) == old(self).alive(e2)
                    &&& final(self).removal_pending(e2) == old(self).removal_pending(e2)
                    &&& final(self).name_spec(e2) == old(self).name_spec(e2)
                    &&& final(self).client_spec(e2) == old(self).client_spec(e2)
                    &&& final(self).view_spec(e2) == old(self).view_spec(e2)
                },
    {
        let e = Entity { index: self.slots.len(), generation: 0 };
        self.slots.push(
            Slot {
                generation: 0,
                state: SlotState::Alive,
                name: None,
                client: None,
                view: None,
            },
        );
        e
    }

    /// Requests removal of `e`. Returns whether the request took effect: `e`
    /// was readable and not already marked. The components stay readable
    /// until the removals are flushed.
    pub fn queue_removal(&mut self, e: Entity) -> (r: bool)
        ensures
            r == (old(self).alive(e) && !old(self).removal_pending(e)),
            final(self).slot_count() == old(self).slot_count(),
            final(self).alive(e) == old(self).alive(e),
            old(self).alive(e) ==> final(self).removal_pending(e),
            final(self).name_spec(e) == old(self).name_spec(e),
            final(self).client_spec(e) == old(self).client_spec(e),
            final(self).view_spec(e) == old(self).view_spec(e),
            forall|e2: Entity|
                e2 != e ==> {
                    &&& #[trigger] final(self).alive(e2) == old(self).alive(e2)
                    &&& final(self).removal_pending(e2) == old(self).removal_pending(e2)
                    &&& final(self).name_spec(e2) == old(self).name_spec(e2)
                    &&& final(self).client_spec(e2) == old(self).client_spec(e2)
                    &&& final(self).view_spec(e2) == old(self).view_spec(e2)
                },
    {
        if e.index < self.slots.len() && self.slots[e.index].generation == e.generation
            && matches!(self.slots[e.index].state, SlotState::Alive) {
            let s = slot_mut(&mut self.slots, e.index);
            s.state = SlotState::Removing;
            true
        } else {
            false
        }
    }

    /// Flushes the pending removals: every marked slot is freed and its
    /// generation bumped, so the removed identifiers are invalid from now on.
    /// Every other entity keeps its components.
    pub fn flush_removals(&mut self)
        ensures
            final(self).slot_count() == old(self).slot_count(),
            forall|e: Entity|
                #[trigger] final(self).alive(e) == (old(self).alive(e) && !old(
                    self,
                ).removal_pending(e)),
            forall|e: Entity| !(#[trigger] final(self).removal_pending(e)),
            forall|e: Entity|
                old(self).alive(e) && !old(self).removal_pending(e) ==> {
                    &&& #[trigger] final(self).name_spec(e) == old(self).name_spec(e)
                    &&& final(self).client_spec(e) == old(self).client_spec(e)
                    &&& final(self).view_spec(e) == old(self).view_spec(e)
                },
    {
        let n = self.slots.len();
        let mut i: usize = 0;
        while i < n
            invariant
                n == self.slots@.len(),
                old(self).slots@.len() == n,
                i <= n,
                forall|j: int| #![all_triggers]
                    0 <= j < i && old(self).slots@[j].state is Removing ==> {
                        &&& self.slots@[j].state is Free
                        &&& self.slots@[j].generation != old(self).slots@[j].generation
                    },
                forall|j: int| #![all_triggers]
                    0 <= j < i && !(old(self).slots@[j].state is Removing) ==> self.slots@[j]
                        == old(self).slots@[j],
                forall|j: int| #![all_triggers]
                    i <= j < n ==> self.slots@[j] == old(self).slots@[j],
            decreases n - i,
        {
            if matches!(self.slots[i].state, SlotState::Removing) {
                let g = self.slots[i].generation;
                let g2: u64 = if g == u64::MAX {
                    0
                } else {
                    g + 1
                };
                self.slots[i] = Slot {
                    generation: g2,
                    state: SlotState::Free,
                    name: None,
                    client: None,
                    view: None,
                };
            }
            i = i + 1;
        }
    }

    /// Attaches `name` to `e`; returns whether `e` was readable.
    pub fn set_name(&mut self, e: Entity, name: String) -> (r: bool)
        ensures
            r == old(self).alive(e),
            final(self).slot_count() == old(self).slot_count(),
            final(self).alive(e) == old(self).alive(e),
            final(self).removal_pending(e) == old(self).removal_pending(e),
            old(self).alive(e) ==> final(self).name_spec(e) == Some(name),
            !old(self).alive(e) ==> final(self).name_spec(e) == old(self).name_spec(e),
            final(self).client_spec(e) == old(self).client_spec(e),
            final(self).view_spec(e) == old(self).view_spec(e),
            forall|e2: Entity|
                e2 != e ==> {
                    &&& #[trigger] final(self).alive(e2) == old(self).alive(e2)
                    &&& final(self).removal_pending(e2) == old(self).removal_pending(e2)
                    &&& final(self).name_spec(e2) == old(self).name_spec(e2)
                    &&& final(self).client_spec(e2) == old(self).client_spec(e2)
                    &&& final(self).view_spec(e2) == old(self).view_spec(e2)
                },
    {
        if e.index < self.slots.len() && self.slots[e.index].generation == e.generation
            && !matches!(self.slots[e.index].state, SlotState::Free) {
            let s = slot_mut(&mut self.slots, e.index);
            s.name = Some(name);
            true
        } else {
            false
        }
    }

    /// Attaches connection identifier `c` to `e`; returns whether `e` was
    /// readable.
    pub fn set_client(&mut self, e: Entity, c: ClientId) -> (r: bool)
        ensures
            r == old(self).alive(e),
            final(self).slot_count() == old(self).slot_count(),
            final(self).alive(e) == old(self).alive(e),
            final(self).removal_pending(e) == old(self).removal_pending(e),
            old(self).alive(e) ==> final(self).client_spec(e) == Some(c),
            !old(self).alive(e) ==> final(self).client_spec(e) == old(self).client_spec(e),
            final(self).name_spec(e) == old(self).name_spec(e),
            final(self).view_spec(e) == old(self).view_spec(e),
            forall|e2: Entity|
                e2 != e ==> {
                    &&& #[trigger] final(self).alive(e2) == old(self).alive(e2)
                    &&& final(self).removal_pending(e2) == old(self).removal_pending(e2)
                    &&& final(self).name_spec(e2) == old(self).name_spec(e2)
                    &&& final(self).client_spec(e2) == old(self).client_spec(e2)
                    &&& final(self).view_spec(e2) == old(self).view_spec(e2)
                },
    {
        if e.index < self.slots.len() && self.slots[e.index].generation == e.generation
            && !matches!(self.slots[e.index].state, SlotState::Free) {
            let s = slot_mut(&mut self.slots, e.index);
            s.client = Some(c);
            true
        } else {
            false
        }
    }

    /// Replaces `e`'s view wholesale; returns whether `e` was readable.
    pub fn set_view(&mut self, e: Entity, v: View) -> (r: bool)
        ensures
            r == old(self).alive(e),
            final(self).slot_count() == old(self).slot_count(),
            final(self).alive(e) == old(self).alive(e),
            final(self).removal_pending(e) == old(self).removal_pending(e),
            old(self).alive(e) ==> final(self).view_spec(e) == Some(v),
            !old(self).alive(e) ==> final(self).view_spec(e) == old(self).view_spec(e),
            final(self).name_spec(e) == old(self).name_spec(e),
            final(self).client_spec(e) == old(self).client_spec(e),
            forall|e2: Entity|
                e2 != e ==> {
                    &&& #[trigger] final(self).alive(e2) == old(self).alive(e2)
                    &&& final(self).removal_pending(e2) == old(self).removal_pending(e2)
                    &&& final(self).name_spec(e2) == old(self).name_spec(e2)
                    &&& final(self).client_spec(e2) == old(self).client_spec(e2)
                    &&& final(self).view_spec(e2) == old(self).view_spec(e2)
                },
    {
        if e.index < self.slots.len() && self.slots[e.index].generation == e.generation
            && !matches!(self.slots[e.index].state, SlotState::Free) {
            let s = slot_mut(&mut self.slots, e.index);
            s.view = Some(v);
            true
        } else {
            false
        }
    }

    /// The name component of `e`, if `e` is readable and has one.
    pub fn get_name(&self, e: Entity) -> (r: Option<&String>)
        ensures
            match r {
                Some(s) => self.name_spec(e) == Some(*s),
                None => self.name_spec(e) is None,
            },
    {
        if e.index < self.slots.len() && self.slots[e.index].generation == e.generation
            && !matches!(self.slots[e.index].state, SlotState::Free) {
            match &self.slots[e.index].name {
                Some(n) => Some(n),
                None => None,
            }
        } else {
            None
        }
    }

    /// The connection identifier component of `e`, if any.
    pub fn client_of(&self, e: Entity) -> (r: Option<ClientId>)
        ensures
            r == self.client_spec(e),
    {
        if e.index < self.slots.len() && self.slots[e.index].generation == e.generation
            && !matches!(self.slots[e.index].state, SlotState::Free) {
            self.slots[e.index].client
        } else {
            None
        }
    }

    /// The view component of `e`, if any.
    pub fn view_of(&self, e: Entity) -> (r: Option<View>)
        ensures
            r == self.view_spec(e),
    {
        if e.index < self.slots.len() && self.slots[e.index].generation == e.generation
            && !matches!(self.slots[e.index].state, SlotState::Free) {
            self.slots[e.index].view
        } else {
            None
        }
    }

    /// Every readable entity that carries a connection identifier, in slot
    /// order.
    pub fn participants(&self) -> (r: Vec<(Entity, ClientId)>)
        ensures
            r@ == self.participants_seq(),
            forall|k: int|
                0 <= k < r@.len() ==> {
                    &&& self.alive((#[trigger] r@[k]).0)
                    &&& self.client_spec(r@[k].0) == Some(r@[k].1)
                },
            forall|e: Entity|
                self.alive(e) && #[trigger] self.client_spec(e) is Some ==> r@.contains(
                    (e, self.client_spec(e)->0),
                ),
            forall|k1: int, k2: int|
                0 <= k1 < k2 < r@.len() ==> (#[trigger] r@[k1]).0.index < (#[trigger] r@[k2]).0.index,
    {
        let mut r: Vec<(Entity, ClientId)> = Vec::new();
        let mut i: usize = 0;
        while i < self.slots.len()
            invariant
                i <= self.slots@.len(),
                r@ == self.participants_upto(i as int),
                forall|k: int|
                    0 <= k < r@.len() ==> {
                        &&& self.alive((#[trigger] r@[k]).0)
                        &&& self.client_spec(r@[k].0) == Some(r@[k].1)
                        &&& r@[k].0.index < i
                    },
                forall|e: Entity|
                    self.alive(e) && #[trigger] self.client_spec(e) is Some && e.index < i
                        ==> r@.contains((e, self.client_spec(e)->0)),
                forall|k1: int, k2: int|
                    0 <= k1 < k2 < r@.len() ==> (#[trigger] r@[k1]).0.index < (
                    #[trigger] r@[k2]).0.index,
            decreases self.slots@.len() - i,
        {
            proof {
                assert(self.participants_upto(i as int + 1) == if i < self.slots@.len() && !(
                self.slots@[i as int].state is Free) && self.slots@[i as int].client is Some {
                    self.participants_upto(i as int).push(
                        (
                            Entity {
                                index: i,
                                generation: self.slots@[i as int].generation,
                            },
                            self.slots@[i as int].client->0,
                        ),
                    )
                } else {
                    self.participants_upto(i as int)
                });
            }
            if !matches!(self.slots[i].state, SlotState::Free) {
                match self.slots[i].client {
                    Some(c) => {
                        let e = Entity { index: i, generation: self.slots[i].generation };
                        let ghost prev = r@;
                        r.push((e, c));
                        proof {
                            assert(r@ == prev.push((e, c)));
                            assert(forall|k: int|
                                0 <= k < prev.len() ==> r@[k] == prev[k]);
                            assert(r@[prev.len() as int] == (e, c));
                        }
                    },
                    None => {},
                }
            }
            i = i + 1;
        }
        r
    }
}

} // verus!
