//! The callback registry: the handler of each clickable entry, by the
//! entry's identifier, behind reader-writer locks.

use crate::event::SystrayEvent;
use std::collections::HashMap;
use std::sync::mpsc::Sender;
use vstd::prelude::*;
use vstd::rwlock::{RwLock, RwLockPredicate};

verus! {

/// The lock invariant used throughout: the lock holds exactly `value`.
pub ghost struct Holds<V> {
    pub value: V,
}

impl<V> RwLockPredicate<V> for Holds<V> {
    open spec fn inv(self, v: V) -> bool {
        v == self.value
    }
}

/// Whether `f` may be called with every sender, as a handler must be.
pub open spec fn callable<H: Fn(Sender<SystrayEvent>)>(f: H) -> bool {
    forall|tx: Sender<SystrayEvent>| call_requires(f, (tx,))
}

/// Whether `f` has returned from a call on a clone of `tx`: what its own
/// postcondition promises of such a call holds.
pub open spec fn has_run<H: Fn(Sender<SystrayEvent>)>(f: H, tx: Sender<SystrayEvent>) -> bool {
    exists|copy: Sender<SystrayEvent>| cloned(tx, copy) && #[trigger] call_ensures(f, (copy,), ())
}

/// Puts a handler behind a lock of its own, so that it can be read from
/// several places at once.
fn make_callback<H: Fn(Sender<SystrayEvent>) + Send + Sync + 'static>(f: H) -> (slot: RwLock<
    H,
    Holds<H>,
>)
    ensures
        slot.pred().value == f,
{
    RwLock::new(f, Ghost(Holds { value: f }))
}

/// A map from identifiers to handlers. The map sits behind a reader-writer
/// lock and so does each handler: a lookup takes both for reading, and a new
/// binding replaces the guarded map as a whole.
pub struct CallbackRegistry<H: Fn(Sender<SystrayEvent>) + Send + Sync + 'static> {
    slots: RwLock<HashMap<u32, RwLock<H, Holds<H>>>, Holds<HashMap<u32, RwLock<H, Holds<H>>>>>,
}

impl<H: Fn(Sender<SystrayEvent>) + Send + Sync + 'static> CallbackRegistry<H> {
    /// The handlers by identifier.
    pub closed spec fn view(&self) -> Map<u32, H> {
        let held = self.slots.pred().value@;
        Map::new(|id: u32| held.contains_key(id), |id: u32| held[id].pred().value)
    }

    /// A registry without any handler.
    pub fn new() -> (registry: Self)
        ensures
            registry@ == Map::<u32, H>::empty(),
    {
        let slots: HashMap<u32, RwLock<H, Holds<H>>> = HashMap::new();
        let ghost held = slots;
        CallbackRegistry { slots: RwLock::new(slots, Ghost(Holds { value: held })) }
    }

    /// Binds `f` to `id`, in place of whatever was bound to it.
    pub fn insert(&mut self, id: u32, f: H)
        ensures
            final(self)@ == old(self)@.insert(id, f),
    {
        let slot = make_callback(f);
        let mut taken = CallbackRegistry::new();
        std::mem::swap(self, &mut taken);
        let mut slots = taken.slots.into_inner();
        slots.insert(id, slot);
        let ghost held = slots;
        self.slots = RwLock::new(slots, Ghost(Holds { value: held }));
    }

    /// Whether a handler is bound to `id`.
    pub fn contains(&self, id: u32) -> (bound: bool)
        ensures
            bound == self@.contains_key(id),
    {
        let reading = self.slots.acquire_read();
        let bound = reading.borrow().contains_key(&id);
        reading.release_read();
        bound
    }

    /// Runs the handler bound to `id` once on `tx`, if there is one, and
    /// says whether there was.
    pub fn invoke(&self, id: u32, tx: Sender<SystrayEvent>) -> (ran: bool)
        requires
            self@.contains_key(id) ==> callable(self@[id]),
        ensures
            ran == self@.contains_key(id),
            ran ==> call_ensures(self@[id], (tx,), ()),
    {
        let reading = self.slots.acquire_read();
        let ran = match reading.borrow().get(&id) {
            Some(slot) => {
                let held = slot.acquire_read();
                let handler = held.borrow();
                handler(tx);
                held.release_read();
                true
            },
            None => false,
        };
        reading.release_read();
        ran
    }
}

} // verus!
