//! The mathematical picture of an application: what its contracts speak of.

use crate::event::{LoopState, SystrayEvent};
use std::sync::mpsc::Sender;
use vstd::prelude::*;

verus! {

/// What one registration puts into the menu.
pub ghost enum Entry<H> {
    /// A clickable entry, bound to a handler.
    Item(H),
    /// A divider: it takes an identifier and has no handler.
    Separator,
}

/// An operation that gives the tray up.
pub ghost enum Closing {
    /// An explicit `shutdown`.
    Shutdown,
    /// The `teardown` at the end of the dispatch loop.
    Teardown,
}

/// The state of an application, as its contracts see it.
pub ghost struct Snapshot<W, H> {
    /// The platform window that every request goes to.
    pub window: W,
    /// The application's own sending end of the event channel: every sender
    /// that the application hands out is a clone of it.
    pub tx: Sender<SystrayEvent>,
    /// The identifier that the next entry or separator will get.
    pub next_id: nat,
    /// The handler of each clickable entry, by the entry's identifier.
    pub handlers: Map<u32, H>,
    /// Where the dispatch loop stands.
    pub state: LoopState,
    /// Whether the window has been told to release its resources.
    pub released: bool,
    /// The identifiers whose handlers have run, one for each run and in the
    /// order of the runs.
    pub invoked: Seq<u32>,
}

impl<W, H> Snapshot<W, H> {
    /// A fresh application around `window` that posts on `tx`: no entry
    /// yet, the loop ready to run, nothing released.
    pub open spec fn initial(window: W, tx: Sender<SystrayEvent>) -> Self {
        Snapshot {
            window,
            tx,
            next_id: 0,
            handlers: Map::empty(),
            state: LoopState::Running,
            released: false,
            invoked: Seq::empty(),
        }
    }

    /// Every handler sits below the next identifier, so that no identifier
    /// handed out later can meet an older handler; and a stopped loop has
    /// released its window.
    pub open spec fn wf(self) -> bool {
        &&& forall|id: u32| self.handlers.contains_key(id) ==> (id as nat) < self.next_id
        &&& self.state is Stopped ==> self.released
    }

    /// Whether one more identifier fits the 32 bits that events carry.
    pub open spec fn has_room(self) -> bool {
        self.next_id < u32::MAX
    }

    /// The state after a clickable entry was added: it took the next
    /// identifier, and `handler` answers for it.
    pub open spec fn with_item(self, handler: H) -> Self {
        Snapshot {
            next_id: self.next_id + 1,
            handlers: self.handlers.insert(self.next_id as u32, handler),
            ..self
        }
    }

    /// The state after a separator was added: it took the next identifier.
    pub open spec fn with_separator(self) -> Self {
        Snapshot { next_id: self.next_id + 1, ..self }
    }

    /// The state after one successful registration.
    pub open spec fn register(self, entry: Entry<H>) -> Self {
        match entry {
            Entry::Item(handler) => self.with_item(handler),
            Entry::Separator => self.with_separator(),
        }
    }

    /// The state after a run of successful registrations, first to last.
    pub open spec fn register_all(self, entries: Seq<Entry<H>>) -> Self
        decreases entries.len(),
    {
        if entries.len() == 0 {
            self
        } else {
            self.register_all(entries.drop_last()).register(entries.last())
        }
    }

    /// The identifier whose handler runs when `received` comes off the
    /// channel, if any does: the loop must be running, and the event must
    /// name an entry that has a handler.
    pub open spec fn fires(self, received: Option<SystrayEvent>) -> Option<u32> {
        if self.state is Running {
            match received {
                Some(SystrayEvent::MenuEvent(id)) => if self.handlers.contains_key(id) {
                    Some(id)
                } else {
                    None
                },
                _ => None,
            }
        } else {
            None
        }
    }

    /// The state after `received` came off the channel, where `None` stands
    /// for a channel that every sender has left. While the loop is running,
    /// a menu event runs the handler bound to its identifier, if there is
    /// one, and leaves the rest as it is; anything else ends the loop. A
    /// loop that is no longer running takes no notice.
    pub open spec fn after_event(self, received: Option<SystrayEvent>) -> Self {
        if !(self.state is Running) {
            self
        } else {
            match received {
                Some(SystrayEvent::MenuEvent(_)) => match self.fires(received) {
                    Some(id) => Snapshot { invoked: self.invoked.push(id), ..self },
                    None => self,
                },
                _ => Snapshot { state: LoopState::Terminating, ..self },
            }
        }
    }

    /// The state after everything in `inbox` came off the channel, in order.
    pub open spec fn after_events(self, inbox: Seq<Option<SystrayEvent>>) -> Self
        decreases inbox.len(),
    {
        if inbox.len() == 0 {
            self
        } else {
            self.after_event(inbox.first()).after_events(inbox.drop_first())
        }
    }

    /// The state after an explicit shutdown.
    pub open spec fn after_shutdown(self) -> Self {
        Snapshot { released: true, ..self }
    }

    /// The state after the dispatch loop was torn down.
    pub open spec fn after_teardown(self) -> Self {
        Snapshot { state: LoopState::Stopped, released: true, ..self }
    }

    /// The state after one closing operation.
    pub open spec fn after_closing(self, op: Closing) -> Self {
        match op {
            Closing::Shutdown => self.after_shutdown(),
            Closing::Teardown => self.after_teardown(),
        }
    }

    /// How many of the closing operations `ops`, made in order from this
    /// state, tell the window to release its resources: each does so only if
    /// none has done it before.
    pub open spec fn releases(self, ops: Seq<Closing>) -> nat
        decreases ops.len(),
    {
        if ops.len() == 0 {
            0
        } else {
            let here: nat = if self.released { 0 } else { 1 };
            here + self.after_closing(ops.first()).releases(ops.drop_first())
        }
    }
}

} // verus!
