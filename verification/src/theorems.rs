//! What the model implies of whole runs: of registrations made one after
//! another, of events routed one after another, and of an application that
//! is closed more than once.

use crate::event::{LoopState, SystrayEvent};
use crate::model::{Closing, Entry, Snapshot};
use std::sync::mpsc::Sender;
use vstd::prelude::*;

verus! {

/// Whether everything in `inbox` is a menu event.
pub open spec fn all_menu_events(inbox: Seq<Option<SystrayEvent>>) -> bool {
    forall|i: int|
        0 <= i < inbox.len() ==> #[trigger] inbox[i] matches Some(SystrayEvent::MenuEvent(_))
}

/// The identifiers that the menu events of `inbox` name, in order.
pub open spec fn clicked(inbox: Seq<Option<SystrayEvent>>) -> Seq<u32> {
    Seq::new(
        inbox.len(),
        |i: int|
            match inbox[i] {
                Some(SystrayEvent::MenuEvent(id)) => id,
                _ => 0,
            },
    )
}

impl<W, H> Snapshot<W, H> {
    /// Registrations that all succeed get consecutive identifiers: the call
    /// number `k`, counted from zero, is made in a state whose next
    /// identifier is `k` above the one at the start. The rest of the state
    /// is not touched by registering.
    pub proof fn lemma_ids_are_consecutive(self, entries: Seq<Entry<H>>, k: int)
        requires
            0 <= k <= entries.len(),
        ensures
            self.register_all(entries.take(k)).next_id == self.next_id + k,
            self.register_all(entries.take(k)).window == self.window,
            self.register_all(entries.take(k)).tx == self.tx,
            self.register_all(entries.take(k)).state == self.state,
            self.register_all(entries.take(k)).released == self.released,
            self.register_all(entries.take(k)).invoked == self.invoked,
        decreases k,
    {
        if k > 0 {
            self.lemma_ids_are_consecutive(entries, k - 1);
            assert(entries.take(k).drop_last() =~= entries.take(k - 1));
        }
    }

    /// From a fresh application, registrations that all succeed get the
    /// identifiers 0, 1, 2 and so on: the call number `k` gets `k`.
    pub proof fn lemma_ids_count_from_zero(
        window: W,
        tx: Sender<SystrayEvent>,
        entries: Seq<Entry<H>>,
        k: int,
    )
        requires
            0 <= k <= entries.len(),
        ensures
            Self::initial(window, tx).register_all(entries.take(k)).next_id == k,
    {
        Self::initial(window, tx).lemma_ids_are_consecutive(entries, k);
    }

    /// After a run of successful registrations, the identifier of the call
    /// number `k` has a handler if and only if that call added a clickable
    /// entry, and the handler is the one given there: a separator's
    /// identifier never has one. Handlers bound before the run stay as they
    /// were, and the state is well formed again.
    pub proof fn lemma_handlers_follow_entries(self, entries: Seq<Entry<H>>)
        requires
            self.wf(),
            self.next_id + entries.len() <= u32::MAX,
        ensures
            self.register_all(entries).wf(),
            forall|k: int|
                0 <= k < entries.len() ==> (self.register_all(entries).handlers.contains_key(
                    (self.next_id + k) as u32,
                ) <==> #[trigger] entries[k] is Item),
            forall|k: int|
                0 <= k < entries.len() ==> (#[trigger] entries[k] matches Entry::Item(handler)
                    ==> self.register_all(entries).handlers[(self.next_id + k) as u32] == handler),
            forall|id: u32|
                (id as nat) < self.next_id ==> (self.register_all(entries).handlers.contains_key(id)
                    <==> self.handlers.contains_key(id)),
            forall|id: u32|
                self.handlers.contains_key(id) ==> self.register_all(entries).handlers[id]
                    == self.handlers[id],
            forall|id: u32|
                self.register_all(entries).handlers.contains_key(id) ==> (id as nat) < self.next_id
                    + entries.len(),
        decreases entries.len(),
    {
        if entries.len() > 0 {
            let shorter = entries.drop_last();
            self.lemma_handlers_follow_entries(shorter);
            self.lemma_ids_are_consecutive(entries, entries.len() - 1);
            assert forall|k: int| 0 <= k < shorter.len() implies shorter[k] == entries[k] by {}
        }
    }

    /// A menu event whose identifier has a handler runs that handler once
    /// and changes nothing else; the loop keeps running.
    pub proof fn lemma_bound_event_runs_its_handler_once(self, id: u32)
        requires
            self.state is Running,
            self.handlers.contains_key(id),
        ensures
            self.fires(Some(SystrayEvent::MenuEvent(id))) == Some(id),
            self.after_event(Some(SystrayEvent::MenuEvent(id))) == (Snapshot {
                invoked: self.invoked.push(id),
                ..self
            }),
    {
    }

    /// A menu event whose identifier has no handler, as that of a separator,
    /// runs nothing and changes nothing: the loop keeps running.
    pub proof fn lemma_unbound_event_is_ignored(self, id: u32)
        requires
            self.state is Running,
            !self.handlers.contains_key(id),
        ensures
            self.fires(Some(SystrayEvent::MenuEvent(id))) is None,
            self.after_event(Some(SystrayEvent::MenuEvent(id))) == self,
    {
    }

    /// Events are routed one at a time and in the order of their arrival:
    /// routing `first` and then `second` is routing the two in a row, so that
    /// whatever an event causes has happened before the next one is looked at.
    pub proof fn lemma_events_are_routed_in_order(
        self,
        first: Seq<Option<SystrayEvent>>,
        second: Seq<Option<SystrayEvent>>,
    )
        ensures
            self.after_events(first + second) == self.after_events(first).after_events(second),
        decreases first.len(),
    {
        if first.len() > 0 {
            assert((first + second).drop_first() =~= first.drop_first() + second);
            self.after_event(first.first()).lemma_events_are_routed_in_order(
                first.drop_first(),
                second,
            );
        }
    }

    /// Menu events that all have handlers run one handler each, in the order
    /// of their arrival: the record of runs grows by exactly the identifiers
    /// that were clicked.
    pub proof fn lemma_bound_events_run_one_handler_each(self, inbox: Seq<Option<SystrayEvent>>)
        requires
            self.state is Running,
            forall|i: int|
                0 <= i < inbox.len() ==> (#[trigger] inbox[i] matches Some(
                    SystrayEvent::MenuEvent(id),
                ) && self.handlers.contains_key(id)),
        ensures
            self.after_events(inbox) == (Snapshot {
                invoked: self.invoked + clicked(inbox),
                ..self
            }),
        decreases inbox.len(),
    {
        if inbox.len() == 0 {
            assert(self.invoked + clicked(inbox) =~= self.invoked);
        } else {
            let next = self.after_event(inbox.first());
            let rest = inbox.drop_first();
            assert forall|i: int| 0 <= i < rest.len() implies (#[trigger] rest[i] matches Some(
                SystrayEvent::MenuEvent(id),
            ) && next.handlers.contains_key(id)) by {
                assert(rest[i] == inbox[i + 1]);
            }
            next.lemma_bound_events_run_one_handler_each(rest);
            assert(next.invoked + clicked(rest) =~= self.invoked + clicked(inbox));
        }
    }

    /// Menu events of which none has a handler run nothing and change
    /// nothing, however many arrive.
    pub proof fn lemma_unbound_events_are_ignored(self, inbox: Seq<Option<SystrayEvent>>)
        requires
            self.state is Running,
            forall|i: int|
                0 <= i < inbox.len() ==> (#[trigger] inbox[i] matches Some(
                    SystrayEvent::MenuEvent(id),
                ) && !self.handlers.contains_key(id)),
        ensures
            self.after_events(inbox) == self,
        decreases inbox.len(),
    {
        if inbox.len() > 0 {
            let rest = inbox.drop_first();
            assert forall|i: int| 0 <= i < rest.len() implies (#[trigger] rest[i] matches Some(
                SystrayEvent::MenuEvent(id),
            ) && !self.handlers.contains_key(id)) by {
                assert(rest[i] == inbox[i + 1]);
            }
            self.lemma_unbound_events_are_ignored(rest);
        }
    }

    /// Routing changes neither the window, nor the application's sending
    /// end, nor the identifiers, nor the handlers, nor whether the window was
    /// released; and what has run stays on record.
    pub proof fn lemma_routing_keeps_the_menu(self, inbox: Seq<Option<SystrayEvent>>)
        ensures
            self.after_events(inbox).window == self.window,
            self.after_events(inbox).tx == self.tx,
            self.after_events(inbox).next_id == self.next_id,
            self.after_events(inbox).handlers == self.handlers,
            self.after_events(inbox).released == self.released,
            self.invoked.is_prefix_of(self.after_events(inbox).invoked),
            self.wf() ==> self.after_events(inbox).wf(),
        decreases inbox.len(),
    {
        if inbox.len() > 0 {
            self.after_event(inbox.first()).lemma_routing_keeps_the_menu(inbox.drop_first());
        }
    }

    /// Menu events alone never end the loop.
    pub proof fn lemma_menu_events_keep_the_loop_running(self, inbox: Seq<Option<SystrayEvent>>)
        requires
            self.state is Running,
            all_menu_events(inbox),
        ensures
            self.after_events(inbox).state is Running,
        decreases inbox.len(),
    {
        if inbox.len() > 0 {
            self.after_event(inbox.first()).lemma_menu_events_keep_the_loop_running(
                inbox.drop_first(),
            );
        }
    }

    /// A loop that has left `Running` never returns to it, and routes nothing
    /// any more, whatever arrives.
    pub proof fn lemma_loop_never_resumes(self, inbox: Seq<Option<SystrayEvent>>)
        requires
            !(self.state is Running),
        ensures
            self.after_events(inbox) == self,
        decreases inbox.len(),
    {
        if inbox.len() > 0 {
            self.lemma_loop_never_resumes(inbox.drop_first());
        }
    }

    /// Anything but a menu event ends a running loop: the menu events that
    /// arrived before it are routed, and nothing that arrives after it is.
    pub proof fn lemma_loop_ends_at_first_stop(
        self,
        before: Seq<Option<SystrayEvent>>,
        stop: Option<SystrayEvent>,
        after: Seq<Option<SystrayEvent>>,
    )
        requires
            self.state is Running,
            all_menu_events(before),
            !(stop matches Some(SystrayEvent::MenuEvent(_))),
        ensures
            self.after_events(before + seq![stop] + after) == (Snapshot {
                state: LoopState::Terminating,
                ..self.after_events(before)
            }),
    {
        let reached = self.after_events(before);
        self.lemma_menu_events_keep_the_loop_running(before);
        self.lemma_events_are_routed_in_order(before, seq![stop] + after);
        assert(before + seq![stop] + after =~= before + (seq![stop] + after));
        assert((seq![stop] + after).drop_first() =~= after);
        reached.after_event(stop).lemma_loop_never_resumes(after);
    }

    /// A quit request ends the loop once the menu events queued before it
    /// have been routed; what is queued behind it is never routed. The
    /// teardown that follows stops the loop and tells the window to release
    /// its resources, unless it had been told before the loop ended; the
    /// shutdown at the end of the application's life does not tell it again.
    pub proof fn lemma_quit_ends_the_loop(
        self,
        before: Seq<Option<SystrayEvent>>,
        after: Seq<Option<SystrayEvent>>,
    )
        requires
            self.state is Running,
            all_menu_events(before),
        ensures
            ({
                let ended = self.after_events(before + seq![Some(SystrayEvent::Quit)] + after);
                &&& ended == (Snapshot {
                    state: LoopState::Terminating,
                    ..self.after_events(before)
                })
                &&& ended.after_teardown().state is Stopped
                &&& ended.after_teardown().released
                &&& ended.releases(seq![Closing::Teardown, Closing::Shutdown]) == if self.released {
                    0nat
                } else {
                    1nat
                }
            }),
    {
        let ended = self.after_events(before + seq![Some(SystrayEvent::Quit)] + after);
        self.lemma_loop_ends_at_first_stop(before, Some(SystrayEvent::Quit), after);
        self.lemma_routing_keeps_the_menu(before);
        ended.lemma_window_is_released_once(seq![Closing::Teardown, Closing::Shutdown]);
    }

    /// When every sender is gone the loop ends just as it does on a quit
    /// request: the menu events that were still queued are routed, and the
    /// teardown that follows stops the loop and tells the window to release
    /// its resources, unless it had been told before; the shutdown at the
    /// end of the application's life does not tell it again.
    pub proof fn lemma_closed_channel_ends_the_loop(
        self,
        before: Seq<Option<SystrayEvent>>,
        after: Seq<Option<SystrayEvent>>,
    )
        requires
            self.state is Running,
            all_menu_events(before),
        ensures
            ({
                let ended = self.after_events(before + seq![None] + after);
                &&& ended == (Snapshot {
                    state: LoopState::Terminating,
                    ..self.after_events(before)
                })
                &&& ended.after_teardown().state is Stopped
                &&& ended.after_teardown().released
                &&& ended.releases(seq![Closing::Teardown, Closing::Shutdown]) == if self.released {
                    0nat
                } else {
                    1nat
                }
            }),
    {
        let ended = self.after_events(before + seq![None] + after);
        self.lemma_loop_ends_at_first_stop(before, None, after);
        self.lemma_routing_keeps_the_menu(before);
        ended.lemma_window_is_released_once(seq![Closing::Teardown, Closing::Shutdown]);
    }

    /// However often and in whatever order an application is shut down and
    /// torn down, its window is told to release its resources once: by the
    /// first of these operations, unless it had been told before them.
    pub proof fn lemma_window_is_released_once(self, ops: Seq<Closing>)
        ensures
            self.releases(ops) == if self.released || ops.len() == 0 {
                0nat
            } else {
                1nat
            },
        decreases ops.len(),
    {
        if ops.len() > 0 {
            self.after_closing(ops.first()).lemma_window_is_released_once(ops.drop_first());
        }
    }

    /// A second shutdown changes nothing: the state after two is the state
    /// after one, and the window is not told again.
    pub proof fn lemma_second_shutdown_is_idle(self)
        ensures
            self.after_shutdown().after_shutdown() == self.after_shutdown(),
            self.after_shutdown().releases(seq![Closing::Shutdown]) == 0,
            self.releases(seq![Closing::Shutdown, Closing::Shutdown]) <= 1,
    {
        self.after_shutdown().lemma_window_is_released_once(seq![Closing::Shutdown]);
        self.lemma_window_is_released_once(seq![Closing::Shutdown, Closing::Shutdown]);
    }

    /// A second teardown changes nothing either.
    pub proof fn lemma_second_teardown_is_idle(self)
        ensures
            self.after_teardown().after_teardown() == self.after_teardown(),
            self.after_teardown().releases(seq![Closing::Teardown]) == 0,
    {
        self.after_teardown().lemma_window_is_released_once(seq![Closing::Teardown]);
    }

    /// No operation breaks a well-formed state: not a registration for which
    /// an identifier is left, not an event, not a shutdown and not a teardown.
    /// So no identifier is ever handed out twice, and no handler is ever
    /// bound to an identifier that is still to come. Nor does any operation
    /// take a handler away or bind another one in its place.
    pub proof fn lemma_operations_keep_the_state_well_formed(
        self,
        entry: Entry<H>,
        received: Option<SystrayEvent>,
        op: Closing,
    )
        requires
            self.wf(),
        ensures
            Self::initial(self.window, self.tx).wf(),
            self.has_room() ==> self.register(entry).wf(),
            self.after_event(received).wf(),
            self.after_closing(op).wf(),
            self.has_room() ==> self.handlers.submap_of(self.register(entry).handlers),
            self.after_event(received).handlers == self.handlers,
            self.after_closing(op).handlers == self.handlers,
    {
    }

    /// The loop only moves forward: an event takes it from `Running` to
    /// `Running` or to `Terminating` and leaves every other state alone, and
    /// no closing operation takes it back to `Running`.
    pub proof fn lemma_loop_only_moves_forward(self, received: Option<SystrayEvent>, op: Closing)
        ensures
            self.state is Running ==> !(self.after_event(received).state is Stopped),
            !(self.state is Running) ==> self.after_event(received).state == self.state,
            !(self.state is Running) ==> !(self.after_closing(op).state is Running),
            self.state is Stopped ==> self.after_closing(op).state is Stopped,
    {
    }
}

} // verus!
