//! The application: one tray window, the identifiers of its menu, the
//! handlers bound to them, and the channel that events arrive on.

use crate::channel::{clone_sender, open_channel, receive};
use crate::error::SystrayError;
use crate::event::{LoopState, SystrayEvent};
use crate::model::Snapshot;
use crate::registry::{callable, has_run, CallbackRegistry};
use crate::window::Window;
use std::sync::mpsc::{Receiver, Sender};
use vstd::prelude::*;

verus! {

/// A tray icon with its menu.
///
/// Entries are registered first; then the value is handed to a dispatch
/// loop, which calls [`Application::dispatch_next`] until the loop leaves
/// `Running` and ends with [`Application::teardown`]. Registration and
/// dispatch both borrow the application exclusively, so a handler is never
/// looked up while the registry changes; the registry is locked all the same.
///
/// The window decides whether a request succeeds, and nothing is assumed of
/// how it decides. Where a contract below says `call_ensures(W::m, args, r)`,
/// it says that `r` is an answer of the window's method `m` to exactly the
/// arguments `args`.
pub struct Application<W: Window, H: Fn(Sender<SystrayEvent>) + Send + Sync + 'static> {
    window: W,
    menu_idx: u32,
    callback: CallbackRegistry<H>,
    tx: Sender<SystrayEvent>,
    rx: Receiver<SystrayEvent>,
    state: LoopState,
    released: bool,
    invoked: Ghost<Seq<u32>>,
}

impl<W: Window, H: Fn(Sender<SystrayEvent>) + Send + Sync + 'static> Application<W, H> {
    #[verifier::type_invariant]
    spec fn inv(self) -> bool {
        &&& self@.wf()
        &&& forall|id: u32| self.callback@.contains_key(id) ==> callable(self.callback@[id])
    }

    /// The state that the contracts speak of.
    pub closed spec fn view(&self) -> Snapshot<W, H> {
        Snapshot {
            window: self.window,
            tx: self.tx,
            next_id: self.menu_idx as nat,
            handlers: self.callback@,
            state: self.state,
            released: self.released,
            invoked: self.invoked@,
        }
    }

    /// Builds the application around the outcome of creating its window:
    /// a window that came up gets an empty menu and a loop ready to run, with
    /// `tx` as the application's own sending end; a failure is handed on as
    /// it is.
    pub fn assemble(
        created: Result<W, SystrayError>,
        tx: Sender<SystrayEvent>,
        rx: Receiver<SystrayEvent>,
    ) -> (made: Result<Self, SystrayError>)
        ensures
            match created {
                Ok(window) => made matches Ok(app) && app@ == Snapshot::<W, H>::initial(
                    window,
                    tx,
                ),
                Err(e) => made matches Err(err) && err == e,
            },
    {
        match created {
            Ok(window) => Ok(
                Application {
                    window,
                    menu_idx: 0,
                    callback: CallbackRegistry::new(),
                    tx,
                    rx,
                    state: LoopState::Running,
                    released: false,
                    invoked: Ghost(Seq::empty()),
                },
            ),
            Err(e) => Err(e),
        }
    }

    /// Opens the event channel, has the platform create its window around a
    /// clone of the sending end that the application keeps, and starts with
    /// an empty menu. Whether the window comes up is the platform's to say;
    /// its failure is the only one.
    pub fn new() -> (made: Result<Self, SystrayError>)
        ensures
            match made {
                Ok(app) => app@ == Snapshot::<W, H>::initial(app@.window, app@.tx)
                    && exists|event_tx: Sender<SystrayEvent>|
                        cloned(app@.tx, event_tx) && #[trigger] call_ensures(
                            W::new,
                            (event_tx,),
                            Ok::<W, SystrayError>(app@.window),
                        ),
                Err(e) => exists|event_tx: Sender<SystrayEvent>|
                    call_ensures(W::new, (event_tx,), Err::<W, SystrayError>(e)),
            },
    {
        let (tx, rx) = open_channel();
        let event_tx = clone_sender(&tx);
        let created = W::new(event_tx);
        Self::assemble(created, tx, rx)
    }

    /// Finishes the registration of a clickable entry once the window has
    /// answered. If the window took the entry, `f` is bound to the next
    /// identifier, which is returned and used up. If it refused, its error is
    /// returned and nothing changes: the identifier stays free.
    pub fn record_item(&mut self, added: Result<(), SystrayError>, f: H) -> (r: Result<
        u32,
        SystrayError,
    >)
        requires
            added is Ok ==> old(self)@.has_room(),
            callable(f),
        ensures
            match added {
                Ok(_) => r matches Ok(id) && id == old(self)@.next_id && final(self)@ == old(
                    self,
                )@.with_item(f),
                Err(e) => r matches Err(err) && err == e && final(self)@ == old(self)@,
            },
    {
        proof {
            use_type_invariant(&*self);
        }
        match added {
            Ok(_) => {
                let idx: u32 = self.menu_idx;
                self.menu_idx = idx + 1;
                // The registry is taken out and put back, so that the
                // application is whole at every step in between.
                let mut handlers = CallbackRegistry::new();
                std::mem::swap(&mut self.callback, &mut handlers);
                handlers.insert(idx, f);
                self.callback = handlers;
                Ok(idx)
            },
            Err(e) => Err(e),
        }
    }

    /// Adds a clickable entry named `item_name` and binds `f` to it.
    ///
    /// The window is asked to add the entry under the next identifier. What
    /// follows from its answer is what [`Application::record_item`] says.
    pub fn add_menu_item(&mut self, item_name: &String, f: H) -> (r: Result<u32, SystrayError>)
        requires
            old(self)@.has_room(),
            callable(f),
        ensures
            match r {
                Ok(id) => {
                    &&& id == old(self)@.next_id
                    &&& final(self)@ == old(self)@.with_item(f)
                    &&& call_ensures(
                        W::add_menu_entry,
                        (&old(self)@.window, id, item_name),
                        Ok::<(), SystrayError>(()),
                    )
                },
                Err(e) => {
                    &&& final(self)@ == old(self)@
                    &&& call_ensures(
                        W::add_menu_entry,
                        (&old(self)@.window, old(self)@.next_id as u32, item_name),
                        Err::<(), SystrayError>(e),
                    )
                },
            },
    {
        let idx: u32 = self.menu_idx;
        let added = self.window.add_menu_entry(idx, item_name);
        assert(added matches Ok(unit) ==> unit == ());
        self.record_item(added, f)
    }

    /// Finishes the registration of a separator once the window has
    /// answered. If the window took it, the next identifier is returned and
    /// used up; no handler is bound to it. If it refused, its error is
    /// returned and nothing changes.
    pub fn record_separator(&mut self, added: Result<(), SystrayError>) -> (r: Result<
        u32,
        SystrayError,
    >)
        requires
            added is Ok ==> old(self)@.has_room(),
        ensures
            match added {
                Ok(_) => r matches Ok(id) && id == old(self)@.next_id && final(self)@ == old(
                    self,
                )@.with_separator(),
                Err(e) => r matches Err(err) && err == e && final(self)@ == old(self)@,
            },
    {
        proof {
            use_type_invariant(&*self);
        }
        match added {
            Ok(_) => {
                let idx: u32 = self.menu_idx;
                self.menu_idx = idx + 1;
                Ok(idx)
            },
            Err(e) => Err(e),
        }
    }

    /// Adds a separator.
    ///
    /// The window is asked to draw it in the slot of the next identifier.
    /// What follows from its answer is what
    /// [`Application::record_separator`] says.
    pub fn add_menu_separator(&mut self) -> (r: Result<u32, SystrayError>)
        requires
            old(self)@.has_room(),
        ensures
            match r {
                Ok(id) => {
                    &&& id == old(self)@.next_id
                    &&& final(self)@ == old(self)@.with_separator()
                    &&& call_ensures(
                        W::add_menu_separator,
                        (&old(self)@.window, id),
                        Ok::<(), SystrayError>(()),
                    )
                },
                Err(e) => {
                    &&& final(self)@ == old(self)@
                    &&& call_ensures(
                        W::add_menu_separator,
                        (&old(self)@.window, old(self)@.next_id as u32),
                        Err::<(), SystrayError>(e),
                    )
                },
            },
    {
        let idx: u32 = self.menu_idx;
        let added = self.window.add_menu_separator(idx);
        assert(added matches Ok(unit) ==> unit == ());
        self.record_separator(added)
    }

    /// Has the window show the icon stored in the file `file`, and hands on
    /// its answer.
    pub fn set_icon_from_file(&self, file: &String) -> (r: Result<(), SystrayError>)
        ensures
            call_ensures(W::set_icon_from_file, (&self@.window, file), r),
    {
        self.window.set_icon_from_file(file)
    }

    /// Has the window show the icon that the program carries under the name
    /// `resource`, and hands on its answer.
    pub fn set_icon_from_resource(&self, resource: &String) -> (r: Result<(), SystrayError>)
        ensures
            call_ensures(W::set_icon_from_resource, (&self@.window, resource), r),
    {
        self.window.set_icon_from_resource(resource)
    }

    /// Has the window show the icon encoded in `buffer`, `width` by `height`,
    /// and hands on its answer. A platform that cannot do this says so with
    /// `NotImplementedError`.
    pub fn set_icon_from_buffer(&self, buffer: &[u8], width: u32, height: u32) -> (r: Result<
        (),
        SystrayError,
    >)
        ensures
            call_ensures(W::set_icon_from_buffer, (&self@.window, buffer, width, height), r),
    {
        self.window.set_icon_from_buffer(buffer, width, height)
    }

    /// Has the window show `tooltip` when the pointer rests on the icon, and
    /// hands on its answer.
    pub fn set_tooltip(&self, tooltip: &String) -> (r: Result<(), SystrayError>)
        ensures
            call_ensures(W::set_tooltip, (&self@.window, tooltip), r),
    {
        self.window.set_tooltip(tooltip)
    }

    /// Tells the window to release what the platform lent it.
    ///
    /// The window is told once: the first call hands on its answer, and every
    /// later call succeeds without reaching it.
    pub fn shutdown(&mut self) -> (r: Result<(), SystrayError>)
        ensures
            final(self)@ == old(self)@.after_shutdown(),
            if old(self)@.released {
                r is Ok
            } else {
                call_ensures(W::shutdown, (&old(self)@.window,), r)
            },
    {
        proof {
            use_type_invariant(&*self);
        }
        if self.released {
            Ok(())
        } else {
            self.released = true;
            self.window.shutdown()
        }
    }

    /// Tells the window to end its native loop, so that it produces no
    /// further event. The handlers, the identifiers and the dispatch loop
    /// are left as they are.
    pub fn quit(&mut self)
        ensures
            final(self)@ == old(self)@,
            call_ensures(W::quit, (&old(self)@.window,), ()),
    {
        self.window.quit()
    }

    /// Another sending end of the event channel, for posting events from
    /// outside the dispatch loop: a clone of the application's own.
    pub fn sender(&self) -> (sender: Sender<SystrayEvent>)
        ensures
            cloned(self@.tx, sender),
    {
        clone_sender(&self.tx)
    }

    /// Routes one thing that came off the channel, where `None` stands for a
    /// channel that every sender has left.
    ///
    /// While the loop is running, a menu event whose identifier has a handler
    /// runs that handler once, on a clone of the application's sending end,
    /// before this function returns; a menu event for any other identifier does nothing;
    /// a quit request or a closed channel moves the loop to `Terminating`.
    /// Once the loop has left `Running`, nothing is routed any more.
    pub fn dispatch(&mut self, received: Option<SystrayEvent>) -> (next: LoopState)
        ensures
            final(self)@ == old(self)@.after_event(received),
            next == final(self)@.state,
            old(self)@.fires(received) matches Some(id) ==> has_run(
                old(self)@.handlers[id],
                old(self)@.tx,
            ),
    {
        proof {
            use_type_invariant(&*self);
        }
        match self.state {
            LoopState::Running => match received {
                Some(SystrayEvent::MenuEvent(id)) => {
                    if self.callback.contains(id) {
                        let tx = clone_sender(&self.tx);
                        self.callback.invoke(id, tx);
                        self.invoked = Ghost(self.invoked@.push(id));
                    }
                },
                _ => {
                    self.state = LoopState::Terminating;
                },
            },
            _ => {},
        }
        self.state
    }

    /// Waits for the next event and routes it as [`Application::dispatch`]
    /// does. Once the loop has left `Running` it returns at once, without
    /// waiting.
    pub fn dispatch_next(&mut self) -> (next: LoopState)
        ensures
            next == final(self)@.state,
            exists|received: Option<SystrayEvent>|
                {
                    &&& final(self)@ == old(self)@.after_event(received)
                    &&& old(self)@.fires(received) matches Some(id) ==> has_run(
                        old(self)@.handlers[id],
                        old(self)@.tx,
                    )
                },
    {
        match self.state {
            LoopState::Running => {
                let received = receive(&self.rx);
                self.dispatch(received)
            },
            _ => {
                assert(self@ == self@.after_event(None));
                self.state
            },
        }
    }

    /// Ends the dispatch loop: the window is told to quit its native loop
    /// and then to release its resources, unless it was told so before. A
    /// failed release is not reported, since nobody is left to act on it.
    /// On a stopped loop this does nothing.
    pub fn teardown(&mut self)
        ensures
            final(self)@ == old(self)@.after_teardown(),
            !(old(self)@.state is Stopped) ==> call_ensures(W::quit, (&old(self)@.window,), ()),
            !(old(self)@.state is Stopped) && !old(self)@.released ==> exists|
                r: Result<(), SystrayError>,
            | call_ensures(W::shutdown, (&old(self)@.window,), r),
    {
        proof {
            use_type_invariant(&*self);
        }
        match self.state {
            LoopState::Stopped => {},
            _ => {
                self.window.quit();
                let _unreported = self.shutdown();
                self.state = LoopState::Stopped;
            },
        }
    }

    /// Where the dispatch loop stands.
    pub fn state(&self) -> (state: LoopState)
        ensures
            state == self@.state,
    {
        self.state
    }

    /// The identifier that the next entry or separator will get.
    pub fn next_id(&self) -> (id: u32)
        ensures
            id == self@.next_id,
    {
        self.menu_idx
    }

    /// Whether a handler is bound to `id`.
    pub fn has_handler(&self, id: u32) -> (bound: bool)
        ensures
            bound == self@.handlers.contains_key(id),
    {
        self.callback.contains(id)
    }

    /// Whether the window has been told to release its resources.
    pub fn is_released(&self) -> (released: bool)
        ensures
            released == self@.released,
    {
        self.released
    }
}

} // verus!
