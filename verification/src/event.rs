//! The events that travel over the channel, and the states of the loop that
//! consumes them.

use vstd::prelude::*;

verus! {

/// What the platform loop, a handler or the application itself can post.
pub enum SystrayEvent {
    /// The menu entry with this identifier was activated.
    MenuEvent(u32),
    /// The dispatch loop shall end and the tray be torn down.
    Quit,
}

/// Where the dispatch loop stands. It only ever moves forward: from
/// `Running` to `Terminating` to `Stopped`.
#[derive(Clone, Copy, PartialEq, Eq, Debug, Structural)]
pub enum LoopState {
    /// Events are received and routed.
    Running,
    /// A quit request arrived, or every sender is gone; no further event is routed.
    Terminating,
    /// The window was told to quit and to release its resources.
    Stopped,
}

} // verus!
