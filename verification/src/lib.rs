//! The dispatch core of a system-tray icon: menu entries get consecutive
//! identifiers, each clickable entry is bound to a handler, and events that
//! arrive over a channel are routed to the handler registered for them until
//! the loop is told to stop.
//!
//! The tray object of the operating system is reached only through the
//! [`Window`] trait, so the core never branches on the platform.
//!
//! - [`application`]: the [`Application`] and its operations.
//! - [`registry`]: the handlers, behind reader-writer locks.
//! - [`model`]: the state that the contracts speak of.
//! - [`theorems`]: what the model implies of whole runs.
//! - [`window`], [`channel`], [`event`], [`error`]: the platform's side, the
//!   event channel, and the values that cross them.

pub mod application;
pub mod channel;
pub mod error;
pub mod event;
pub mod model;
pub mod registry;
pub mod theorems;
pub mod window;

pub use application::Application;
pub use error::SystrayError;
pub use event::{LoopState, SystrayEvent};
pub use model::{Closing, Entry, Snapshot};
pub use registry::{callable, has_run, CallbackRegistry};
pub use window::Window;
