//! The platform's side of the tray.

use crate::error::SystrayError;
use crate::event::SystrayEvent;
use std::sync::mpsc::Sender;
use vstd::prelude::*;

verus! {

/// The tray object of one platform: what the core asks of it, and nothing
/// about how it is done.
///
/// An implementation owns the native event loop, on a thread of its own,
/// and posts every click as a [`SystrayEvent`] on the sender that `new`
/// receives; it never waits for the dispatch loop, and it posts a menu event
/// only for an identifier that it was given with `add_menu_entry`. Every
/// operation reports failure through its result: `OsError` with the
/// platform's diagnostic where a platform call failed, `NotImplementedError`
/// where the platform has no such capability.
///
/// None of the methods carries a postcondition, so what the core proves
/// holds for every window.
pub trait Window: Sized {
    /// Creates the tray icon and starts the native loop, which posts its
    /// events on `event_tx`.
    fn new(event_tx: Sender<SystrayEvent>) -> Result<Self, SystrayError>;

    /// Adds a clickable entry that will be reported as `MenuEvent(item_idx)`.
    fn add_menu_entry(&self, item_idx: u32, item_name: &String) -> Result<(), SystrayError>;

    /// Adds a divider that occupies the slot `item_idx` and is never reported.
    fn add_menu_separator(&self, item_idx: u32) -> Result<(), SystrayError>;

    /// Shows the icon stored in the file `file`.
    fn set_icon_from_file(&self, file: &String) -> Result<(), SystrayError>;

    /// Shows the icon that the program carries under the name `resource`.
    fn set_icon_from_resource(&self, resource: &String) -> Result<(), SystrayError>;

    /// Shows the icon encoded in `buffer`, drawn at `width` by `height`. A
    /// platform that cannot do this answers `NotImplementedError` and keeps
    /// the icon it shows.
    fn set_icon_from_buffer(&self, buffer: &[u8], width: u32, height: u32) -> Result<
        (),
        SystrayError,
    >;

    /// Sets the text shown when the pointer rests on the icon.
    fn set_tooltip(&self, tooltip: &String) -> Result<(), SystrayError>;

    /// Removes the icon and its menu and gives back what the platform lent.
    fn shutdown(&self) -> Result<(), SystrayError>;

    /// Ends the native loop, so that no further event is produced.
    fn quit(&self);
}

} // verus!
