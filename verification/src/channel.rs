//! The event channel: the two endpoints of `std::sync::mpsc`, and the three
//! operations on them that the core performs.
//!
//! Nothing is known of what is inside an endpoint. What is known of a clone
//! is what holds of every `Clone`: it is what the type's own `clone` gives
//! for the original, written `cloned(original, copy)`.

use crate::event::SystrayEvent;
use std::sync::mpsc::{Receiver, Sender};
use vstd::prelude::*;

verus! {

/// The sending end of a channel, `std::sync::mpsc::Sender`. It is carried
/// around and handed to handlers; nothing is known of what is inside.
#[verifier::external_type_specification]
#[verifier::external_body]
#[verifier::reject_recursive_types(T)]
pub struct ExSender<T>(Sender<T>);

/// The receiving end of a channel, `std::sync::mpsc::Receiver`. Nothing is
/// known of what is inside.
#[verifier::external_type_specification]
#[verifier::external_body]
#[verifier::reject_recursive_types(T)]
pub struct ExReceiver<T>(Receiver<T>);

/// Opens a channel with `std::sync::mpsc::channel`. Nothing is claimed of
/// the two endpoints: they are opaque here.
#[verifier::external_body]
pub(crate) fn open_channel() -> (ends: (Sender<SystrayEvent>, Receiver<SystrayEvent>)) {
    std::sync::mpsc::channel()
}

/// A clone of `original`, made by the type's own `clone`.
fn duplicate<T: Clone>(original: &T) -> (copy: T)
    ensures
        cloned(*original, copy),
{
    original.clone()
}

/// Another sending end of the channel that `tx` feeds: a clone of `tx`.
pub(crate) fn clone_sender(tx: &Sender<SystrayEvent>) -> (copy: Sender<SystrayEvent>)
    ensures
        cloned(*tx, copy),
{
    duplicate(tx)
}

/// Blocks in `Receiver::recv` until an event arrives or every sender is
/// gone, and gives `None` in the second case. Which of the two happens, and
/// which event comes, is decided by the other threads: nothing is claimed.
#[verifier::external_body]
pub(crate) fn receive(rx: &Receiver<SystrayEvent>) -> (received: Option<SystrayEvent>) {
    match rx.recv() {
        Ok(event) => Some(event),
        Err(_) => None,
    }
}

} // verus!
