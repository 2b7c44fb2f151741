//! The one-way channel that carries frame descriptions from the capture side
//! to the viewer.

use std::sync::mpsc::{Receiver, Sender};
use vstd::prelude::*;

verus! {

/// `std::sync::mpsc::Receiver`, the receiving end of a channel. It is carried
/// as it is: nothing is known of what it holds.
#[verifier::external_type_specification]
#[verifier::external_body]
#[verifier::reject_recursive_types(T)]
pub struct ExReceiver<T>(Receiver<T>);

/// `std::sync::mpsc::Sender`, the sending end of a channel. It is carried as
/// it is: nothing is known of what it holds.
#[verifier::external_type_specification]
#[verifier::external_body]
#[verifier::reject_recursive_types(T)]
pub struct ExSender<T>(Sender<T>);

/// `std::sync::mpsc::channel`: a fresh unbounded channel. Nothing is claimed
/// of the two ends.
#[verifier::external_body]
pub(crate) fn open() -> (ends: (Sender<String>, Receiver<String>)) {
    std::sync::mpsc::channel()
}

/// `Receiver::try_recv` of std: the oldest description that is waiting, or
/// `None` when none is waiting or the sending side is gone. It never blocks.
/// What comes back depends on what the other side has sent so far, so nothing
/// is claimed of it.
#[verifier::external_body]
pub(crate) fn try_receive(rx: &Receiver<String>) -> (packet: Option<String>) {
    rx.try_recv().ok()
}

/// `Sender::send` of std: hands the description to the channel and returns
/// whether the receiving end was still there to take it. It never blocks.
/// Whether the receiver is still there is not up to the caller, so nothing is
/// claimed of the result.
#[verifier::external_body]
pub(crate) fn send(tx: &Sender<String>, text: String) -> (delivered: bool) {
    tx.send(text).is_ok()
}

} // verus!
