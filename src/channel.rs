//! The two ends of the in-process message queues that connect a session
//! to the tasks that move its bytes over the peer transport.
use vstd::prelude::*;
use std::sync::mpsc::{Receiver, Sender};

verus! {

/// std's `mpsc::Sender`, carried as an opaque value: the sending end of a
/// session's outgoing queue.
#[verifier::external_type_specification]
#[verifier::external_body]
#[verifier::reject_recursive_types(T)]
pub struct ExSender<T>(Sender<T>);

/// std's `mpsc::Receiver`, carried as an opaque value: the receiving end of
/// a session's incoming queue.
#[verifier::external_type_specification]
#[verifier::external_body]
#[verifier::reject_recursive_types(T)]
pub struct ExReceiver<T>(Receiver<T>);

/// Relies on std's `mpsc::Sender::send`: it queues the value, or fails once
/// the receiving end is gone. Nothing is promised of the outcome.
#[verifier::external_body]
pub(crate) fn send_message<T>(tx: &Sender<T>, msg: T) -> (r: bool) {
    tx.send(msg).is_ok()
}

/// Relies on std's `mpsc::Receiver::recv`: it blocks until a value arrives
/// and yields it, or fails once every sender is gone and nothing is left.
/// Nothing is promised of the outcome.
#[verifier::external_body]
pub(crate) fn recv_message<T>(rx: &Receiver<T>) -> (r: Option<T>) {
    rx.recv().ok()
}

} // verus!
