//! The bounded queues between the radio worker and the session.
//!
//! Both are `tokio::sync::mpsc` channels, used only through calls that do
//! not wait for the other end. The other end of a queue runs on another
//! thread, so nothing is claimed here about what a queue holds at any
//! moment.

use vstd::prelude::*;

verus! {

/// The sending half of a bounded queue.
#[verifier::external_type_specification]
#[verifier::external_body]
#[verifier::reject_recursive_types(T)]
pub struct ExSender<T>(tokio::sync::mpsc::Sender<T>);

/// The receiving half of a bounded queue.
#[verifier::external_type_specification]
#[verifier::external_body]
#[verifier::reject_recursive_types(T)]
pub struct ExReceiver<T>(tokio::sync::mpsc::Receiver<T>);

/// Why a value was not put on a queue.
#[derive(Copy, Clone, Debug, PartialEq, Eq, Structural)]
pub enum SendFault {
    /// The queue holds as many values as it may.
    Full,
    /// The receiving half is gone.
    Closed,
}

/// `Sender::try_send`: puts `value` on the queue if there is room and the
/// receiving half is alive, and does not wait for room if there is none.
/// Which of the three outcomes comes depends on the other thread, so none
/// is promised.
#[verifier::external_body]
pub(crate) fn try_send<T>(tx: &tokio::sync::mpsc::Sender<T>, value: T) -> (sent: Result<
    (),
    SendFault,
>) {
    match tx.try_send(value) {
        Ok(()) => Ok(()),
        Err(tokio::sync::mpsc::error::TrySendError::Full(_)) => Err(SendFault::Full),
        Err(tokio::sync::mpsc::error::TrySendError::Closed(_)) => Err(SendFault::Closed),
    }
}

/// `Receiver::try_recv`: takes the oldest value off the queue if there is
/// one, and does not wait for one if there is none. Whether one is there
/// depends on the other thread, so nothing is promised of what comes.
#[verifier::external_body]
pub(crate) fn try_recv<T>(rx: &mut tokio::sync::mpsc::Receiver<T>) -> (got: Option<T>) {
    rx.try_recv().ok()
}

/// `Receiver::len`: the number of values on the queue at the moment of the
/// call. The other thread may add more right after, so nothing is promised
/// of the number.
#[verifier::external_body]
pub(crate) fn pending<T>(rx: &tokio::sync::mpsc::Receiver<T>) -> (count: usize) {
    rx.len()
}

} // verus!
