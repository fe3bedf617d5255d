use vstd::prelude::*;

verus! {

#[verifier::external_type_specification]
#[verifier::external_body]
#[verifier::reject_recursive_types(T)]
pub struct ExReceiver<T>(crossbeam_channel::Receiver<T>);

#[verifier::external_type_specification]
#[verifier::external_body]
#[verifier::reject_recursive_types(T)]
pub struct ExSender<T>(crossbeam_channel::Sender<T>);

/// What a non-blocking receive observed.
pub enum Poll<T> {
    /// A message was waiting and has been taken.
    Message(T),
    /// Nothing was waiting and some sender is still alive.
    Empty,
    /// Nothing was waiting and every sender has been dropped.
    Disconnected,
}

/// Relies on crossbeam_channel::Receiver::try_recv: it never blocks. What it
/// finds depends on the other threads, so nothing is promised of it.
#[verifier::external_body]
pub(crate) fn try_receive<T>(rx: &crossbeam_channel::Receiver<T>) -> (r: Poll<T>) {
    match rx.try_recv() {
        Ok(m) => Poll::Message(m),
        Err(crossbeam_channel::TryRecvError::Empty) => Poll::Empty,
        Err(crossbeam_channel::TryRecvError::Disconnected) => Poll::Disconnected,
    }
}

/// Relies on crossbeam_channel::Receiver::len: the number of messages waiting
/// at the moment of the call, which other threads may change at any time.
#[verifier::external_body]
pub(crate) fn pending_count<T>(rx: &crossbeam_channel::Receiver<T>) -> (r: usize) {
    rx.len()
}

/// Relies on crossbeam_channel::Sender::try_send: it never blocks, and on an
/// unbounded channel it fails only when every receiver is gone.
#[verifier::external_body]
pub(crate) fn send_message<T>(tx: &crossbeam_channel::Sender<T>, m: T) -> (r: bool) {
    tx.try_send(m).is_ok()
}

/// Relies on crossbeam_channel::Sender::clone: another endpoint of the same channel.
#[verifier::external_body]
pub(crate) fn clone_sender<T>(tx: &crossbeam_channel::Sender<T>) -> (r: crossbeam_channel::Sender<T>) {
    tx.clone()
}

/// Relies on crossbeam_channel::unbounded: a fresh, empty channel.
#[verifier::external_body]
pub(crate) fn new_channel<T>() -> (r: (crossbeam_channel::Sender<T>, crossbeam_channel::Receiver<T>)) {
    crossbeam_channel::unbounded()
}

} // verus!
