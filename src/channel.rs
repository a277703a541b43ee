//! The job queue: the producer and consumer sides of an unbounded
//! multi-consumer channel from the `crossbeam` crate.
//!
//! Everything the queue does across threads (buffering, waking a waiting
//! consumer, handing each message to exactly one receiver) is the channel's
//! own behaviour. This module declares the channel's types to the verifier
//! and lifts its results into values of the library.

use vstd::prelude::*;

use crossbeam::channel::{Receiver, RecvError, SendError, Sender};
use std::sync::Mutex;

verus! {

/// The producer side of a channel.
#[verifier::external_type_specification]
#[verifier::external_body]
#[verifier::reject_recursive_types(T)]
pub struct ExSender<T>(Sender<T>);

/// The consumer side of a channel.
#[verifier::external_type_specification]
#[verifier::external_body]
#[verifier::reject_recursive_types(T)]
pub struct ExReceiver<T>(Receiver<T>);

/// The error of a send into a channel whose receivers are all gone.
#[verifier::external_type_specification]
#[verifier::external_body]
#[verifier::reject_recursive_types(T)]
pub struct ExSendError<T>(SendError<T>);

/// The error of a receive on a channel that is empty and disconnected.
#[verifier::external_type_specification]
#[verifier::external_body]
pub struct ExRecvError(RecvError);

/// The lock that serialises access to the shared consumer side.
#[verifier::external_type_specification]
#[verifier::external_body]
#[verifier::reject_recursive_types(T)]
pub struct ExMutex<T: ?Sized>(Mutex<T>);

/// Relies on crossbeam's `unbounded`: a fresh channel with an unbounded
/// buffer. It never fails and never blocks.
pub assume_specification<T>[ crossbeam::channel::unbounded::<T> ]() -> (Sender<T>, Receiver<T>);

/// Relies on crossbeam's `Sender::send`: on an unbounded channel it does not
/// block, and fails only when every receiver has been dropped.
pub assume_specification<T>[ Sender::<T>::send ](s: &Sender<T>, msg: T) -> Result<(), SendError<T>>;

/// Relies on crossbeam's `Receiver::recv`: blocks until a message arrives,
/// and fails only once the channel is empty and every sender is gone.
pub assume_specification<T>[ Receiver::<T>::recv ](r: &Receiver<T>) -> Result<T, RecvError>;

/// Relies on std's `Mutex::new`: a new, unlocked mutex around the value.
pub assume_specification<T>[ Mutex::<T>::new ](t: T) -> Mutex<T>;

/// The consumer side as the workers share it: one receiver behind a lock,
/// reference counted so that every worker holds the same one.
pub type SharedReceiver<J> = std::sync::Arc<Mutex<Receiver<J>>>;

/// What a worker gets from the queue.
pub enum Taken<J> {
    /// The next job.
    Job(J),
    /// The queue is closed and drained: no job will ever come.
    Closed,
}

/// Takes the next job from the consumer side, blocking until there is one;
/// returns `Closed` once the queue is closed and drained.
pub fn take<J>(rx: &Receiver<J>) -> (r: Taken<J>) {
    match rx.recv() {
        Ok(job) => Taken::Job(job),
        Err(_) => Taken::Closed,
    }
}

} // verus!
