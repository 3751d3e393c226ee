//! Trusted surface over `std::sync::mpsc`, the channel primitive the
//! service is built on.  The channel types are declared opaque, and the
//! few calls the service makes are declared with the little that can be
//! promised of a shared channel: nothing is stated about the values that
//! arrive, so every caller must handle any value the other side may have
//! sent.

use vstd::prelude::*;
use std::sync::mpsc::Receiver;
use std::sync::mpsc::RecvError;
use std::sync::mpsc::SendError;
use std::sync::mpsc::Sender;
use std::sync::mpsc::SyncSender;

verus! {

/// Relies on `std::sync::mpsc::Sender`, the sending half of an unbounded
/// channel; carried inside a command as the reply channel.
#[verifier::external_type_specification]
#[verifier::external_body]
#[verifier::reject_recursive_types(T)]
pub struct ExSender<T>(Sender<T>);

/// Relies on `std::sync::mpsc::SyncSender`, the sending half of a bounded
/// channel; sending blocks while the channel is full.
#[verifier::external_type_specification]
#[verifier::external_body]
#[verifier::reject_recursive_types(T)]
pub struct ExSyncSender<T>(SyncSender<T>);

/// Relies on `std::sync::mpsc::Receiver`, the receiving half of a channel.
#[verifier::external_type_specification]
#[verifier::external_body]
#[verifier::reject_recursive_types(T)]
pub struct ExReceiver<T>(Receiver<T>);

/// Relies on `std::sync::mpsc::SendError`, the error a send returns when
/// the receiving half has disconnected; it carries the unsent value back.
#[verifier::external_type_specification]
#[verifier::external_body]
#[verifier::reject_recursive_types(T)]
pub struct ExSendError<T>(SendError<T>);

/// Relies on `std::sync::mpsc::RecvError`, the error a receive returns
/// when every sending half has disconnected.
#[verifier::external_type_specification]
#[verifier::external_body]
pub struct ExRecvError(RecvError);

/// Relies on `std::sync::mpsc::channel`: creates an unbounded channel.
/// The service uses one per request as its one-shot reply channel.
pub assume_specification<T>[ std::sync::mpsc::channel::<T> ]() -> (r: (Sender<T>, Receiver<T>));

/// Relies on `SyncSender::send`: blocks while the channel is full, and
/// fails exactly when the receiving half has disconnected.
pub assume_specification<T>[ SyncSender::<T>::send ](s: &SyncSender<T>, t: T) -> (r: Result<
    (),
    SendError<T>,
>);

/// Relies on `Sender::send`: fails exactly when the receiving half has
/// disconnected.
pub assume_specification<T>[ Sender::<T>::send ](s: &Sender<T>, t: T) -> (r: Result<
    (),
    SendError<T>,
>);

/// Relies on `Receiver::recv`: blocks for the next value, and fails
/// exactly when every sending half has disconnected and the channel is
/// drained.  The value received is whatever some sender put in: nothing
/// more can be assumed of it.
pub assume_specification<T>[ Receiver::<T>::recv ](r: &Receiver<T>) -> (res: Result<
    T,
    RecvError,
>);

/// Relies on `SyncSender`'s `Clone`: a clone is another sending half of
/// the same channel.
pub assume_specification<T>[ <SyncSender<T> as Clone>::clone ](s: &SyncSender<T>) -> (r: SyncSender<
    T,
>);

} // verus!
