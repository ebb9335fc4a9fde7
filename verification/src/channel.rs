//! The hand-off of blocks to the processing pipeline.
//!
//! Blocks leave the context through the sending half of a channel of the
//! standard library, kept behind a lock. Verus reads neither the lock nor the
//! channel: what this module says of them is taken on trust from their
//! documentation.

use crate::payload::Block;
use std::sync::mpsc::Sender;
use std::sync::{Mutex, MutexGuard};
use vstd::prelude::*;

verus! {

/// `std::sync::mpsc::Sender`, carried as an opaque value.
#[verifier::external_type_specification]
#[verifier::external_body]
#[verifier::reject_recursive_types(T)]
pub struct ExSender<T>(Sender<T>);

/// `std::sync::Mutex`, carried as an opaque value.
#[verifier::external_type_specification]
#[verifier::external_body]
#[verifier::reject_recursive_types(T)]
pub struct ExMutex<T: ?Sized>(Mutex<T>);

/// `std::sync::MutexGuard`, carried as an opaque value.
#[verifier::external_type_specification]
#[verifier::external_body]
#[verifier::reject_recursive_types(T)]
pub struct ExMutexGuard<'a, T: ?Sized + 'a>(MutexGuard<'a, T>);

/// Why a block did not reach the pipeline.
#[derive(Debug, PartialEq, Eq)]
pub enum AnnounceError {
    /// A thread panicked while it held the lock of the sending half.
    Poisoned,
    /// The receiving half is gone; the block comes back.
    Disconnected(Block),
}

/// `Mutex::new`: a lock around the sending half. Nothing is claimed of it.
#[verifier::external_body]
pub(crate) fn guard_sender(tx: Sender<Block>) -> (guarded: Mutex<Sender<Block>>) {
    Mutex::new(tx)
}

/// `Mutex::lock`: waits for the lock. `None` stands for a poisoned lock, the
/// one error that `lock` reports. Nothing is claimed of which of the two comes.
#[verifier::external_body]
pub(crate) fn lock_sender<'a>(guarded: &'a Mutex<Sender<Block>>) -> (held: Option<
    MutexGuard<'a, Sender<Block>>,
>) {
    guarded.lock().ok()
}

/// `Sender::send`: queues the block for the receiver. The channel is unbounded,
/// so the call does not wait. When the receiver is gone, `send` fails and
/// hands back the very value it was given; that much is claimed here.
#[verifier::external_body]
pub(crate) fn send_block(held: &MutexGuard<'_, Sender<Block>>, block: Block) -> (r: Result<
    (),
    Block,
>)
    ensures
        r matches Err(back) ==> back == block,
{
    held.send(block).map_err(|e| e.0)
}

/// What announcing yields for each way the lock and the channel can answer:
/// `sent` is `None` when the lock was poisoned, else the answer of the channel.
pub open spec fn announce_result(sent: Option<Result<(), Block>>) -> Result<(), AnnounceError> {
    match sent {
        None => Err(AnnounceError::Poisoned),
        Some(Ok(())) => Ok(()),
        Some(Err(back)) => Err(AnnounceError::Disconnected(back)),
    }
}

/// Turns the answers of the lock and the channel into the result of an
/// announcement.
pub fn conclude_announce(sent: Option<Result<(), Block>>) -> (r: Result<(), AnnounceError>)
    ensures
        r == announce_result(sent),
{
    match sent {
        None => Err(AnnounceError::Poisoned),
        Some(Ok(())) => Ok(()),
        Some(Err(back)) => Err(AnnounceError::Disconnected(back)),
    }
}

} // verus!
