//! The service that inbound events and requests are handed to.

use crate::addr::PeerAddr;
use crate::context::Context;
use crate::payload::Event;
use vstd::prelude::*;

verus! {

/// The failure that a service reports.
#[derive(Clone, Debug, PartialEq, Eq)]
pub struct ServiceError {
    pub message: String,
}

/// What a node does with the events and requests that reach it.
///
/// A service is given the context it is registered with, so that it can gossip
/// an event on or announce a block in turn. The context promises nothing of
/// what a service returns, and a service need promise nothing either.
pub trait Service<T>: Sized {
    /// Handles an event that came from `from`.
    fn process_event(&self, ctx: &Context<T, Self>, evt: &Event, from: &PeerAddr) -> Result<
        (),
        ServiceError,
    >;

    /// Handles the raw bytes of a request.
    fn process_request(&self, ctx: &Context<T, Self>, data: Vec<u8>) -> Result<(), ServiceError>;
}

/// The service that does nothing: it accepts every event and every request.
#[derive(Clone, Copy, Debug, PartialEq, Eq, Structural)]
pub struct NoService;

impl<T> Service<T> for NoService {
    fn process_event(&self, ctx: &Context<T, Self>, evt: &Event, from: &PeerAddr) -> (r: Result<
        (),
        ServiceError,
    >)
        ensures
            r is Ok,
    {
        Ok(())
    }

    fn process_request(&self, ctx: &Context<T, Self>, data: Vec<u8>) -> (r: Result<
        (),
        ServiceError,
    >)
        ensures
            r is Ok,
    {
        Ok(())
    }
}

/// What a dispatch reports: success where no service was there to ask, else
/// the answer of the service as it stands.
pub open spec fn dispatch_result(answer: Option<Result<(), ServiceError>>) -> Result<
    (),
    ServiceError,
> {
    match answer {
        None => Ok(()),
        Some(r) => r,
    }
}

/// Turns the answer of the service, `None` where none is registered, into the
/// result of a dispatch: a failure passes through unchanged.
pub fn conclude_dispatch(answer: Option<Result<(), ServiceError>>) -> (r: Result<
    (),
    ServiceError,
>)
    ensures
        r == dispatch_result(answer),
{
    match answer {
        None => Ok(()),
        Some(r) => r,
    }
}

} // verus!
