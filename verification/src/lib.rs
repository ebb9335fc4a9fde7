//! Verified core of a gossip networking context.
//!
//! The context of a ledger node owns one datagram endpoint, knows its own
//! address and the addresses of its peers, hands inbound events to an optional
//! service, spreads events to a bounded random subset of the peers and passes
//! locally minted blocks on to a processing pipeline.
//!
//! The library holds every decision of that context and proves it against a
//! contract. It performs no socket I/O itself: where the operating system has
//! to be asked (a transmission attempt, a readiness wait), the context is
//! given the outcome and answers with the next step to take.

pub mod addr;
pub mod channel;
pub mod context;
pub mod gossip;
pub mod payload;
pub mod readiness;
pub mod service;
pub mod transmit;

pub use addr::{Host, PeerAddr};
pub use channel::AnnounceError;
pub use context::Context;
pub use gossip::{Propagation, FANOUT};
pub use payload::{Block, Event};
pub use readiness::{Notification, Readiness, WaitStep, EVENT_CAPACITY, SOCKET_TOKEN, WAIT_TIMEOUT_MS};
pub use service::{NoService, Service, ServiceError};
pub use transmit::{SendOutcome, SendStep};
