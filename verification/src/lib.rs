//! A typed binding to the auction module of an Injective chain.
//!
//! The binding owns no chain logic. It pairs each operation of the module with
//! the route identifier of its remote handler and with the types of its
//! request and response, and hands request payloads to a transport, which
//! signs, executes and answers. What the transport answers is given to the
//! caller as it is.

pub mod auction;
pub mod messages;
pub mod route;
pub mod transport;

pub use auction::Auction;
pub use messages::Declared;
pub use route::{Capability, Operation};
pub use transport::{surface, Answers, Executed};
