//! A safe binding layer over a native inference engine: request building,
//! asynchronous inference dispatch, and the response-allocation bridge.
//!
//! The engine itself is an external collaborator reached through callbacks;
//! this crate holds the request lifecycle, the buffer/ownership model and the
//! bridge state machines, each with its contract.

pub mod allocator;
pub mod error;
pub mod memory;
pub mod message;
pub mod metrics;
pub mod options;
pub mod parameter;
pub mod request;
pub mod response;
pub mod sample;
pub mod server;
pub mod trace;

pub use crate::error::{Error, ErrorCode};
pub use crate::memory::{Buffer, MemoryType};
pub use crate::request::{Allocator, Request};
pub use crate::response::Response;

