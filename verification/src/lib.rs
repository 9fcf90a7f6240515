//! A minimal persistent access-control primitive: it tracks which identity
//! controls a protected resource (the owner) and governs how that control may
//! be transferred, either in one step or through a propose-then-claim
//! handshake. The registry logic, its authorization rules and its failure
//! semantics are verified; the host bindings (argument decoding, durable
//! key/value storage, entry-point registration) live outside this crate and
//! hand it plain values.

pub mod caller;
pub mod error;
pub mod identity;
pub mod laws;
pub mod registry;

pub use caller::{resolve_caller, CallStackEntry};
pub use error::Error;
pub use identity::{Caller, Identity};
pub use registry::{OwnershipRegistry, OwnershipView};
