//! Why the service refuses an operation.

use vstd::prelude::*;

verus! {

/// The ways in which an operation on the registry of rooms fails.
#[derive(Debug, Clone, Copy, PartialEq, Eq, Structural)]
pub enum ServiceError {
    /// A room with this path exists already.
    RoomAlreadyExists,
    /// No room has this path.
    RoomNotFound,
    /// The secret offered is not the room's.
    SecretMismatch,
}

} // verus!
