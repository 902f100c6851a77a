//! The lifecycle of an output session.

use vstd::prelude::*;

verus! {

/// Lifecycle state of an output session, as the host reports it.
#[derive(Clone, Copy, Debug, PartialEq, Eq, Structural)]
pub enum SessionState {
    /// The session exists but accepts no samples.
    Suspended,
    /// The session is playing.
    Running,
    /// The session was closed by its owner and cannot be used again.
    Closed,
}

} // verus!
