//! Signals to the owner of a session.
use vstd::prelude::*;

verus! {

/// A failure that the owner of a session may want to react to.
#[derive(Debug)]
pub enum RecoverySignal {
    /// The protocol upgrade failed for good.
    UpgradeFailed { status: Option<u16>, message: String },
    /// The server closed the session.
    ServerClose,
}

} // verus!
