//! Why a relay attempt failed.
use vstd::prelude::*;

verus! {

/// The ways a relay attempt can end without a result.
#[derive(Clone, Copy, Debug, PartialEq, Eq, Structural)]
pub enum ProxyError {
    /// The remote descriptor could not be turned into a socket address.
    Resolution,
    /// Binding the outbound socket to the send-through address failed.
    Bind,
    /// The outbound connect failed, or could not succeed (address families
    /// that do not match).
    Connect,
    /// Resolution and connect together took longer than the configured timeout.
    Timeout,
    /// A read, write or shutdown failed after both streams were established.
    Transfer,
}

} // verus!
