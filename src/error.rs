use vstd::prelude::*;

use fvm_shared::error::ErrorNumber;

verus! {

/// Why the CID of a tipset at some epoch cannot be had.
#[derive(Clone, Copy, Debug, PartialEq, Eq, Structural)]
pub enum EpochBoundsError {
    /// The epoch lies outside the chain's known range: in the future, or
    /// before genesis.
    Invalid,
    /// The epoch is valid but further back than the host's lookback window.
    ExceedsLookback,
}

} // verus!

verus! {

/// A reply of the host that breaks its contract. No caller can act on it:
/// the invocation is meant to abort.
#[derive(Clone, Copy, Debug, PartialEq, Eq)]
pub enum HostFault {
    /// The transport failed with a signal that the operation does not
    /// translate.
    Signal(ErrorNumber),
    /// The transport reported success with a length of zero, or with more
    /// bytes than the buffer holds.
    Length(u32),
    /// The bytes that the transport wrote are not a CID.
    MalformedCid,
}

} // verus!
