//! The snapshot of the network that one invocation sees.
use vstd::prelude::*;

use fvm_shared::clock::ChainEpoch;
use fvm_shared::version::NetworkVersion;

use crate::host::{network_version_from, network_version_of};

verus! {

/// The network facts fixed when an invocation starts. Nothing changes them
/// afterwards: no operation takes the snapshot mutably.
#[derive(Clone, Copy, Debug, PartialEq, Eq, Structural)]
pub struct NetworkContext {
    /// The epoch that the chain has reached.
    pub network_curr_epoch: ChainEpoch,
    /// The protocol version, as the host numbers it.
    pub network_version: u32,
}

impl NetworkContext {
    pub fn new(network_curr_epoch: ChainEpoch, network_version: u32) -> (r: NetworkContext)
        ensures
            r.network_curr_epoch == network_curr_epoch,
            r.network_version == network_version,
    {
        NetworkContext { network_curr_epoch, network_version }
    }
}

/// The current epoch of the invocation.
pub fn curr_epoch(ctx: &NetworkContext) -> (r: ChainEpoch)
    ensures
        r == ctx.network_curr_epoch,
{
    ctx.network_curr_epoch
}

/// The protocol version of the invocation.
pub fn version(ctx: &NetworkContext) -> (r: NetworkVersion)
    ensures
        r == network_version_of(ctx.network_version),
{
    network_version_from(ctx.network_version)
}

/// Two reads of the current epoch from one snapshot give the same epoch.
pub proof fn lemma_curr_epoch_stable(ctx: NetworkContext, first: ChainEpoch, second: ChainEpoch)
    requires
        first == ctx.network_curr_epoch,
        second == ctx.network_curr_epoch,
    ensures
        first == second,
{
}

/// Two reads of the protocol version from one snapshot give the same version.
pub proof fn lemma_version_stable(ctx: NetworkContext, first: NetworkVersion, second: NetworkVersion)
    requires
        first == network_version_of(ctx.network_version),
        second == network_version_of(ctx.network_version),
    ensures
        first == second,
{
}

} // verus!
