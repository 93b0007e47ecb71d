//! The operations that go through the host transport: the scalar facts it
//! serves, and the resolution of a past tipset's CID.
//!
//! The transport call itself stands outside: each operation takes what the
//! transport replied and returns what that reply means for the caller.
use vstd::prelude::*;
use vstd::slice::slice_subrange;

use cid::Cid;
use fvm_shared::clock::ChainEpoch;
use fvm_shared::econ::TokenAmount;
use fvm_shared::error::ErrorNumber;
use fvm_shared::sys;

use crate::error::{EpochBoundsError, HostFault};
use crate::host::{
    atto_of, cid_capacity, cid_from_bytes, max_cid_len, read_cid, token_amount_from,
    token_amount_of,
};

verus! {

/// What an amount reply of the transport means: the amount, or a fault,
/// since the host is bound to serve amounts.
pub open spec fn amount_outcome(reply: Result<sys::TokenAmount, ErrorNumber>) -> Result<TokenAmount, HostFault> {
    match reply {
        Ok(v) => Ok(token_amount_of(atto_of(v))),
        Err(e) => Err(HostFault::Signal(e)),
    }
}

/// The base fee of the current tipset, from the transport's reply.
pub fn base_fee(reply: Result<sys::TokenAmount, ErrorNumber>) -> (r: Result<TokenAmount, HostFault>)
    ensures
        r == amount_outcome(reply),
{
    match reply {
        Ok(v) => Ok(token_amount_from(v)),
        Err(e) => Err(HostFault::Signal(e)),
    }
}

/// The circulating supply of FIL, from the transport's reply.
pub fn total_fil_circ_supply(reply: Result<sys::TokenAmount, ErrorNumber>) -> (r: Result<TokenAmount, HostFault>)
    ensures
        r == amount_outcome(reply),
{
    match reply {
        Ok(v) => Ok(token_amount_from(v)),
        Err(e) => Err(HostFault::Signal(e)),
    }
}

/// The current block time in seconds since the Unix epoch, from the
/// transport's reply.
pub fn tipset_timestamp(reply: Result<u64, ErrorNumber>) -> (r: Result<u64, HostFault>)
    ensures
        r == (match reply {
            Ok(t) => Ok(t),
            Err(e) => Err(HostFault::Signal(e)),
        }),
{
    match reply {
        Ok(t) => Ok(t),
        Err(e) => Err(HostFault::Signal(e)),
    }
}

/// What the resolver hands the transport: the epoch asked for, a zeroed
/// buffer for the CID, and the buffer's capacity.
pub struct TipsetCidQuery {
    pub epoch: ChainEpoch,
    pub buf: Vec<u8>,
    pub capacity: u32,
}

/// The query for the tipset CID at `epoch`, with a buffer of exactly the
/// largest CID length.
pub fn tipset_cid_query(epoch: ChainEpoch) -> (q: TipsetCidQuery)
    ensures
        q.epoch == epoch,
        q.capacity == max_cid_len(),
        q.buf@ == Seq::new(max_cid_len(), |_i: int| 0u8),
{
    let cap = cid_capacity();
    let mut buf: Vec<u8> = Vec::new();
    while buf.len() < cap
        invariant
            cap == max_cid_len(),
            buf@.len() <= cap,
            forall|i: int| 0 <= i < buf@.len() ==> buf@[i] == 0u8,
        decreases cap - buf@.len(),
    {
        buf.push(0u8);
    }
    assert(buf@ =~= Seq::new(max_cid_len(), |_i: int| 0u8));
    TipsetCidQuery { epoch, buf, capacity: cap as u32 }
}

/// What a reply of the transport to a tipset CID query means, `buf` being
/// the buffer after the call.
///
/// A length within the buffer, other than zero, gives the CID read from
/// that many leading bytes. The signal for an argument out of its domain
/// means an epoch out of the chain's range; the signal for an exceeded limit
/// means an epoch beyond the lookback window. Any other reply is a fault.
pub open spec fn tipset_cid_outcome(reply: Result<u32, ErrorNumber>, buf: Seq<u8>) -> Result<Result<Cid, EpochBoundsError>, HostFault> {
    match reply {
        Ok(len) => {
            if 0 < len && len <= buf.len() {
                match cid_from_bytes(buf.subrange(0, len as int)) {
                    Some(c) => Ok(Ok(c)),
                    None => Err(HostFault::MalformedCid),
                }
            } else {
                Err(HostFault::Length(len))
            }
        },
        Err(ErrorNumber::IllegalArgument) => Ok(Err(EpochBoundsError::Invalid)),
        Err(ErrorNumber::LimitExceeded) => Ok(Err(EpochBoundsError::ExceedsLookback)),
        Err(e) => Err(HostFault::Signal(e)),
    }
}

/// The tipset CID that the transport resolved, or why it could not: from
/// the transport's reply and the buffer it wrote into.
pub fn tipset_cid(reply: Result<u32, ErrorNumber>, buf: &[u8]) -> (r: Result<Result<Cid, EpochBoundsError>, HostFault>)
    ensures
        r == tipset_cid_outcome(reply, buf@),
{
    match reply {
        Ok(len) => {
            if 0 < len && (len as usize) <= buf.len() {
                let bytes = slice_subrange(buf, 0, len as usize);
                match read_cid(bytes) {
                    Some(c) => Ok(Ok(c)),
                    None => Err(HostFault::MalformedCid),
                }
            } else {
                Err(HostFault::Length(len))
            }
        },
        Err(ErrorNumber::IllegalArgument) => Ok(Err(EpochBoundsError::Invalid)),
        Err(ErrorNumber::LimitExceeded) => Ok(Err(EpochBoundsError::ExceedsLookback)),
        Err(e) => Err(HostFault::Signal(e)),
    }
}

/// The host's contract for a tipset CID query: what it may reply, and write
/// into `buf`, when asked for `epoch` while the chain stands at `curr` and
/// serves `lookback` epochs back. The window is the host's own; the resolver
/// never reads it.
///
/// An epoch in the future gets the signal for an argument out of its domain;
/// one further back than the window gets the signal for an exceeded limit;
/// one within the window gets a length within the buffer, other than zero,
/// whose leading bytes are a CID.
pub open spec fn host_answers(
    curr: int,
    lookback: nat,
    epoch: int,
    reply: Result<u32, ErrorNumber>,
    buf: Seq<u8>,
) -> bool {
    if epoch > curr {
        reply == Err::<u32, ErrorNumber>(ErrorNumber::IllegalArgument)
    } else if epoch < curr - lookback {
        reply == Err::<u32, ErrorNumber>(ErrorNumber::LimitExceeded)
    } else {
        &&& reply is Ok
        &&& 0 < reply->Ok_0 <= buf.len()
        &&& cid_from_bytes(buf.subrange(0, reply->Ok_0 as int)) is Some
    }
}

/// Within the lookback window, resolution succeeds, with the CID read from
/// the bytes that the host wrote, which are no more than the largest CID
/// length.
pub proof fn lemma_within_window_resolves(
    curr: int,
    lookback: nat,
    epoch: int,
    reply: Result<u32, ErrorNumber>,
    buf: Seq<u8>,
)
    requires
        curr - lookback <= epoch <= curr,
        buf.len() == max_cid_len(),
        host_answers(curr, lookback, epoch, reply, buf),
    ensures
        reply is Ok,
        0 < reply->Ok_0 <= max_cid_len(),
        tipset_cid_outcome(reply, buf) == Ok::<Result<Cid, EpochBoundsError>, HostFault>(
            Ok(cid_from_bytes(buf.subrange(0, reply->Ok_0 as int))->Some_0),
        ),
{
}

/// An epoch in the future resolves to `Invalid`.
pub proof fn lemma_future_epoch_invalid(
    curr: int,
    lookback: nat,
    epoch: int,
    reply: Result<u32, ErrorNumber>,
    buf: Seq<u8>,
)
    requires
        epoch > curr,
        host_answers(curr, lookback, epoch, reply, buf),
    ensures
        tipset_cid_outcome(reply, buf) == Ok::<Result<Cid, EpochBoundsError>, HostFault>(
            Err(EpochBoundsError::Invalid),
        ),
{
}

/// An epoch further back than the lookback window resolves to
/// `ExceedsLookback`.
pub proof fn lemma_old_epoch_exceeds_lookback(
    curr: int,
    lookback: nat,
    epoch: int,
    reply: Result<u32, ErrorNumber>,
    buf: Seq<u8>,
)
    requires
        epoch < curr - lookback,
        host_answers(curr, lookback, epoch, reply, buf),
    ensures
        tipset_cid_outcome(reply, buf) == Ok::<Result<Cid, EpochBoundsError>, HostFault>(
            Err(EpochBoundsError::ExceedsLookback),
        ),
{
}

/// Resolving the same epoch twice gives the same result, CID for CID,
/// wherever the host replies alike and writes the same leading bytes: the
/// result depends on nothing else, not on the rest of the buffer.
pub proof fn lemma_resolution_repeatable(reply: Result<u32, ErrorNumber>, first: Seq<u8>, second: Seq<u8>)
    requires
        first.len() == second.len(),
        reply is Ok && reply->Ok_0 <= first.len() ==> first.subrange(0, reply->Ok_0 as int)
            == second.subrange(0, reply->Ok_0 as int),
    ensures
        tipset_cid_outcome(reply, first) == tipset_cid_outcome(reply, second),
{
}

} // verus!
