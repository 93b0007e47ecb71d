//! The items of `cid` and `fvm_shared` that the library relies on, with the
//! contracts that their sources show.
use vstd::prelude::*;

use cid::Cid;
use fvm_shared::econ::TokenAmount;
use fvm_shared::error::ErrorNumber;
use fvm_shared::version::NetworkVersion;

verus! {

/// The failure signal of a syscall. Its variants carry no data, so Verus
/// reads them from the type itself.
#[verifier::external_type_specification]
pub struct ExErrorNumber(ErrorNumber);

/// A content identifier, carried through unopened.
#[verifier::external_type_specification]
#[verifier::external_body]
pub struct ExCidGeneric<const S: usize>(cid::CidGeneric<S>);

/// A protocol version, carried through unopened.
#[verifier::external_type_specification]
#[verifier::external_body]
pub struct ExNetworkVersion(NetworkVersion);

/// An amount of attoFIL of any size, carried through unopened.
#[verifier::external_type_specification]
#[verifier::external_body]
pub struct ExTokenAmount(TokenAmount);

/// The amount as a syscall hands it over: the low and the high 64 bits of a
/// 128-bit count of attoFIL.
#[verifier::external_type_specification]
pub struct ExSysTokenAmount(fvm_shared::sys::TokenAmount);

/// The largest number of bytes that an encoded CID may take.
pub open spec fn max_cid_len() -> nat {
    100
}

/// The number of attoFIL that a syscall amount stands for.
pub open spec fn atto_of(v: fvm_shared::sys::TokenAmount) -> int {
    v.hi as int * 0x1_0000_0000_0000_0000 + v.lo as int
}

/// What `Cid::read_bytes` makes of a byte string: a CID, or nothing where
/// the bytes do not start with a well-formed one.
pub uninterp spec fn cid_from_bytes(b: Seq<u8>) -> Option<Cid>;

/// The network version that `NetworkVersion::from` makes of a number.
pub uninterp spec fn network_version_of(v: u32) -> NetworkVersion;

/// The token amount of a number of attoFIL, as the conversion from the
/// syscall amount builds it.
pub uninterp spec fn token_amount_of(atto: int) -> TokenAmount;

/// Relies on fvm_shared::MAX_CID_LEN, which is 100.
#[verifier::external_body]
pub(crate) fn cid_capacity() -> (r: usize)
    ensures
        r == max_cid_len(),
{
    fvm_shared::MAX_CID_LEN
}

/// Relies on cid's Cid::read_bytes reading a CID from the front of a slice;
/// what it reads depends on the bytes alone, and its error is dropped.
#[verifier::external_body]
pub(crate) fn read_cid(b: &[u8]) -> (r: Option<Cid>)
    ensures
        r == cid_from_bytes(b@),
{
    Cid::read_bytes(b).ok()
}

/// Relies on fvm_shared's `From<u32> for NetworkVersion`, which wraps the
/// number and never fails.
#[verifier::external_body]
pub(crate) fn network_version_from(v: u32) -> (r: NetworkVersion)
    ensures
        r == network_version_of(v),
{
    NetworkVersion::from(v)
}

/// Relies on fvm_shared's `From<sys::TokenAmount> for econ::TokenAmount`,
/// which builds the amount from `(hi << 64) | lo` attoFIL.
#[verifier::external_body]
pub(crate) fn token_amount_from(v: fvm_shared::sys::TokenAmount) -> (r: TokenAmount)
    ensures
        r == token_amount_of(atto_of(v)),
{
    TokenAmount::from(v)
}

} // verus!
