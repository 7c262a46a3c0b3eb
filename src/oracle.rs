use vstd::prelude::*;
use anchor_lang::AccountDeserialize;
use orao_solana_vrf::state::RandomnessAccountData;

verus! {

/// The 64 random bytes that the oracle's randomness account with raw data
/// `data` publishes, or `None` while the request is pending or when the data is
/// no randomness account.
pub uninterp spec fn fulfilled_randomness_of(data: Seq<u8>) -> Option<Seq<u8>>;

/// Relies on orao_solana_vrf's `RandomnessAccountData`: its `AccountDeserialize`
/// impl decodes a V1 or V2 randomness account from the raw bytes (by
/// discriminator), and `fulfilled_randomness` returns the 64 bytes once the
/// request is fulfilled. Both read the bytes alone.
#[verifier::external_body]
pub(crate) fn fulfilled_randomness(data: &[u8]) -> (r: Option<[u8; 64]>)
    ensures
        r is None <==> fulfilled_randomness_of(data@) is None,
        r matches Some(b) ==> fulfilled_randomness_of(data@) == Some(b@),
{
    let mut buf: &[u8] = data;
    match RandomnessAccountData::try_deserialize(&mut buf) {
        Ok(account) => account.fulfilled_randomness().copied(),
        Err(_) => None,
    }
}

} // verus!
