//! What this library takes from the Solana program SDK.
use crate::layout::growth_allowance;
use solana_program::pubkey::Pubkey;
use vstd::prelude::*;

verus! {

/// Relies on `solana_program::entrypoint::MAX_PERMITTED_DATA_INCREASE`, the
/// headroom that the runtime leaves after each account's data (`1_024 * 10`).
#[verifier::external_body]
pub(crate) fn max_permitted_data_increase() -> (r: usize)
    ensures
        r == growth_allowance(),
{
    solana_program::entrypoint::MAX_PERMITTED_DATA_INCREASE
}

/// Relies on `solana_program::entrypoint::SUCCESS`, the status code of a
/// successful invocation (`0`).
#[verifier::external_body]
pub(crate) fn success() -> (r: u64)
    ensures
        r == 0,
{
    solana_program::entrypoint::SUCCESS
}

/// Relies on the derived `PartialEq` of `Pubkey`, a newtype over `[u8; 32]`
/// built by `Pubkey::new_from_array`: two keys are equal exactly when their
/// bytes are.
#[verifier::external_body]
pub(crate) fn same_key(a: &[u8; 32], b: &[u8; 32]) -> (r: bool)
    ensures
        r == (a@ == b@),
{
    Pubkey::new_from_array(*a) == Pubkey::new_from_array(*b)
}

/// Relies on `solana_program::program_memory::sol_memcpy`, which copies the
/// first `n` bytes of `src` to the start of `dst`; here `dst` is `buf` from
/// `at` on and `n` is the length of `src`.
#[verifier::external_body]
pub(crate) fn copy_into(buf: &mut [u8], at: usize, src: &[u8])
    requires
        at + src@.len() <= old(buf)@.len(),
    ensures
        final(buf)@ == old(buf)@.subrange(0, at as int) + src@ + old(buf)@.subrange(
            at + src@.len(),
            old(buf)@.len() as int,
        ),
{
    solana_program::program_memory::sol_memcpy(&mut buf[at..], src, src.len())
}

} // verus!
