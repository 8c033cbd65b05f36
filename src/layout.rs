//! The wire format of the input buffer, as spec functions over its bytes.
use vstd::bytes::spec_u64_from_le_bytes;
use vstd::prelude::*;

verus! {

/// Width in bytes of a public key (`Pubkey`).
pub const KEY_LEN: usize = 32;

/// Width in bytes of the persisted counter.
pub const COUNTER_LEN: usize = 8;

/// Boundary to which the cursor is re-aligned before the rent epoch.
pub const FIELD_ALIGN: usize = 16;

/// Extra writable headroom that the host leaves after an account's data.
pub open spec fn growth_allowance() -> int {
    10240int
}

/// The little-endian `u64` stored at `off`.
pub open spec fn u64_at(s: Seq<u8>, off: int) -> u64 {
    spec_u64_from_le_bytes(s.subrange(off, off + 8))
}

/// The public key stored at `off`.
pub open spec fn key_at(s: Seq<u8>, off: int) -> Seq<u8> {
    s.subrange(off, off + KEY_LEN as int)
}

/// Bytes to add to `n` to reach the next multiple of `FIELD_ALIGN`.
pub open spec fn pad_to_align(n: int) -> int {
    (FIELD_ALIGN as int - n % FIELD_ALIGN as int) % FIELD_ALIGN as int
}

// Positions inside one account record that starts at `p`.
pub open spec fn owner_offset(p: int) -> int {
    p + 8 + KEY_LEN as int
}

pub open spec fn lamports_offset(p: int) -> int {
    p + 8 + 2 * KEY_LEN as int
}

pub open spec fn data_len_offset(p: int) -> int {
    lamports_offset(p) + 8
}

pub open spec fn data_offset(p: int) -> int {
    data_len_offset(p) + 8
}

/// Where the rent epoch lies, once `len` data bytes and the growth
/// allowance have been passed and the position re-aligned.
pub open spec fn rent_epoch_offset(p: int, len: int) -> int {
    let e = data_offset(p) + len + growth_allowance();
    e + pad_to_align(e)
}

/// First position after the account record.
pub open spec fn account_end(p: int, len: int) -> int {
    rent_epoch_offset(p, len) + 8
}

// Positions in the whole buffer, which holds one account.
/// Where the single account record starts, after the account count.
pub open spec fn account_start() -> int {
    8
}

pub open spec fn declared_count(s: Seq<u8>) -> u64 {
    u64_at(s, 0)
}

pub open spec fn declared_data_len(s: Seq<u8>) -> u64 {
    u64_at(s, data_len_offset(account_start()))
}

pub open spec fn counter_offset() -> int {
    data_offset(account_start())
}

pub open spec fn counter_value(s: Seq<u8>) -> u64 {
    u64_at(s, counter_offset())
}

pub open spec fn owner_key(s: Seq<u8>) -> Seq<u8> {
    key_at(s, owner_offset(account_start()))
}

pub open spec fn instruction_len_offset() -> int {
    account_end(account_start(), COUNTER_LEN as int)
}

pub open spec fn instruction_len(s: Seq<u8>) -> u64 {
    u64_at(s, instruction_len_offset())
}

pub open spec fn program_key_offset(s: Seq<u8>) -> int {
    instruction_len_offset() + 8 + instruction_len(s)
}

pub open spec fn program_key(s: Seq<u8>) -> Seq<u8> {
    key_at(s, program_key_offset(s))
}

/// The buffer holds every field up to and including the invoking program's key.
pub open spec fn complete(s: Seq<u8>) -> bool {
    &&& s.len() >= instruction_len_offset() + 8
    &&& s.len() >= program_key_offset(s) + KEY_LEN as int
}

pub(crate) proof fn concrete_offsets()
    ensures
        owner_offset(account_start()) == 48,
        data_len_offset(account_start()) == 88,
        counter_offset() == 96,
        instruction_len_offset() == 10360,
{
    assert(pad_to_align(10344) == 8);
}

} // verus!
