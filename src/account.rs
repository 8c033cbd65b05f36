//! Decoders for the header, the account record and the instruction context.
use crate::cursor::Cursor;
use crate::error::CounterError;
use crate::host::max_permitted_data_increase;
use crate::layout::{
    account_end, data_len_offset, data_offset, key_at, lamports_offset, owner_offset,
    rent_epoch_offset, u64_at, COUNTER_LEN, KEY_LEN,
};
use vstd::prelude::*;

verus! {

/// One decoded account record. The data region itself stays in the input
/// buffer; the descriptor says where it lies.
#[derive(Clone, Copy, Debug)]
pub struct AccountDescriptor {
    pub duplicate_marker: u8,
    pub is_signer: bool,
    pub is_writable: bool,
    pub executable: bool,
    pub key: [u8; 32],
    pub owner: [u8; 32],
    pub lamports: u64,
    pub data_offset: usize,
    pub data_len: usize,
    pub rent_epoch: u64,
}

/// What the input says of the instruction: its payload's length and the
/// invoking program's key.
#[derive(Clone, Copy, Debug)]
pub struct InstructionContext {
    pub instruction_len: u64,
    pub program_id: [u8; 32],
}

/// Reads the account count, which must be exactly one.
pub fn decode_header(buf: &[u8], cur: &mut Cursor) -> (r: Result<(), CounterError>)
    requires
        old(cur).offset <= buf@.len(),
    ensures
        final(cur).offset <= buf@.len(),
        r is Ok <==> old(cur).offset + 8 <= buf@.len() && u64_at(buf@, old(cur).offset as int) == 1,
        r is Ok ==> final(cur).offset == old(cur).offset + 8,
        old(cur).offset + 8 > buf@.len() ==> r == Err::<(), _>(CounterError::TruncatedInput),
        old(cur).offset + 8 <= buf@.len() && u64_at(buf@, old(cur).offset as int) != 1 ==> r
            == Err::<(), _>(CounterError::WrongAccountCount),
{
    let count = match cur.read_u64(buf) {
        Ok(v) => v,
        Err(e) => return Err(e),
    };
    if count != 1 {
        return Err(CounterError::WrongAccountCount);
    }
    Ok(())
}

/// Reads one account record, whose data region must be exactly as wide as
/// the counter, and leaves the cursor after its rent epoch.
pub fn decode_account(buf: &[u8], cur: &mut Cursor) -> (r: Result<AccountDescriptor, CounterError>)
    requires
        old(cur).offset <= buf@.len(),
    ensures
        final(cur).offset <= buf@.len(),
        ({
            let s = buf@;
            let p = old(cur).offset as int;
            &&& r is Ok <==> data_offset(p) <= s.len() && u64_at(s, data_len_offset(p))
                == COUNTER_LEN && account_end(p, COUNTER_LEN as int) <= s.len()
            &&& data_offset(p) > s.len() ==> r == Err::<AccountDescriptor, _>(
                CounterError::TruncatedInput,
            )
            &&& data_offset(p) <= s.len() && u64_at(s, data_len_offset(p)) != COUNTER_LEN ==> r
                == Err::<AccountDescriptor, _>(CounterError::BadCounterAccountSize)
            &&& data_offset(p) <= s.len() && u64_at(s, data_len_offset(p)) == COUNTER_LEN
                && account_end(p, COUNTER_LEN as int) > s.len() ==> r == Err::<
                AccountDescriptor,
                _,
            >(CounterError::TruncatedInput)
            &&& r matches Ok(d) ==> {
                &&& d.duplicate_marker == s[p]
                &&& d.is_signer == (s[p + 1] != 0)
                &&& d.is_writable == (s[p + 2] != 0)
                &&& d.executable == (s[p + 3] != 0)
                &&& d.key@ == key_at(s, p + 8)
                &&& d.owner@ == key_at(s, owner_offset(p))
                &&& d.lamports == u64_at(s, lamports_offset(p))
                &&& d.data_offset == data_offset(p)
                &&& d.data_len == COUNTER_LEN
                &&& d.rent_epoch == u64_at(s, rent_epoch_offset(p, COUNTER_LEN as int))
                &&& final(cur).offset == account_end(p, COUNTER_LEN as int)
            }
        }),
{
    let duplicate_marker = match cur.read_u8(buf) {
        Ok(v) => v,
        Err(e) => return Err(e),
    };
    let is_signer = match cur.read_u8(buf) {
        Ok(v) => v != 0,
        Err(e) => return Err(e),
    };
    let is_writable = match cur.read_u8(buf) {
        Ok(v) => v != 0,
        Err(e) => return Err(e),
    };
    let executable = match cur.read_u8(buf) {
        Ok(v) => v != 0,
        Err(e) => return Err(e),
    };
    // reserved padding
    match cur.skip(buf, 4) {
        Ok(()) => {},
        Err(e) => return Err(e),
    }
    let key = match cur.read_key(buf) {
        Ok(k) => k,
        Err(e) => return Err(e),
    };
    let owner = match cur.read_key(buf) {
        Ok(k) => k,
        Err(e) => return Err(e),
    };
    let lamports = match cur.read_u64(buf) {
        Ok(v) => v,
        Err(e) => return Err(e),
    };
    let declared_len = match cur.read_u64(buf) {
        Ok(v) => v,
        Err(e) => return Err(e),
    };
    if declared_len != COUNTER_LEN as u64 {
        return Err(CounterError::BadCounterAccountSize);
    }
    let data_start = cur.offset;
    // the data region and the headroom after it
    match cur.skip(buf, (COUNTER_LEN + max_permitted_data_increase()) as u64) {
        Ok(()) => {},
        Err(e) => return Err(e),
    }
    match cur.align(buf) {
        Ok(()) => {},
        Err(e) => return Err(e),
    }
    let rent_epoch = match cur.read_u64(buf) {
        Ok(v) => v,
        Err(e) => return Err(e),
    };
    Ok(
        AccountDescriptor {
            duplicate_marker,
            is_signer,
            is_writable,
            executable,
            key,
            owner,
            lamports,
            data_offset: data_start,
            data_len: COUNTER_LEN,
            rent_epoch,
        },
    )
}

/// Reads the instruction payload's length, steps over the payload and reads
/// the invoking program's key.
pub fn decode_instruction(buf: &[u8], cur: &mut Cursor) -> (r: Result<
    InstructionContext,
    CounterError,
>)
    requires
        old(cur).offset <= buf@.len(),
    ensures
        final(cur).offset <= buf@.len(),
        ({
            let s = buf@;
            let p = old(cur).offset as int;
            let n = u64_at(s, p);
            &&& r is Ok <==> p + 8 <= s.len() && p + 8 + n + KEY_LEN <= s.len()
            &&& r is Err ==> r->Err_0 == CounterError::TruncatedInput
            &&& r matches Ok(ix) ==> ix.instruction_len == n && ix.program_id@ == key_at(
                s,
                p + 8 + n,
            )
        }),
{
    let instruction_len = match cur.read_u64(buf) {
        Ok(v) => v,
        Err(e) => return Err(e),
    };
    match cur.skip(buf, instruction_len) {
        Ok(()) => {},
        Err(e) => return Err(e),
    }
    let program_id = match cur.read_key(buf) {
        Ok(k) => k,
        Err(e) => return Err(e),
    };
    Ok(InstructionContext { instruction_len, program_id })
}

} // verus!
