//! One invocation: decode, validate, increment the counter and write it back.
use crate::account::{decode_account, decode_header, decode_instruction};
use crate::cursor::Cursor;
use crate::error::CounterError;
use crate::host::{copy_into, same_key, success};
use crate::layout::{
    complete, counter_offset, counter_value, declared_count, declared_data_len, owner_key,
    program_key, COUNTER_LEN,
};
use vstd::bytes::{spec_u64_from_le_bytes, spec_u64_to_le_bytes, u64_from_le_bytes, u64_to_le_bytes};
use vstd::prelude::*;
use vstd::slice::slice_subrange;

verus! {

/// What one invocation on the buffer `s` yields: the new counter value, or
/// the first check that fails, in the order the fields are met.
pub open spec fn run_spec(s: Seq<u8>) -> Result<u64, CounterError> {
    if s.len() < 8 {
        Err(CounterError::TruncatedInput)
    } else if declared_count(s) != 1 {
        Err(CounterError::WrongAccountCount)
    } else if s.len() < counter_offset() {
        Err(CounterError::TruncatedInput)
    } else if declared_data_len(s) != COUNTER_LEN {
        Err(CounterError::BadCounterAccountSize)
    } else if !complete(s) {
        Err(CounterError::TruncatedInput)
    } else if owner_key(s) != program_key(s) {
        Err(CounterError::OwnershipViolation)
    } else if counter_value(s) == u64::MAX {
        Err(CounterError::CounterOverflow)
    } else {
        Ok((counter_value(s) + 1) as u64)
    }
}

/// `s` with the counter's eight bytes replaced by the encoding of `v`.
pub open spec fn with_counter(s: Seq<u8>, v: u64) -> Seq<u8> {
    s.subrange(0, counter_offset()) + spec_u64_to_le_bytes(v) + s.subrange(
        counter_offset() + COUNTER_LEN,
        s.len() as int,
    )
}

/// The buffer after one invocation: rewritten only on success.
pub open spec fn run_output(s: Seq<u8>) -> Seq<u8> {
    match run_spec(s) {
        Ok(v) => with_counter(s, v),
        Err(_) => s,
    }
}

/// The status code that reports an outcome to the host.
pub open spec fn status_of(r: Result<u64, CounterError>) -> u64 {
    match r {
        Ok(_) => 0,
        Err(e) => e.spec_status(),
    }
}

/// Reads the counter from its data region.
pub fn decode_counter(region: &[u8]) -> (r: Result<u64, CounterError>)
    ensures
        region@.len() == COUNTER_LEN ==> r == Ok::<u64, CounterError>(
            spec_u64_from_le_bytes(region@),
        ),
        region@.len() != COUNTER_LEN ==> r == Err::<u64, _>(CounterError::MalformedCounterBytes),
{
    if region.len() != COUNTER_LEN {
        return Err(CounterError::MalformedCounterBytes);
    }
    Ok(u64_from_le_bytes(region))
}

/// Adds one to the counter, refusing to wrap around.
pub fn increment(counter: u64) -> (r: Result<u64, CounterError>)
    ensures
        counter < u64::MAX ==> r == Ok::<u64, CounterError>((counter + 1) as u64),
        counter == u64::MAX ==> r == Err::<u64, _>(CounterError::CounterOverflow),
{
    match counter.checked_add(1) {
        Some(c) => Ok(c),
        None => Err(CounterError::CounterOverflow),
    }
}

/// Runs one invocation on `input`: on success the counter in the account's
/// data region is one higher and its new value is returned; on failure the
/// buffer is left as it was.
pub fn process(input: &mut [u8]) -> (r: Result<u64, CounterError>)
    ensures
        r == run_spec(old(input)@),
        final(input)@ == run_output(old(input)@),
{
    proof {
        crate::layout::concrete_offsets();
    }
    let mut cur = Cursor::new();
    match decode_header(input, &mut cur) {
        Ok(()) => {},
        Err(e) => return Err(e),
    }
    let account = match decode_account(input, &mut cur) {
        Ok(a) => a,
        Err(e) => return Err(e),
    };
    let ix = match decode_instruction(input, &mut cur) {
        Ok(ix) => ix,
        Err(e) => return Err(e),
    };
    if !same_key(&account.owner, &ix.program_id) {
        return Err(CounterError::OwnershipViolation);
    }
    let region = slice_subrange(input, account.data_offset, account.data_offset + account.data_len);
    let counter = match decode_counter(region) {
        Ok(c) => c,
        Err(e) => return Err(e),
    };
    let next = match increment(counter) {
        Ok(c) => c,
        Err(e) => return Err(e),
    };
    let bytes = u64_to_le_bytes(next);
    copy_into(input, account.data_offset, bytes.as_slice());
    Ok(next)
}

/// The program's entry point: runs one invocation on the input buffer and
/// returns its status code, `0` on success.
pub fn entrypoint(input: &mut [u8]) -> (r: u64)
    ensures
        r == status_of(run_spec(old(input)@)),
        final(input)@ == run_output(old(input)@),
{
    match process(input) {
        Ok(_) => success(),
        Err(e) => e.status(),
    }
}

} // verus!
