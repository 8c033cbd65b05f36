//! Properties of whole invocations, proved from the outcome that
//! `process` and `entrypoint` are held to.
use crate::error::CounterError;
use crate::layout::{
    complete, counter_offset, counter_value, declared_count, declared_data_len, instruction_len,
    key_at, owner_key, program_key, program_key_offset, COUNTER_LEN,
};
use crate::processor::{run_output, run_spec, status_of, with_counter};
use vstd::bytes::{lemma_auto_spec_u64_to_from_le_bytes, spec_u64_to_le_bytes};
use vstd::prelude::*;

verus! {

/// Every field that an invocation checks is present and valid, and the
/// counter's owner is the invoking program.
pub open spec fn accepted(s: Seq<u8>) -> bool {
    &&& complete(s)
    &&& declared_count(s) == 1
    &&& declared_data_len(s) == COUNTER_LEN
    &&& owner_key(s) == program_key(s)
}

/// Writing the counter changes its eight bytes and nothing else.
proof fn lemma_with_counter(s: Seq<u8>, v: u64)
    requires
        s.len() >= counter_offset() + COUNTER_LEN,
    ensures
        with_counter(s, v).len() == s.len(),
        counter_value(with_counter(s, v)) == v,
        forall|i: int|
            0 <= i < s.len() && !(counter_offset() <= i < counter_offset() + COUNTER_LEN)
                ==> #[trigger] with_counter(s, v)[i] == s[i],
{
    lemma_auto_spec_u64_to_from_le_bytes();
    let t = with_counter(s, v);
    assert(spec_u64_to_le_bytes(v).len() == 8);
    assert(t.subrange(counter_offset(), counter_offset() + 8) =~= spec_u64_to_le_bytes(v));
}

/// Two buffers that agree outside the counter's bytes have the same layout,
/// keys and lengths.
proof fn lemma_same_frame(s: Seq<u8>, t: Seq<u8>)
    requires
        s.len() == t.len(),
        complete(s),
        forall|i: int|
            0 <= i < s.len() && !(counter_offset() <= i < counter_offset() + COUNTER_LEN)
                ==> #[trigger] t[i] == s[i],
    ensures
        declared_count(t) == declared_count(s),
        declared_data_len(t) == declared_data_len(s),
        instruction_len(t) == instruction_len(s),
        complete(t),
        owner_key(t) == owner_key(s),
        program_key(t) == program_key(s),
{
    crate::layout::concrete_offsets();
    assert(t.subrange(0, 8) =~= s.subrange(0, 8));
    assert(t.subrange(88, 96) =~= s.subrange(88, 96));
    assert(t.subrange(10360, 10368) =~= s.subrange(10360, 10368));
    let k = program_key_offset(s);
    assert(key_at(t, 48) =~= key_at(s, 48));
    assert(key_at(t, k) =~= key_at(s, k));
}

/// On an accepted buffer whose counter can still grow, an invocation
/// succeeds, and the counter it leaves is one higher than the one it found.
pub proof fn lemma_success_increments(s: Seq<u8>)
    requires
        accepted(s),
        counter_value(s) < u64::MAX,
    ensures
        run_spec(s) == Ok::<u64, CounterError>((counter_value(s) + 1) as u64),
        status_of(run_spec(s)) == 0,
        run_output(s).len() == s.len(),
        counter_value(run_output(s)) == counter_value(s) + 1,
{
    crate::layout::concrete_offsets();
    lemma_with_counter(s, (counter_value(s) + 1) as u64);
}

/// An account count other than one fails with `WrongAccountCount`, leaves
/// the buffer as it was, and does not depend on any byte after the count.
pub proof fn lemma_wrong_count(s: Seq<u8>, t: Seq<u8>)
    requires
        s.len() >= 8,
        t.len() >= 8,
        s.subrange(0, 8) == t.subrange(0, 8),
        declared_count(s) != 1,
    ensures
        run_spec(s) == Err::<u64, _>(CounterError::WrongAccountCount),
        status_of(run_spec(s)) == 1,
        run_spec(t) == run_spec(s),
        run_output(s) == s,
{
}

/// A declared data length other than eight fails with
/// `BadCounterAccountSize` and leaves the buffer as it was.
pub proof fn lemma_bad_size(s: Seq<u8>)
    requires
        s.len() >= counter_offset(),
        declared_count(s) == 1,
        declared_data_len(s) != COUNTER_LEN,
    ensures
        run_spec(s) == Err::<u64, _>(CounterError::BadCounterAccountSize),
        status_of(run_spec(s)) == 2,
        run_output(s) == s,
{
}

/// A counter account that the invoking program does not own fails with
/// `OwnershipViolation` and leaves the buffer as it was.
pub proof fn lemma_foreign_owner(s: Seq<u8>)
    requires
        complete(s),
        declared_count(s) == 1,
        declared_data_len(s) == COUNTER_LEN,
        owner_key(s) != program_key(s),
    ensures
        run_spec(s) == Err::<u64, _>(CounterError::OwnershipViolation),
        status_of(run_spec(s)) == 3,
        run_output(s) == s,
{
    crate::layout::concrete_offsets();
}

/// A counter at the largest 64-bit value fails with `CounterOverflow`,
/// leaves the buffer as it was, and so fails the same way when run again.
pub proof fn lemma_counter_at_max(s: Seq<u8>)
    requires
        accepted(s),
        counter_value(s) == u64::MAX,
    ensures
        run_spec(s) == Err::<u64, _>(CounterError::CounterOverflow),
        status_of(run_spec(s)) == 5,
        run_output(s) == s,
        run_spec(run_output(s)) == run_spec(s),
{
    crate::layout::concrete_offsets();
}

/// What one invocation leaves is accepted again, with the counter one
/// higher: two invocations in a row raise it by two.
pub proof fn lemma_run_twice(s: Seq<u8>)
    requires
        accepted(s),
        counter_value(s) + 1 < u64::MAX,
    ensures
        accepted(run_output(s)),
        counter_value(run_output(s)) == counter_value(s) + 1,
        run_spec(run_output(s)) == Ok::<u64, CounterError>((counter_value(s) + 2) as u64),
        counter_value(run_output(run_output(s))) == counter_value(s) + 2,
{
    crate::layout::concrete_offsets();
    lemma_success_increments(s);
    let t = run_output(s);
    lemma_with_counter(s, (counter_value(s) + 1) as u64);
    lemma_same_frame(s, t);
    lemma_success_increments(t);
}

} // verus!
