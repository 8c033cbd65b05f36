use counter_program::layout::{COUNTER_LEN, FIELD_ALIGN, KEY_LEN};
use counter_program::{
    decode_account, decode_counter, decode_header, decode_instruction, entrypoint, increment,
    process, CounterError, Cursor,
};

const PROGRAM: [u8; 32] = [9u8; 32];
const ACCOUNT_KEY: [u8; 32] = [7u8; 32];
const GROWTH: usize = 10 * 1024;

/// Lays out one input buffer field by field.
fn buffer(count: u64, owner: [u8; 32], data: &[u8], payload: &[u8], program: [u8; 32]) -> Vec<u8> {
    let mut b = Vec::new();
    b.extend_from_slice(&count.to_le_bytes());
    b.extend_from_slice(&[0xff, 1, 1, 0]);
    b.extend_from_slice(&[0, 0, 0, 0]);
    b.extend_from_slice(&ACCOUNT_KEY);
    b.extend_from_slice(&owner);
    b.extend_from_slice(&1_000_000u64.to_le_bytes());
    b.extend_from_slice(&(data.len() as u64).to_le_bytes());
    b.extend_from_slice(data);
    b.extend(std::iter::repeat(0u8).take(GROWTH));
    while b.len() % FIELD_ALIGN != 0 {
        b.push(0);
    }
    b.extend_from_slice(&300u64.to_le_bytes());
    b.extend_from_slice(&(payload.len() as u64).to_le_bytes());
    b.extend_from_slice(payload);
    b.extend_from_slice(&program);
    b
}

fn counter_buffer(counter: u64) -> Vec<u8> {
    buffer(1, PROGRAM, &counter.to_le_bytes(), &[], PROGRAM)
}

fn stored_counter(b: &[u8]) -> u64 {
    let mut bytes = [0u8; 8];
    bytes.copy_from_slice(&b[96..104]);
    u64::from_le_bytes(bytes)
}

#[test]
fn zero_counter_becomes_one() {
    let mut b = buffer(1, PROGRAM, &[0, 0, 0, 0, 0, 0, 0, 0], &[], PROGRAM);
    let before = b.clone();
    assert_eq!(entrypoint(&mut b), 0);
    assert_eq!(&b[96..104], &[1, 0, 0, 0, 0, 0, 0, 0]);
    assert_eq!(&b[..96], &before[..96]);
    assert_eq!(&b[104..], &before[104..]);
}

#[test]
fn foreign_owner_leaves_data_untouched() {
    for counter in [0u64, 41, 1 << 40, u64::MAX] {
        let mut b = buffer(1, [3u8; 32], &counter.to_le_bytes(), &[], PROGRAM);
        let before = b.clone();
        assert_eq!(entrypoint(&mut b), 3);
        assert_eq!(b, before);
    }
}

#[test]
fn owner_differing_in_last_byte_is_refused() {
    let mut owner = PROGRAM;
    owner[31] = 8;
    let mut b = buffer(1, owner, &5u64.to_le_bytes(), &[], PROGRAM);
    assert_eq!(process(&mut b), Err(CounterError::OwnershipViolation));
    assert_eq!(stored_counter(&b), 5);
}

#[test]
fn round_trip_forty_one_to_forty_three() {
    let mut b = counter_buffer(41);
    assert_eq!(entrypoint(&mut b), 0);
    assert_eq!(stored_counter(&b), 42);
    assert_eq!(entrypoint(&mut b), 0);
    assert_eq!(stored_counter(&b), 43);
}

#[test]
fn process_returns_new_value() {
    let mut b = counter_buffer(1000);
    assert_eq!(process(&mut b), Ok(1001));
    assert_eq!(stored_counter(&b), 1001);
}

#[test]
fn increment_carries_into_next_byte() {
    let mut b = buffer(1, PROGRAM, &[0xff, 0, 0, 0, 0, 0, 0, 0], &[], PROGRAM);
    assert_eq!(entrypoint(&mut b), 0);
    assert_eq!(&b[96..104], &[0, 1, 0, 0, 0, 0, 0, 0]);
}

#[test]
fn wrong_account_count_is_refused() {
    for count in [0u64, 2, 3, u64::MAX] {
        let mut b = buffer(count, PROGRAM, &0u64.to_le_bytes(), &[], PROGRAM);
        let before = b.clone();
        assert_eq!(entrypoint(&mut b), 1);
        assert_eq!(b, before);
    }
}

#[test]
fn wrong_account_count_reads_nothing_after_count() {
    let mut b = 2u64.to_le_bytes().to_vec();
    assert_eq!(process(&mut b), Err(CounterError::WrongAccountCount));
    assert_eq!(entrypoint(&mut b), 1);
    assert_eq!(b, 2u64.to_le_bytes().to_vec());
}

#[test]
fn bad_data_size_is_refused() {
    for data in [vec![], vec![1u8, 2, 3, 4], vec![0u8; 9], vec![0u8; 16]] {
        let mut b = buffer(1, PROGRAM, &data, &[], PROGRAM);
        let before = b.clone();
        assert_eq!(entrypoint(&mut b), 2);
        assert_eq!(b, before);
    }
}

#[test]
fn bad_data_size_needs_no_data_region() {
    let mut b = buffer(1, PROGRAM, &[0u8; 4], &[], PROGRAM);
    b.truncate(96);
    assert_eq!(process(&mut b), Err(CounterError::BadCounterAccountSize));
}

#[test]
fn counter_at_max_overflows_without_write() {
    let mut b = counter_buffer(u64::MAX);
    let before = b.clone();
    assert_eq!(entrypoint(&mut b), 5);
    assert_eq!(b, before);
    assert_eq!(entrypoint(&mut b), 5);
    assert_eq!(b, before);
}

#[test]
fn counter_one_below_max_reaches_max() {
    let mut b = counter_buffer(u64::MAX - 1);
    assert_eq!(entrypoint(&mut b), 0);
    assert_eq!(stored_counter(&b), u64::MAX);
    assert_eq!(entrypoint(&mut b), 5);
}

#[test]
fn payload_is_skipped() {
    let payload = [1u8, 2, 3, 4, 5];
    let mut b = buffer(1, PROGRAM, &7u64.to_le_bytes(), &payload, PROGRAM);
    assert_eq!(entrypoint(&mut b), 0);
    assert_eq!(stored_counter(&b), 8);
    let mut c = buffer(1, PROGRAM, &7u64.to_le_bytes(), &payload, [1u8; 32]);
    assert_eq!(entrypoint(&mut c), 3);
}

#[test]
fn truncated_input_is_refused() {
    let mut empty: Vec<u8> = Vec::new();
    assert_eq!(process(&mut empty), Err(CounterError::TruncatedInput));
    assert_eq!(entrypoint(&mut empty), 6);
    let full = counter_buffer(3);
    for cut in [4usize, 40, 100, 10_000, full.len() - 1] {
        let mut b = full[..cut].to_vec();
        let before = b.clone();
        assert_eq!(process(&mut b), Err(CounterError::TruncatedInput));
        assert_eq!(b, before);
    }
    let mut b = buffer(1, PROGRAM, &3u64.to_le_bytes(), &[0u8; 3], PROGRAM);
    let n = b.len();
    b[n - 32 - 3 - 8..n - 32 - 3].copy_from_slice(&1000u64.to_le_bytes());
    assert_eq!(entrypoint(&mut b), 6);
}

#[test]
fn trailing_bytes_are_ignored() {
    let mut b = counter_buffer(10);
    b.extend_from_slice(&[0xaa; 20]);
    assert_eq!(entrypoint(&mut b), 0);
    assert_eq!(stored_counter(&b), 11);
    assert_eq!(&b[b.len() - 20..], &[0xaa; 20]);
}

#[test]
fn decoders_report_the_fields() {
    let b = buffer(1, PROGRAM, &12u64.to_le_bytes(), &[4, 4], PROGRAM);
    let mut cur = Cursor::new();
    assert_eq!(decode_header(&b, &mut cur), Ok(()));
    assert_eq!(cur.offset, 8);
    let account = decode_account(&b, &mut cur).unwrap();
    assert_eq!(account.duplicate_marker, 0xff);
    assert!(account.is_signer);
    assert!(account.is_writable);
    assert!(!account.executable);
    assert_eq!(account.key, ACCOUNT_KEY);
    assert_eq!(account.owner, PROGRAM);
    assert_eq!(account.lamports, 1_000_000);
    assert_eq!(account.data_offset, 96);
    assert_eq!(account.data_len, COUNTER_LEN);
    assert_eq!(account.rent_epoch, 300);
    assert_eq!(cur.offset, 10360);
    let ix = decode_instruction(&b, &mut cur).unwrap();
    assert_eq!(ix.instruction_len, 2);
    assert_eq!(ix.program_id, PROGRAM);
    assert_eq!(cur.offset, 10370 + KEY_LEN);
}

#[test]
fn cursor_reads_and_aligns() {
    let b: Vec<u8> = (0u8..40).collect();
    let mut cur = Cursor::new();
    assert_eq!(cur.read_u8(&b), Ok(0));
    assert_eq!(cur.align(&b), Ok(()));
    assert_eq!(cur.offset, 16);
    assert_eq!(cur.align(&b), Ok(()));
    assert_eq!(cur.offset, 16);
    assert_eq!(cur.read_u64(&b), Ok(u64::from_le_bytes([16, 17, 18, 19, 20, 21, 22, 23])));
    assert_eq!(cur.skip(&b, 100), Err(CounterError::TruncatedInput));
    assert_eq!(cur.offset, 24);
    assert_eq!(cur.read_key(&b), Err(CounterError::TruncatedInput));
    assert_eq!(cur.skip(&b, 16), Ok(()));
    assert_eq!(cur.read_u8(&b), Err(CounterError::TruncatedInput));
}

#[test]
fn counter_bytes_must_be_eight() {
    assert_eq!(decode_counter(&[1, 2, 3]), Err(CounterError::MalformedCounterBytes));
    assert_eq!(CounterError::MalformedCounterBytes.status(), 4);
    assert_eq!(decode_counter(&[1, 0, 0, 0, 0, 0, 0, 2]), Ok(1 + (2u64 << 56)));
}

#[test]
fn increment_is_checked() {
    assert_eq!(increment(41), Ok(42));
    assert_eq!(increment(u64::MAX), Err(CounterError::CounterOverflow));
}

#[test]
fn status_codes_are_distinct() {
    assert_eq!(CounterError::WrongAccountCount.status(), 1);
    assert_eq!(CounterError::BadCounterAccountSize.status(), 2);
    assert_eq!(CounterError::OwnershipViolation.status(), 3);
    assert_eq!(CounterError::MalformedCounterBytes.status(), 4);
    assert_eq!(CounterError::CounterOverflow.status(), 5);
    assert_eq!(CounterError::TruncatedInput.status(), 6);
}
