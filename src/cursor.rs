//! A sequential reader over the input buffer that never reads past its end.
use crate::error::CounterError;
use crate::layout::{key_at, pad_to_align, u64_at, FIELD_ALIGN, KEY_LEN};
use vstd::bytes::u64_from_le_bytes;
use vstd::prelude::*;
use vstd::slice::slice_subrange;

verus! {

/// A byte offset into the input buffer.
#[derive(Clone, Copy, Debug, PartialEq, Eq, Structural)]
pub struct Cursor {
    pub offset: usize,
}

impl Cursor {
    pub fn new() -> (c: Cursor)
        ensures
            c.offset == 0,
    {
        Cursor { offset: 0 }
    }

    /// Reads one byte and steps over it.
    pub fn read_u8(&mut self, buf: &[u8]) -> (r: Result<u8, CounterError>)
        requires
            old(self).offset <= buf@.len(),
        ensures
            final(self).offset <= buf@.len(),
            r is Ok <==> old(self).offset + 1 <= buf@.len(),
            r is Ok ==> r->Ok_0 == buf@[old(self).offset as int] && final(self).offset
                == old(self).offset + 1,
            r is Err ==> r->Err_0 == CounterError::TruncatedInput && *final(self) == *old(self),
    {
        if buf.len() - self.offset < 1 {
            return Err(CounterError::TruncatedInput);
        }
        let v = buf[self.offset];
        self.offset = self.offset + 1;
        Ok(v)
    }

    /// Reads a little-endian `u64` and steps over it.
    pub fn read_u64(&mut self, buf: &[u8]) -> (r: Result<u64, CounterError>)
        requires
            old(self).offset <= buf@.len(),
        ensures
            final(self).offset <= buf@.len(),
            r is Ok <==> old(self).offset + 8 <= buf@.len(),
            r is Ok ==> r->Ok_0 == u64_at(buf@, old(self).offset as int) && final(self).offset
                == old(self).offset + 8,
            r is Err ==> r->Err_0 == CounterError::TruncatedInput && *final(self) == *old(self),
    {
        if buf.len() - self.offset < 8 {
            return Err(CounterError::TruncatedInput);
        }
        let field = slice_subrange(buf, self.offset, self.offset + 8);
        let v = u64_from_le_bytes(field);
        self.offset = self.offset + 8;
        Ok(v)
    }

    /// Reads a public key and steps over it.
    pub fn read_key(&mut self, buf: &[u8]) -> (r: Result<[u8; 32], CounterError>)
        requires
            old(self).offset <= buf@.len(),
        ensures
            final(self).offset <= buf@.len(),
            r is Ok <==> old(self).offset + KEY_LEN <= buf@.len(),
            r is Ok ==> r->Ok_0@ == key_at(buf@, old(self).offset as int) && final(self).offset
                == old(self).offset + KEY_LEN,
            r is Err ==> r->Err_0 == CounterError::TruncatedInput && *final(self) == *old(self),
    {
        if buf.len() - self.offset < KEY_LEN {
            return Err(CounterError::TruncatedInput);
        }
        let start = self.offset;
        let mut key = [0u8; 32];
        let mut i: usize = 0;
        while i < KEY_LEN
            invariant
                start + KEY_LEN <= buf.len(),
                buf.len() == buf@.len(),
                i <= KEY_LEN,
                key@.len() == KEY_LEN,
                forall|j: int| 0 <= j < i ==> key@[j] == buf@[start + j],
            decreases KEY_LEN - i,
        {
            key[i] = buf[start + i];
            i = i + 1;
        }
        assert(key@ =~= key_at(buf@, start as int));
        self.offset = start + KEY_LEN;
        Ok(key)
    }

    /// Steps over `n` bytes without reading them.
    pub fn skip(&mut self, buf: &[u8], n: u64) -> (r: Result<(), CounterError>)
        requires
            old(self).offset <= buf@.len(),
        ensures
            final(self).offset <= buf@.len(),
            r is Ok <==> old(self).offset + n <= buf@.len(),
            r is Ok ==> final(self).offset == old(self).offset + n,
            r is Err ==> r->Err_0 == CounterError::TruncatedInput && *final(self) == *old(self),
    {
        let room = buf.len() - self.offset;
        if n > room as u64 {
            return Err(CounterError::TruncatedInput);
        }
        self.offset = self.offset + n as usize;
        Ok(())
    }

    /// Steps forward to the next multiple of `FIELD_ALIGN`.
    pub fn align(&mut self, buf: &[u8]) -> (r: Result<(), CounterError>)
        requires
            old(self).offset <= buf@.len(),
        ensures
            final(self).offset <= buf@.len(),
            r is Ok <==> old(self).offset + pad_to_align(old(self).offset as int) <= buf@.len(),
            r is Ok ==> final(self).offset == old(self).offset + pad_to_align(
                old(self).offset as int,
            ),
            r is Err ==> r->Err_0 == CounterError::TruncatedInput && *final(self) == *old(self),
    {
        let rem = self.offset % FIELD_ALIGN;
        let pad: usize = if rem == 0 {
            0
        } else {
            FIELD_ALIGN - rem
        };
        assert(pad == pad_to_align(self.offset as int));
        if pad > buf.len() - self.offset {
            return Err(CounterError::TruncatedInput);
        }
        self.offset = self.offset + pad;
        Ok(())
    }
}

} // verus!
