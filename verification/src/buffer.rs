//! A seekable reader over the bytes of one font file held in memory.
use crate::bytes::{
    copy_range, i16_be, i32_be, i8_of, read_u16_be, read_u32_be, to_i16, to_i32, to_i8, u16_be,
    u32_be,
};
use vstd::prelude::*;

verus! {

/// Why a reader operation could not complete.
#[derive(Debug, Clone, Copy, PartialEq, Eq)]
pub enum VeroBufReaderError {
    /// Fewer bytes were left between the cursor and the end than were asked for.
    ReadError,
    /// The target of a relative seek lies before the start or beyond what a
    /// 64-bit position can express.
    FailedToSeek,
}

/// The first `limit` bytes of `bytes`, or all of them where they are fewer.
pub open spec fn prefix(bytes: Seq<u8>, limit: nat) -> Seq<u8> {
    if limit <= bytes.len() {
        bytes.take(limit as int)
    } else {
        bytes
    }
}

/// The bytes of a font file and a cursor into them.
///
/// The cursor may stand beyond the last byte; nothing can be read there.
#[derive(Debug)]
pub struct VeroBufReader {
    data: Vec<u8>,
    position: u64,
}

impl VeroBufReader {
    /// The bytes the reader was made from.
    pub closed spec fn bytes(&self) -> Seq<u8> {
        self.data@
    }

    /// Where the cursor stands, counted from the first byte.
    pub closed spec fn cursor(&self) -> nat {
        self.position as nat
    }

    /// The bytes from the cursor to the end: what is still to be read.
    pub open spec fn rest(&self) -> Seq<u8> {
        if self.cursor() <= self.bytes().len() {
            self.bytes().subrange(self.cursor() as int, self.bytes().len() as int)
        } else {
            Seq::empty()
        }
    }

    /// A reader over `buffer` with the cursor on its first byte.
    pub fn from_buffer(buffer: Vec<u8>) -> (reader: Self)
        ensures
            reader.bytes() == buffer@,
            reader.cursor() == 0,
    {
        VeroBufReader { data: buffer, position: 0 }
    }

    /// Where the cursor stands, counted from the first byte.
    pub fn position(&self) -> (place: u64)
        ensures
            place == self.cursor(),
    {
        self.position
    }

    /// Puts the cursor `pos` bytes after the start. A place beyond the end
    /// is accepted; nothing can be read from there.
    pub fn seek_to(&mut self, pos: u64) -> (outcome: Result<(), VeroBufReaderError>)
        ensures
            outcome == Ok::<(), VeroBufReaderError>(()),
            final(self).bytes() == old(self).bytes(),
            final(self).cursor() == pos,
    {
        self.position = pos;
        Ok(())
    }

    /// Moves the cursor by `n` bytes, backwards where `n` is negative. Fails,
    /// and leaves the cursor in place, where the target would lie before the
    /// start or beyond the largest 64-bit position.
    pub fn skip(&mut self, n: i64) -> (outcome: Result<(), VeroBufReaderError>)
        ensures
            final(self).bytes() == old(self).bytes(),
            0 <= old(self).cursor() + n <= u64::MAX ==> {
                &&& outcome == Ok::<(), VeroBufReaderError>(())
                &&& final(self).cursor() == old(self).cursor() + n
            },
            !(0 <= old(self).cursor() + n <= u64::MAX) ==> {
                &&& outcome == Err::<(), VeroBufReaderError>(VeroBufReaderError::FailedToSeek)
                &&& final(self).cursor() == old(self).cursor()
            },
    {
        let target: i128 = self.position as i128 + n as i128;
        if target < 0 || target > u64::MAX as i128 {
            return Err(VeroBufReaderError::FailedToSeek);
        }
        self.position = target as u64;
        Ok(())
    }

    /// The number of bytes between the cursor and the end.
    pub fn remaining(&self) -> (count: usize)
        ensures
            count == self.rest().len(),
    {
        let total: usize = self.data.len();
        if self.position <= total as u64 {
            total - self.position as usize
        } else {
            0
        }
    }

    /// Fills `buffer` with the next bytes and moves the cursor past them, or
    /// fails and changes nothing when too few bytes are left.
    pub fn read_exact(&mut self, buffer: &mut [u8]) -> (outcome: Result<(), VeroBufReaderError>)
        ensures
            final(self).bytes() == old(self).bytes(),
            final(buffer)@.len() == old(buffer)@.len(),
            old(buffer)@.len() <= old(self).rest().len() ==> {
                &&& outcome == Ok::<(), VeroBufReaderError>(())
                &&& final(buffer)@ == old(self).rest().take(old(buffer)@.len() as int)
                &&& final(self).cursor() == old(self).cursor() + old(buffer)@.len()
            },
            old(buffer)@.len() > old(self).rest().len() ==> {
                &&& outcome == Err::<(), VeroBufReaderError>(VeroBufReaderError::ReadError)
                &&& final(buffer)@ == old(buffer)@
                &&& final(self).cursor() == old(self).cursor()
            },
    {
        let wanted: usize = buffer.len();
        if wanted > self.remaining() {
            return Err(VeroBufReaderError::ReadError);
        }
        if wanted == 0 {
            assert(buffer@ =~= old(self).rest().take(0));
            return Ok(());
        }
        let total: usize = self.data.len();
        let start: usize = self.position as usize;
        let mut done: usize = 0;
        while done < wanted
            invariant
                done <= wanted,
                wanted == buffer@.len(),
                start + wanted <= total,
                total == self.data@.len(),
                self.data@ == old(self).data@,
                self.position == old(self).position,
                start == self.position,
                forall|k: int| 0 <= k < done ==> buffer@[k] == self.data@[start + k],
            decreases wanted - done,
        {
            buffer[done] = self.data[start + done];
            done = done + 1;
        }
        assert(buffer@ =~= old(self).rest().take(wanted as int));
        self.position = self.position + wanted as u64;
        Ok(())
    }

    /// Hands out the next `count` bytes and moves the cursor past them, or
    /// fails and changes nothing when fewer are left. Nothing is allocated
    /// before it is known that the bytes are there.
    pub fn read_bytes(&mut self, count: usize) -> (outcome: Result<Vec<u8>, VeroBufReaderError>)
        ensures
            final(self).bytes() == old(self).bytes(),
            count <= old(self).rest().len() ==> {
                &&& outcome is Ok
                &&& outcome->Ok_0@ == old(self).rest().take(count as int)
                &&& final(self).cursor() == old(self).cursor() + count
            },
            count > old(self).rest().len() ==> {
                &&& outcome == Err::<Vec<u8>, VeroBufReaderError>(VeroBufReaderError::ReadError)
                &&& final(self).cursor() == old(self).cursor()
            },
    {
        if count > self.remaining() {
            return Err(VeroBufReaderError::ReadError);
        }
        if count == 0 {
            let nothing: Vec<u8> = Vec::new();
            assert(nothing@ =~= old(self).rest().take(0));
            return Ok(nothing);
        }
        let total: usize = self.data.len();
        assert(self.position + count <= total);
        let start: usize = self.position as usize;
        let taken: Vec<u8> = copy_range(self.data.as_slice(), start, start + count);
        assert(taken@ =~= old(self).rest().take(count as int));
        self.position = self.position + count as u64;
        Ok(taken)
    }

    /// Hands out the next `limit` bytes, or all that are left where fewer
    /// are, and moves the cursor past them.
    pub fn read_up_to(&mut self, limit: usize) -> (taken: Vec<u8>)
        ensures
            final(self).bytes() == old(self).bytes(),
            taken@ == prefix(old(self).rest(), limit as nat),
            final(self).cursor() == old(self).cursor() + taken@.len(),
    {
        let left: usize = self.remaining();
        let count: usize = if limit <= left { limit } else { left };
        match self.read_bytes(count) {
            Ok(taken) => {
                assert(limit > left ==> taken@ =~= old(self).rest());
                taken
            },
            Err(_) => Vec::new(),
        }
    }

    /// Reads one byte as an unsigned number.
    pub fn read_u8(&mut self) -> (outcome: Result<u8, VeroBufReaderError>)
        ensures
            final(self).bytes() == old(self).bytes(),
            1 <= old(self).rest().len() ==> {
                &&& outcome == Ok::<u8, VeroBufReaderError>(old(self).rest()[0])
                &&& final(self).cursor() == old(self).cursor() + 1
            },
            1 > old(self).rest().len() ==> {
                &&& outcome == Err::<u8, VeroBufReaderError>(VeroBufReaderError::ReadError)
                &&& final(self).cursor() == old(self).cursor()
            },
    {
        match self.read_bytes(1) {
            Ok(raw) => Ok(raw[0]),
            Err(e) => Err(e),
        }
    }

    /// Reads one byte as a signed number.
    pub fn read_i8(&mut self) -> (outcome: Result<i8, VeroBufReaderError>)
        ensures
            final(self).bytes() == old(self).bytes(),
            1 <= old(self).rest().len() ==> {
                &&& outcome == Ok::<i8, VeroBufReaderError>(i8_of(old(self).rest()[0]))
                &&& final(self).cursor() == old(self).cursor() + 1
            },
            1 > old(self).rest().len() ==> {
                &&& outcome == Err::<i8, VeroBufReaderError>(VeroBufReaderError::ReadError)
                &&& final(self).cursor() == old(self).cursor()
            },
    {
        match self.read_bytes(1) {
            Ok(raw) => Ok(to_i8(raw[0])),
            Err(e) => Err(e),
        }
    }

    /// Reads two bytes as an unsigned big-endian number.
    pub fn read_u16(&mut self) -> (outcome: Result<u16, VeroBufReaderError>)
        ensures
            final(self).bytes() == old(self).bytes(),
            2 <= old(self).rest().len() ==> {
                &&& outcome == Ok::<u16, VeroBufReaderError>(u16_be(old(self).rest(), 0))
                &&& final(self).cursor() == old(self).cursor() + 2
            },
            2 > old(self).rest().len() ==> {
                &&& outcome == Err::<u16, VeroBufReaderError>(VeroBufReaderError::ReadError)
                &&& final(self).cursor() == old(self).cursor()
            },
    {
        match self.read_bytes(2) {
            Ok(raw) => Ok(read_u16_be(raw.as_slice(), 0)),
            Err(e) => Err(e),
        }
    }

    /// Reads two bytes as a signed big-endian number.
    pub fn read_i16(&mut self) -> (outcome: Result<i16, VeroBufReaderError>)
        ensures
            final(self).bytes() == old(self).bytes(),
            2 <= old(self).rest().len() ==> {
                &&& outcome == Ok::<i16, VeroBufReaderError>(i16_be(old(self).rest(), 0))
                &&& final(self).cursor() == old(self).cursor() + 2
            },
            2 > old(self).rest().len() ==> {
                &&& outcome == Err::<i16, VeroBufReaderError>(VeroBufReaderError::ReadError)
                &&& final(self).cursor() == old(self).cursor()
            },
    {
        match self.read_bytes(2) {
            Ok(raw) => Ok(to_i16(read_u16_be(raw.as_slice(), 0))),
            Err(e) => Err(e),
        }
    }

    /// Reads four bytes as an unsigned big-endian number.
    pub fn read_u32(&mut self) -> (outcome: Result<u32, VeroBufReaderError>)
        ensures
            final(self).bytes() == old(self).bytes(),
            4 <= old(self).rest().len() ==> {
                &&& outcome == Ok::<u32, VeroBufReaderError>(u32_be(old(self).rest(), 0))
                &&& final(self).cursor() == old(self).cursor() + 4
            },
            4 > old(self).rest().len() ==> {
                &&& outcome == Err::<u32, VeroBufReaderError>(VeroBufReaderError::ReadError)
                &&& final(self).cursor() == old(self).cursor()
            },
    {
        match self.read_bytes(4) {
            Ok(raw) => Ok(read_u32_be(raw.as_slice(), 0)),
            Err(e) => Err(e),
        }
    }

    /// Reads four bytes as a signed big-endian number.
    pub fn read_i32(&mut self) -> (outcome: Result<i32, VeroBufReaderError>)
        ensures
            final(self).bytes() == old(self).bytes(),
            4 <= old(self).rest().len() ==> {
                &&& outcome == Ok::<i32, VeroBufReaderError>(i32_be(old(self).rest(), 0))
                &&& final(self).cursor() == old(self).cursor() + 4
            },
            4 > old(self).rest().len() ==> {
                &&& outcome == Err::<i32, VeroBufReaderError>(VeroBufReaderError::ReadError)
                &&& final(self).cursor() == old(self).cursor()
            },
    {
        match self.read_bytes(4) {
            Ok(raw) => Ok(to_i32(read_u32_be(raw.as_slice(), 0))),
            Err(e) => Err(e),
        }
    }
}

} // verus!
