use binread::BinReaderExt;
use crate::error::Error;
use vstd::prelude::*;
use vstd::slice::{slice_subrange, slice_to_vec};

verus! {

/// Where a seek is measured from.
#[derive(Debug, Clone, Copy, PartialEq, Eq, Structural)]
pub enum SeekFrom {
    /// An offset from the first byte.
    Start(u64),
    /// An offset from one past the last byte.
    End(i64),
    /// An offset from the current position.
    Current(i64),
}

/// The unsigned 32-bit number whose little-endian encoding starts at `at`.
pub open spec fn le_u32_at(bytes: Seq<u8>, at: int) -> int
    recommends
        0 <= at,
        at + 4 <= bytes.len(),
{
    bytes[at] as int + 0x100 * (bytes[at + 1] as int) + 0x1_0000 * (bytes[at + 2] as int)
        + 0x100_0000 * (bytes[at + 3] as int)
}

/// The signed 32-bit number whose little-endian two's complement encoding
/// starts at `at`.
pub open spec fn le_i32_at(bytes: Seq<u8>, at: int) -> int
    recommends
        0 <= at,
        at + 4 <= bytes.len(),
{
    if le_u32_at(bytes, at) >= 0x8000_0000 {
        le_u32_at(bytes, at) - 0x1_0000_0000
    } else {
        le_u32_at(bytes, at)
    }
}

/// The absolute offset that a seek asks for.
pub open spec fn seek_target(len: nat, position: nat, to: SeekFrom) -> int {
    match to {
        SeekFrom::Start(n) => n as int,
        SeekFrom::End(n) => len + n,
        SeekFrom::Current(n) => position + n,
    }
}

/// Decodes an unsigned little-endian 32-bit number with
/// `binread::BinReaderExt::read_le` on a cursor over `bytes`. The read
/// succeeds exactly when four bytes are there, and then yields the number
/// that the first four bytes encode, lowest byte first. A failed read comes
/// back as `None`.
#[verifier::external_body]
fn decode_u32_le(bytes: &[u8]) -> (r: Option<u32>)
    ensures
        r is Some <==> bytes@.len() >= 4,
        r is Some ==> r->Some_0 == le_u32_at(bytes@, 0),
{
    std::io::Cursor::new(bytes).read_le::<u32>().ok()
}

/// Decodes a signed little-endian 32-bit number with
/// `binread::BinReaderExt::read_le` on a cursor over `bytes`. The read
/// succeeds exactly when four bytes are there, and then yields the two's
/// complement number that the first four bytes encode, lowest byte first.
/// A failed read comes back as `None`.
#[verifier::external_body]
fn decode_i32_le(bytes: &[u8]) -> (r: Option<i32>)
    ensures
        r is Some <==> bytes@.len() >= 4,
        r is Some ==> r->Some_0 == le_i32_at(bytes@, 0),
{
    std::io::Cursor::new(bytes).read_le::<i32>().ok()
}

/// A seekable byte source held in memory. As with a cursor, the position
/// may lie past the last byte; nothing can be read there.
#[derive(Debug)]
pub struct MemoryReader {
    data: Vec<u8>,
    pos: usize,
}

impl MemoryReader {
    /// All bytes of the source, whatever the position.
    pub closed spec fn bytes(&self) -> Seq<u8> {
        self.data@
    }

    /// The offset of the next byte to be read.
    pub closed spec fn position(&self) -> nat {
        self.pos as nat
    }

    /// How many bytes lie between the position and the end.
    pub open spec fn available(&self) -> nat {
        if self.position() <= self.bytes().len() {
            (self.bytes().len() - self.position()) as nat
        } else {
            0
        }
    }

    /// A source over `data`, positioned at its first byte.
    pub fn new(data: Vec<u8>) -> (r: MemoryReader)
        ensures
            r.bytes() == data@,
            r.position() == 0,
    {
        MemoryReader { data, pos: 0 }
    }

    /// The offset of the next byte to be read.
    pub fn stream_position(&self) -> (r: usize)
        ensures
            r == self.position(),
    {
        self.pos
    }

    /// Gives the bytes back.
    pub fn into_inner(self) -> (r: Vec<u8>)
        ensures
            r@ == self.bytes(),
    {
        self.data
    }

    fn rest(&self) -> (r: &[u8])
        ensures
            r@.len() == self.available(),
            self.bytes().len() <= usize::MAX,
            forall|i: int| 0 <= i < r@.len() ==> r@[i] == self.bytes()[self.position() + i],
    {
        let len: usize = self.data.len();
        let from: usize = if self.pos <= len { self.pos } else { len };
        slice_subrange(self.data.as_slice(), from, len)
    }

    /// Reads up to `count` bytes and moves the position past them. Fewer
    /// come back only where the source ends first.
    pub fn read(&mut self, count: usize) -> (out: Vec<u8>)
        ensures
            final(self).bytes() == old(self).bytes(),
            out@.len() == if count <= old(self).available() { count as nat } else { old(self).available() },
            forall|i: int| 0 <= i < out@.len() ==> out@[i] == old(self).bytes()[old(self).position() + i],
            final(self).position() == old(self).position() + out@.len(),
    {
        let rest = self.rest();
        let n: usize = if count <= rest.len() { count } else { rest.len() };
        let out = slice_to_vec(slice_subrange(rest, 0, n));
        self.pos = self.pos + n;
        out
    }

    /// Reads an unsigned little-endian 32-bit number. Where fewer than
    /// four bytes are left, nothing is consumed.
    pub fn read_u32_le(&mut self) -> (r: Result<u32, Error>)
        ensures
            final(self).bytes() == old(self).bytes(),
            old(self).available() >= 4 ==> r == Ok::<u32, Error>(
                le_u32_at(old(self).bytes(), old(self).position() as int) as u32,
            ) && final(self).position() == old(self).position() + 4,
            old(self).available() < 4 ==> r == Err::<u32, Error>(
                Error::ParseError(old(self).position() as usize),
            ) && final(self).position() == old(self).position(),
    {
        let decoded = decode_u32_le(self.rest());
        match decoded {
            Some(value) => {
                self.pos = self.pos + 4;
                Ok(value)
            },
            None => Err(Error::ParseError(self.pos)),
        }
    }

    /// Reads a signed little-endian 32-bit number. Where fewer than four
    /// bytes are left, nothing is consumed.
    pub fn read_i32_le(&mut self) -> (r: Result<i32, Error>)
        ensures
            final(self).bytes() == old(self).bytes(),
            old(self).available() >= 4 ==> r == Ok::<i32, Error>(
                le_i32_at(old(self).bytes(), old(self).position() as int) as i32,
            ) && final(self).position() == old(self).position() + 4,
            old(self).available() < 4 ==> r == Err::<i32, Error>(
                Error::ParseError(old(self).position() as usize),
            ) && final(self).position() == old(self).position(),
    {
        let decoded = decode_i32_le(self.rest());
        match decoded {
            Some(value) => {
                self.pos = self.pos + 4;
                Ok(value)
            },
            None => Err(Error::ParseError(self.pos)),
        }
    }

    /// Moves the position. A target before the first byte, or one that no
    /// offset can hold, is refused and leaves the position as it was.
    pub fn seek(&mut self, to: SeekFrom) -> (r: Result<u64, Error>)
        ensures
            final(self).bytes() == old(self).bytes(),
            ({
                let target = seek_target(old(self).bytes().len(), old(self).position(), to);
                if 0 <= target <= usize::MAX {
                    r == Ok::<u64, Error>(target as u64) && final(self).position() == target
                } else {
                    r == Err::<u64, Error>(Error::IoError(to)) && final(self).position() == old(
                        self,
                    ).position()
                }
            }),
    {
        let target: i128 = match to {
            SeekFrom::Start(n) => n as i128,
            SeekFrom::End(n) => self.data.len() as i128 + n as i128,
            SeekFrom::Current(n) => self.pos as i128 + n as i128,
        };
        if 0 <= target && target <= usize::MAX as i128 {
            self.pos = target as usize;
            Ok(target as u64)
        } else {
            Err(Error::IoError(to))
        }
    }
}

} // verus!
