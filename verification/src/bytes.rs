//! A seekable cursor over the archive's bytes, with little-endian readers.

use vstd::prelude::*;

verus! {

/// The kinds of failure an extraction can end in.
#[derive(Clone, Copy, Debug, PartialEq, Eq, Structural)]
pub enum ZipError {
    /// A read or seek went past the end of the archive.
    Io,
    /// A record's extra-field area is malformed (its byte budget underflows).
    Decode,
    /// A signature other than the one the current state expects was read.
    Protocol,
    /// The central directory was exhausted without a name match.
    NotFound,
    /// The local file header's name disagrees with the directory entry.
    NameMismatch,
}

/// The little-endian value of the two bytes of `b` starting at `i`.
pub open spec fn le16(b: Seq<u8>, i: int) -> int {
    b[i] as int + 0x100 * (b[i + 1] as int)
}

/// The little-endian value of the four bytes of `b` starting at `i`.
pub open spec fn le32(b: Seq<u8>, i: int) -> int {
    le16(b, i) + 0x10000 * le16(b, i + 2)
}

/// The little-endian value of the eight bytes of `b` starting at `i`.
pub open spec fn le64(b: Seq<u8>, i: int) -> int {
    le32(b, i) + 0x100000000 * le32(b, i + 4)
}

/// A cursor over the whole archive: the bytes plus the current position.
///
/// Reads consume bytes at the position; seeks move the position. A read
/// that would run past the end fails with `ZipError::Io` and moves nothing,
/// as does a seek beyond the end.
pub struct ByteReader {
    pub data: Vec<u8>,
    pub pos: usize,
}

impl ByteReader {
    /// A cursor over `data`, positioned at its first byte.
    pub fn new(data: Vec<u8>) -> (r: Self)
        ensures
            r.data@ == data@,
            r.pos == 0,
    {
        ByteReader { data, pos: 0 }
    }

    /// How many bytes the archive holds.
    pub fn len(&self) -> (r: usize)
        ensures
            r == self.data@.len(),
    {
        self.data.len()
    }

    /// Reads one little-endian `u16` at the position.
    pub fn read_u16(&mut self) -> (r: Result<u16, ZipError>)
        ensures
            final(self).data@ == old(self).data@,
            old(self).pos + 2 <= old(self).data@.len() ==> {
                &&& r is Ok
                &&& r->Ok_0 as int == le16(old(self).data@, old(self).pos as int)
                &&& final(self).pos == old(self).pos + 2
            },
            old(self).pos + 2 > old(self).data@.len() ==> {
                &&& r == Result::<u16, ZipError>::Err(ZipError::Io)
                &&& final(self).pos == old(self).pos
            },
    {
        if self.pos <= self.data.len() && 2 <= self.data.len() - self.pos {
            let b0 = self.data[self.pos];
            let b1 = self.data[self.pos + 1];
            self.pos = self.pos + 2;
            Ok(b0 as u16 + (b1 as u16) * 0x100)
        } else {
            Err(ZipError::Io)
        }
    }

    /// Reads one little-endian `u32` at the position.
    pub fn read_u32(&mut self) -> (r: Result<u32, ZipError>)
        ensures
            final(self).data@ == old(self).data@,
            old(self).pos + 4 <= old(self).data@.len() ==> {
                &&& r is Ok
                &&& r->Ok_0 as int == le32(old(self).data@, old(self).pos as int)
                &&& final(self).pos == old(self).pos + 4
            },
            old(self).pos + 4 > old(self).data@.len() ==> {
                &&& r == Result::<u32, ZipError>::Err(ZipError::Io)
                &&& final(self).pos == old(self).pos
            },
    {
        if self.pos <= self.data.len() && 4 <= self.data.len() - self.pos {
            let lo = self.read_u16();
            let hi = self.read_u16();
            match (lo, hi) {
                (Ok(lo), Ok(hi)) => Ok(lo as u32 + (hi as u32) * 0x10000),
                _ => Err(ZipError::Io),
            }
        } else {
            Err(ZipError::Io)
        }
    }

    /// Reads one little-endian `u64` at the position.
    pub fn read_u64(&mut self) -> (r: Result<u64, ZipError>)
        ensures
            final(self).data@ == old(self).data@,
            old(self).pos + 8 <= old(self).data@.len() ==> {
                &&& r is Ok
                &&& r->Ok_0 as int == le64(old(self).data@, old(self).pos as int)
                &&& final(self).pos == old(self).pos + 8
            },
            old(self).pos + 8 > old(self).data@.len() ==> {
                &&& r == Result::<u64, ZipError>::Err(ZipError::Io)
                &&& final(self).pos == old(self).pos
            },
    {
        if self.pos <= self.data.len() && 8 <= self.data.len() - self.pos {
            let lo = self.read_u32();
            let hi = self.read_u32();
            match (lo, hi) {
                (Ok(lo), Ok(hi)) => Ok(lo as u64 + (hi as u64) * 0x100000000),
                _ => Err(ZipError::Io),
            }
        } else {
            Err(ZipError::Io)
        }
    }

    /// Reads exactly `n` bytes at the position.
    pub fn read_bytes(&mut self, n: usize) -> (r: Result<Vec<u8>, ZipError>)
        ensures
            final(self).data@ == old(self).data@,
            old(self).pos + n <= old(self).data@.len() ==> {
                &&& r is Ok
                &&& r->Ok_0@ == old(self).data@.subrange(
                    old(self).pos as int,
                    old(self).pos + n,
                )
                &&& final(self).pos == old(self).pos + n
            },
            old(self).pos + n > old(self).data@.len() ==> {
                &&& r == Result::<Vec<u8>, ZipError>::Err(ZipError::Io)
                &&& final(self).pos == old(self).pos
            },
    {
        if self.pos <= self.data.len() && n <= self.data.len() - self.pos {
            let mut out: Vec<u8> = Vec::new();
            let mut i: usize = 0;
            while i < n
                invariant
                    self.pos + n <= self.data@.len(),
                    self.data@.len() <= usize::MAX,
                    i <= n,
                    out@ == self.data@.subrange(self.pos as int, self.pos + i),
                decreases n - i,
            {
                out.push(self.data[self.pos + i]);
                proof {
                    assert(out@ =~= self.data@.subrange(self.pos as int, self.pos + i + 1));
                }
                i = i + 1;
            }
            self.pos = self.pos + n;
            Ok(out)
        } else {
            Err(ZipError::Io)
        }
    }

    /// Moves the position forward by `n` bytes.
    pub fn skip(&mut self, n: usize) -> (r: Result<(), ZipError>)
        ensures
            final(self).data@ == old(self).data@,
            old(self).pos + n <= old(self).data@.len() ==> {
                &&& r is Ok
                &&& final(self).pos == old(self).pos + n
            },
            old(self).pos + n > old(self).data@.len() ==> {
                &&& r == Result::<(), ZipError>::Err(ZipError::Io)
                &&& final(self).pos == old(self).pos
            },
    {
        if self.pos <= self.data.len() && n <= self.data.len() - self.pos {
            self.pos = self.pos + n;
            Ok(())
        } else {
            Err(ZipError::Io)
        }
    }

    /// Moves the position to the absolute byte offset `offset`.
    pub fn seek_to(&mut self, offset: u64) -> (r: Result<(), ZipError>)
        ensures
            final(self).data@ == old(self).data@,
            offset <= old(self).data@.len() ==> {
                &&& r is Ok
                &&& final(self).pos == offset
            },
            offset > old(self).data@.len() ==> {
                &&& r == Result::<(), ZipError>::Err(ZipError::Io)
                &&& final(self).pos == old(self).pos
            },
    {
        if offset <= self.data.len() as u64 {
            self.pos = offset as usize;
            Ok(())
        } else {
            Err(ZipError::Io)
        }
    }

    /// Moves the position to `n` bytes before the end of the archive.
    pub fn seek_from_end(&mut self, n: usize) -> (r: Result<(), ZipError>)
        ensures
            final(self).data@ == old(self).data@,
            n <= old(self).data@.len() ==> {
                &&& r is Ok
                &&& final(self).pos == old(self).data@.len() - n
            },
            n > old(self).data@.len() ==> {
                &&& r == Result::<(), ZipError>::Err(ZipError::Io)
                &&& final(self).pos == old(self).pos
            },
    {
        if n <= self.data.len() {
            self.pos = self.data.len() - n;
            Ok(())
        } else {
            Err(ZipError::Io)
        }
    }
}

} // verus!
