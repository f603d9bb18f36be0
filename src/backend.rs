//! An in-memory I/O backend with the semantics that the native engine
//! expects of its read, write, seek and size callbacks.
use vstd::prelude::*;
use crate::error::Error;
use crate::handle::{allows_write, grants_write};
use crate::stream::{seek_from_native, SeekFrom, SEEK_CUR, SEEK_END, SEEK_SET};

verus! {

/// A byte buffer with a current position and the access flags it was opened with.
pub struct MemoryBackend {
    data: Vec<u8>,
    position: usize,
    access: i32,
}

/// The bytes that a read of at most `len` bytes at `pos` gives.
pub open spec fn read_span(data: Seq<u8>, pos: int, len: int) -> Seq<u8> {
    if pos >= data.len() {
        Seq::empty()
    } else if pos + len >= data.len() {
        data.skip(pos)
    } else {
        data.subrange(pos, pos + len)
    }
}

/// The bytes from `pos` to the end.
pub open spec fn rest_from(data: Seq<u8>, pos: int) -> Seq<u8> {
    if pos >= data.len() {
        Seq::empty()
    } else {
        data.skip(pos)
    }
}

/// The position that a seek asks for, from the size, the current position,
/// the native offset and the native whence constant.
pub open spec fn seek_target(size: int, pos: int, offset: u64, whence: i32) -> int {
    if whence == SEEK_SET {
        offset as int
    } else if whence == SEEK_CUR {
        pos + (#[verifier::truncate] (offset as i64)) as int
    } else {
        size + (#[verifier::truncate] (offset as i64)) as int
    }
}

/// The contents after writing `bytes` at `pos`; a gap past the end is
/// filled with zero bytes.
pub open spec fn written(data: Seq<u8>, pos: int, bytes: Seq<u8>) -> Seq<u8> {
    let padded = if pos > data.len() {
        data + Seq::new((pos - data.len()) as nat, |i: int| 0u8)
    } else {
        data
    };
    let end = pos + bytes.len();
    padded.take(pos) + bytes + if end < padded.len() {
        padded.skip(end)
    } else {
        Seq::empty()
    }
}

/// The error of a write on a backend that was not opened for writing.
pub open spec fn is_read_only_error(e: Error) -> bool {
    e matches Error::Io(m) && m@ == "backend is not open for writing"@
}

impl MemoryBackend {
    pub closed spec fn contents(&self) -> Seq<u8> {
        self.data@
    }

    pub closed spec fn position(&self) -> int {
        self.position as int
    }

    pub closed spec fn access(&self) -> i32 {
        self.access
    }

    /// A backend over `data`, at position 0, with the native access flags `access`.
    pub fn new(data: Vec<u8>, access: i32) -> (r: MemoryBackend)
        ensures
            r.contents() == data@,
            r.position() == 0,
            r.access() == access,
    {
        MemoryBackend { data, position: 0, access }
    }

    /// The total length, without moving the position.
    pub fn get_size(&self) -> (r: u64)
        ensures
            r as int == self.contents().len(),
    {
        self.data.len() as u64
    }

    /// The whole contents.
    pub fn to_vec(&self) -> (r: Vec<u8>)
        ensures
            r@ == self.contents(),
    {
        self.data.clone()
    }

    /// Reads at most `len` bytes at the position and moves past them; at or
    /// past the end it reads nothing.
    pub fn read(&mut self, len: usize) -> (r: Vec<u8>)
        ensures
            r@ == read_span(old(self).contents(), old(self).position(), len as int),
            final(self).contents() == old(self).contents(),
            final(self).access() == old(self).access(),
            final(self).position() == old(self).position() + r@.len(),
    {
        let mut r: Vec<u8> = Vec::new();
        if self.position >= self.data.len() {
            return r;
        }
        let avail: usize = self.data.len() - self.position;
        let n: usize = if len < avail {
            len
        } else {
            avail
        };
        let start = self.position;
        let mut i: usize = 0;
        while i < n
            invariant
                i <= n,
                n <= avail,
                avail == self.data.len() - start,
                start == self.position,
                start < self.data.len(),
                r@ == self.data@.subrange(start as int, start + i),
            decreases n - i,
        {
            r.push(self.data[start + i]);
            i = i + 1;
            assert(r@ =~= self.data@.subrange(start as int, start + i));
        }
        self.position = start + n;
        proof {
            if start + len >= self.data@.len() {
                assert(r@ =~= self.data@.skip(start as int));
            }
        }
        r
    }

    /// Reads everything from the position to the end, and moves to the end;
    /// a position past the end stays where it is.
    pub fn read_to_end(&mut self) -> (r: Vec<u8>)
        ensures
            r@ == rest_from(old(self).contents(), old(self).position()),
            final(self).contents() == old(self).contents(),
            final(self).access() == old(self).access(),
            final(self).position() == if old(self).position() >= old(self).contents().len() {
                old(self).position()
            } else {
                old(self).contents().len() as int
            },
    {
        if self.position >= self.data.len() {
            return Vec::new();
        }
        let len: usize = self.data.len() - self.position;
        self.read(len)
    }

    /// Writes `bytes` at the position and moves past them. A backend opened
    /// without write access refuses, and its contents stay as they were.
    pub fn write(&mut self, bytes: &[u8]) -> (r: Result<usize, Error>)
        ensures
            !grants_write(old(self).access()) ==> (r matches Err(e) && is_read_only_error(e)),
            !grants_write(old(self).access()) ==> final(self).contents() == old(self).contents()
                && final(self).position() == old(self).position(),
            grants_write(old(self).access()) && old(self).position() + bytes@.len() <= usize::MAX
                ==> r == Ok::<usize, Error>(bytes@.len() as usize) && final(self).contents()
                == written(old(self).contents(), old(self).position(), bytes@)
                && final(self).position() == old(self).position() + bytes@.len(),
            old(self).position() + bytes@.len() > usize::MAX ==> r is Err && final(self).contents()
                == old(self).contents(),
            final(self).access() == old(self).access(),
    {
        if !allows_write(self.access) {
            return Err(Error::Io("backend is not open for writing".to_owned()));
        }
        if bytes.len() > usize::MAX - self.position {
            return Err(Error::Io("write past the addressable size".to_owned()));
        }
        let pos = self.position;
        let ghost old_data = self.data@;
        let ghost padded = if pos > old_data.len() {
            old_data + Seq::new((pos - old_data.len()) as nat, |i: int| 0u8)
        } else {
            old_data
        };
        while self.data.len() < pos
            invariant
                old_data.len() <= self.data@.len() <= pos || self.data@ == old_data,
                self.data@.len() <= pos ==> self.data@ == padded.take(self.data@.len() as int),
                self.data@.len() > pos ==> self.data@ == old_data,
                self.position == pos,
                self.access == old(self).access,
                grants_write(self.access),
                padded == (if pos > old_data.len() {
                    old_data + Seq::new((pos - old_data.len()) as nat, |i: int| 0u8)
                } else {
                    old_data
                }),
            decreases pos - self.data.len(),
        {
            self.data.push(0);
            assert(self.data@ =~= padded.take(self.data@.len() as int));
        }
        assert(self.data@ =~= padded) by {
            if pos > old_data.len() {
                assert(self.data@.len() == pos);
            }
        }
        let mut i: usize = 0;
        while i < bytes.len()
            invariant
                i <= bytes@.len(),
                pos + bytes@.len() <= usize::MAX,
                self.position == pos,
                self.access == old(self).access,
                grants_write(self.access),
                padded.len() >= pos,
                self.data@.len() == if pos + i > padded.len() { pos + i } else { padded.len() as int },
                self.data@ =~= padded.take(pos as int) + bytes@.take(i as int) + if pos + i < padded.len() {
                    padded.skip(pos + i)
                } else {
                    Seq::empty()
                },
            decreases bytes@.len() - i,
        {
            let p: usize = pos + i;
            if p < self.data.len() {
                self.data.set(p, bytes[i]);
            } else {
                self.data.push(bytes[i]);
            }
            i = i + 1;
            assert(self.data@ =~= padded.take(pos as int) + bytes@.take(i as int) + if pos + i
                < padded.len() {
                padded.skip(pos + i)
            } else {
                Seq::empty()
            });
        }
        assert(bytes@.take(i as int) =~= bytes@);
        self.position = pos + bytes.len();
        Ok(bytes.len())
    }

    /// Moves the position as the native seek callback asks: `whence` is a
    /// native whence constant, and an unknown one is an argument error. A
    /// target before the start, or past the addressable size, is refused;
    /// a refused seek leaves the position where it was.
    pub fn seek(&mut self, offset: u64, whence: i32) -> (r: Result<u64, Error>)
        ensures
            final(self).contents() == old(self).contents(),
            final(self).access() == old(self).access(),
            !(whence == SEEK_SET || whence == SEEK_CUR || whence == SEEK_END) ==> r is Err,
            r matches Ok(p) ==> p as int == seek_target(
                old(self).contents().len() as int,
                old(self).position(),
                offset,
                whence,
            ) && final(self).position() == p as int,
            (whence == SEEK_SET || whence == SEEK_CUR || whence == SEEK_END) && 0 <= seek_target(
                old(self).contents().len() as int,
                old(self).position(),
                offset,
                whence,
            ) <= usize::MAX ==> r is Ok,
            r is Err ==> final(self).position() == old(self).position(),
    {
        let pos = match seek_from_native(offset, whence) {
            Ok(p) => p,
            Err(e) => return Err(e),
        };
        proof {
            match pos {
                SeekFrom::Current(d) | SeekFrom::End(d) => {
                    assert((#[verifier::truncate] (offset as i64)) == d) by (bit_vector)
                        requires offset == (#[verifier::truncate] (d as u64));
                },
                _ => {},
            }
        }
        let target: i128 = match pos {
            SeekFrom::Start(o) => o as i128,
            SeekFrom::Current(d) => self.position as i128 + d as i128,
            SeekFrom::End(d) => self.data.len() as i128 + d as i128,
        };
        if target < 0 || target > usize::MAX as i128 {
            return Err(Error::Io("invalid seek to a negative or overflowing position".to_owned()));
        }
        self.position = target as usize;
        Ok(target as u64)
    }
}

/// A seek by `d` from the current position followed by reading to the end
/// gives the contents from the new position on: for contents
/// `b"some_data"` at position 0, a seek by 2 leaves `b"me_data"`.
pub proof fn lemma_seek_then_read_to_end(data: Seq<u8>, pos: int, d: i64)
    requires
        0 <= pos + d <= data.len(),
    ensures
        rest_from(data, seek_target(data.len() as int, pos, (#[verifier::truncate] (d as u64)), SEEK_CUR))
            == if pos + d == data.len() { Seq::<u8>::empty() } else { data.skip(pos + d) },
{
    let bits: u64 = #[verifier::truncate] (d as u64);
    assert((#[verifier::truncate] (bits as i64)) == d) by (bit_vector)
        requires bits == (#[verifier::truncate] (d as u64));
}

} // verus!
