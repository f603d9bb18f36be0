//! One decoded MFT record of a volume.
use vstd::prelude::*;
use crate::attribute::Attribute;
use crate::ffi::AsTypeRef;
use crate::error::Error;
use crate::sized::{get_sized_utf8_string, sized_string_read};
use crate::stream::{io_error, io_text_of, native_seek_args, offset_bits_of, whence_of, SeekFrom};

verus! {

/// A native file-entry token, valid while the volume it came from is alive.
#[derive(Debug)]
pub struct FileEntry {
    token: usize,
}

/// Walks the attributes of a file entry by index, up to the count that was
/// read when the walk began.
pub struct IterAttributes<'a> {
    handle: &'a FileEntry,
    num_attributes: u32,
    idx: u32,
}

/// `r` is what a stream read gives for the native reply `(count, error)`.
pub open spec fn read_reply(reply: (isize, Option<Error>), r: Result<usize, Error>) -> bool {
    if reply.0 < 0 {
        r matches Err(Error::Io(m)) && m@ == io_text_of(reply.1)
    } else {
        r == Ok::<usize, Error>(reply.0 as usize)
    }
}

/// `r` is what a file-entry seek gives for the native reply `(offset, error)`.
pub open spec fn entry_seek_reply(reply: (i64, Option<Error>), r: Result<u64, Error>) -> bool {
    if reply.0 < 0 {
        r matches Err(Error::Io(m)) && m@ == io_text_of(reply.1)
    } else {
        r == Ok::<u64, Error>(reply.0 as u64)
    }
}

/// `r` is a possible outcome of looking up attribute `index` of `token`.
pub open spec fn attribute_lookup<G: FnOnce(usize, i32) -> Result<usize, Error>>(
    lookup: G,
    token: usize,
    index: i32,
    r: Result<Attribute, Error>,
) -> bool {
    exists|reply: Result<usize, Error>|
        #[trigger] lookup.ensures((token, index), reply) && match reply {
            Ok(t) => r matches Ok(a) && a.token() == t,
            Err(e) => r == Err::<Attribute, Error>(e),
        }
}

/// The number of attributes that a native count stands for.
pub open spec fn attribute_count(n: i32) -> u32 {
    if n < 0 {
        0
    } else {
        n as u32
    }
}

impl FileEntry {
    /// Wraps a native file-entry token.
    pub fn wrap_ptr(token: usize) -> (r: FileEntry)
        ensures
            r.token() == token,
    {
        FileEntry { token }
    }

    pub closed spec fn token(&self) -> usize {
        self.token
    }


    /// The logical size of the entry's data, from the native size getter.
    pub fn get_size<G>(&self, read_size: G) -> (r: Result<u64, Error>)
        where
            G: FnOnce(usize) -> Result<u64, Error>,
        requires
            read_size.requires((self.token(),)),
        ensures
            read_size.ensures((self.token(),), r),
    {
        read_size(self.token)
    }

    /// The entry's name, through the native size and fetch entry points.
    pub fn get_name<S, G>(&self, get_size: S, get_string: G) -> (r: Result<String, Error>)
        where
            S: FnOnce(usize) -> Result<usize, Error>,
            G: FnOnce(usize, usize) -> Result<Vec<u8>, Error>,
        requires
            get_size.requires((self.token(),)),
            forall|n: usize|
                n > 0 && #[trigger] get_size.ensures((self.token(),), Ok::<usize, Error>(n))
                    ==> get_string.requires((self.token(), n)),
        ensures
            sized_string_read(self.token(), get_size, get_string, r),
    {
        get_sized_utf8_string(self.token, get_size, get_string)
    }

    /// The number of attributes, from the native count getter.
    pub fn get_number_of_attributes<G>(&self, read_count: G) -> (r: Result<i32, Error>)
        where
            G: FnOnce(usize) -> Result<i32, Error>,
        requires
            read_count.requires((self.token(),)),
        ensures
            read_count.ensures((self.token(),), r),
    {
        read_count(self.token)
    }

    /// The attribute at `attribute_index`, from the native lookup, which
    /// gives the attribute's token.
    pub fn get_attribute_by_index<G>(&self, attribute_index: i32, lookup: G) -> (r: Result<
        Attribute,
        Error,
    >)
        where
            G: FnOnce(usize, i32) -> Result<usize, Error>,
        requires
            lookup.requires((self.token(), attribute_index)),
        ensures
            attribute_lookup(lookup, self.token(), attribute_index, r),
    {
        let reply = lookup(self.token, attribute_index);
        let r = match reply {
            Ok(t) => Ok(Attribute::wrap_ptr(t)),
            Err(e) => Err(e),
        };
        assert(lookup.ensures((self.token(), attribute_index), reply));
        r
    }

    /// Begins a walk over the attributes, bounded by the count read now.
    pub fn iter_attributes<G>(&self, read_count: G) -> (r: Result<IterAttributes<'_>, Error>)
        where
            G: FnOnce(usize) -> Result<i32, Error>,
        requires
            read_count.requires((self.token(),)),
        ensures
            exists|reply: Result<i32, Error>|
                read_count.ensures((self.token(),), reply) && match reply {
                    Ok(n) => r matches Ok(it) && it.entry_token() == self.token()
                        && it.count() == attribute_count(n) && it.position() == 0,
                    Err(e) => r matches Err(e2) && e2 == e,
                },
    {
        let reply = self.get_number_of_attributes(read_count);
        match reply {
            Ok(n) => {
                let num_attributes: u32 = if n < 0 {
                    0
                } else {
                    n as u32
                };
                Ok(IterAttributes { handle: self, num_attributes, idx: 0 })
            },
            Err(e) => Err(e),
        }
    }

    /// Reads from the entry's primary data stream at its current position.
    /// `read_buffer` is the native read entry point, called with the token
    /// and the buffer length; it gives the count it read (negative on
    /// failure) and the native error, if any.
    pub fn read<G>(&mut self, len: usize, read_buffer: G) -> (r: Result<usize, Error>)
        where
            G: FnOnce(usize, usize) -> (isize, Option<Error>),
        requires
            read_buffer.requires((old(self).token(), len)),
        ensures
            final(self).token() == old(self).token(),
            exists|reply: (isize, Option<Error>)|
                read_buffer.ensures((old(self).token(), len), reply) && read_reply(reply, r),
    {
        let reply = read_buffer(self.token, len);
        let r = if reply.0 < 0 {
            Err(io_error(reply.1))
        } else {
            Ok(reply.0 as usize)
        };
        assert(read_buffer.ensures((old(self).token(), len), reply) && read_reply(reply, r));
        r
    }

    /// Moves the position in the entry's primary data stream. `seek_offset`
    /// is the native seek entry point, called with the token, the offset and
    /// the native whence constant; it gives the new offset (negative on
    /// failure) and the native error, if any.
    pub fn seek<G>(&mut self, pos: SeekFrom, seek_offset: G) -> (r: Result<u64, Error>)
        where
            G: FnOnce(usize, i64, i32) -> (i64, Option<Error>),
        requires
            forall|o: i64, w: i32| #[trigger] seek_offset.requires((old(self).token(), o, w)),
        ensures
            final(self).token() == old(self).token(),
            exists|reply: (i64, Option<Error>)|
                seek_offset.ensures(
                    (old(self).token(), (#[verifier::truncate] (offset_bits_of(pos) as i64)), whence_of(pos)),
                    reply,
                ) && entry_seek_reply(reply, r),
    {
        let (bits, whence) = native_seek_args(pos);
        let offset: i64 = #[verifier::truncate] (bits as i64);
        assert(seek_offset.requires((old(self).token(), offset, whence)));
        let reply = seek_offset(self.token, offset, whence);
        let r = if reply.0 < 0 {
            Err(io_error(reply.1))
        } else {
            Ok(reply.0 as u64)
        };
        assert(entry_seek_reply(reply, r));
        r
    }
}

impl<'a> IterAttributes<'a> {
    pub closed spec fn entry_token(&self) -> usize {
        self.handle.token()
    }

    /// The number of attributes that the walk covers.
    pub closed spec fn count(&self) -> u32 {
        self.num_attributes
    }

    /// The index of the next attribute.
    pub closed spec fn position(&self) -> u32 {
        self.idx
    }

    /// The next attribute, looked up by its index; `None` once the count is
    /// reached. A failed lookup is an item of its own and does not end the walk.
    pub fn next<G>(&mut self, lookup: G) -> (r: Option<Result<Attribute, Error>>)
        where
            G: FnOnce(usize, i32) -> Result<usize, Error>,
        requires
            old(self).position() < old(self).count() ==> lookup.requires(
                (old(self).entry_token(), old(self).position() as i32),
            ),
        ensures
            final(self).entry_token() == old(self).entry_token(),
            final(self).count() == old(self).count(),
            old(self).position() < old(self).count() ==> {
                &&& final(self).position() == old(self).position() + 1
                &&& r matches Some(item) && attribute_lookup(
                    lookup,
                    old(self).entry_token(),
                    old(self).position() as i32,
                    item,
                )
            },
            old(self).position() >= old(self).count() ==> r is None && final(self).position()
                == old(self).position(),
    {
        if self.idx < self.num_attributes {
            let item = self.handle.get_attribute_by_index(self.idx as i32, lookup);
            self.idx = self.idx + 1;
            Some(item)
        } else {
            None
        }
    }
}


impl AsTypeRef for FileEntry {
    open spec fn type_ref(&self) -> usize {
        self.token()
    }

    fn as_type_ref(&self) -> (r: usize) {
        self.token
    }
}

} // verus!
