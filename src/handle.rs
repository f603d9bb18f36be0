//! The native storage handle that couples an I/O backend to the decoding engine.
use vstd::prelude::*;
use crate::ffi::AsTypeRef;
use crate::error::Error;
use crate::stream::{io_error, io_text_of, native_seek_args, offset_bits_of, whence_of, SeekFrom};

verus! {

/// Access flags of a storage handle.
#[derive(PartialEq, Eq, Structural, Debug, Clone, Copy)]
pub enum LibbfioAccessFlags {
    Read,
    Write,
    Truncate,
}

pub open spec fn access_bits_of(flags: LibbfioAccessFlags) -> i32 {
    match flags {
        LibbfioAccessFlags::Read => 0x01,
        LibbfioAccessFlags::Write => 0x02,
        LibbfioAccessFlags::Truncate => 0x04,
    }
}

/// Whether a native access-flag bitmask grants writing (bit 2).
pub open spec fn grants_write(bits: i32) -> bool {
    bits & 0x02 != 0
}

/// Whether a native access-flag bitmask grants writing.
pub fn allows_write(bits: i32) -> (r: bool)
    ensures
        r == grants_write(bits),
{
    bits & 0x02 != 0
}

impl LibbfioAccessFlags {
    /// The native bit of this flag.
    pub fn to_int(&self) -> (r: i32)
        ensures
            r == access_bits_of(*self),
    {
        match self {
            LibbfioAccessFlags::Read => 0x01,
            LibbfioAccessFlags::Write => 0x02,
            LibbfioAccessFlags::Truncate => 0x04,
        }
    }
}

/// A native storage-handle token.
#[derive(Debug)]
pub struct Handle {
    token: usize,
}

/// `r` is what a handle read or write gives for the native reply
/// `(count, error)`: a reported error fails the call.
pub open spec fn transfer_reply(reply: (isize, Option<Error>), r: Result<usize, Error>) -> bool {
    if reply.1 is Some || reply.0 < 0 {
        r matches Err(Error::Io(m)) && m@ == io_text_of(reply.1)
    } else {
        r == Ok::<usize, Error>(reply.0 as usize)
    }
}

/// `r` is what a handle seek gives for the native reply `(offset, error)`.
pub open spec fn handle_seek_reply(reply: (u64, Option<Error>), r: Result<u64, Error>) -> bool {
    if reply.1 is Some {
        r matches Err(Error::Io(m)) && m@ == io_text_of(reply.1)
    } else {
        r == Ok::<u64, Error>(reply.0)
    }
}

/// The error for a write on a handle that was not opened for writing.
pub open spec fn is_not_writable_error(e: Error) -> bool {
    e matches Error::Io(m) && m@ == "file is not open for writing"@
}

fn transfer_result(reply: (isize, Option<Error>)) -> (r: Result<usize, Error>)
    ensures
        transfer_reply(reply, r),
{
    if reply.1.is_some() || reply.0 < 0 {
        Err(io_error(reply.1))
    } else {
        Ok(reply.0 as usize)
    }
}

impl Handle {
    /// Wraps a native storage-handle token.
    pub fn wrap_ptr(token: usize) -> (r: Handle)
        ensures
            r.token() == token,
    {
        Handle { token }
    }

    pub closed spec fn token(&self) -> usize {
        self.token
    }


    /// Makes a storage handle: `initialize` allocates it over a registered
    /// backend and gives its token, `set_access_flags` records the flags, and
    /// `free` releases it. When recording the flags fails, the handle is
    /// released before the error is returned.
    pub fn open<I, A, F>(flags: LibbfioAccessFlags, initialize: I, set_access_flags: A, free: F) -> (r:
        Result<Handle, Error>)
        where
            I: FnOnce() -> Result<usize, Error>,
            A: FnOnce(usize, i32) -> Result<(), Error>,
            F: FnOnce(usize),
        requires
            initialize.requires(()),
            forall|t: usize, f: i32| #[trigger] set_access_flags.requires((t, f)),
            forall|t: usize| #[trigger] free.requires((t,)),
        ensures
            exists|allocated: Result<usize, Error>|
                #[trigger] initialize.ensures((), allocated) && match allocated {
                    Err(e) => r == Err::<Handle, Error>(e),
                    Ok(token) => exists|set: Result<(), Error>|
                        #[trigger] set_access_flags.ensures((token, access_bits_of(flags)), set)
                            && match set {
                            Ok(_) => r matches Ok(h) && h.token() == token,
                            Err(e) => r == Err::<Handle, Error>(e) && free.ensures((token,), ()),
                        },
                },
    {
        let allocated = initialize();
        match allocated {
            Err(e) => Err(e),
            Ok(token) => {
                let bits = flags.to_int();
                let set = set_access_flags(token, bits);
                let r = match set {
                    Ok(_) => Ok(Handle::wrap_ptr(token)),
                    Err(e) => {
                        free(token);
                        Err(e)
                    },
                };
                assert(set_access_flags.ensures((token, access_bits_of(flags)), set));
                r
            },
        }
    }

    /// Reads through the native buffered read at the current offset.
    /// `read_buffer` is called with the token and the buffer length and gives
    /// the count read and the native error, if any.
    pub fn read<G>(&mut self, len: usize, read_buffer: G) -> (r: Result<usize, Error>)
        where
            G: FnOnce(usize, usize) -> (isize, Option<Error>),
        requires
            read_buffer.requires((old(self).token(), len)),
        ensures
            final(self).token() == old(self).token(),
            exists|reply: (isize, Option<Error>)|
                #[trigger] read_buffer.ensures((old(self).token(), len), reply) && transfer_reply(
                    reply,
                    r,
                ),
    {
        let reply = read_buffer(self.token, len);
        let r = transfer_result(reply);
        assert(read_buffer.ensures((old(self).token(), len), reply));
        r
    }

    /// Writes `buf` through the native buffered write, after checking the
    /// access flags that the handle recorded: a handle without write access
    /// refuses with an error. `write_buffer` may be called only after flags
    /// that grant writing were read, so it is not called otherwise.
    pub fn write<A, G>(&mut self, buf: &[u8], get_access_flags: A, write_buffer: G) -> (r: Result<
        usize,
        Error,
    >)
        where
            A: FnOnce(usize) -> Result<i32, Error>,
            G: FnOnce(usize, &[u8]) -> (isize, Option<Error>),
        requires
            get_access_flags.requires((old(self).token(),)),
            forall|bits: i32|
                grants_write(bits) && #[trigger] get_access_flags.ensures(
                    (old(self).token(),),
                    Ok::<i32, Error>(bits),
                ) ==> write_buffer.requires((old(self).token(), buf)),
        ensures
            final(self).token() == old(self).token(),
            exists|flags: Result<i32, Error>|
                #[trigger] get_access_flags.ensures((old(self).token(),), flags) && match flags {
                    Err(e) => r matches Err(Error::Io(m)) && m@ == io_text_of(Some(e)),
                    Ok(bits) => if !grants_write(bits) {
                        r matches Err(e) && is_not_writable_error(e)
                    } else {
                        exists|reply: (isize, Option<Error>)|
                            #[trigger] write_buffer.ensures((old(self).token(), buf), reply)
                                && transfer_reply(reply, r)
                    },
                },
    {
        let flags = get_access_flags(self.token);
        assert(get_access_flags.ensures((old(self).token(),), flags));
        match flags {
            Err(e) => Err(io_error(Some(e))),
            Ok(bits) => {
                if !allows_write(bits) {
                    Err(Error::Io("file is not open for writing".to_owned()))
                } else {
                    let reply = write_buffer(self.token, buf);
                    let r = transfer_result(reply);
                    assert(write_buffer.ensures((old(self).token(), buf), reply));
                    r
                }
            },
        }
    }

    /// Moves the handle's offset. `seek_offset` is the native seek, called
    /// with the token, the offset and the native whence constant; it gives the
    /// new offset and the native error, if any.
    pub fn seek<G>(&mut self, pos: SeekFrom, seek_offset: G) -> (r: Result<u64, Error>)
        where
            G: FnOnce(usize, u64, i32) -> (u64, Option<Error>),
        requires
            forall|o: u64, w: i32| #[trigger] seek_offset.requires((old(self).token(), o, w)),
        ensures
            final(self).token() == old(self).token(),
            exists|reply: (u64, Option<Error>)|
                #[trigger] seek_offset.ensures(
                    (old(self).token(), offset_bits_of(pos), whence_of(pos)),
                    reply,
                ) && handle_seek_reply(reply, r),
    {
        let (offset, whence) = native_seek_args(pos);
        assert(seek_offset.requires((old(self).token(), offset, whence)));
        let reply = seek_offset(self.token, offset, whence);
        let r = if reply.1.is_some() {
            Err(io_error(reply.1))
        } else {
            Ok(reply.0)
        };
        assert(seek_offset.ensures((old(self).token(), offset, whence), reply));
        r
    }
}


impl AsTypeRef for Handle {
    open spec fn type_ref(&self) -> usize {
        self.token()
    }

    fn as_type_ref(&self) -> (r: usize) {
        self.token
    }
}

} // verus!
