//! Byte-stream positioning and the I/O-kind errors of stream operations.
use vstd::prelude::*;
use crate::error::Error;

verus! {

/// Native whence constant: offset from the start.
pub const SEEK_SET: i32 = 0;

/// Native whence constant: offset from the current position.
pub const SEEK_CUR: i32 = 1;

/// Native whence constant: offset from the end.
pub const SEEK_END: i32 = 2;

/// A seek target, as a host byte stream states it.
#[derive(PartialEq, Eq, Structural, Debug, Clone, Copy)]
pub enum SeekFrom {
    Start(u64),
    End(i64),
    Current(i64),
}

/// The native whence constant of a seek target.
pub open spec fn whence_of(pos: SeekFrom) -> i32 {
    match pos {
        SeekFrom::Start(_) => SEEK_SET,
        SeekFrom::End(_) => SEEK_END,
        SeekFrom::Current(_) => SEEK_CUR,
    }
}

/// The offset of a seek target, as the 64-bit two's-complement value that the
/// native entry points take.
pub open spec fn offset_bits_of(pos: SeekFrom) -> u64 {
    match pos {
        SeekFrom::Start(o) => o,
        SeekFrom::End(o) => (#[verifier::truncate] (o as u64)),
        SeekFrom::Current(o) => (#[verifier::truncate] (o as u64)),
    }
}

/// The text that an I/O-kind error carries for a native error.
pub open spec fn io_text_of(e: Option<Error>) -> Seq<char> {
    match e {
        Some(Error::FFI(m)) => m@,
        Some(Error::Other(m)) => m@,
        Some(Error::Io(m)) => m@,
        _ => "error while getting error information"@,
    }
}

/// Maps a seek target to the native whence constant and offset.
pub fn native_seek_args(pos: SeekFrom) -> (r: (u64, i32))
    ensures
        r.0 == offset_bits_of(pos),
        r.1 == whence_of(pos),
{
    match pos {
        SeekFrom::Start(o) => (o, SEEK_SET),
        SeekFrom::End(o) => (#[verifier::truncate] (o as u64), SEEK_END),
        SeekFrom::Current(o) => (#[verifier::truncate] (o as u64), SEEK_CUR),
    }
}

/// Reads back a native whence constant and offset; an unknown whence is an
/// argument error, never a default.
pub fn seek_from_native(offset: u64, whence: i32) -> (r: Result<SeekFrom, Error>)
    ensures
        whence == SEEK_SET || whence == SEEK_CUR || whence == SEEK_END <==> r is Ok,
        r matches Ok(pos) ==> whence_of(pos) == whence && offset_bits_of(pos) == offset,
        r matches Err(e) ==> e matches Error::Other(m) && m@ == "invalid whence"@,
{
    let signed: i64 = #[verifier::truncate] (offset as i64);
    assert((#[verifier::truncate] (signed as u64)) == offset) by (bit_vector)
        requires signed == (#[verifier::truncate] (offset as i64));
    if whence == SEEK_SET {
        Ok(SeekFrom::Start(offset))
    } else if whence == SEEK_END {
        Ok(SeekFrom::End(signed))
    } else if whence == SEEK_CUR {
        Ok(SeekFrom::Current(signed))
    } else {
        Err(Error::Other("invalid whence".to_owned()))
    }
}

/// The I/O-kind error for a failed stream call, carrying the native error's text.
pub fn io_error(e: Option<Error>) -> (r: Error)
    ensures
        r matches Error::Io(m) && m@ == io_text_of(e),
{
    match e {
        Some(Error::FFI(m)) => Error::Io(m),
        Some(Error::Other(m)) => Error::Io(m),
        Some(Error::Io(m)) => Error::Io(m),
        _ => Error::Io("error while getting error information".to_owned()),
    }
}

} // verus!
