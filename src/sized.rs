//! The two-call size-then-fetch protocol of the native engine: a first call
//! reports a size, and only a nonzero size is followed by a second call that
//! fills a buffer of that size.
use vstd::prelude::*;
use vstd::utf8::{decode_utf8, valid_utf8};
use crate::error::{decode_utf8_strict, Error};

verus! {

/// The text of a fetched string buffer: the native engine counts one
/// trailing NUL in the size, which is not part of the string.
pub open spec fn without_terminator(buffer: Seq<u8>) -> Seq<u8> {
    if buffer.len() == 0 {
        buffer
    } else {
        buffer.drop_last()
    }
}

/// `r` is what a fetched string buffer decodes to.
pub open spec fn decoded_text(buffer: Seq<u8>, r: Result<String, Error>) -> bool {
    let text = without_terminator(buffer);
    if valid_utf8(text) {
        r matches Ok(s) && s@ == decode_utf8(text)
    } else {
        r matches Err(Error::StringContainsInvalidUTF8(b)) && b@ == text
    }
}

/// `r` is what the protocol gives for a string, after the size call gave
/// `size` and, where one was made, the fetch call gave `fetched`.
pub open spec fn sized_string_result(
    size: Result<usize, Error>,
    fetched: Result<Vec<u8>, Error>,
    r: Result<String, Error>,
) -> bool {
    match size {
        Err(e) => r == Err::<String, Error>(e),
        Ok(n) => if n == 0 {
            r matches Ok(s) && s@ == Seq::<char>::empty()
        } else {
            match fetched {
                Err(e) => r == Err::<String, Error>(e),
                Ok(buffer) => decoded_text(buffer@, r),
            }
        },
    }
}

/// `r` is what the protocol gives for a byte blob, after the size call gave
/// `size` and, where one was made, the fetch call gave `fetched`.
pub open spec fn sized_bytes_result(
    size: Result<usize, Error>,
    fetched: Result<Vec<u8>, Error>,
    r: Result<Vec<u8>, Error>,
) -> bool {
    match size {
        Err(e) => r == Err::<Vec<u8>, Error>(e),
        Ok(n) => if n == 0 {
            r matches Ok(b) && b@ == Seq::<u8>::empty()
        } else {
            match fetched {
                Err(e) => r == Err::<Vec<u8>, Error>(e),
                Ok(buffer) => r matches Ok(b) && b@ == buffer@,
            }
        },
    }
}

/// `r` is a possible outcome of reading a string of `token` through
/// `get_size` and `get_string`.
pub open spec fn sized_string_read<
    S: FnOnce(usize) -> Result<usize, Error>,
    G: FnOnce(usize, usize) -> Result<Vec<u8>, Error>,
>(token: usize, get_size: S, get_string: G, r: Result<String, Error>) -> bool {
    exists|size: Result<usize, Error>, fetched: Result<Vec<u8>, Error>|
        get_size.ensures((token,), size)
        && (size is Ok && size->Ok_0 > 0 ==> get_string.ensures((token, size->Ok_0), fetched))
        && sized_string_result(size, fetched, r)
}

/// Decodes a fetched string buffer: drops its terminating byte and checks
/// that the rest is UTF-8.
pub fn decode_nul_terminated(buffer: Vec<u8>) -> (r: Result<String, Error>)
    ensures
        decoded_text(buffer@, r),
{
    let mut text = buffer;
    if text.len() > 0 {
        text.pop();
    }
    assert(text@ =~= without_terminator(buffer@));
    match decode_utf8_strict(text) {
        Ok(s) => Ok(s),
        Err(b) => Err(Error::StringContainsInvalidUTF8(b)),
    }
}

/// Reads a string through the size-then-fetch protocol. `get_size` is the
/// native size entry point and `get_string` the fetch entry point, which
/// fills a buffer of the given size; both take the native token.
/// A reported size of zero gives the empty string. `get_string` may be
/// called only with a positive size that `get_size` reported, so after a
/// reported zero it is not called.
pub fn get_sized_utf8_string<S, G>(token: usize, get_size: S, get_string: G) -> (r: Result<
    String,
    Error,
>)
    where
        S: FnOnce(usize) -> Result<usize, Error>,
        G: FnOnce(usize, usize) -> Result<Vec<u8>, Error>,
    requires
        get_size.requires((token,)),
        forall|n: usize|
            n > 0 && #[trigger] get_size.ensures((token,), Ok::<usize, Error>(n)) ==> get_string.requires(
                (token, n),
            ),
    ensures
        sized_string_read(token, get_size, get_string, r),
{
    let size = get_size(token);
    match size {
        Err(e) => {
            let r = Err(e);
            assert(sized_string_result(size, Err(Error::UnknownAttributeEnumVariant(0)), r));
            r
        },
        Ok(n) => {
            if n == 0 {
                let r = Ok(String::new());
                assert(sized_string_result(size, Err(Error::UnknownAttributeEnumVariant(0)), r));
                r
            } else {
                let fetched = get_string(token, n);
                let r = match fetched {
                    Err(e) => Err(e),
                    Ok(buffer) => decode_nul_terminated(buffer),
                };
                assert(sized_string_result(size, fetched, r));
                r
            }
        },
    }
}

/// Reads a byte blob through the size-then-fetch protocol; the bytes are
/// kept as fetched, with no terminator dropped.
pub fn get_sized_bytes<S, G>(token: usize, get_size: S, get_bytes: G) -> (r: Result<
    Vec<u8>,
    Error,
>)
    where
        S: FnOnce(usize) -> Result<usize, Error>,
        G: FnOnce(usize, usize) -> Result<Vec<u8>, Error>,
    requires
        get_size.requires((token,)),
        forall|n: usize|
            n > 0 && #[trigger] get_size.ensures((token,), Ok::<usize, Error>(n)) ==> get_bytes.requires(
                (token, n),
            ),
    ensures
        exists|size: Result<usize, Error>, fetched: Result<Vec<u8>, Error>|
            get_size.ensures((token,), size)
            && (size is Ok && size->Ok_0 > 0 ==> get_bytes.ensures((token, size->Ok_0), fetched))
            && sized_bytes_result(size, fetched, r),
{
    let size = get_size(token);
    match size {
        Err(e) => {
            let r = Err(e);
            assert(sized_bytes_result(size, Err(Error::UnknownAttributeEnumVariant(0)), r));
            r
        },
        Ok(n) => {
            if n == 0 {
                let r = Ok(Vec::new());
                assert(sized_bytes_result(size, Err(Error::UnknownAttributeEnumVariant(0)), r));
                r
            } else {
                let fetched = get_bytes(token, n);
                let r = match fetched {
                    Err(e) => Err(e),
                    Ok(buffer) => Ok(buffer),
                };
                assert(sized_bytes_result(size, fetched, r));
                r
            }
        },
    }
}

} // verus!
