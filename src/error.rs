use vstd::prelude::*;
use vstd::utf8::{decode_utf8, valid_utf8};

verus! {

/// Errors of the binding layer.
#[derive(Debug, Clone, PartialEq, Eq)]
pub enum Error {
    /// A numeric attribute-type code with no `AttributeType` variant.
    UnknownAttributeEnumVariant(u32),
    /// Bytes handed back by the native engine that are not UTF-8; it holds them.
    StringContainsInvalidUTF8(Vec<u8>),
    /// A string meant for the native engine holds a NUL at this byte offset.
    StringContainsNul(usize),
    /// A failure that the native engine reported, with its rendered message.
    FFI(String),
    /// A failed read, write or seek, with the text of its cause.
    Io(String),
    /// Any other failure of the host side.
    Other(String),
}

/// Capacity of the buffer that a native error object is rendered into.
pub const ERROR_BUFFER_SIZE: usize = 1024;

/// Index of the first NUL byte of `s`, or its length where it holds none.
pub open spec fn first_nul(s: Seq<u8>) -> int
    decreases s.len(),
{
    if s.len() == 0 || s[0] == 0 {
        0
    } else {
        1 + first_nul(s.drop_first())
    }
}

/// The first NUL lies within the sequence, and no byte before it is NUL.
pub(crate) proof fn lemma_first_nul_bounds(s: Seq<u8>)
    ensures
        0 <= first_nul(s) <= s.len(),
        first_nul(s) < s.len() ==> s[first_nul(s)] == 0,
        forall|j: int| 0 <= j < first_nul(s) ==> s[j] != 0,
    decreases s.len(),
{
    if s.len() != 0 && s[0] != 0 {
        lemma_first_nul_bounds(s.drop_first());
        assert forall|j: int| 0 <= j < first_nul(s) implies s[j] != 0 by {
            if j > 0 {
                assert(s[j] == s.drop_first()[j - 1]);
            }
        }
    }
}

/// The bytes of a NUL-terminated buffer up to its first NUL.
pub open spec fn text_before_nul(s: Seq<u8>) -> Seq<u8> {
    s.take(first_nul(s))
}

/// The first NUL is at `i` when no byte before `i` is NUL and `i` is the
/// end or a NUL.
pub(crate) proof fn lemma_first_nul(s: Seq<u8>, i: int)
    requires
        0 <= i <= s.len(),
        forall|j: int| 0 <= j < i ==> s[j] != 0,
        i == s.len() || s[i] == 0,
    ensures
        first_nul(s) == i,
    decreases s.len(),
{
    if s.len() != 0 && s[0] != 0 {
        lemma_first_nul(s.drop_first(), i - 1);
    }
}

/// What `String::from_utf8_lossy` makes of `bytes`.
pub uninterp spec fn lossy_utf8_of(bytes: Seq<u8>) -> Seq<char>;

/// Relies on `String::from_utf8_lossy`: the result depends on the bytes alone,
/// and valid UTF-8 is decoded as it stands.
#[verifier::external_body]
fn decode_utf8_lossy(bytes: &[u8]) -> (r: String)
    ensures
        r@ == lossy_utf8_of(bytes@),
        valid_utf8(bytes@) ==> r@ == decode_utf8(bytes@),
{
    String::from_utf8_lossy(bytes).into_owned()
}

/// Relies on `String::from_utf8`: it succeeds exactly on valid UTF-8 and then
/// holds the decoded characters; on failure `into_bytes` gives the input back.
#[verifier::external_body]
pub(crate) fn decode_utf8_strict(bytes: Vec<u8>) -> (r: Result<String, Vec<u8>>)
    ensures
        r is Ok <==> valid_utf8(bytes@),
        r matches Ok(s) ==> s@ == decode_utf8(bytes@),
        r matches Err(b) ==> b@ == bytes@,
{
    match String::from_utf8(bytes) {
        Ok(s) => Ok(s),
        Err(e) => Err(e.into_bytes()),
    }
}

/// The bytes of `buffer` before its first NUL.
pub fn text_before_nul_of(buffer: &Vec<u8>) -> (r: Vec<u8>)
    ensures
        r@ == text_before_nul(buffer@),
{
    let mut r: Vec<u8> = Vec::new();
    let mut i: usize = 0;
    while i < buffer.len() && buffer[i] != 0
        invariant
            i <= buffer.len(),
            r@ == buffer@.take(i as int),
            forall|j: int| 0 <= j < i ==> buffer@[j] != 0,
        decreases buffer.len() - i,
    {
        r.push(buffer[i]);
        i = i + 1;
        assert(r@ =~= buffer@.take(i as int));
    }
    proof {
        lemma_first_nul(buffer@, i as int);
    }
    r
}

/// The error that a native error object becomes, given whether the native
/// call left one and, if so, what rendering it gave.
pub open spec fn native_error_spec(present: bool, status: i32, rendered: Seq<u8>, e: Error) -> bool {
    if !present {
        e matches Error::Other(m) && m@ == "No Error"@
    } else if status < 0 {
        e matches Error::Other(m) && m@ == "failed to render error"@
    } else {
        e matches Error::FFI(m) && m@ == lossy_utf8_of(text_before_nul(rendered))
    }
}

impl Error {
    /// Builds the error for a rendered native error object: `status` is what
    /// the native render call returned, `rendered` the buffer it filled.
    pub fn from_rendered(status: i32, rendered: &Vec<u8>) -> (e: Error)
        ensures
            native_error_spec(true, status, rendered@, e),
    {
        if status < 0 {
            Error::Other("failed to render error".to_owned())
        } else {
            let text = text_before_nul_of(rendered);
            Error::FFI(decode_utf8_lossy(text.as_slice()))
        }
    }

}

/// `e` is what converting the native error object `token` gives through
/// `render`, and the object was released through `free`; the null object
/// (token 0) is neither rendered nor released.
pub open spec fn converted_and_freed<R: FnOnce(usize, usize) -> (i32, Vec<u8>), F: FnOnce(usize)>(
    token: usize,
    render: R,
    free: F,
    e: Error,
) -> bool {
    if token == 0 {
        native_error_spec(false, 0, Seq::empty(), e)
    } else {
        &&& free.ensures((token,), ())
        &&& exists|out: (i32, Vec<u8>)|
            #[trigger] render.ensures((token, ERROR_BUFFER_SIZE), out) && native_error_spec(
                true,
                out.0,
                out.1@,
                e,
            )
    }
}

/// Renders a native error object into a buffer of `ERROR_BUFFER_SIZE` bytes,
/// builds the error from it, then releases the object, whether or not the
/// rendering succeeded.
fn convert_and_free<R, F>(token: usize, render: R, free: F) -> (e: Error)
    where
        R: FnOnce(usize, usize) -> (i32, Vec<u8>),
        F: FnOnce(usize),
    requires
        token != 0 ==> render.requires((token, ERROR_BUFFER_SIZE)),
        token != 0 ==> free.requires((token,)),
    ensures
        converted_and_freed(token, render, free, e),
{
    if token == 0 {
        Error::Other("No Error".to_owned())
    } else {
        let out = render(token, ERROR_BUFFER_SIZE);
        let e = Error::from_rendered(out.0, &out.1);
        free(token);
        assert(render.ensures((token, ERROR_BUFFER_SIZE), out));
        e
    }
}

/// The error object of the NTFS engine that a failed call left behind.
/// Converting it consumes it, so it is released exactly once.
pub struct LibfsntfsError {
    token: usize,
}

/// The error object of the storage-handle library that a failed call left
/// behind. Converting it consumes it, so it is released exactly once.
pub struct LibbfioError {
    token: usize,
}

impl LibfsntfsError {
    /// Wraps a native error pointer; 0 is the null pointer.
    pub fn wrap_ptr(token: usize) -> (r: LibfsntfsError)
        ensures
            r.token() == token,
    {
        LibfsntfsError { token }
    }

    pub closed spec fn token(&self) -> usize {
        self.token
    }

    /// Converts the object through the native render entry point and
    /// releases it through the native free entry point.
    pub fn into_error<R, F>(self, render: R, free: F) -> (e: Error)
        where
            R: FnOnce(usize, usize) -> (i32, Vec<u8>),
            F: FnOnce(usize),
        requires
            self.token() != 0 ==> render.requires((self.token(), ERROR_BUFFER_SIZE)),
            self.token() != 0 ==> free.requires((self.token(),)),
        ensures
            converted_and_freed(self.token(), render, free, e),
    {
        convert_and_free(self.token, render, free)
    }
}

impl LibbfioError {
    /// Wraps a native error pointer; 0 is the null pointer.
    pub fn wrap_ptr(token: usize) -> (r: LibbfioError)
        ensures
            r.token() == token,
    {
        LibbfioError { token }
    }

    pub closed spec fn token(&self) -> usize {
        self.token
    }

    /// Converts the object through the native render entry point and
    /// releases it through the native free entry point.
    pub fn into_error<R, F>(self, render: R, free: F) -> (e: Error)
        where
            R: FnOnce(usize, usize) -> (i32, Vec<u8>),
            F: FnOnce(usize),
        requires
            self.token() != 0 ==> render.requires((self.token(), ERROR_BUFFER_SIZE)),
            self.token() != 0 ==> free.requires((self.token(),)),
        ensures
            converted_and_freed(self.token(), render, free, e),
    {
        convert_and_free(self.token, render, free)
    }
}

} // verus!
