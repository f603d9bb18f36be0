//! The top-level handle of a decoded NTFS volume.
use vstd::prelude::*;
use vstd::string::StringSliceAdditionalSpecFns;
use crate::ffi::AsTypeRef;
use crate::error::{first_nul, lemma_first_nul, lemma_first_nul_bounds, Error};
use crate::file_entry::FileEntry;
use crate::handle::Handle;
use crate::sized::{get_sized_utf8_string, sized_string_read};

verus! {

/// How a volume is opened.
#[derive(PartialEq, Eq, Structural, Debug, Clone, Copy)]
pub enum AccessMode {
    Read,
    Write,
}

/// Native access flag for reading (bit 1).
pub const ACCESS_FLAG_READ: i32 = 0x01;

/// Native access flag for writing (bit 2).
pub const ACCESS_FLAG_WRITE: i32 = 0x02;

pub open spec fn access_flag_of(mode: AccessMode) -> i32 {
    match mode {
        AccessMode::Read => ACCESS_FLAG_READ,
        AccessMode::Write => ACCESS_FLAG_WRITE,
    }
}

impl AccessMode {
    /// The native access-flag bitmask of this mode.
    pub fn as_flag(&self) -> (r: i32)
        ensures
            r == access_flag_of(*self),
    {
        match self {
            AccessMode::Read => ACCESS_FLAG_READ,
            AccessMode::Write => ACCESS_FLAG_WRITE,
        }
    }
}

/// The NUL-terminated form of a string's bytes, for a string that holds no NUL.
pub open spec fn c_string_of(bytes: Seq<u8>) -> Seq<u8> {
    bytes.push(0)
}

/// `r` is what converting `bytes` to a native NUL-terminated string gives:
/// the error names the first NUL, if there is one.
pub open spec fn c_string_result(bytes: Seq<u8>, r: Result<Vec<u8>, Error>) -> bool {
    if first_nul(bytes) < bytes.len() {
        r == Err::<Vec<u8>, Error>(Error::StringContainsNul(first_nul(bytes) as usize))
    } else {
        r matches Ok(b) && b@ == c_string_of(bytes)
    }
}

/// Converts a string to the NUL-terminated bytes that the native engine
/// takes; a NUL inside the string is rejected before any native call.
pub fn to_c_string(s: &str) -> (r: Result<Vec<u8>, Error>)
    ensures
        c_string_result(s.spec_bytes(), r),
{
    let bytes = s.as_bytes();
    let mut out: Vec<u8> = Vec::new();
    let mut i: usize = 0;
    while i < bytes.len()
        invariant
            i <= bytes@.len(),
            bytes@ == s.spec_bytes(),
            out@ == bytes@.take(i as int),
            forall|j: int| 0 <= j < i ==> bytes@[j] != 0,
        decreases bytes@.len() - i,
    {
        if bytes[i] == 0 {
            proof {
                lemma_first_nul(bytes@, i as int);
            }
            return Err(Error::StringContainsNul(i));
        }
        out.push(bytes[i]);
        i = i + 1;
        assert(out@ =~= bytes@.take(i as int));
    }
    proof {
        lemma_first_nul(bytes@, i as int);
        assert(out@ =~= bytes@);
    }
    out.push(0);
    Ok(out)
}

/// A native volume token.
#[derive(Debug)]
pub struct Volume {
    token: usize,
}

/// Walks the file entries of a volume by MFT index, up to the count that was
/// read when the walk began.
pub struct IterFileEntries<'a> {
    handle: &'a Volume,
    number_of_file_entries: u64,
    idx: u64,
}

/// `r` is a possible outcome of looking up the entry `index` of `token`.
pub open spec fn entry_lookup<G: FnOnce(usize, u64) -> Result<usize, Error>>(
    lookup: G,
    token: usize,
    index: u64,
    r: Result<FileEntry, Error>,
) -> bool {
    exists|reply: Result<usize, Error>|
        #[trigger] lookup.ensures((token, index), reply) && match reply {
            Ok(t) => r matches Ok(f) && f.token() == t,
            Err(e) => r == Err::<FileEntry, Error>(e),
        }
}

/// `r` is what opening gives once the native open call on `token` replied `opened`.
pub open spec fn open_reply<F: FnOnce(usize)>(
    free: F,
    token: usize,
    opened: Result<(), Error>,
    r: Result<Volume, Error>,
) -> bool {
    match opened {
        Ok(_) => r matches Ok(v) && v.token() == token,
        Err(e) => r == Err::<Volume, Error>(e) && free.ensures((token,), ()),
    }
}

/// Position of a walk after one step over `count` entries.
pub open spec fn step_position(count: u64, position: u64) -> u64 {
    if position < count {
        (position + 1) as u64
    } else {
        position
    }
}

/// Position of a walk over `count` entries, begun at index 0, after `k` steps.
pub open spec fn position_after(count: u64, k: nat) -> u64
    decreases k,
{
    if k == 0 {
        0
    } else {
        step_position(count, position_after(count, (k - 1) as nat))
    }
}

/// A walk over `count` entries that begins at index 0 yields an item at each
/// of its first `count` steps, for the indices `0, 1, ..., count - 1` in
/// turn, and none afterwards: it yields exactly `count` items.
pub proof fn lemma_iteration_totality(count: u64, k: nat)
    ensures
        k <= count ==> position_after(count, k) == k,
        k > count ==> position_after(count, k) == count,
        position_after(count, k) < count <==> k < count,
    decreases k,
{
    if k > 0 {
        lemma_iteration_totality(count, (k - 1) as nat);
    }
}

impl Volume {
    /// Wraps a native volume token.
    pub fn wrap_ptr(token: usize) -> (r: Volume)
        ensures
            r.token() == token,
    {
        Volume { token }
    }

    pub closed spec fn token(&self) -> usize {
        self.token
    }


    /// Opens a volume by file name. `initialize` allocates a native volume
    /// and gives its token; `open` opens it with the NUL-terminated name and
    /// the access flags; `free` releases it. A name that holds a NUL is
    /// rejected before any native call. When the allocation fails there is
    /// nothing to release; when opening fails, the allocated volume is
    /// released before the error is returned.
    pub fn open<I, O, F>(filename: &str, mode: AccessMode, initialize: I, open: O, free: F) -> (r:
        Result<Volume, Error>)
        where
            I: FnOnce() -> Result<usize, Error>,
            O: FnOnce(usize, Vec<u8>, i32) -> Result<(), Error>,
            F: FnOnce(usize),
        requires
            initialize.requires(()),
            forall|t: usize, p: Vec<u8>, f: i32| #[trigger] open.requires((t, p, f)),
            forall|t: usize| #[trigger] free.requires((t,)),
        ensures
            first_nul(filename.spec_bytes()) < filename.spec_bytes().len() ==> r == Err::<
                Volume,
                Error,
            >(Error::StringContainsNul(first_nul(filename.spec_bytes()) as usize)),
            first_nul(filename.spec_bytes()) == filename.spec_bytes().len() ==> exists|
                allocated: Result<usize, Error>,
            |
                #[trigger] initialize.ensures((), allocated) && match allocated {
                    Err(e) => r == Err::<Volume, Error>(e),
                    Ok(token) => exists|path: Vec<u8>, opened: Result<(), Error>|
                        path@ == c_string_of(filename.spec_bytes()) && #[trigger] open.ensures(
                            (token, path, access_flag_of(mode)),
                            opened,
                        ) && open_reply(free, token, opened, r),
                },
    {
        proof {
            lemma_first_nul_bounds(filename.spec_bytes());
        }
        let path = match to_c_string(filename) {
            Ok(p) => p,
            Err(e) => return Err(e),
        };
        let ghost path_view = path;
        let allocated = initialize();
        match allocated {
            Err(e) => Err(e),
            Ok(token) => {
                let flag = mode.as_flag();
                let opened = open(token, path, flag);
                let r = match opened {
                    Ok(_) => Ok(Volume::wrap_ptr(token)),
                    Err(e) => {
                        free(token);
                        Err(e)
                    },
                };
                assert(open.ensures((token, path_view, access_flag_of(mode)), opened));
                assert(open_reply(free, token, opened, r));
                r
            },
        }
    }

    /// Opens a volume over a storage handle instead of a file name.
    /// `initialize` allocates a native volume and gives its token; `open`
    /// binds it to the handle's token with the access flags; `free` releases
    /// it. When opening fails, the allocated volume is released before the
    /// error is returned.
    pub fn open_file_io_handle<I, O, F>(
        io_handle: &Handle,
        mode: AccessMode,
        initialize: I,
        open: O,
        free: F,
    ) -> (r: Result<Volume, Error>)
        where
            I: FnOnce() -> Result<usize, Error>,
            O: FnOnce(usize, usize, i32) -> Result<(), Error>,
            F: FnOnce(usize),
        requires
            initialize.requires(()),
            forall|t: usize, h: usize, f: i32| #[trigger] open.requires((t, h, f)),
            forall|t: usize| #[trigger] free.requires((t,)),
        ensures
            exists|allocated: Result<usize, Error>|
                #[trigger] initialize.ensures((), allocated) && match allocated {
                    Err(e) => r == Err::<Volume, Error>(e),
                    Ok(token) => exists|opened: Result<(), Error>|
                        #[trigger] open.ensures((token, io_handle.type_ref(), access_flag_of(mode)), opened)
                            && open_reply(free, token, opened, r),
                },
    {
        let allocated = initialize();
        match allocated {
            Err(e) => Err(e),
            Ok(token) => {
                let flag = mode.as_flag();
                let handle_token = io_handle.as_type_ref();
                let opened = open(token, handle_token, flag);
                let r = match opened {
                    Ok(_) => Ok(Volume::wrap_ptr(token)),
                    Err(e) => {
                        free(token);
                        Err(e)
                    },
                };
                assert(open.ensures((token, io_handle.type_ref(), access_flag_of(mode)), opened));
                assert(open_reply(free, token, opened, r));
                r
            },
        }
    }

    /// The volume's name, through the native size and fetch entry points.
    pub fn get_name<S, G>(&self, get_size: S, get_string: G) -> (r: Result<String, Error>)
        where
            S: FnOnce(usize) -> Result<usize, Error>,
            G: FnOnce(usize, usize) -> Result<Vec<u8>, Error>,
        requires
            get_size.requires((self.token(),)),
            forall|n: usize|
                n > 0 && #[trigger] get_size.ensures((self.token(),), Ok::<usize, Error>(n))
                    ==> get_string.requires((self.token(), n)),
        ensures
            sized_string_read(self.token(), get_size, get_string, r),
    {
        get_sized_utf8_string(self.token, get_size, get_string)
    }

    /// The volume serial number, from the native getter.
    pub fn get_serial_number<G>(&self, read_serial: G) -> (r: Result<u64, Error>)
        where
            G: FnOnce(usize) -> Result<u64, Error>,
        requires
            read_serial.requires((self.token(),)),
        ensures
            read_serial.ensures((self.token(),), r),
    {
        read_serial(self.token)
    }

    /// The number of file entries, from the native getter.
    pub fn get_number_of_file_entries<G>(&self, read_count: G) -> (r: Result<u64, Error>)
        where
            G: FnOnce(usize) -> Result<u64, Error>,
        requires
            read_count.requires((self.token(),)),
        ensures
            read_count.ensures((self.token(),), r),
    {
        read_count(self.token)
    }

    /// The file entry at MFT index `idx`. The index is not checked here: an
    /// index out of range is the native lookup's error.
    pub fn get_file_entry_by_mft_idx<G>(&self, idx: u64, lookup: G) -> (r: Result<FileEntry, Error>)
        where
            G: FnOnce(usize, u64) -> Result<usize, Error>,
        requires
            lookup.requires((self.token(), idx)),
        ensures
            entry_lookup(lookup, self.token(), idx, r),
    {
        let reply = lookup(self.token, idx);
        let r = match reply {
            Ok(t) => Ok(FileEntry::wrap_ptr(t)),
            Err(e) => Err(e),
        };
        assert(lookup.ensures((self.token(), idx), reply));
        r
    }

    /// The file entry at `path`, from the native path walk, which takes the
    /// path's UTF-8 bytes.
    pub fn get_file_entry_by_path<G>(&self, path: &str, lookup: G) -> (r: Result<FileEntry, Error>)
        where
            G: FnOnce(usize, &[u8]) -> Result<usize, Error>,
        requires
            forall|b: &[u8]| #[trigger] lookup.requires((self.token(), b)),
        ensures
            exists|bytes: &[u8], reply: Result<usize, Error>|
                bytes@ == path.spec_bytes() && #[trigger] lookup.ensures((self.token(), bytes), reply)
                    && match reply {
                    Ok(t) => r matches Ok(f) && f.token() == t,
                    Err(e) => r == Err::<FileEntry, Error>(e),
                },
    {
        let bytes = path.as_bytes();
        let reply = lookup(self.token, bytes);
        let r = match reply {
            Ok(t) => Ok(FileEntry::wrap_ptr(t)),
            Err(e) => Err(e),
        };
        assert(lookup.ensures((self.token(), bytes), reply));
        r
    }

    /// The root directory, from the native getter, which gives its token.
    pub fn get_root_directory<G>(&self, lookup: G) -> (r: Result<FileEntry, Error>)
        where
            G: FnOnce(usize) -> Result<usize, Error>,
        requires
            lookup.requires((self.token(),)),
        ensures
            exists|reply: Result<usize, Error>|
                #[trigger] lookup.ensures((self.token(),), reply) && match reply {
                    Ok(t) => r matches Ok(f) && f.token() == t,
                    Err(e) => r == Err::<FileEntry, Error>(e),
                },
    {
        let reply = lookup(self.token);
        let r = match reply {
            Ok(t) => Ok(FileEntry::wrap_ptr(t)),
            Err(e) => Err(e),
        };
        assert(lookup.ensures((self.token(),), reply));
        r
    }

    /// Begins a walk over the file entries, bounded by the count read now;
    /// each call reads the count anew, so a walk can be restarted.
    pub fn iter_entries<G>(&self, read_count: G) -> (r: Result<IterFileEntries<'_>, Error>)
        where
            G: FnOnce(usize) -> Result<u64, Error>,
        requires
            read_count.requires((self.token(),)),
        ensures
            exists|reply: Result<u64, Error>|
                #[trigger] read_count.ensures((self.token(),), reply) && match reply {
                    Ok(n) => r matches Ok(it) && it.volume_token() == self.token() && it.count()
                        == n && it.position() == 0,
                    Err(e) => r matches Err(e2) && e2 == e,
                },
    {
        let reply = self.get_number_of_file_entries(read_count);
        match reply {
            Ok(n) => Ok(IterFileEntries { handle: self, number_of_file_entries: n, idx: 0 }),
            Err(e) => Err(e),
        }
    }
}

impl<'a> IterFileEntries<'a> {
    pub closed spec fn volume_token(&self) -> usize {
        self.handle.token()
    }

    /// The number of entries that the walk covers.
    pub closed spec fn count(&self) -> u64 {
        self.number_of_file_entries
    }

    /// The MFT index of the next entry.
    pub closed spec fn position(&self) -> u64 {
        self.idx
    }

    /// The next file entry, looked up by its MFT index; `None` once the count
    /// is reached. A failed lookup is an item of its own and does not end the
    /// walk: the caller decides whether to stop.
    pub fn next<G>(&mut self, lookup: G) -> (r: Option<Result<FileEntry, Error>>)
        where
            G: FnOnce(usize, u64) -> Result<usize, Error>,
        requires
            old(self).position() < old(self).count() ==> lookup.requires(
                (old(self).volume_token(), old(self).position()),
            ),
        ensures
            final(self).volume_token() == old(self).volume_token(),
            final(self).count() == old(self).count(),
            final(self).position() == step_position(old(self).count(), old(self).position()),
            r is Some <==> old(self).position() < old(self).count(),
            r matches Some(item) ==> entry_lookup(
                lookup,
                old(self).volume_token(),
                old(self).position(),
                item,
            ),
    {
        if self.idx < self.number_of_file_entries {
            let item = self.handle.get_file_entry_by_mft_idx(self.idx, lookup);
            self.idx = self.idx + 1;
            Some(item)
        } else {
            None
        }
    }
}


impl AsTypeRef for Volume {
    open spec fn type_ref(&self) -> usize {
        self.token()
    }

    fn as_type_ref(&self) -> (r: usize) {
        self.token
    }
}

} // verus!
