use std::cell::RefCell;

use libfsntfs::backend::MemoryBackend;
use libfsntfs::error::Error;
use libfsntfs::handle::{Handle, LibbfioAccessFlags};
use libfsntfs::stream::SeekFrom;

const FILE_CONTENT: &[u8; 9] = b"some_data";

// A storage handle over an in-memory backend: the stubs of the native
// entry points forward to the backend callbacks.
struct Fixture {
    backend: RefCell<MemoryBackend>,
    handle: Handle,
    flags: i32,
}

fn fixture(flags: LibbfioAccessFlags) -> Fixture {
    let bits = flags.to_int();
    let backend = RefCell::new(MemoryBackend::new(FILE_CONTENT.to_vec(), bits));
    let handle = Handle::open(flags, || Ok(0x40), |_, _| Ok(()), |_| {}).unwrap();
    Fixture { backend, handle, flags: bits }
}

fn read(f: &mut Fixture, buf: &mut Vec<u8>, len: usize) -> Result<usize, Error> {
    let backend = &f.backend;
    f.handle.read(len, |_, n| {
        let chunk = backend.borrow_mut().read(n);
        buf.extend_from_slice(&chunk);
        (chunk.len() as isize, None)
    })
}

fn read_to_end(f: &mut Fixture, buf: &mut Vec<u8>) {
    while read(f, buf, 4).unwrap() > 0 {}
}

fn write(f: &mut Fixture, bytes: &[u8]) -> Result<usize, Error> {
    let backend = &f.backend;
    let flags = f.flags;
    f.handle.write(bytes, |_| Ok(flags), |_, b| match backend.borrow_mut().write(b) {
        Ok(n) => (n as isize, None),
        Err(e) => (-1, Some(e)),
    })
}

fn seek(f: &mut Fixture, pos: SeekFrom) -> Result<u64, Error> {
    let backend = &f.backend;
    f.handle.seek(pos, |_, offset, whence| match backend.borrow_mut().seek(offset, whence) {
        Ok(p) => (p, None),
        Err(e) => (0, Some(e)),
    })
}

#[test]
fn handle_test_read() {
    let mut handle = fixture(LibbfioAccessFlags::Read);
    let mut buf = vec![];
    read_to_end(&mut handle, &mut buf);
    assert_eq!(buf, FILE_CONTENT);
}

#[test]
fn test_write_checks_access_flags() {
    let mut handle = fixture(LibbfioAccessFlags::Read);
    assert!(write(&mut handle, b"Hello").is_err());
    assert_eq!(handle.backend.borrow().to_vec(), FILE_CONTENT.to_vec());
}

#[test]
fn test_seek() {
    let mut handle = fixture(LibbfioAccessFlags::Read);
    let mut buf = vec![];
    seek(&mut handle, SeekFrom::Current(2)).unwrap();
    read_to_end(&mut handle, &mut buf);
    assert_eq!(buf, &FILE_CONTENT[2..]);
}

#[test]
fn write_with_write_access_reaches_the_backend() {
    let mut handle = fixture(LibbfioAccessFlags::Write);
    assert_eq!(write(&mut handle, b"Hello").unwrap(), 5);
    assert_eq!(handle.backend.borrow().to_vec(), b"Hellodata".to_vec());
}

#[test]
fn refused_write_does_not_call_the_native_write() {
    let mut handle = Handle::wrap_ptr(1);
    let r = handle.write(b"x", |_| Ok(0x01), |_, _| panic!("no native write"));
    assert!(matches!(r, Err(Error::Io(m)) if m == "file is not open for writing"));
    let r = handle.write(b"x", |_| Err(Error::FFI("flags failed".to_string())), |_, _| panic!());
    assert!(matches!(r, Err(Error::Io(m)) if m == "flags failed"));
}

#[test]
fn seek_maps_whence_and_reports_errors() {
    let mut handle = Handle::wrap_ptr(1);
    let r = handle.seek(SeekFrom::End(-3), |_, offset, whence| {
        assert_eq!(offset, (-3i64) as u64);
        assert_eq!(whence, 2);
        (6, None)
    });
    assert_eq!(r.unwrap(), 6);
    let r = handle.seek(SeekFrom::Start(4), |_, offset, whence| {
        assert_eq!((offset, whence), (4, 0));
        (0, Some(Error::FFI("seek failed".to_string())))
    });
    assert!(matches!(r, Err(Error::Io(m)) if m == "seek failed"));
}

#[test]
fn read_error_is_an_io_error() {
    let mut handle = Handle::wrap_ptr(1);
    let r = handle.read(8, |_, _| (-1, Some(Error::FFI("read failed".to_string()))));
    assert!(matches!(r, Err(Error::Io(m)) if m == "read failed"));
    let r = handle.read(8, |_, _| (-1, None));
    assert!(matches!(r, Err(Error::Io(m)) if m == "error while getting error information"));
}

#[test]
fn failed_access_flags_release_the_handle() {
    let released = std::cell::Cell::new(false);
    let r = Handle::open(
        LibbfioAccessFlags::Read,
        || Ok(0x40),
        |_, bits| {
            assert_eq!(bits, 1);
            Err(Error::FFI("set flags failed".to_string()))
        },
        |t| {
            assert_eq!(t, 0x40);
            released.set(true);
        },
    );
    assert!(r.is_err());
    assert!(released.get());
}

#[test]
fn access_flag_bits() {
    assert_eq!(LibbfioAccessFlags::Read.to_int(), 1);
    assert_eq!(LibbfioAccessFlags::Write.to_int(), 2);
    assert_eq!(LibbfioAccessFlags::Truncate.to_int(), 4);
}

#[test]
fn backend_seek_rejects_unknown_whence_and_negative_targets() {
    let mut b = MemoryBackend::new(FILE_CONTENT.to_vec(), 1);
    assert!(matches!(b.seek(0, 3), Err(Error::Other(m)) if m == "invalid whence"));
    assert!(b.seek((-1i64) as u64, 1).is_err());
    assert_eq!(b.seek((-2i64) as u64, 2).unwrap(), 7);
    assert_eq!(b.read_to_end(), b"ta".to_vec());
    assert_eq!(b.get_size(), 9);
}

#[test]
fn backend_read_stops_at_the_end() {
    let mut b = MemoryBackend::new(FILE_CONTENT.to_vec(), 1);
    assert_eq!(b.read(4), b"some".to_vec());
    assert_eq!(b.read(100), b"_data".to_vec());
    assert!(b.read(1).is_empty());
    assert_eq!(b.seek(20, 0).unwrap(), 20);
    assert!(b.read(3).is_empty());
}

#[test]
fn backend_write_past_the_end_fills_with_zeros() {
    let mut b = MemoryBackend::new(b"ab".to_vec(), 3);
    b.seek(4, 0).unwrap();
    assert_eq!(b.write(b"cd").unwrap(), 2);
    assert_eq!(b.to_vec(), vec![b'a', b'b', 0, 0, b'c', b'd']);
    assert_eq!(b.get_size(), 6);
}
