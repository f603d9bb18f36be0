use libfsntfs::error::Error;
use libfsntfs::file_entry::FileEntry;
use libfsntfs::stream::{io_error, native_seek_args, seek_from_native, SeekFrom};

#[test]
fn file_entry_test_read() {
    // An entry with a default data stream, read through a stub of the native read.
    let mut entry = FileEntry::wrap_ptr(0x30);
    let mut buf = [0; 4096];
    let data = b"FILE0";
    let read = entry.read(buf.len(), |_, len| {
        let n = data.len().min(len);
        buf[..n].copy_from_slice(&data[..n]);
        (n as isize, None)
    });
    assert_eq!(read.unwrap(), 5);

    assert!(!buf.is_empty())
}

#[test]
fn io_errors_carry_the_native_text() {
    assert_eq!(io_error(Some(Error::FFI("x".to_string()))), Error::Io("x".to_string()));
    assert_eq!(
        io_error(Some(Error::StringContainsNul(0))),
        Error::Io("error while getting error information".to_string())
    );
    assert_eq!(io_error(None), Error::Io("error while getting error information".to_string()));
}

#[test]
fn seek_targets_map_to_native_whence() {
    assert_eq!(native_seek_args(SeekFrom::Start(9)), (9, 0));
    assert_eq!(native_seek_args(SeekFrom::Current(-1)), (u64::MAX, 1));
    assert_eq!(native_seek_args(SeekFrom::End(3)), (3, 2));
    assert_eq!(seek_from_native(u64::MAX, 1).unwrap(), SeekFrom::Current(-1));
    assert_eq!(seek_from_native(5, 7), Err(Error::Other("invalid whence".to_string())));
}

#[test]
fn entry_stream_read_and_seek() {
    let mut entry = FileEntry::wrap_ptr(3);
    assert_eq!(entry.read(4096, |t, len| {
        assert_eq!((t, len), (3, 4096));
        (4096, None)
    }).unwrap(), 4096);
    assert!(matches!(entry.read(1, |_, _| (-1, Some(Error::FFI("bad".to_string())))), Err(Error::Io(m)) if m == "bad"));
    assert_eq!(entry.seek(SeekFrom::Current(-2), |_, offset, whence| {
        assert_eq!((offset, whence), (-2, 1));
        (10, None)
    }).unwrap(), 10);
    assert!(entry.seek(SeekFrom::End(0), |_, _, _| (-1, None)).is_err());
    assert_eq!(entry.get_size(|_| Ok(4096)).unwrap(), 4096);
    let name = entry.get_name(|_| Ok(5), |_, n| Ok(b"$MFT\0"[..n].to_vec()));
    assert_eq!(name.unwrap(), "$MFT");
}
