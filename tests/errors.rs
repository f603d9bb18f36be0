use std::cell::Cell;

use libfsntfs::error::{text_before_nul_of, Error, LibbfioError, LibfsntfsError};
use libfsntfs::sized::{decode_nul_terminated, get_sized_bytes, get_sized_utf8_string};
use libfsntfs::volume::{AccessMode, Volume};

fn rendered(message: &str) -> Vec<u8> {
    let mut buffer = message.as_bytes().to_vec();
    buffer.resize(1024, 0);
    buffer
}

#[test]
fn test_error() {
    // The native open fails and leaves an error object, rendered as the
    // engine renders it.
    let result = Volume::open(
        "non-existent",
        AccessMode::Read,
        || Ok(1),
        |_, _, _| {
            let buffer = rendered("libfsntfs_volume_open: unable to open volume.");
            Err(Error::from_rendered(45, &buffer))
        },
        |_| {},
    );
    assert!(result.is_err());

    if let Err(e) = result {
        if let Error::FFI(s) = e {
            assert!(s.find("libfsntfs_volume_open").is_some(), "should contain FFI function name");
            assert!(s.find("unable to open volume").is_some(), "should contain message string");

            return;
        }
    }

    panic!("Test should not reach here!");
}

#[test]
fn render_failure_is_reported() {
    assert_eq!(
        Error::from_rendered(-1, &vec![0; 16]),
        Error::Other("failed to render error".to_string())
    );
}

#[test]
fn rendered_text_stops_at_nul_and_decodes_lossily() {
    let mut buffer = vec![b'o', b'k', 0xff, b'!', 0, b'x'];
    buffer.resize(1024, 0);
    assert_eq!(Error::from_rendered(4, &buffer), Error::FFI("ok\u{fffd}!".to_string()));
    assert_eq!(text_before_nul_of(&vec![1, 2, 0, 3]), vec![1, 2]);
    assert_eq!(text_before_nul_of(&vec![1, 2]), vec![1, 2]);
}

#[test]
fn error_object_is_rendered_and_released_once() {
    let renders = Cell::new(0u32);
    let frees = Cell::new(0u32);
    let e = LibfsntfsError::wrap_ptr(0x99).into_error(
        |token, capacity| {
            assert_eq!((token, capacity), (0x99, 1024));
            renders.set(renders.get() + 1);
            (10, rendered("libfsntfs_volume_open: failed"))
        },
        |token| {
            assert_eq!(token, 0x99);
            frees.set(frees.get() + 1);
        },
    );
    assert_eq!(e, Error::FFI("libfsntfs_volume_open: failed".to_string()));
    assert_eq!((renders.get(), frees.get()), (1, 1));

    let frees = Cell::new(0u32);
    let e = LibbfioError::wrap_ptr(0x98).into_error(|_, _| (-1, vec![]), |_| frees.set(frees.get() + 1));
    assert_eq!(e, Error::Other("failed to render error".to_string()));
    assert_eq!(frees.get(), 1);
}

#[test]
fn null_error_object_is_neither_rendered_nor_released() {
    let e = LibbfioError::wrap_ptr(0).into_error(|_, _| panic!("no render"), |_| panic!("no free"));
    assert_eq!(e, Error::Other("No Error".to_string()));
}

#[test]
fn fetched_string_drops_one_terminator() {
    assert_eq!(decode_nul_terminated(b"abc\0".to_vec()).unwrap(), "abc");
    assert_eq!(decode_nul_terminated(b"\0".to_vec()).unwrap(), "");
    assert_eq!(decode_nul_terminated("é\0".as_bytes().to_vec()).unwrap(), "é");
    assert_eq!(
        decode_nul_terminated(vec![b'a', 0xc3, 0]),
        Err(Error::StringContainsInvalidUTF8(vec![b'a', 0xc3]))
    );
}

#[test]
fn sized_string_protocol() {
    let r = get_sized_utf8_string(5, |t| Ok(t + 1), |t, n| {
        assert_eq!((t, n), (5, 6));
        Ok(b"hello\0".to_vec())
    });
    assert_eq!(r.unwrap(), "hello");
    let r = get_sized_utf8_string(5, |_| Ok(4), |_, _| Err(Error::FFI("fetch failed".to_string())));
    assert_eq!(r, Err(Error::FFI("fetch failed".to_string())));
}

#[test]
fn sized_bytes_keep_the_last_byte() {
    let r = get_sized_bytes(1, |_| Ok(3), |_, n| Ok(vec![7; n]));
    assert_eq!(r.unwrap(), vec![7, 7, 7]);
    let fetches = Cell::new(0u32);
    let r = get_sized_bytes(1, |_| Ok(0), |_, _| {
        fetches.set(1);
        Ok(vec![1])
    });
    assert_eq!(r.unwrap(), Vec::<u8>::new());
    assert_eq!(fetches.get(), 0);
}
