use libfsntfs::filetime::Timestamp;

#[test]
fn zero_filetime_is_absent() {
    assert_eq!(Timestamp::from_filetime(0), None);
    assert_eq!(Timestamp::from_filetime(1), Some(Timestamp { filetime: 1 }));
}

#[test]
fn filetime_converts_exactly() {
    let epoch = Timestamp { filetime: 116444736000000000 };
    assert_eq!((epoch.unix_seconds(), epoch.subsec_nanos()), (0, 0));
    let new_year = Timestamp { filetime: 131907744000000000 };
    assert_eq!((new_year.unix_seconds(), new_year.subsec_nanos()), (1546300800, 0));
    let tick = Timestamp { filetime: 131907744000000001 };
    assert_eq!((tick.unix_seconds(), tick.subsec_nanos()), (1546300800, 100));
    let first = Timestamp { filetime: 1 };
    assert_eq!((first.unix_seconds(), first.subsec_nanos()), (-11644473600, 100));
    let before = Timestamp { filetime: 116444735990000000 };
    assert_eq!((before.unix_seconds(), before.subsec_nanos()), (-1, 0));
    let last = Timestamp { filetime: u64::MAX };
    assert_eq!((last.unix_seconds(), last.subsec_nanos()), (1833029933770, 955161500));
}
