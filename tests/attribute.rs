use std::cell::Cell;

use libfsntfs::attribute::{
    Attribute, AttributeWithInformation, SizedField, U32Field, U64Field,
};
use libfsntfs::attribute_type::AttributeType;
use libfsntfs::error::Error;
use libfsntfs::ffi::AsTypeRef;
use libfsntfs::file_entry::FileEntry;

const KNOWN_CODES: [(u32, AttributeType); 18] = [
    (0, AttributeType::Unused),
    (16, AttributeType::StandardInformation),
    (32, AttributeType::AttributeList),
    (48, AttributeType::FileName),
    (64, AttributeType::ObjectIdentifier),
    (80, AttributeType::SecurityDescriptor),
    (96, AttributeType::VolumeName),
    (112, AttributeType::VolumeInformation),
    (128, AttributeType::Data),
    (144, AttributeType::IndexRoot),
    (160, AttributeType::IndexAllocation),
    (176, AttributeType::Bitmap),
    (192, AttributeType::ReparsePoint),
    (208, AttributeType::ExtendedInformation),
    (224, AttributeType::Extended),
    (240, AttributeType::PropertySet),
    (256, AttributeType::LoggedUtilityStream),
    (0xFFFF_FFFF, AttributeType::EndOfAttributes),
];

// A stub of the native getters of one attribute.
fn read_u32(_token: usize, field: U32Field) -> Result<u32, Error> {
    Ok(match field {
        U32Field::FileNameFileAttributeFlags => 0x20,
        U32Field::StandardInformationFileAttributeFlags => 0x06,
        U32Field::StandardInformationOwnerIdentifier => 7,
        U32Field::StandardInformationSecurityDescriptorIdentifier => 0x100,
        U32Field::DataFlags => 1,
    })
}

fn read_u64(_token: usize, field: U64Field) -> Result<u64, Error> {
    Ok(match field {
        U64Field::FileNameCreationTime => 131907744000000000,
        U64Field::FileNameModificationTime => 0,
        U64Field::FileNameAccessTime => 131907744000000001,
        U64Field::FileNameEntryModificationTime => 0,
        U64Field::FileNameParentFileReference => 0x0005_0000_0000_0005,
        U64Field::StandardInformationCreationTime => 0,
        U64Field::StandardInformationModificationTime => 116444736000000000,
        U64Field::StandardInformationAccessTime => 0,
        U64Field::StandardInformationEntryModificationTime => 1,
        U64Field::StandardInformationUpdateSequenceNumber => 99,
        U64Field::DataFirstVcn => 0,
        U64Field::DataLastVcn => 15,
        U64Field::DataSize => 65536,
    })
}

fn sized(field: SizedField) -> Vec<u8> {
    match field {
        SizedField::FileName => b"$MFT\0".to_vec(),
        SizedField::VolumeName => b"KW-SRCH-1\0".to_vec(),
        SizedField::SecurityDescriptor => vec![1, 0, 4, 0x80, 0],
    }
}

fn read_size(_token: usize, field: SizedField) -> Result<usize, Error> {
    Ok(sized(field).len())
}

fn read_bytes(_token: usize, field: SizedField, n: usize) -> Result<Vec<u8>, Error> {
    Ok(sized(field)[..n].to_vec())
}

fn data_of(code: u32) -> Result<AttributeWithInformation, Error> {
    Attribute::wrap_ptr(9).get_data(|_| Ok(code), read_u32, read_u64, read_size, read_bytes)
}

#[test]
fn every_known_code_converts_and_back() {
    for (code, kind) in KNOWN_CODES.iter() {
        assert_eq!(AttributeType::try_from(*code).unwrap(), *kind);
        assert_eq!(kind.code(), *code);
    }
}

#[test]
fn unknown_codes_are_rejected_with_the_code() {
    for code in [1u32, 15, 17, 47, 257, 0x1000, 0xFFFF_FFFE] {
        assert_eq!(AttributeType::try_from(code), Err(Error::UnknownAttributeEnumVariant(code)));
    }
}

#[test]
fn type_read_failure_and_unknown_code() {
    let a = Attribute::wrap_ptr(3);
    assert!(matches!(a.get_type(|_| Ok(49)), Err(Error::UnknownAttributeEnumVariant(49))));
    assert!(matches!(
        a.get_type(|_| Err(Error::FFI("type failed".to_string()))),
        Err(Error::FFI(m)) if m == "type failed"
    ));
    assert_eq!(a.get_type(|t| if t == 3 { Ok(128) } else { Ok(0) }).unwrap(), AttributeType::Data);
}

#[test]
fn test_iter_attributes() {
    let file_attribute = FileEntry::wrap_ptr(0);
    let codes = [16u32, 48, 128];
    let mut attributes = file_attribute.iter_attributes(|_| Ok(codes.len() as i32)).unwrap();
    while let Some(attribute) = attributes.next(|_, idx| Ok(100 + idx as usize)) {
        let attribute = attribute.unwrap();
        let name = attribute.get_name(|_| Ok(0), |_, _| Ok(vec![]));
        println!("{:?}", name.unwrap());
        let kind = attribute.get_type(|t| Ok(codes[t - 100]));
        println!("{:?}", kind.unwrap());
    }
}

#[test]
fn attribute_walk_covers_exactly_the_count() {
    let entry = FileEntry::wrap_ptr(4);
    let mut attributes = entry.iter_attributes(|_| Ok(3)).unwrap();
    let mut tokens = Vec::new();
    while let Some(a) = attributes.next(|t, idx| Ok(t * 10 + idx as usize)) {
        tokens.push(a.unwrap().as_type_ref());
    }
    assert_eq!(tokens, vec![40, 41, 42]);
    let mut none = entry.iter_attributes(|_| Ok(-1)).unwrap();
    assert!(none.next(|_, _| panic!("no lookup")).is_none());
}

#[test]
fn file_name_decodes_fields_and_absent_times() {
    match data_of(48).unwrap() {
        AttributeWithInformation::FileName(f) => {
            assert_eq!(f.name, "$MFT");
            assert_eq!(f.parent_file_reference, 0x0005_0000_0000_0005);
            let created = f.creation_time.unwrap();
            assert_eq!(created.unix_seconds(), 1546300800);
            assert_eq!(created.subsec_nanos(), 0);
            assert!(f.modification_time.is_none());
            assert_eq!(f.access_time.unwrap().subsec_nanos(), 100);
            assert!(f.entry_modification_time.is_none());
            assert_eq!(f.file_attribute_flags, 0x20);
        }
        other => panic!("unexpected {:?}", other),
    }
}

#[test]
fn standard_information_decodes_fields() {
    match data_of(16).unwrap() {
        AttributeWithInformation::StandardInformation(s) => {
            assert!(s.creation_time.is_none());
            assert_eq!(s.modification_time.unwrap().unix_seconds(), 0);
            assert!(s.access_time.is_none());
            assert_eq!(s.entry_modification_time.unwrap().filetime, 1);
            assert_eq!(s.file_attribute_flags, 0x06);
            assert_eq!(s.owner_identifier, 7);
            assert_eq!(s.security_descriptor_identifier, 0x100);
            assert_eq!(s.update_sequence_number, 99);
        }
        other => panic!("unexpected {:?}", other),
    }
}

#[test]
fn data_attribute_wires_its_getters() {
    match data_of(128).unwrap() {
        AttributeWithInformation::Data(d) => {
            assert_eq!(d.flags, 1);
            assert_eq!(d.vcn_range_first, 0);
            assert_eq!(d.vcn_range_last, 15);
            assert_eq!(d.size, 65536);
        }
        other => panic!("unexpected {:?}", other),
    }
}

#[test]
fn security_descriptor_keeps_every_byte() {
    match data_of(80).unwrap() {
        AttributeWithInformation::SecurityDescriptor(d) => assert_eq!(d.0, vec![1, 0, 4, 0x80, 0]),
        other => panic!("unexpected {:?}", other),
    }
}

#[test]
fn volume_name_attribute_is_decoded() {
    match data_of(96).unwrap() {
        AttributeWithInformation::VolumeName(n) => assert_eq!(n, "KW-SRCH-1"),
        other => panic!("unexpected {:?}", other),
    }
}

#[test]
fn undecoded_kinds_say_so() {
    for code in [0u32, 32, 64, 112, 144, 160, 176, 192, 208, 224, 240, 256, 0xFFFF_FFFF] {
        assert!(matches!(data_of(code), Err(Error::Other(m)) if m == "unimplemented attribute kind"));
    }
}

#[test]
fn data_failure_and_unknown_type_are_reported() {
    assert!(matches!(data_of(50), Err(Error::UnknownAttributeEnumVariant(50))));
    let calls = Cell::new(0u32);
    let r = Attribute::wrap_ptr(1).get_data(
        |_| Ok(48),
        read_u32,
        |_, f| {
            calls.set(calls.get() + 1);
            if f == U64Field::FileNameAccessTime {
                Err(Error::FFI("access time failed".to_string()))
            } else {
                Ok(5)
            }
        },
        read_size,
        read_bytes,
    );
    assert!(matches!(r, Err(Error::FFI(m)) if m == "access time failed"));
    assert_eq!(calls.get(), 3);
}

#[test]
fn invalid_utf8_name_is_an_error() {
    let a = Attribute::wrap_ptr(2);
    let r = a.get_name(|_| Ok(3), |_, _| Ok(vec![0xff, 0xfe, 0]));
    assert_eq!(r, Err(Error::StringContainsInvalidUTF8(vec![0xff, 0xfe])));
}

#[test]
fn decode_reads_only_its_own_kinds_getters() {
    let r = Attribute::wrap_ptr(9).get_data(
        |_| Ok(16),
        read_u32,
        |_, f| match f {
            U64Field::FileNameCreationTime | U64Field::DataSize => panic!("not a getter of this kind"),
            other => read_u64(9, other),
        },
        |_, _| -> Result<usize, Error> { panic!("standard information fetches no string") },
        |_, _, _| -> Result<Vec<u8>, Error> { panic!("standard information fetches no bytes") },
    );
    assert!(matches!(r, Ok(AttributeWithInformation::StandardInformation(_))));
}
