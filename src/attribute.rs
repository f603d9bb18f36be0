//! One decoded NTFS attribute of a file entry.
use vstd::prelude::*;
use crate::attribute_type::{attribute_type_from_code, AttributeType};
use crate::ffi::AsTypeRef;
use crate::error::Error;
use crate::filetime::Timestamp;
use crate::sized::{
    get_sized_bytes, get_sized_utf8_string, sized_bytes_result, sized_string_read, sized_string_result,
};

verus! {

/// A native attribute token, valid while the file entry it came from is alive.
#[derive(Debug)]
pub struct Attribute {
    token: usize,
}

/// The 32-bit native getters that attribute decoding uses.
#[derive(PartialEq, Eq, Structural, Debug, Clone, Copy)]
pub enum U32Field {
    FileNameFileAttributeFlags,
    StandardInformationFileAttributeFlags,
    StandardInformationOwnerIdentifier,
    StandardInformationSecurityDescriptorIdentifier,
    DataFlags,
}

/// The 64-bit native getters that attribute decoding uses.
#[derive(PartialEq, Eq, Structural, Debug, Clone, Copy)]
pub enum U64Field {
    FileNameCreationTime,
    FileNameModificationTime,
    FileNameAccessTime,
    FileNameEntryModificationTime,
    FileNameParentFileReference,
    StandardInformationCreationTime,
    StandardInformationModificationTime,
    StandardInformationAccessTime,
    StandardInformationEntryModificationTime,
    StandardInformationUpdateSequenceNumber,
    DataFirstVcn,
    DataLastVcn,
    DataSize,
}

/// The size-then-fetch native getters that attribute decoding uses.
#[derive(PartialEq, Eq, Structural, Debug, Clone, Copy)]
pub enum SizedField {
    FileName,
    VolumeName,
    SecurityDescriptor,
}

/// Typed fields of an attribute, one variant per kind.
#[derive(Debug, Clone)]
pub enum AttributeWithInformation {
    StandardInformation(StandardInformation),
    FileName(FileName),
    SecurityDescriptor(SecurityDescriptor),
    VolumeName(String),
    VolumeInformation(VolumeInformation),
    AttributeList(AttributeList),
    ObjectIdentifier(ObjectIdentifier),
    Data(Data),
    IndexRoot(IndexRoot),
    IndexAllocation(IndexAllocation),
    Bitmap(Bitmap),
    ReparsePoint(ReparsePoint),
    ExtendedInformation(ExtendedInformation),
    Extended(Extended),
    PropertySet(PropertySet),
    LoggedUtilityStream(LoggedUtilityStream),
    EndOfAttributes(EndOfAttributes),
}

#[derive(Debug, Clone, Copy, PartialEq, Eq, Structural)]
pub struct StandardInformation {
    pub creation_time: Option<Timestamp>,
    pub modification_time: Option<Timestamp>,
    pub access_time: Option<Timestamp>,
    pub entry_modification_time: Option<Timestamp>,
    pub file_attribute_flags: u32,
    pub owner_identifier: u32,
    pub security_descriptor_identifier: u32,
    pub update_sequence_number: u64,
}

#[derive(Debug, Clone)]
pub struct FileName {
    pub name: String,
    pub parent_file_reference: u64,
    pub creation_time: Option<Timestamp>,
    pub modification_time: Option<Timestamp>,
    pub access_time: Option<Timestamp>,
    pub entry_modification_time: Option<Timestamp>,
    pub file_attribute_flags: u32,
}

#[derive(Debug, Clone, Copy, PartialEq, Eq, Structural)]
pub struct Data {
    pub flags: u32,
    pub vcn_range_first: u64,
    pub vcn_range_last: u64,
    pub size: u64,
}

#[derive(Debug, Clone, Copy, PartialEq, Eq, Structural)]
pub struct VolumeInformation {
    pub version: u32,
    pub flags: u16,
}

/// The raw bytes of a security descriptor.
#[derive(Debug, Clone)]
pub struct SecurityDescriptor(pub Vec<u8>);

#[derive(Debug, Clone, Copy, PartialEq, Eq, Structural)]
pub struct AttributeList {}

#[derive(Debug, Clone, Copy, PartialEq, Eq, Structural)]
pub struct ObjectIdentifier {}

#[derive(Debug, Clone, Copy, PartialEq, Eq, Structural)]
pub struct IndexRoot {}

#[derive(Debug, Clone, Copy, PartialEq, Eq, Structural)]
pub struct IndexAllocation {}

#[derive(Debug, Clone, Copy, PartialEq, Eq, Structural)]
pub struct Bitmap {}

#[derive(Debug, Clone, Copy, PartialEq, Eq, Structural)]
pub struct ReparsePoint {}

#[derive(Debug, Clone, Copy, PartialEq, Eq, Structural)]
pub struct ExtendedInformation {}

#[derive(Debug, Clone, Copy, PartialEq, Eq, Structural)]
pub struct Extended {}

#[derive(Debug, Clone, Copy, PartialEq, Eq, Structural)]
pub struct PropertySet {}

#[derive(Debug, Clone, Copy, PartialEq, Eq, Structural)]
pub struct LoggedUtilityStream {}

#[derive(Debug, Clone, Copy, PartialEq, Eq, Structural)]
pub struct EndOfAttributes {}

/// The filetime field that a decoded timestamp came from (zero for absent).
pub open spec fn filetime_field(t: Option<Timestamp>) -> u64 {
    match t {
        Some(ts) => ts.filetime,
        None => 0,
    }
}

/// `t` is the decoding of the filetime that `read` reported for `field`.
pub open spec fn time_read<W: Fn(usize, U64Field) -> Result<u64, Error>>(
    read: W,
    token: usize,
    field: U64Field,
    t: Option<Timestamp>,
) -> bool {
    &&& read.ensures((token, field), Ok(filetime_field(t)))
    &&& t matches Some(ts) ==> ts.filetime != 0
}

/// `r` is a possible outcome of the size-then-fetch protocol for `field`.
pub open spec fn text_read<
    S: Fn(usize, SizedField) -> Result<usize, Error>,
    B: Fn(usize, SizedField, usize) -> Result<Vec<u8>, Error>,
>(read_size: S, read_bytes: B, token: usize, field: SizedField, r: Result<String, Error>) -> bool {
    exists|size: Result<usize, Error>, fetched: Result<Vec<u8>, Error>|
        read_size.ensures((token, field), size)
        && (size is Ok && size->Ok_0 > 0 ==> read_bytes.ensures((token, field, size->Ok_0), fetched))
        && sized_string_result(size, fetched, r)
}

/// `r` is a possible outcome of the size-then-fetch protocol for the bytes of `field`.
pub open spec fn bytes_read<
    S: Fn(usize, SizedField) -> Result<usize, Error>,
    B: Fn(usize, SizedField, usize) -> Result<Vec<u8>, Error>,
>(read_size: S, read_bytes: B, token: usize, field: SizedField, r: Result<Vec<u8>, Error>) -> bool {
    exists|size: Result<usize, Error>, fetched: Result<Vec<u8>, Error>|
        read_size.ensures((token, field), size)
        && (size is Ok && size->Ok_0 > 0 ==> read_bytes.ensures((token, field, size->Ok_0), fetched))
        && sized_bytes_result(size, fetched, r)
}

/// The 32-bit getters that decoding an attribute of kind `kind` reads.
pub open spec fn reads_u32_field(kind: AttributeType, f: U32Field) -> bool {
    match f {
        U32Field::FileNameFileAttributeFlags => kind == AttributeType::FileName,
        U32Field::StandardInformationFileAttributeFlags => kind == AttributeType::StandardInformation,
        U32Field::StandardInformationOwnerIdentifier => kind == AttributeType::StandardInformation,
        U32Field::StandardInformationSecurityDescriptorIdentifier => kind
            == AttributeType::StandardInformation,
        U32Field::DataFlags => kind == AttributeType::Data,
    }
}

/// The 64-bit getters that decoding an attribute of kind `kind` reads.
pub open spec fn reads_u64_field(kind: AttributeType, f: U64Field) -> bool {
    match f {
        U64Field::FileNameCreationTime => kind == AttributeType::FileName,
        U64Field::FileNameModificationTime => kind == AttributeType::FileName,
        U64Field::FileNameAccessTime => kind == AttributeType::FileName,
        U64Field::FileNameEntryModificationTime => kind == AttributeType::FileName,
        U64Field::FileNameParentFileReference => kind == AttributeType::FileName,
        U64Field::StandardInformationCreationTime => kind == AttributeType::StandardInformation,
        U64Field::StandardInformationModificationTime => kind == AttributeType::StandardInformation,
        U64Field::StandardInformationAccessTime => kind == AttributeType::StandardInformation,
        U64Field::StandardInformationEntryModificationTime => kind
            == AttributeType::StandardInformation,
        U64Field::StandardInformationUpdateSequenceNumber => kind
            == AttributeType::StandardInformation,
        U64Field::DataFirstVcn => kind == AttributeType::Data,
        U64Field::DataLastVcn => kind == AttributeType::Data,
        U64Field::DataSize => kind == AttributeType::Data,
    }
}

/// `e` came from one of the getters that decoding an attribute of kind
/// `kind` reads: the getter reported it, or the string it fetched was not
/// UTF-8.
pub open spec fn native_failure<
    U: Fn(usize, U32Field) -> Result<u32, Error>,
    W: Fn(usize, U64Field) -> Result<u64, Error>,
    S: Fn(usize, SizedField) -> Result<usize, Error>,
    B: Fn(usize, SizedField, usize) -> Result<Vec<u8>, Error>,
>(
    read_u32: U,
    read_u64: W,
    read_size: S,
    read_bytes: B,
    token: usize,
    kind: AttributeType,
    e: Error,
) -> bool {
    ||| exists|f: U32Field|
        reads_u32_field(kind, f) && #[trigger] read_u32.ensures((token, f), Err::<u32, Error>(e))
    ||| exists|f: U64Field|
        reads_u64_field(kind, f) && #[trigger] read_u64.ensures((token, f), Err::<u64, Error>(e))
    ||| kind == AttributeType::FileName && text_read(
        read_size,
        read_bytes,
        token,
        SizedField::FileName,
        Err::<String, Error>(e),
    )
    ||| kind == AttributeType::VolumeName && text_read(
        read_size,
        read_bytes,
        token,
        SizedField::VolumeName,
        Err::<String, Error>(e),
    )
    ||| kind == AttributeType::SecurityDescriptor && bytes_read(
        read_size,
        read_bytes,
        token,
        SizedField::SecurityDescriptor,
        Err::<Vec<u8>, Error>(e),
    )
}

/// The error for a kind that this layer does not decode.
pub open spec fn is_unimplemented_kind_error(e: Error) -> bool {
    e matches Error::Other(m) && m@ == "unimplemented attribute kind"@
}

/// `r` is the data of an attribute of kind `kind` whose native getters
/// reported what `read_u32`, `read_u64`, `read_size` and `read_bytes` allow.
pub open spec fn attribute_data_read<
    U: Fn(usize, U32Field) -> Result<u32, Error>,
    W: Fn(usize, U64Field) -> Result<u64, Error>,
    S: Fn(usize, SizedField) -> Result<usize, Error>,
    B: Fn(usize, SizedField, usize) -> Result<Vec<u8>, Error>,
>(
    read_u32: U,
    read_u64: W,
    read_size: S,
    read_bytes: B,
    token: usize,
    kind: AttributeType,
    r: Result<AttributeWithInformation, Error>,
) -> bool {
    match kind {
        AttributeType::FileName => match r {
            Ok(AttributeWithInformation::FileName(f)) => {
                &&& text_read(read_size, read_bytes, token, SizedField::FileName, Ok(f.name))
                &&& time_read(read_u64, token, U64Field::FileNameCreationTime, f.creation_time)
                &&& time_read(read_u64, token, U64Field::FileNameModificationTime, f.modification_time)
                &&& time_read(read_u64, token, U64Field::FileNameAccessTime, f.access_time)
                &&& time_read(read_u64, token, U64Field::FileNameEntryModificationTime, f.entry_modification_time)
                &&& read_u64.ensures((token, U64Field::FileNameParentFileReference), Ok(f.parent_file_reference))
                &&& read_u32.ensures((token, U32Field::FileNameFileAttributeFlags), Ok(f.file_attribute_flags))
            },
            Err(e) => native_failure(
                read_u32,
                read_u64,
                read_size,
                read_bytes,
                token,
                AttributeType::FileName,
                e,
            ),
            _ => false,
        },
        AttributeType::StandardInformation => match r {
            Ok(AttributeWithInformation::StandardInformation(s)) => {
                &&& time_read(read_u64, token, U64Field::StandardInformationCreationTime, s.creation_time)
                &&& time_read(read_u64, token, U64Field::StandardInformationModificationTime, s.modification_time)
                &&& time_read(read_u64, token, U64Field::StandardInformationAccessTime, s.access_time)
                &&& time_read(read_u64, token, U64Field::StandardInformationEntryModificationTime, s.entry_modification_time)
                &&& read_u32.ensures((token, U32Field::StandardInformationFileAttributeFlags), Ok(s.file_attribute_flags))
                &&& read_u32.ensures((token, U32Field::StandardInformationOwnerIdentifier), Ok(s.owner_identifier))
                &&& read_u32.ensures((token, U32Field::StandardInformationSecurityDescriptorIdentifier), Ok(s.security_descriptor_identifier))
                &&& read_u64.ensures((token, U64Field::StandardInformationUpdateSequenceNumber), Ok(s.update_sequence_number))
            },
            Err(e) => native_failure(
                read_u32,
                read_u64,
                read_size,
                read_bytes,
                token,
                AttributeType::StandardInformation,
                e,
            ),
            _ => false,
        },
        AttributeType::Data => match r {
            Ok(AttributeWithInformation::Data(d)) => {
                &&& read_u32.ensures((token, U32Field::DataFlags), Ok(d.flags))
                &&& read_u64.ensures((token, U64Field::DataFirstVcn), Ok(d.vcn_range_first))
                &&& read_u64.ensures((token, U64Field::DataLastVcn), Ok(d.vcn_range_last))
                &&& read_u64.ensures((token, U64Field::DataSize), Ok(d.size))
            },
            Err(e) => native_failure(
                read_u32,
                read_u64,
                read_size,
                read_bytes,
                token,
                AttributeType::Data,
                e,
            ),
            _ => false,
        },
        AttributeType::SecurityDescriptor => match r {
            Ok(AttributeWithInformation::SecurityDescriptor(d)) =>
                bytes_read(read_size, read_bytes, token, SizedField::SecurityDescriptor, Ok(d.0)),
            Err(e) => native_failure(
                read_u32,
                read_u64,
                read_size,
                read_bytes,
                token,
                AttributeType::SecurityDescriptor,
                e,
            ),
            _ => false,
        },
        AttributeType::VolumeName => match r {
            Ok(AttributeWithInformation::VolumeName(n)) =>
                text_read(read_size, read_bytes, token, SizedField::VolumeName, Ok(n)),
            Err(e) => native_failure(
                read_u32,
                read_u64,
                read_size,
                read_bytes,
                token,
                AttributeType::VolumeName,
                e,
            ),
            _ => false,
        },
        _ => r matches Err(e) && is_unimplemented_kind_error(e),
    }
}


/// Reads one filetime field and decodes it; zero is an absent field.
fn read_time<W: Fn(usize, U64Field) -> Result<u64, Error>>(
    read: &W,
    token: usize,
    field: U64Field,
) -> (r: Result<Option<Timestamp>, Error>)
    requires
        read.requires((token, field)),
    ensures
        r matches Ok(t) ==> time_read(*read, token, field, t),
        r matches Err(e) ==> read.ensures((token, field), Err::<u64, Error>(e)),
{
    match read(token, field) {
        Ok(v) => Ok(Timestamp::from_filetime(v)),
        Err(e) => Err(e),
    }
}

/// Reads the string of `field` through the size-then-fetch protocol.
fn read_text<
    S: Fn(usize, SizedField) -> Result<usize, Error>,
    B: Fn(usize, SizedField, usize) -> Result<Vec<u8>, Error>,
>(read_size: &S, read_bytes: &B, token: usize, field: SizedField) -> (r: Result<String, Error>)
    requires
        read_size.requires((token, field)),
        forall|n: usize| read_bytes.requires((token, field, n)),
    ensures
        text_read(*read_size, *read_bytes, token, field, r),
{
    let size_of = |t: usize| -> (n: Result<usize, Error>)
        requires
            t == token,
        ensures
            read_size.ensures((token, field), n),
        { read_size(t, field) };
    let fetch = |t: usize, n: usize| -> (b: Result<Vec<u8>, Error>)
        requires
            t == token,
        ensures
            read_bytes.ensures((token, field, n), b),
        { read_bytes(t, field, n) };
    get_sized_utf8_string(token, size_of, fetch)
}

/// Reads the bytes of `field` through the size-then-fetch protocol.
fn read_blob<
    S: Fn(usize, SizedField) -> Result<usize, Error>,
    B: Fn(usize, SizedField, usize) -> Result<Vec<u8>, Error>,
>(read_size: &S, read_bytes: &B, token: usize, field: SizedField) -> (r: Result<Vec<u8>, Error>)
    requires
        read_size.requires((token, field)),
        forall|n: usize| read_bytes.requires((token, field, n)),
    ensures
        bytes_read(*read_size, *read_bytes, token, field, r),
{
    let size_of = |t: usize| -> (n: Result<usize, Error>)
        requires
            t == token,
        ensures
            read_size.ensures((token, field), n),
        { read_size(t, field) };
    let fetch = |t: usize, n: usize| -> (b: Result<Vec<u8>, Error>)
        requires
            t == token,
        ensures
            read_bytes.ensures((token, field, n), b),
        { read_bytes(t, field, n) };
    get_sized_bytes(token, size_of, fetch)
}


/// Every native getter that attribute decoding uses may be called on `token`.
pub open spec fn getters_callable<
    U: Fn(usize, U32Field) -> Result<u32, Error>,
    W: Fn(usize, U64Field) -> Result<u64, Error>,
    S: Fn(usize, SizedField) -> Result<usize, Error>,
    B: Fn(usize, SizedField, usize) -> Result<Vec<u8>, Error>,
>(read_u32: U, read_u64: W, read_size: S, read_bytes: B, token: usize) -> bool {
    &&& forall|f: U32Field| read_u32.requires((token, f))
    &&& forall|f: U64Field| read_u64.requires((token, f))
    &&& forall|f: SizedField| read_size.requires((token, f))
    &&& forall|f: SizedField, n: usize| read_bytes.requires((token, f, n))
}

fn read_file_name<
    U: Fn(usize, U32Field) -> Result<u32, Error>,
    W: Fn(usize, U64Field) -> Result<u64, Error>,
    S: Fn(usize, SizedField) -> Result<usize, Error>,
    B: Fn(usize, SizedField, usize) -> Result<Vec<u8>, Error>,
>(read_u32: &U, read_u64: &W, read_size: &S, read_bytes: &B, token: usize) -> (r: Result<
    AttributeWithInformation,
    Error,
>)
    requires
        getters_callable(*read_u32, *read_u64, *read_size, *read_bytes, token),
    ensures
        attribute_data_read(*read_u32, *read_u64, *read_size, *read_bytes, token, AttributeType::FileName, r),
{
    let name = match read_text(read_size, read_bytes, token, SizedField::FileName) {
        Ok(n) => n,
        Err(e) => {
            assert(text_read(*read_size, *read_bytes, token, SizedField::FileName, Err::<String, Error>(e)));
            return Err(e);
        },
    };
    let creation_time = match read_time(read_u64, token, U64Field::FileNameCreationTime) {
        Ok(t) => t,
        Err(e) => return Err(e),
    };
    let modification_time = match read_time(read_u64, token, U64Field::FileNameModificationTime) {
        Ok(t) => t,
        Err(e) => return Err(e),
    };
    let access_time = match read_time(read_u64, token, U64Field::FileNameAccessTime) {
        Ok(t) => t,
        Err(e) => return Err(e),
    };
    let entry_modification_time = match read_time(read_u64, token, U64Field::FileNameEntryModificationTime) {
        Ok(t) => t,
        Err(e) => return Err(e),
    };
    let parent_file_reference = match read_u64(token, U64Field::FileNameParentFileReference) {
        Ok(v) => v,
        Err(e) => return Err(e),
    };
    let file_attribute_flags = match read_u32(token, U32Field::FileNameFileAttributeFlags) {
        Ok(v) => v,
        Err(e) => return Err(e),
    };
    Ok(AttributeWithInformation::FileName(FileName {
        name,
        parent_file_reference,
        creation_time,
        modification_time,
        access_time,
        entry_modification_time,
        file_attribute_flags,
    }))
}

fn read_standard_information<
    U: Fn(usize, U32Field) -> Result<u32, Error>,
    W: Fn(usize, U64Field) -> Result<u64, Error>,
    S: Fn(usize, SizedField) -> Result<usize, Error>,
    B: Fn(usize, SizedField, usize) -> Result<Vec<u8>, Error>,
>(read_u32: &U, read_u64: &W, read_size: &S, read_bytes: &B, token: usize) -> (r: Result<
    AttributeWithInformation,
    Error,
>)
    requires
        getters_callable(*read_u32, *read_u64, *read_size, *read_bytes, token),
    ensures
        attribute_data_read(
            *read_u32,
            *read_u64,
            *read_size,
            *read_bytes,
            token,
            AttributeType::StandardInformation,
            r,
        ),
{
    let creation_time = match read_time(read_u64, token, U64Field::StandardInformationCreationTime) {
        Ok(t) => t,
        Err(e) => return Err(e),
    };
    let modification_time = match read_time(
        read_u64,
        token,
        U64Field::StandardInformationModificationTime,
    ) {
        Ok(t) => t,
        Err(e) => return Err(e),
    };
    let access_time = match read_time(read_u64, token, U64Field::StandardInformationAccessTime) {
        Ok(t) => t,
        Err(e) => return Err(e),
    };
    let entry_modification_time = match read_time(
        read_u64,
        token,
        U64Field::StandardInformationEntryModificationTime,
    ) {
        Ok(t) => t,
        Err(e) => return Err(e),
    };
    let file_attribute_flags = match read_u32(token, U32Field::StandardInformationFileAttributeFlags) {
        Ok(v) => v,
        Err(e) => return Err(e),
    };
    let owner_identifier = match read_u32(token, U32Field::StandardInformationOwnerIdentifier) {
        Ok(v) => v,
        Err(e) => return Err(e),
    };
    let security_descriptor_identifier = match read_u32(
        token,
        U32Field::StandardInformationSecurityDescriptorIdentifier,
    ) {
        Ok(v) => v,
        Err(e) => return Err(e),
    };
    let update_sequence_number = match read_u64(
        token,
        U64Field::StandardInformationUpdateSequenceNumber,
    ) {
        Ok(v) => v,
        Err(e) => return Err(e),
    };
    Ok(AttributeWithInformation::StandardInformation(StandardInformation {
        creation_time,
        modification_time,
        access_time,
        entry_modification_time,
        file_attribute_flags,
        owner_identifier,
        security_descriptor_identifier,
        update_sequence_number,
    }))
}

fn read_data<
    U: Fn(usize, U32Field) -> Result<u32, Error>,
    W: Fn(usize, U64Field) -> Result<u64, Error>,
    S: Fn(usize, SizedField) -> Result<usize, Error>,
    B: Fn(usize, SizedField, usize) -> Result<Vec<u8>, Error>,
>(read_u32: &U, read_u64: &W, read_size: &S, read_bytes: &B, token: usize) -> (r: Result<
    AttributeWithInformation,
    Error,
>)
    requires
        getters_callable(*read_u32, *read_u64, *read_size, *read_bytes, token),
    ensures
        attribute_data_read(*read_u32, *read_u64, *read_size, *read_bytes, token, AttributeType::Data, r),
{
    let flags = match read_u32(token, U32Field::DataFlags) {
        Ok(v) => v,
        Err(e) => return Err(e),
    };
    let vcn_range_first = match read_u64(token, U64Field::DataFirstVcn) {
        Ok(v) => v,
        Err(e) => return Err(e),
    };
    let vcn_range_last = match read_u64(token, U64Field::DataLastVcn) {
        Ok(v) => v,
        Err(e) => return Err(e),
    };
    let size = match read_u64(token, U64Field::DataSize) {
        Ok(v) => v,
        Err(e) => return Err(e),
    };
    Ok(AttributeWithInformation::Data(Data { flags, vcn_range_first, vcn_range_last, size }))
}


/// `t` is what the type getter's reply `raw` converts to.
pub open spec fn type_reply(raw: Result<u32, Error>, t: Result<AttributeType, Error>) -> bool {
    match raw {
        Err(e) => t == Err::<AttributeType, Error>(e),
        Ok(code) => attribute_type_from_code(code, t),
    }
}

/// `t` is a possible outcome of reading the kind of `token` through `read_type`.
pub open spec fn type_read<T: FnOnce(usize) -> Result<u32, Error>>(
    read_type: T,
    token: usize,
    t: Result<AttributeType, Error>,
) -> bool {
    exists|raw: Result<u32, Error>| read_type.ensures((token,), raw) && type_reply(raw, t)
}

impl Attribute {
    /// Wraps a native attribute token.
    pub fn wrap_ptr(token: usize) -> (r: Attribute)
        ensures
            r.token() == token,
    {
        Attribute { token }
    }

    pub closed spec fn token(&self) -> usize {
        self.token
    }


    /// The attribute's name, through the native size and fetch entry points.
    pub fn get_name<S, G>(&self, get_size: S, get_string: G) -> (r: Result<String, Error>)
        where
            S: FnOnce(usize) -> Result<usize, Error>,
            G: FnOnce(usize, usize) -> Result<Vec<u8>, Error>,
        requires
            get_size.requires((self.token(),)),
            forall|n: usize|
                n > 0 && #[trigger] get_size.ensures((self.token(),), Ok::<usize, Error>(n))
                    ==> get_string.requires((self.token(), n)),
        ensures
            sized_string_read(self.token(), get_size, get_string, r),
    {
        get_sized_utf8_string(self.token, get_size, get_string)
    }

    /// The attribute's kind, from the native type getter.
    pub fn get_type<T>(&self, read_type: T) -> (r: Result<AttributeType, Error>)
        where
            T: FnOnce(usize) -> Result<u32, Error>,
        requires
            read_type.requires((self.token(),)),
        ensures
            type_read(read_type, self.token(), r),
    {
        let raw = read_type(self.token);
        let r = match raw {
            Err(e) => Err(e),
            Ok(code) => AttributeType::try_from(code),
        };
        assert(read_type.ensures((self.token(),), raw) && type_reply(raw, r));
        r
    }

    /// The attribute's typed fields: reads its kind, then exactly the native
    /// getters of that kind. Kinds that this layer does not decode give an
    /// error that says so, never an empty value.
    pub fn get_data<T, U, W, S, B>(
        &self,
        read_type: T,
        read_u32: U,
        read_u64: W,
        read_size: S,
        read_bytes: B,
    ) -> (r: Result<AttributeWithInformation, Error>)
        where
            T: FnOnce(usize) -> Result<u32, Error>,
            U: Fn(usize, U32Field) -> Result<u32, Error>,
            W: Fn(usize, U64Field) -> Result<u64, Error>,
            S: Fn(usize, SizedField) -> Result<usize, Error>,
            B: Fn(usize, SizedField, usize) -> Result<Vec<u8>, Error>,
        requires
            read_type.requires((self.token(),)),
            getters_callable(read_u32, read_u64, read_size, read_bytes, self.token()),
        ensures
            exists|t: Result<AttributeType, Error>|
                type_read(read_type, self.token(), t) && match t {
                    Err(e) => r == Err::<AttributeWithInformation, Error>(e),
                    Ok(kind) => attribute_data_read(
                        read_u32,
                        read_u64,
                        read_size,
                        read_bytes,
                        self.token(),
                        kind,
                        r,
                    ),
                },
    {
        let t = self.get_type(read_type);
        let token = self.token;
        let r = match t {
            Err(e) => Err(e),
            Ok(kind) => match kind {
                AttributeType::FileName => read_file_name(&read_u32, &read_u64, &read_size, &read_bytes, token),
                AttributeType::StandardInformation => read_standard_information(
                    &read_u32,
                    &read_u64,
                    &read_size,
                    &read_bytes,
                    token,
                ),
                AttributeType::Data => read_data(&read_u32, &read_u64, &read_size, &read_bytes, token),
                AttributeType::SecurityDescriptor => {
                    match read_blob(&read_size, &read_bytes, token, SizedField::SecurityDescriptor) {
                        Ok(b) => Ok(AttributeWithInformation::SecurityDescriptor(SecurityDescriptor(b))),
                        Err(e) => {
                            assert(bytes_read(read_size, read_bytes, token, SizedField::SecurityDescriptor, Err::<Vec<u8>, Error>(e)));
                            Err(e)
                        },
                    }
                },
                AttributeType::VolumeName => {
                    match read_text(&read_size, &read_bytes, token, SizedField::VolumeName) {
                        Ok(n) => Ok(AttributeWithInformation::VolumeName(n)),
                        Err(e) => {
                            assert(text_read(read_size, read_bytes, token, SizedField::VolumeName, Err::<String, Error>(e)));
                            Err(e)
                        },
                    }
                },
                _ => Err(Error::Other("unimplemented attribute kind".to_owned())),
            },
        };
        r
    }
}


impl AsTypeRef for Attribute {
    open spec fn type_ref(&self) -> usize {
        self.token()
    }

    fn as_type_ref(&self) -> (r: usize) {
        self.token
    }
}

} // verus!
