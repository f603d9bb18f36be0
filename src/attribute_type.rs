use vstd::prelude::*;
use crate::error::Error;

verus! {

/// The kind of an NTFS attribute, mirrored from the native numeric codes.
#[derive(PartialEq, Eq, Structural, PartialOrd, Debug, Clone, Copy)]
pub enum AttributeType {
    Unused,
    StandardInformation,
    AttributeList,
    FileName,
    ObjectIdentifier,
    SecurityDescriptor,
    VolumeName,
    VolumeInformation,
    Data,
    IndexRoot,
    IndexAllocation,
    Bitmap,
    ReparsePoint,
    ExtendedInformation,
    Extended,
    PropertySet,
    LoggedUtilityStream,
    EndOfAttributes,
}

/// Native code of each attribute kind.
pub open spec fn attribute_type_code(t: AttributeType) -> u32 {
    match t {
        AttributeType::Unused => 0,
        AttributeType::StandardInformation => 16,
        AttributeType::AttributeList => 32,
        AttributeType::FileName => 48,
        AttributeType::ObjectIdentifier => 64,
        AttributeType::SecurityDescriptor => 80,
        AttributeType::VolumeName => 96,
        AttributeType::VolumeInformation => 112,
        AttributeType::Data => 128,
        AttributeType::IndexRoot => 144,
        AttributeType::IndexAllocation => 160,
        AttributeType::Bitmap => 176,
        AttributeType::ReparsePoint => 192,
        AttributeType::ExtendedInformation => 208,
        AttributeType::Extended => 224,
        AttributeType::PropertySet => 240,
        AttributeType::LoggedUtilityStream => 256,
        AttributeType::EndOfAttributes => 0xFFFF_FFFF,
    }
}

/// Whether `code` is the native code of some attribute kind.
pub open spec fn is_known_attribute_code(code: u32) -> bool {
    exists|t: AttributeType| attribute_type_code(t) == code
}

/// What converting a numeric code gives: the kind with that code, or the
/// error that names the code.
pub open spec fn attribute_type_from_code(code: u32, r: Result<AttributeType, Error>) -> bool {
    if is_known_attribute_code(code) {
        r matches Ok(t) && attribute_type_code(t) == code
    } else {
        r == Err::<AttributeType, Error>(Error::UnknownAttributeEnumVariant(code))
    }
}

impl AttributeType {
    /// The native numeric code of this kind.
    pub fn code(&self) -> (r: u32)
        ensures
            r == attribute_type_code(*self),
    {
        match self {
            AttributeType::Unused => 0,
            AttributeType::StandardInformation => 16,
            AttributeType::AttributeList => 32,
            AttributeType::FileName => 48,
            AttributeType::ObjectIdentifier => 64,
            AttributeType::SecurityDescriptor => 80,
            AttributeType::VolumeName => 96,
            AttributeType::VolumeInformation => 112,
            AttributeType::Data => 128,
            AttributeType::IndexRoot => 144,
            AttributeType::IndexAllocation => 160,
            AttributeType::Bitmap => 176,
            AttributeType::ReparsePoint => 192,
            AttributeType::ExtendedInformation => 208,
            AttributeType::Extended => 224,
            AttributeType::PropertySet => 240,
            AttributeType::LoggedUtilityStream => 256,
            AttributeType::EndOfAttributes => 0xFFFF_FFFF,
        }
    }

    /// Converts a native numeric code; an unknown code is an error that
    /// carries it, never a default kind.
    pub fn try_from(value: u32) -> (r: Result<AttributeType, Error>)
        ensures
            attribute_type_from_code(value, r),
    {
        let r = match value {
            0 => Ok(AttributeType::Unused),
            16 => Ok(AttributeType::StandardInformation),
            32 => Ok(AttributeType::AttributeList),
            48 => Ok(AttributeType::FileName),
            64 => Ok(AttributeType::ObjectIdentifier),
            80 => Ok(AttributeType::SecurityDescriptor),
            96 => Ok(AttributeType::VolumeName),
            112 => Ok(AttributeType::VolumeInformation),
            128 => Ok(AttributeType::Data),
            144 => Ok(AttributeType::IndexRoot),
            160 => Ok(AttributeType::IndexAllocation),
            176 => Ok(AttributeType::Bitmap),
            192 => Ok(AttributeType::ReparsePoint),
            208 => Ok(AttributeType::ExtendedInformation),
            224 => Ok(AttributeType::Extended),
            240 => Ok(AttributeType::PropertySet),
            256 => Ok(AttributeType::LoggedUtilityStream),
            0xFFFF_FFFF => Ok(AttributeType::EndOfAttributes),
            _ => Err(Error::UnknownAttributeEnumVariant(value)),
        };
        proof {
            match r {
                Ok(t) => {
                    assert(attribute_type_code(t) == value);
                },
                Err(_) => {
                    assert forall|t: AttributeType| attribute_type_code(t) != value by {};
                },
            }
        }
        r
    }
}

/// Each kind converts to its code and back: codes tell kinds apart, and
/// every code outside the closed set is rejected with that code.
pub proof fn lemma_attribute_type_round_trip(t: AttributeType, u: AttributeType, code: u32)
    ensures
        is_known_attribute_code(attribute_type_code(t)),
        attribute_type_code(t) == attribute_type_code(u) ==> t == u,
        attribute_type_from_code(attribute_type_code(t), Ok(t)),
        !is_known_attribute_code(code) ==> attribute_type_from_code(
            code,
            Err(Error::UnknownAttributeEnumVariant(code)),
        ),
{
    assert(attribute_type_code(t) == attribute_type_code(t));
}

} // verus!
