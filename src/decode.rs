use vstd::prelude::*;

use serde::de::value::{BoolDeserializer, CharDeserializer, Error, I64Deserializer, StringDeserializer, U64Deserializer};
use serde::Deserialize;

use crate::data_type::{DataType, Datum, RawValue, TypeKind, Val};

verus! {

/// The error of serde's in-memory value deserializers.
#[verifier::external_type_specification]
#[verifier::external_body]
pub struct ExValueError(Error);

/// Decodes an untyped value as the type `kind`, through that type's own
/// serde `Deserialize` impl.
pub fn decode_raw(kind: TypeKind, raw: &RawValue) -> (r: Result<Datum, Error>)
    ensures
        r is Ok <==> kind.decode(raw@) is Some,
        r matches Ok(d) ==> kind.decode(raw@) == Some(d@.1) && d@.0 == kind,
{
    match kind {
        TypeKind::Bool => match deserialize_bool(raw) {
            Ok(x) => Ok(x.into_datum()),
            Err(e) => Err(e),
        },
        TypeKind::U8 => match deserialize_u8(raw) {
            Ok(x) => Ok(x.into_datum()),
            Err(e) => Err(e),
        },
        TypeKind::U16 => match deserialize_u16(raw) {
            Ok(x) => Ok(x.into_datum()),
            Err(e) => Err(e),
        },
        TypeKind::U32 => match deserialize_u32(raw) {
            Ok(x) => Ok(x.into_datum()),
            Err(e) => Err(e),
        },
        TypeKind::U64 => match deserialize_u64(raw) {
            Ok(x) => Ok(x.into_datum()),
            Err(e) => Err(e),
        },
        TypeKind::I8 => match deserialize_i8(raw) {
            Ok(x) => Ok(x.into_datum()),
            Err(e) => Err(e),
        },
        TypeKind::I16 => match deserialize_i16(raw) {
            Ok(x) => Ok(x.into_datum()),
            Err(e) => Err(e),
        },
        TypeKind::I32 => match deserialize_i32(raw) {
            Ok(x) => Ok(x.into_datum()),
            Err(e) => Err(e),
        },
        TypeKind::I64 => match deserialize_i64(raw) {
            Ok(x) => Ok(x.into_datum()),
            Err(e) => Err(e),
        },
        TypeKind::Char => match deserialize_char(raw) {
            Ok(x) => Ok(x.into_datum()),
            Err(e) => Err(e),
        },
        TypeKind::Str => match deserialize_string(raw) {
            Ok(x) => Ok(x.into_datum()),
            Err(e) => Err(e),
        },
    }
}

/// Relies on serde's `Deserialize for bool`, driven by serde's value
/// deserializers: only a boolean is accepted.
#[verifier::external_body]
fn deserialize_bool(raw: &RawValue) -> (r: Result<bool, Error>)
    ensures
        r is Ok <==> TypeKind::Bool.decode(raw@) is Some,
        r matches Ok(x) ==> TypeKind::Bool.decode(raw@) == Some(x.val_of()),
{
    match raw {
        RawValue::Bool(b) => bool::deserialize(BoolDeserializer::new(*b)),
        RawValue::Unsigned(n) => bool::deserialize(U64Deserializer::new(*n)),
        RawValue::Signed(n) => bool::deserialize(I64Deserializer::new(*n)),
        RawValue::Char(c) => bool::deserialize(CharDeserializer::new(*c)),
        RawValue::Str(s) => bool::deserialize(StringDeserializer::new(s.clone())),
    }
}

/// Relies on serde's `Deserialize for u8`, driven by serde's value
/// deserializers: an integer of either sign class is accepted when it lies in range.
#[verifier::external_body]
fn deserialize_u8(raw: &RawValue) -> (r: Result<u8, Error>)
    ensures
        r is Ok <==> TypeKind::U8.decode(raw@) is Some,
        r matches Ok(x) ==> TypeKind::U8.decode(raw@) == Some(x.val_of()),
{
    match raw {
        RawValue::Bool(b) => u8::deserialize(BoolDeserializer::new(*b)),
        RawValue::Unsigned(n) => u8::deserialize(U64Deserializer::new(*n)),
        RawValue::Signed(n) => u8::deserialize(I64Deserializer::new(*n)),
        RawValue::Char(c) => u8::deserialize(CharDeserializer::new(*c)),
        RawValue::Str(s) => u8::deserialize(StringDeserializer::new(s.clone())),
    }
}

/// Relies on serde's `Deserialize for u16`, driven by serde's value
/// deserializers: an integer of either sign class is accepted when it lies in range.
#[verifier::external_body]
fn deserialize_u16(raw: &RawValue) -> (r: Result<u16, Error>)
    ensures
        r is Ok <==> TypeKind::U16.decode(raw@) is Some,
        r matches Ok(x) ==> TypeKind::U16.decode(raw@) == Some(x.val_of()),
{
    match raw {
        RawValue::Bool(b) => u16::deserialize(BoolDeserializer::new(*b)),
        RawValue::Unsigned(n) => u16::deserialize(U64Deserializer::new(*n)),
        RawValue::Signed(n) => u16::deserialize(I64Deserializer::new(*n)),
        RawValue::Char(c) => u16::deserialize(CharDeserializer::new(*c)),
        RawValue::Str(s) => u16::deserialize(StringDeserializer::new(s.clone())),
    }
}

/// Relies on serde's `Deserialize for u32`, driven by serde's value
/// deserializers: an integer of either sign class is accepted when it lies in range.
#[verifier::external_body]
fn deserialize_u32(raw: &RawValue) -> (r: Result<u32, Error>)
    ensures
        r is Ok <==> TypeKind::U32.decode(raw@) is Some,
        r matches Ok(x) ==> TypeKind::U32.decode(raw@) == Some(x.val_of()),
{
    match raw {
        RawValue::Bool(b) => u32::deserialize(BoolDeserializer::new(*b)),
        RawValue::Unsigned(n) => u32::deserialize(U64Deserializer::new(*n)),
        RawValue::Signed(n) => u32::deserialize(I64Deserializer::new(*n)),
        RawValue::Char(c) => u32::deserialize(CharDeserializer::new(*c)),
        RawValue::Str(s) => u32::deserialize(StringDeserializer::new(s.clone())),
    }
}

/// Relies on serde's `Deserialize for u64`, driven by serde's value
/// deserializers: an integer of either sign class is accepted when it lies in range.
#[verifier::external_body]
fn deserialize_u64(raw: &RawValue) -> (r: Result<u64, Error>)
    ensures
        r is Ok <==> TypeKind::U64.decode(raw@) is Some,
        r matches Ok(x) ==> TypeKind::U64.decode(raw@) == Some(x.val_of()),
{
    match raw {
        RawValue::Bool(b) => u64::deserialize(BoolDeserializer::new(*b)),
        RawValue::Unsigned(n) => u64::deserialize(U64Deserializer::new(*n)),
        RawValue::Signed(n) => u64::deserialize(I64Deserializer::new(*n)),
        RawValue::Char(c) => u64::deserialize(CharDeserializer::new(*c)),
        RawValue::Str(s) => u64::deserialize(StringDeserializer::new(s.clone())),
    }
}

/// Relies on serde's `Deserialize for i8`, driven by serde's value
/// deserializers: an integer of either sign class is accepted when it lies in range.
#[verifier::external_body]
fn deserialize_i8(raw: &RawValue) -> (r: Result<i8, Error>)
    ensures
        r is Ok <==> TypeKind::I8.decode(raw@) is Some,
        r matches Ok(x) ==> TypeKind::I8.decode(raw@) == Some(x.val_of()),
{
    match raw {
        RawValue::Bool(b) => i8::deserialize(BoolDeserializer::new(*b)),
        RawValue::Unsigned(n) => i8::deserialize(U64Deserializer::new(*n)),
        RawValue::Signed(n) => i8::deserialize(I64Deserializer::new(*n)),
        RawValue::Char(c) => i8::deserialize(CharDeserializer::new(*c)),
        RawValue::Str(s) => i8::deserialize(StringDeserializer::new(s.clone())),
    }
}

/// Relies on serde's `Deserialize for i16`, driven by serde's value
/// deserializers: an integer of either sign class is accepted when it lies in range.
#[verifier::external_body]
fn deserialize_i16(raw: &RawValue) -> (r: Result<i16, Error>)
    ensures
        r is Ok <==> TypeKind::I16.decode(raw@) is Some,
        r matches Ok(x) ==> TypeKind::I16.decode(raw@) == Some(x.val_of()),
{
    match raw {
        RawValue::Bool(b) => i16::deserialize(BoolDeserializer::new(*b)),
        RawValue::Unsigned(n) => i16::deserialize(U64Deserializer::new(*n)),
        RawValue::Signed(n) => i16::deserialize(I64Deserializer::new(*n)),
        RawValue::Char(c) => i16::deserialize(CharDeserializer::new(*c)),
        RawValue::Str(s) => i16::deserialize(StringDeserializer::new(s.clone())),
    }
}

/// Relies on serde's `Deserialize for i32`, driven by serde's value
/// deserializers: an integer of either sign class is accepted when it lies in range.
#[verifier::external_body]
fn deserialize_i32(raw: &RawValue) -> (r: Result<i32, Error>)
    ensures
        r is Ok <==> TypeKind::I32.decode(raw@) is Some,
        r matches Ok(x) ==> TypeKind::I32.decode(raw@) == Some(x.val_of()),
{
    match raw {
        RawValue::Bool(b) => i32::deserialize(BoolDeserializer::new(*b)),
        RawValue::Unsigned(n) => i32::deserialize(U64Deserializer::new(*n)),
        RawValue::Signed(n) => i32::deserialize(I64Deserializer::new(*n)),
        RawValue::Char(c) => i32::deserialize(CharDeserializer::new(*c)),
        RawValue::Str(s) => i32::deserialize(StringDeserializer::new(s.clone())),
    }
}

/// Relies on serde's `Deserialize for i64`, driven by serde's value
/// deserializers: an integer of either sign class is accepted when it lies in range.
#[verifier::external_body]
fn deserialize_i64(raw: &RawValue) -> (r: Result<i64, Error>)
    ensures
        r is Ok <==> TypeKind::I64.decode(raw@) is Some,
        r matches Ok(x) ==> TypeKind::I64.decode(raw@) == Some(x.val_of()),
{
    match raw {
        RawValue::Bool(b) => i64::deserialize(BoolDeserializer::new(*b)),
        RawValue::Unsigned(n) => i64::deserialize(U64Deserializer::new(*n)),
        RawValue::Signed(n) => i64::deserialize(I64Deserializer::new(*n)),
        RawValue::Char(c) => i64::deserialize(CharDeserializer::new(*c)),
        RawValue::Str(s) => i64::deserialize(StringDeserializer::new(s.clone())),
    }
}

/// Relies on serde's `Deserialize for char`, driven by serde's value
/// deserializers: a char, or a string of exactly one char, is accepted.
#[verifier::external_body]
fn deserialize_char(raw: &RawValue) -> (r: Result<char, Error>)
    ensures
        r is Ok <==> TypeKind::Char.decode(raw@) is Some,
        r matches Ok(x) ==> TypeKind::Char.decode(raw@) == Some(x.val_of()),
{
    match raw {
        RawValue::Bool(b) => char::deserialize(BoolDeserializer::new(*b)),
        RawValue::Unsigned(n) => char::deserialize(U64Deserializer::new(*n)),
        RawValue::Signed(n) => char::deserialize(I64Deserializer::new(*n)),
        RawValue::Char(c) => char::deserialize(CharDeserializer::new(*c)),
        RawValue::Str(s) => char::deserialize(StringDeserializer::new(s.clone())),
    }
}

/// Relies on serde's `Deserialize for String`, driven by serde's value
/// deserializers: a string, or a char as a one-char string, is accepted.
#[verifier::external_body]
fn deserialize_string(raw: &RawValue) -> (r: Result<String, Error>)
    ensures
        r is Ok <==> TypeKind::Str.decode(raw@) is Some,
        r matches Ok(x) ==> TypeKind::Str.decode(raw@) == Some(x.val_of()),
{
    match raw {
        RawValue::Bool(b) => String::deserialize(BoolDeserializer::new(*b)),
        RawValue::Unsigned(n) => String::deserialize(U64Deserializer::new(*n)),
        RawValue::Signed(n) => String::deserialize(I64Deserializer::new(*n)),
        RawValue::Char(c) => String::deserialize(CharDeserializer::new(*c)),
        RawValue::Str(s) => String::deserialize(StringDeserializer::new(s.clone())),
    }
}

} // verus!
