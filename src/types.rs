use vstd::prelude::*;

use crate::arguments::{AnyArguments, IsNull};
use crate::error::AnyDecodeError;
use crate::type_info::{AnyTypeInfo, AnyTypeInfoKind};
use vstd::slice::slice_to_vec;

use crate::value::{AnyValueKind, AnyValueRef, BlobData, TextData, ValueData, data_kind};

verus! {

/// A host type with a declared kind: the one kind it is encoded as and decoded from.
pub trait AnyType {
    spec fn spec_kind() -> AnyTypeInfoKind;

    fn type_info() -> (r: AnyTypeInfo)
        ensures
            r.kind == Self::spec_kind(),
    ;
}

/// A host type whose values can be appended to an argument buffer.
pub trait AnyEncode<'q>: Sized + AnyType {
    /// The content that this host value is encoded as.
    spec fn encoded(&self) -> ValueData;

    /// Appends the encoded value to `buf`.
    fn encode(self, buf: &mut AnyArguments<'q>) -> (r: IsNull)
        ensures
            final(buf)@ == old(buf)@.push(self.encoded()),
            (r == IsNull::Yes) == (self.encoded() is Null),
            self.encoded() is Null || data_kind(self.encoded()) == Self::spec_kind(),
    ;

    /// Appends the encoded value to `buf`, leaving the host value with the caller.
    fn encode_by_ref(&self, buf: &mut AnyArguments<'q>) -> (r: IsNull)
        ensures
            final(buf)@ == old(buf)@.push(self.encoded()),
            (r == IsNull::Yes) == (self.encoded() is Null),
            self.encoded() is Null || data_kind(self.encoded()) == Self::spec_kind(),
    ;
}

/// A host type whose values can be read back from a value view.
pub trait AnyDecode<'r>: Sized + AnyType {
    /// The content that the host value `x` stands for.
    spec fn decoded(x: Self) -> ValueData;

    /// The storage of `value` can back the host value for as long as `'r`.
    spec fn storage_fits(value: AnyValueRef<'r>) -> bool;

    /// Reads a host value out of `value`, checking its kind.
    fn decode(value: AnyValueRef<'r>) -> (r: Result<Self, AnyDecodeError>)
        requires
            Self::storage_fits(value),
        ensures
            data_kind(value@) == Self::spec_kind() ==> (r matches Ok(x) && Self::decoded(x)
                == value@),
            data_kind(value@) != Self::spec_kind() ==> r == Err::<Self, AnyDecodeError>(
                AnyDecodeError::TypeMismatch {
                    expected: Self::spec_kind(),
                    actual: data_kind(value@),
                },
            ),
    ;
}

impl<'a> AnyType for &'a str {
    open spec fn spec_kind() -> AnyTypeInfoKind {
        AnyTypeInfoKind::Text
    }

    fn type_info() -> (r: AnyTypeInfo) {
        AnyTypeInfo { kind: AnyTypeInfoKind::Text }
    }
}

impl<'a> AnyEncode<'a> for &'a str {
    open spec fn encoded(&self) -> ValueData {
        ValueData::Text(self@)
    }

    fn encode(self, buf: &mut AnyArguments<'a>) -> (r: IsNull) {
        buf.add(AnyValueKind::Text(TextData::Borrowed(self)));
        IsNull::No
    }

    fn encode_by_ref(&self, buf: &mut AnyArguments<'a>) -> (r: IsNull) {
        (*self).encode(buf)
    }
}

impl<'a> AnyDecode<'a> for &'a str {
    open spec fn decoded(x: Self) -> ValueData {
        ValueData::Text(x@)
    }

    /// A borrowed string can only come out of text that is itself borrowed for `'a`.
    open spec fn storage_fits(value: AnyValueRef<'a>) -> bool {
        match value.kind {
            AnyValueKind::Text(t) => t is Borrowed,
            _ => true,
        }
    }

    fn decode(value: AnyValueRef<'a>) -> (r: Result<Self, AnyDecodeError>) {
        match value.kind {
            AnyValueKind::Text(TextData::Borrowed(text)) => Ok(text),
            // Excluded by `storage_fits`: owned text cannot back a borrow for `'a`.
            AnyValueKind::Text(TextData::Owned(_)) => {
                proof {
                    assert(false);
                }
                Err(
                    AnyDecodeError::TypeMismatch {
                        expected: AnyTypeInfoKind::Text,
                        actual: AnyTypeInfoKind::Text,
                    },
                )
            },
            other => Err(
                AnyDecodeError::TypeMismatch { expected: AnyTypeInfoKind::Text, actual: other.kind() },
            ),
        }
    }
}

impl AnyType for i32 {
    open spec fn spec_kind() -> AnyTypeInfoKind {
        AnyTypeInfoKind::Integer
    }

    fn type_info() -> (r: AnyTypeInfo) {
        AnyTypeInfo { kind: AnyTypeInfoKind::Integer }
    }
}

impl<'q> AnyEncode<'q> for i32 {
    open spec fn encoded(&self) -> ValueData {
        ValueData::Integer(*self)
    }

    fn encode(self, buf: &mut AnyArguments<'q>) -> (r: IsNull) {
        buf.add(AnyValueKind::Integer(self));
        IsNull::No
    }

    fn encode_by_ref(&self, buf: &mut AnyArguments<'q>) -> (r: IsNull) {
        (*self).encode(buf)
    }
}

impl<'r> AnyDecode<'r> for i32 {
    open spec fn decoded(x: Self) -> ValueData {
        ValueData::Integer(x)
    }

    open spec fn storage_fits(value: AnyValueRef<'r>) -> bool {
        true
    }

    fn decode(value: AnyValueRef<'r>) -> (r: Result<Self, AnyDecodeError>) {
        match value.kind {
            AnyValueKind::Integer(i) => Ok(i),
            other => Err(
                AnyDecodeError::TypeMismatch {
                    expected: AnyTypeInfoKind::Integer,
                    actual: other.kind(),
                },
            ),
        }
    }
}

impl AnyType for i16 {
    open spec fn spec_kind() -> AnyTypeInfoKind {
        AnyTypeInfoKind::SmallInt
    }

    fn type_info() -> (r: AnyTypeInfo) {
        AnyTypeInfo { kind: AnyTypeInfoKind::SmallInt }
    }
}

impl<'q> AnyEncode<'q> for i16 {
    open spec fn encoded(&self) -> ValueData {
        ValueData::SmallInt(*self)
    }

    fn encode(self, buf: &mut AnyArguments<'q>) -> (r: IsNull) {
        buf.add(AnyValueKind::SmallInt(self));
        IsNull::No
    }

    fn encode_by_ref(&self, buf: &mut AnyArguments<'q>) -> (r: IsNull) {
        (*self).encode(buf)
    }
}

impl<'r> AnyDecode<'r> for i16 {
    open spec fn decoded(x: Self) -> ValueData {
        ValueData::SmallInt(x)
    }

    open spec fn storage_fits(value: AnyValueRef<'r>) -> bool {
        true
    }

    fn decode(value: AnyValueRef<'r>) -> (r: Result<Self, AnyDecodeError>) {
        match value.kind {
            AnyValueKind::SmallInt(i) => Ok(i),
            other => Err(
                AnyDecodeError::TypeMismatch {
                    expected: AnyTypeInfoKind::SmallInt,
                    actual: other.kind(),
                },
            ),
        }
    }
}

impl AnyType for i64 {
    open spec fn spec_kind() -> AnyTypeInfoKind {
        AnyTypeInfoKind::BigInt
    }

    fn type_info() -> (r: AnyTypeInfo) {
        AnyTypeInfo { kind: AnyTypeInfoKind::BigInt }
    }
}

impl<'q> AnyEncode<'q> for i64 {
    open spec fn encoded(&self) -> ValueData {
        ValueData::BigInt(*self)
    }

    fn encode(self, buf: &mut AnyArguments<'q>) -> (r: IsNull) {
        buf.add(AnyValueKind::BigInt(self));
        IsNull::No
    }

    fn encode_by_ref(&self, buf: &mut AnyArguments<'q>) -> (r: IsNull) {
        (*self).encode(buf)
    }
}

impl<'r> AnyDecode<'r> for i64 {
    open spec fn decoded(x: Self) -> ValueData {
        ValueData::BigInt(x)
    }

    open spec fn storage_fits(value: AnyValueRef<'r>) -> bool {
        true
    }

    fn decode(value: AnyValueRef<'r>) -> (r: Result<Self, AnyDecodeError>) {
        match value.kind {
            AnyValueKind::BigInt(i) => Ok(i),
            other => Err(
                AnyDecodeError::TypeMismatch {
                    expected: AnyTypeInfoKind::BigInt,
                    actual: other.kind(),
                },
            ),
        }
    }
}

impl AnyType for String {
    open spec fn spec_kind() -> AnyTypeInfoKind {
        AnyTypeInfoKind::Text
    }

    fn type_info() -> (r: AnyTypeInfo) {
        AnyTypeInfo { kind: AnyTypeInfoKind::Text }
    }
}

impl<'q> AnyEncode<'q> for String {
    open spec fn encoded(&self) -> ValueData {
        ValueData::Text(self@)
    }

    fn encode(self, buf: &mut AnyArguments<'q>) -> (r: IsNull) {
        buf.add(AnyValueKind::Text(TextData::Owned(self)));
        IsNull::No
    }

    fn encode_by_ref(&self, buf: &mut AnyArguments<'q>) -> (r: IsNull) {
        buf.add(AnyValueKind::Text(TextData::Owned(self.clone())));
        IsNull::No
    }
}

impl<'r> AnyDecode<'r> for String {
    open spec fn decoded(x: Self) -> ValueData {
        ValueData::Text(x@)
    }

    open spec fn storage_fits(value: AnyValueRef<'r>) -> bool {
        true
    }

    fn decode(value: AnyValueRef<'r>) -> (r: Result<Self, AnyDecodeError>) {
        match value.kind {
            AnyValueKind::Text(t) => Ok(t.as_str().to_owned()),
            other => Err(
                AnyDecodeError::TypeMismatch { expected: AnyTypeInfoKind::Text, actual: other.kind() },
            ),
        }
    }
}

impl<'a> AnyType for &'a [u8] {
    open spec fn spec_kind() -> AnyTypeInfoKind {
        AnyTypeInfoKind::Blob
    }

    fn type_info() -> (r: AnyTypeInfo) {
        AnyTypeInfo { kind: AnyTypeInfoKind::Blob }
    }
}

impl<'a> AnyEncode<'a> for &'a [u8] {
    open spec fn encoded(&self) -> ValueData {
        ValueData::Blob(self@)
    }

    fn encode(self, buf: &mut AnyArguments<'a>) -> (r: IsNull) {
        buf.add(AnyValueKind::Blob(BlobData::Borrowed(self)));
        IsNull::No
    }

    fn encode_by_ref(&self, buf: &mut AnyArguments<'a>) -> (r: IsNull) {
        (*self).encode(buf)
    }
}

impl<'a> AnyDecode<'a> for &'a [u8] {
    open spec fn decoded(x: Self) -> ValueData {
        ValueData::Blob(x@)
    }

    /// A borrowed slice can only come out of a blob that is itself borrowed for `'a`.
    open spec fn storage_fits(value: AnyValueRef<'a>) -> bool {
        match value.kind {
            AnyValueKind::Blob(b) => b is Borrowed,
            _ => true,
        }
    }

    fn decode(value: AnyValueRef<'a>) -> (r: Result<Self, AnyDecodeError>) {
        match value.kind {
            AnyValueKind::Blob(BlobData::Borrowed(bytes)) => Ok(bytes),
            // Excluded by `storage_fits`: an owned blob cannot back a borrow for `'a`.
            AnyValueKind::Blob(BlobData::Owned(_)) => {
                proof {
                    assert(false);
                }
                Err(
                    AnyDecodeError::TypeMismatch {
                        expected: AnyTypeInfoKind::Blob,
                        actual: AnyTypeInfoKind::Blob,
                    },
                )
            },
            other => Err(
                AnyDecodeError::TypeMismatch { expected: AnyTypeInfoKind::Blob, actual: other.kind() },
            ),
        }
    }
}

impl AnyType for Vec<u8> {
    open spec fn spec_kind() -> AnyTypeInfoKind {
        AnyTypeInfoKind::Blob
    }

    fn type_info() -> (r: AnyTypeInfo) {
        AnyTypeInfo { kind: AnyTypeInfoKind::Blob }
    }
}

impl<'q> AnyEncode<'q> for Vec<u8> {
    open spec fn encoded(&self) -> ValueData {
        ValueData::Blob(self@)
    }

    fn encode(self, buf: &mut AnyArguments<'q>) -> (r: IsNull) {
        buf.add(AnyValueKind::Blob(BlobData::Owned(self)));
        IsNull::No
    }

    fn encode_by_ref(&self, buf: &mut AnyArguments<'q>) -> (r: IsNull) {
        buf.add(AnyValueKind::Blob(BlobData::Owned(slice_to_vec(self.as_slice()))));
        IsNull::No
    }
}

impl<'r> AnyDecode<'r> for Vec<u8> {
    open spec fn decoded(x: Self) -> ValueData {
        ValueData::Blob(x@)
    }

    open spec fn storage_fits(value: AnyValueRef<'r>) -> bool {
        true
    }

    fn decode(value: AnyValueRef<'r>) -> (r: Result<Self, AnyDecodeError>) {
        match value.kind {
            AnyValueKind::Blob(b) => Ok(slice_to_vec(b.as_slice())),
            other => Err(
                AnyDecodeError::TypeMismatch { expected: AnyTypeInfoKind::Blob, actual: other.kind() },
            ),
        }
    }
}

/// `None` stands for SQL `NULL` of the inner type's kind.
impl<T: AnyType> AnyType for Option<T> {
    open spec fn spec_kind() -> AnyTypeInfoKind {
        T::spec_kind()
    }

    fn type_info() -> (r: AnyTypeInfo) {
        T::type_info()
    }
}

impl<'q, T: AnyEncode<'q>> AnyEncode<'q> for Option<T> {
    open spec fn encoded(&self) -> ValueData {
        match self {
            Some(x) => x.encoded(),
            None => ValueData::Null,
        }
    }

    fn encode(self, buf: &mut AnyArguments<'q>) -> (r: IsNull) {
        match self {
            Some(x) => x.encode(buf),
            None => {
                buf.add(AnyValueKind::Null);
                IsNull::Yes
            },
        }
    }

    fn encode_by_ref(&self, buf: &mut AnyArguments<'q>) -> (r: IsNull) {
        match self {
            Some(x) => x.encode_by_ref(buf),
            None => {
                buf.add(AnyValueKind::Null);
                IsNull::Yes
            },
        }
    }
}

/// Round trip for `i16`: the content that `x` is encoded as has the type's
/// declared kind, so decoding it succeeds, and the host value read back is `x`.
pub proof fn lemma_round_trip_small_int(x: i16, y: i16)
    ensures
        data_kind(x.encoded()) == <i16 as AnyType>::spec_kind(),
        <i16 as AnyDecode<'static>>::decoded(y) == x.encoded() ==> y == x,
{
}

/// Round trip for `i32`: the content that `x` is encoded as has the type's
/// declared kind, so decoding it succeeds, and the host value read back is `x`.
pub proof fn lemma_round_trip_integer(x: i32, y: i32)
    ensures
        data_kind(x.encoded()) == <i32 as AnyType>::spec_kind(),
        <i32 as AnyDecode<'static>>::decoded(y) == x.encoded() ==> y == x,
{
}

/// Round trip for `i64`: the content that `x` is encoded as has the type's
/// declared kind, so decoding it succeeds, and the host value read back is `x`.
pub proof fn lemma_round_trip_big_int(x: i64, y: i64)
    ensures
        data_kind(x.encoded()) == <i64 as AnyType>::spec_kind(),
        <i64 as AnyDecode<'static>>::decoded(y) == x.encoded() ==> y == x,
{
}

/// Round trip for `&'a str`: the content that `x` is encoded as has the type's
/// declared kind, so decoding it succeeds, and the host value read back is `x`.
pub proof fn lemma_round_trip_str<'a>(x: &'a str, y: &'a str)
    ensures
        data_kind(x.encoded()) == <&'a str as AnyType>::spec_kind(),
        <&'a str as AnyDecode<'a>>::decoded(y) == x.encoded() ==> y@ == x@,
{
}

/// Round trip for `String`: the content that `x` is encoded as has the type's
/// declared kind, so decoding it succeeds, and the host value read back is `x`.
pub proof fn lemma_round_trip_string(x: String, y: String)
    ensures
        data_kind(x.encoded()) == <String as AnyType>::spec_kind(),
        <String as AnyDecode<'static>>::decoded(y) == x.encoded() ==> y@ == x@,
{
}

/// Round trip for `&'a [u8]`: the content that `x` is encoded as has the type's
/// declared kind, so decoding it succeeds, and the host value read back is `x`.
pub proof fn lemma_round_trip_bytes<'a>(x: &'a [u8], y: &'a [u8])
    ensures
        data_kind(x.encoded()) == <&'a [u8] as AnyType>::spec_kind(),
        <&'a [u8] as AnyDecode<'a>>::decoded(y) == x.encoded() ==> y@ == x@,
{
}

/// Round trip for `Vec<u8>`: the content that `x` is encoded as has the type's
/// declared kind, so decoding it succeeds, and the host value read back is `x`.
pub proof fn lemma_round_trip_byte_vec(x: Vec<u8>, y: Vec<u8>)
    ensures
        data_kind(x.encoded()) == <Vec<u8> as AnyType>::spec_kind(),
        <Vec<u8> as AnyDecode<'static>>::decoded(y) == x.encoded() ==> y@ == x@,
{
}

} // verus!
