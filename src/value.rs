use vstd::prelude::*;
use vstd::slice::slice_to_vec;

use crate::type_info::{AnyTypeInfo, AnyTypeInfoKind};

verus! {

/// The mathematical content of a value: its kind and payload, whatever storage
/// backs the payload. Floating-point payloads are held as their IEEE-754 bit
/// patterns.
pub enum ValueData {
    Null,
    SmallInt(i16),
    Integer(i32),
    BigInt(i64),
    Real(u32),
    Double(u64),
    Text(Seq<char>),
    Blob(Seq<u8>),
}

/// The kind tag of a value's content.
pub open spec fn data_kind(d: ValueData) -> AnyTypeInfoKind {
    match d {
        ValueData::Null => AnyTypeInfoKind::Null,
        ValueData::SmallInt(_) => AnyTypeInfoKind::SmallInt,
        ValueData::Integer(_) => AnyTypeInfoKind::Integer,
        ValueData::BigInt(_) => AnyTypeInfoKind::BigInt,
        ValueData::Real(_) => AnyTypeInfoKind::Real,
        ValueData::Double(_) => AnyTypeInfoKind::Double,
        ValueData::Text(_) => AnyTypeInfoKind::Text,
        ValueData::Blob(_) => AnyTypeInfoKind::Blob,
    }
}

/// Text payload storage: a reference into storage owned elsewhere, or an
/// independently allocated copy.
#[derive(Debug, Clone)]
pub enum TextData<'a> {
    Borrowed(&'a str),
    Owned(String),
}

/// Blob payload storage: a reference into storage owned elsewhere, or an
/// independently allocated copy.
#[derive(Debug, Clone)]
pub enum BlobData<'a> {
    Borrowed(&'a [u8]),
    Owned(Vec<u8>),
}

impl<'a> View for TextData<'a> {
    type V = Seq<char>;

    open spec fn view(&self) -> Seq<char> {
        match self {
            TextData::Borrowed(s) => s@,
            TextData::Owned(s) => s@,
        }
    }
}

impl<'a> View for BlobData<'a> {
    type V = Seq<u8>;

    open spec fn view(&self) -> Seq<u8> {
        match self {
            BlobData::Borrowed(b) => b@,
            BlobData::Owned(b) => b@,
        }
    }
}

impl<'a> TextData<'a> {
    /// The characters of the payload, borrowed from its storage.
    pub fn as_str(&self) -> (r: &str)
        ensures
            r@ == self@,
    {
        match self {
            TextData::Borrowed(s) => s,
            TextData::Owned(s) => s.as_str(),
        }
    }
}

impl<'a> BlobData<'a> {
    /// The bytes of the payload, borrowed from its storage.
    pub fn as_slice(&self) -> (r: &[u8])
        ensures
            r@ == self@,
    {
        match self {
            BlobData::Borrowed(b) => b,
            BlobData::Owned(b) => b.as_slice(),
        }
    }
}

/// A tagged value: a kind and its payload. Text and blob payloads live in
/// borrowing or owned storage.
#[derive(Debug, Clone)]
#[non_exhaustive]
pub enum AnyValueKind<'a> {
    Null,
    SmallInt(i16),
    Integer(i32),
    BigInt(i64),
    /// The bit pattern of a 32-bit float.
    Real(u32),
    /// The bit pattern of a 64-bit float.
    Double(u64),
    Text(TextData<'a>),
    Blob(BlobData<'a>),
}

impl<'a> View for AnyValueKind<'a> {
    type V = ValueData;

    open spec fn view(&self) -> ValueData {
        match self {
            AnyValueKind::Null => ValueData::Null,
            AnyValueKind::SmallInt(i) => ValueData::SmallInt(*i),
            AnyValueKind::Integer(i) => ValueData::Integer(*i),
            AnyValueKind::BigInt(i) => ValueData::BigInt(*i),
            AnyValueKind::Real(r) => ValueData::Real(*r),
            AnyValueKind::Double(d) => ValueData::Double(*d),
            AnyValueKind::Text(t) => ValueData::Text(t@),
            AnyValueKind::Blob(b) => ValueData::Blob(b@),
        }
    }
}

impl<'a> AnyValueKind<'a> {
    /// Every text or blob payload is an independently allocated copy.
    pub open spec fn is_owned(&self) -> bool {
        match self {
            AnyValueKind::Text(t) => t is Owned,
            AnyValueKind::Blob(b) => b is Owned,
            _ => true,
        }
    }

    /// Every text or blob payload refers to storage owned elsewhere.
    pub open spec fn is_borrowing(&self) -> bool {
        match self {
            AnyValueKind::Text(t) => t is Borrowed,
            AnyValueKind::Blob(b) => b is Borrowed,
            _ => true,
        }
    }

    /// The kind tag.
    pub fn kind(&self) -> (r: AnyTypeInfoKind)
        ensures
            r == data_kind(self@),
    {
        match self {
            AnyValueKind::Null => AnyTypeInfoKind::Null,
            AnyValueKind::SmallInt(_) => AnyTypeInfoKind::SmallInt,
            AnyValueKind::Integer(_) => AnyTypeInfoKind::Integer,
            AnyValueKind::BigInt(_) => AnyTypeInfoKind::BigInt,
            AnyValueKind::Real(_) => AnyTypeInfoKind::Real,
            AnyValueKind::Double(_) => AnyTypeInfoKind::Double,
            AnyValueKind::Text(_) => AnyTypeInfoKind::Text,
            AnyValueKind::Blob(_) => AnyTypeInfoKind::Blob,
        }
    }
}

/// A value in owned form: no payload depends on outside storage.
#[derive(Debug, Clone)]
pub struct AnyValue {
    pub kind: AnyValueKind<'static>,
}

/// A value in borrowing form: text and blob payloads may refer to storage
/// owned elsewhere, valid for `'a`.
#[derive(Debug, Clone)]
pub struct AnyValueRef<'a> {
    pub kind: AnyValueKind<'a>,
}

impl View for AnyValue {
    type V = ValueData;

    open spec fn view(&self) -> ValueData {
        self.kind@
    }
}

impl<'a> View for AnyValueRef<'a> {
    type V = ValueData;

    open spec fn view(&self) -> ValueData {
        self.kind@
    }
}

impl AnyValue {
    /// A read-only view over this value; text and blob payloads are re-borrowed,
    /// not copied.
    pub fn as_ref(&self) -> (r: AnyValueRef<'_>)
        ensures
            r@ == self@,
            r.kind.is_borrowing(),
    {
        AnyValueRef {
            kind: match &self.kind {
                AnyValueKind::Null => AnyValueKind::Null,
                AnyValueKind::SmallInt(i) => AnyValueKind::SmallInt(*i),
                AnyValueKind::Integer(i) => AnyValueKind::Integer(*i),
                AnyValueKind::BigInt(i) => AnyValueKind::BigInt(*i),
                AnyValueKind::Real(r) => AnyValueKind::Real(*r),
                AnyValueKind::Double(d) => AnyValueKind::Double(*d),
                AnyValueKind::Text(t) => AnyValueKind::Text(TextData::Borrowed(t.as_str())),
                AnyValueKind::Blob(b) => AnyValueKind::Blob(BlobData::Borrowed(b.as_slice())),
            },
        }
    }

    /// The type descriptor of the value's kind.
    pub fn type_info(&self) -> (r: AnyTypeInfo)
        ensures
            r.kind == data_kind(self@),
    {
        AnyTypeInfo { kind: self.kind.kind() }
    }

    /// True exactly when the kind is `Null`.
    pub fn is_null(&self) -> (r: bool)
        ensures
            r == (self@ is Null),
    {
        match self.kind {
            AnyValueKind::Null => true,
            _ => false,
        }
    }
}

impl<'a> AnyValueRef<'a> {
    /// An owned copy of the value: text and blob payloads are duplicated into
    /// fresh allocations.
    pub fn to_owned(&self) -> (r: AnyValue)
        ensures
            r@ == self@,
            r.kind.is_owned(),
    {
        AnyValue {
            kind: match &self.kind {
                AnyValueKind::Null => AnyValueKind::Null,
                AnyValueKind::SmallInt(i) => AnyValueKind::SmallInt(*i),
                AnyValueKind::Integer(i) => AnyValueKind::Integer(*i),
                AnyValueKind::BigInt(i) => AnyValueKind::BigInt(*i),
                AnyValueKind::Real(r) => AnyValueKind::Real(*r),
                AnyValueKind::Double(d) => AnyValueKind::Double(*d),
                AnyValueKind::Text(t) => AnyValueKind::Text(TextData::Owned(t.as_str().to_owned())),
                AnyValueKind::Blob(b) => AnyValueKind::Blob(BlobData::Owned(slice_to_vec(b.as_slice()))),
            },
        }
    }

    /// The type descriptor of the value's kind.
    pub fn type_info(&self) -> (r: AnyTypeInfo)
        ensures
            r.kind == data_kind(self@),
    {
        AnyTypeInfo { kind: self.kind.kind() }
    }

    /// True exactly when the kind is `Null`.
    pub fn is_null(&self) -> (r: bool)
        ensures
            r == (self@ is Null),
    {
        match self.kind {
            AnyValueKind::Null => true,
            _ => false,
        }
    }
}

/// Viewing an owned value and copying the view back gives a value with the
/// same kind and payload, for every kind.
pub proof fn lemma_owned_view_round_trip(v: AnyValue, view: AnyValueRef<'_>, copy: AnyValue)
    requires
        view@ == v@,
        copy@ == view@,
    ensures
        copy@ == v@,
{
}

} // verus!
