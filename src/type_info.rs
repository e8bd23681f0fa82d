use vstd::prelude::*;

verus! {

/// The closed set of value kinds that the bridge carries.
#[derive(Debug, Clone, Copy, PartialEq, Eq, Structural)]
pub enum AnyTypeInfoKind {
    Null,
    SmallInt,
    Integer,
    BigInt,
    Real,
    Double,
    Text,
    Blob,
}

/// The canonical SQL display name of each kind.
pub open spec fn kind_name(kind: AnyTypeInfoKind) -> Seq<char> {
    match kind {
        AnyTypeInfoKind::Null => "NULL"@,
        AnyTypeInfoKind::SmallInt => "SMALLINT"@,
        AnyTypeInfoKind::Integer => "INTEGER"@,
        AnyTypeInfoKind::BigInt => "BIGINT"@,
        AnyTypeInfoKind::Real => "REAL"@,
        AnyTypeInfoKind::Double => "DOUBLE"@,
        AnyTypeInfoKind::Text => "TEXT"@,
        AnyTypeInfoKind::Blob => "BLOB"@,
    }
}

/// The type descriptor of a value: its kind.
#[derive(Debug, Clone, Copy, PartialEq, Eq, Structural)]
pub struct AnyTypeInfo {
    pub kind: AnyTypeInfoKind,
}

impl AnyTypeInfo {
    pub fn new(kind: AnyTypeInfoKind) -> (r: AnyTypeInfo)
        ensures
            r.kind == kind,
    {
        AnyTypeInfo { kind }
    }

    pub fn kind(&self) -> (r: AnyTypeInfoKind)
        ensures
            r == self.kind,
    {
        self.kind
    }

    /// True exactly for the `Null` kind.
    pub fn is_null(&self) -> (r: bool)
        ensures
            r == (self.kind == AnyTypeInfoKind::Null),
    {
        match self.kind {
            AnyTypeInfoKind::Null => true,
            _ => false,
        }
    }

    /// The canonical SQL name of the kind.
    pub fn name(&self) -> (r: &'static str)
        ensures
            r@ == kind_name(self.kind),
    {
        proof {
            reveal_strlit("NULL");
            reveal_strlit("SMALLINT");
            reveal_strlit("INTEGER");
            reveal_strlit("BIGINT");
            reveal_strlit("REAL");
            reveal_strlit("DOUBLE");
            reveal_strlit("TEXT");
            reveal_strlit("BLOB");
        }
        match self.kind {
            AnyTypeInfoKind::SmallInt => "SMALLINT",
            AnyTypeInfoKind::Integer => "INTEGER",
            AnyTypeInfoKind::BigInt => "BIGINT",
            AnyTypeInfoKind::Real => "REAL",
            AnyTypeInfoKind::Double => "DOUBLE",
            AnyTypeInfoKind::Text => "TEXT",
            AnyTypeInfoKind::Blob => "BLOB",
            AnyTypeInfoKind::Null => "NULL",
        }
    }

    /// The display form of the descriptor: its canonical name as a `String`.
    pub fn to_string(&self) -> (r: String)
        ensures
            r@ == kind_name(self.kind),
    {
        self.name().to_owned()
    }
}

} // verus!
