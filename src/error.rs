use vstd::prelude::*;

use crate::type_info::{AnyTypeInfo, AnyTypeInfoKind, kind_name};

verus! {

/// A recoverable decode failure.
#[derive(Debug, Clone, Copy, PartialEq, Eq, Structural)]
pub enum AnyDecodeError {
    /// The host type expects one kind and the value has another.
    TypeMismatch { expected: AnyTypeInfoKind, actual: AnyTypeInfoKind },
}

/// The diagnostic text of a kind mismatch.
pub open spec fn mismatch_message(expected: AnyTypeInfoKind, actual: AnyTypeInfoKind) -> Seq<char> {
    "expected "@ + kind_name(expected) + ", got "@ + kind_name(actual)
}

impl AnyDecodeError {
    /// The diagnostic text, naming both kinds.
    pub fn message(&self) -> (r: String)
        ensures
            match *self {
                AnyDecodeError::TypeMismatch { expected, actual } => r@ == mismatch_message(
                    expected,
                    actual,
                ),
            },
    {
        match *self {
            AnyDecodeError::TypeMismatch { expected, actual } => {
                let mut r = String::from_str("expected ");
                r.append(AnyTypeInfo { kind: expected }.name());
                r.append(", got ");
                r.append(AnyTypeInfo { kind: actual }.name());
                r
            },
        }
    }
}

} // verus!
