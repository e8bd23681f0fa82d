//! Backend-agnostic value and type bridging for a multi-backend SQL client.
//!
//! The library holds the closed catalog of value kinds, the tagged value in its
//! borrowing and owned forms, the encode and decode bridges between host values
//! and tagged values, and the registry that maps a connection scheme to a
//! backend driver descriptor.

mod type_info;
mod value;
mod arguments;
mod error;
mod types;
mod driver;

pub use type_info::{AnyTypeInfo, AnyTypeInfoKind, kind_name};
pub use value::{
    AnyValue, AnyValueKind, AnyValueRef, BlobData, TextData, ValueData, data_kind,
    lemma_owned_view_round_trip,
};
pub use arguments::{AnyArguments, IsNull};
pub use error::{AnyDecodeError, mismatch_message};
pub use types::{
    AnyDecode, AnyEncode, AnyType, lemma_round_trip_big_int, lemma_round_trip_byte_vec,
    lemma_round_trip_bytes, lemma_round_trip_integer, lemma_round_trip_small_int,
    lemma_round_trip_str, lemma_round_trip_string,
};
pub use driver::{
    AnyDriver, DriverInfo, DriverRegistry, RegistryError, default_drivers, driver_infos, find_from,
    install_default_drivers, lemma_resolve_after_install, lemma_resolve_unserved, lookup,
};
