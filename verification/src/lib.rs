//! Conversions between a unit-only enumeration and the names of its variants.
//!
//! The crate reads the declaration of a type, checks that it is an
//! enumeration whose variants carry no data, and writes the Rust source of
//! the conversions between the type and text: every variant is converted to
//! its own name, and a string is converted back to the variant that bears
//! that name.

pub mod derive;
pub mod description;
pub mod emit;
pub mod error;
pub mod laws;
pub mod unit_enum;

pub use derive::{diesel_enum_derive, expand};
pub use description::{
    is_valid_name, valid_name, Data, DataView, Fields, TypeDescription, TypeDescriptionView,
    Variant, VariantView,
};
pub use emit::{derive_into_string, derive_tryfrom_string};
pub use error::DeriveError;
pub use unit_enum::{UnitEnum, UnitEnumView};
