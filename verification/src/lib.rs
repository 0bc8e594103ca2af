//! Packed-bitfield records: a declarative list of named, fixed-width fields is
//! compiled into a layout over a single unsigned integer container, with
//! verified accessor operations (read, set, unset, toggle) for every field.

pub mod bitops;
pub mod decl;
pub mod flags;
pub mod layout;
pub mod modulo;
pub mod natural;
pub mod record;
