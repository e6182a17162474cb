//! Compiler core for a schema-definition dialect: parses schema constructs
//! into a typed, identity-keyed semantic model and emits deterministic
//! source text for enumerations and range-constrained numeric wrapper
//! types.
//!
//! The schema half lives in [`xml`], [`xsd`], [`annotation`],
//! [`attribute_group`], [`group`], [`element`], [`sequence`], [`id`] and
//! [`primitives`]; the emission half in [`model`], [`scalar`], [`decimal`],
//! [`sort`], [`emit`], [`write_enums`] and [`write_numerics`]. Every public
//! function carries a contract that pins its result exactly; the trusted
//! boundary is confined to the XML parser door in [`xml`].

pub mod annotation;
pub mod attribute_group;
pub mod decimal;
pub mod element;
pub mod emit;
pub mod error;
pub mod group;
pub mod id;
pub mod model;
pub mod primitives;
pub mod scalar;
pub mod sequence;
pub mod sort;
pub mod text;
pub mod views;
pub mod write_enums;
pub mod write_numerics;
pub mod xml;
pub mod xsd;
