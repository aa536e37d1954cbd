//! A schema-driven field-type compiler.
//!
//! Given a catalog of field-type definitions (a name, an underlying scalar
//! base type, and an ordered set of named integer-coded variants), the
//! compiler synthesizes one closed sum-type descriptor per non-empty
//! definition, together with total operations over it: construction from a
//! raw numeric value (never fails; unknown values fall back to a carried-raw
//! case), exact numeric round-trip, human-readable formatting, and a
//! serialization policy driven by each type's enum classification. A master
//! registry aggregates every generated descriptor beside the built-in scalar
//! tags and offers total dispatch over the whole tag space. A renderer emits
//! the generated type declarations as one source unit.

pub mod compile;
pub mod registry;
pub mod render;
pub mod schema;
pub mod text;
