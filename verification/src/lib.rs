//! A typed domain model for ledger assets: identifiers with a canonical
//! string grammar and a total ordering, exact-decimal numeric values that
//! never pass through binary floating point, closed policy enumerations,
//! and the definition and balance entities built from them.
//!
//! Untyped input (strings, raw numeric literals) enters only through the
//! fallible constructors here; every value that exists is one the grammar
//! and invariants admit.

pub mod asset;
pub mod definition;
pub mod errors;
pub mod grammar;
pub mod ids;
pub mod ipfs;
pub mod metadata;
pub mod numeric;
pub mod order;
