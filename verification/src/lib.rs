//! Derivation of staged "builder" companions for record types.
//!
//! Given a structural description of a record type (field names, declared
//! type expressions, and per-field attributes), this library classifies each
//! field as required, optional, or an element-by-element collection, and
//! synthesizes the fragments of a builder: storage slots, initializers,
//! setters, and the build-time reads, together with any diagnostics.
//! A small dynamic model gives the synthesized builder's runtime semantics,
//! so that staged construction itself is verified.

pub mod ast;
pub mod attr;
pub mod classify;
pub mod dynamic;
pub mod laws;
pub mod schema;
