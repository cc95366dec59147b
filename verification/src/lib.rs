//! Core of a recipe-search front end: a closed catalog of named categories
//! with a stable numeric encoding, a validating configuration builder, a
//! modular-arithmetic translator for a derived identifier field, and an
//! adapter that binds a variable-shaped search result onto a fixed-capacity
//! toggle buffer. The search engine itself is an external collaborator:
//! callers hand its result (or its absence) back to this library.

pub mod catalog;
pub mod config;
pub mod present;
pub mod state;
pub mod translate;
