//! Metadata-driven generator for proving-system "flavor" headers.
//!
//! Given a flavor name and a set of named column-category sequences, the
//! library assembles an ordered key-value context, expands one of two
//! configured text templates against it (variable substitution, iteration,
//! and a sequence-concatenation `join` operator available inside templates),
//! and hands the rendered artifacts back to the caller for persistence.

pub mod context;
pub mod errors;
pub mod flavor_builder;
pub mod join;
pub mod json_data;
pub mod laws;
pub mod render;
