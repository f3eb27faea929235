//! Generation of builder types for records with named fields.
pub mod attr;
pub mod classify;
pub mod laws;
pub mod plan;
pub mod staging;
pub mod syntax;
