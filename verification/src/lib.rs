//! Generation of a textual representation routine for a record type.
//!
//! From a description of a structure (its name and its declared fields) the
//! library decides, field by field, how the field's value is rendered, and
//! emits the source of a `represent` routine. Every step is a verified
//! function whose contract is stated over the views of the values involved.

pub mod text;
pub mod error;
pub mod shape;
pub mod definition;
pub mod render;
pub mod generate;
pub mod laws;
