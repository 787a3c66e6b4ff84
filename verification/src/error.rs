//! Failures of generation and their diagnostics.

use vstd::prelude::*;
use vstd::string::StringExecFns;

verus! {

/// Why a definition's shape is not supported.
#[derive(Clone, Copy, Debug, PartialEq, Eq, Structural)]
pub enum UnsupportedReason {
    /// The definition is not a product type.
    OnlyStructs,
    /// The product type's fields are positional or absent.
    OnlyNamedFields,
}

/// A failure of generation. It is returned as a value and ends the generation
/// for the one structure it concerns.
#[derive(Clone, Copy, Debug, PartialEq, Eq, Structural)]
pub enum GenerationError {
    /// The definition is not a product type with named fields.
    UnsupportedShape(UnsupportedReason),
    /// A sequence field's element type could not be determined.
    MalformedGenericArgument,
}

impl GenerationError {
    /// The diagnostic shown for this failure.
    pub open spec fn message_text(self) -> Seq<char> {
        match self {
            GenerationError::UnsupportedShape(UnsupportedReason::OnlyStructs) => {
                "Representable only supports structs."@
            },
            GenerationError::UnsupportedShape(UnsupportedReason::OnlyNamedFields) => {
                "Representable only supports named fields."@
            },
            GenerationError::MalformedGenericArgument => {
                "Invalid arguments or unsupported Vec type"@
            },
        }
    }

    /// The diagnostic shown for this failure.
    pub fn message(&self) -> (out: String)
        ensures
            out@ == self.message_text(),
    {
        match self {
            GenerationError::UnsupportedShape(UnsupportedReason::OnlyStructs) => {
                String::from_str("Representable only supports structs.")
            },
            GenerationError::UnsupportedShape(UnsupportedReason::OnlyNamedFields) => {
                String::from_str("Representable only supports named fields.")
            },
            GenerationError::MalformedGenericArgument => {
                String::from_str("Invalid arguments or unsupported Vec type")
            },
        }
    }
}

} // verus!
