//! Structure definitions and the extraction of their named fields.

use vstd::prelude::*;
use crate::error::{GenerationError, UnsupportedReason};
use crate::shape::DeclaredType;

verus! {

/// One declared field: its name and its type as declared. The name is an
/// identifier of the host language, which also keeps the names of one
/// definition distinct; nothing here tests either.
#[derive(Debug)]
pub struct DeclaredField {
    pub name: String,
    pub declared: DeclaredType,
}

/// The fields of a product type.
#[derive(Debug)]
pub enum FieldList {
    /// Named fields, in declaration order.
    Named(Vec<DeclaredField>),
    /// Positional fields.
    Positional,
    /// No field list at all.
    Absent,
}

/// What kind of type a definition introduces.
#[derive(Debug)]
pub enum DefinitionBody {
    /// A product type with its fields.
    Product(FieldList),
    /// A sum type.
    Sum,
    /// An untagged union.
    Union,
}

/// A user-defined type as handed to the generator: its name, an identifier,
/// and what it declares.
#[derive(Debug)]
pub struct StructureDefinition {
    pub name: String,
    pub body: DefinitionBody,
}

impl StructureDefinition {
    /// The ordered named fields of a product type, or the reason why the
    /// definition has none to offer.
    pub open spec fn named_fields(&self) -> Result<Seq<DeclaredField>, GenerationError> {
        match self.body {
            DefinitionBody::Product(FieldList::Named(fields)) => Ok(fields@),
            DefinitionBody::Product(_) => Err(
                GenerationError::UnsupportedShape(UnsupportedReason::OnlyNamedFields),
            ),
            _ => Err(GenerationError::UnsupportedShape(UnsupportedReason::OnlyStructs)),
        }
    }
}

/// Yields the named fields of a product type in declaration order. A
/// definition that is no product type, or whose fields are not named, is
/// rejected with the matching reason.
pub fn extract_named_fields(definition: &StructureDefinition) -> (result: Result<
    &Vec<DeclaredField>,
    GenerationError,
>)
    ensures
        match result {
            Ok(fields) => definition.named_fields() == Ok::<Seq<DeclaredField>, GenerationError>(
                fields@,
            ),
            Err(error) => definition.named_fields() == Err::<Seq<DeclaredField>, GenerationError>(
                error,
            ),
        },
{
    match &definition.body {
        DefinitionBody::Product(FieldList::Named(fields)) => Ok(fields),
        DefinitionBody::Product(_) => Err(
            GenerationError::UnsupportedShape(UnsupportedReason::OnlyNamedFields),
        ),
        _ => Err(GenerationError::UnsupportedShape(UnsupportedReason::OnlyStructs)),
    }
}

} // verus!
