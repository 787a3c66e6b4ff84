//! The generator: from a structure definition to its representation routine.

use vstd::prelude::*;
use vstd::string::StringExecFns;
use crate::definition::{extract_named_fields, DeclaredField, StructureDefinition};
use crate::error::GenerationError;
use crate::render::{expression_source, fragment_text, render, FieldValue, RenderedFragment};
use crate::shape::classify;
use crate::text::{join, join_with, views};

verus! {

/// Whether `fragments` render `fields` one for one, in order: each fragment
/// carries its field's name and the strategy of its field's declared type.
pub open spec fn renders(fragments: Seq<RenderedFragment>, fields: Seq<DeclaredField>) -> bool {
    &&& fragments.len() == fields.len()
    &&& forall|i: int|
        0 <= i < fields.len() ==> (#[trigger] fragments[i]).name@ == fields[i].name@
            && fields[i].declared.shape() == Ok::<_, GenerationError>(fragments[i].shape)
}

/// Whether the declared type of some field has no strategy.
pub open spec fn some_field_malformed(fields: Seq<DeclaredField>) -> bool {
    exists|i: int| 0 <= i < fields.len() && (#[trigger] fields[i]).declared.shape().is_err()
}

/// The expressions emitted for `fragments`, in order.
pub open spec fn fragment_expressions(fragments: Seq<RenderedFragment>) -> Seq<Seq<char>> {
    Seq::new(fragments.len(), |i: int| expression_source(fragments[i].name@, fragments[i].shape))
}

/// The expressions emitted for declared fields whose types all have a
/// strategy, in order.
pub open spec fn field_expressions(fields: Seq<DeclaredField>) -> Seq<Seq<char>> {
    Seq::new(
        fields.len(),
        |i: int| expression_source(fields[i].name@, fields[i].declared.shape().unwrap()),
    )
}

/// The source of the routine for a structure of the given name whose fields
/// are rendered by `expressions`. The routine writes the structure's name,
/// an opening brace between spaces, the fragments joined by a comma and a
/// space, then a space and a closing brace. The fragments are gathered in a
/// vector of strings, so that a structure without fields has a routine too.
pub open spec fn routine_source(struct_name: Seq<char>, expressions: Seq<Seq<char>>) -> Seq<char> {
    "impl representable_interface::Representable for "@ + struct_name
        + " { fn represent(&self) -> String { let mut result = String::new(); result.push_str(stringify!("@
        + struct_name
        + ")); result.push_str(\" { \"); let fragments: Vec<String> = vec!["@ + join(
        expressions,
        ", "@,
    ) + "]; result.push_str(&fragments.join(\", \")); result.push_str(\" }\"); result } }"@
}

/// What the routine returns: `Name { f1: v1, f2: v2 }`.
pub open spec fn representation(struct_name: Seq<char>, fragments: Seq<Seq<char>>) -> Seq<char> {
    struct_name + " { "@ + join(fragments, ", "@) + " }"@
}

impl StructureDefinition {
    /// The failure of generation on this definition, if it fails: an
    /// unsupported shape first, else a field whose type has no strategy.
    pub open spec fn failure(&self) -> Option<GenerationError> {
        match self.named_fields() {
            Err(error) => Some(error),
            Ok(fields) => if some_field_malformed(fields) {
                Some(GenerationError::MalformedGenericArgument)
            } else {
                None
            },
        }
    }

    /// The source of the routine generated for this definition.
    pub open spec fn derived_source(&self) -> Seq<char> {
        routine_source(self.name@, field_expressions(self.named_fields().unwrap()))
    }

    /// What `derive_representable` owes on this definition: the routine's
    /// source if generation succeeds, else the failure's diagnostic.
    pub open spec fn derives(&self, result: Result<String, String>) -> bool {
        match result {
            Ok(source) => self.failure().is_none() && source@ == self.derived_source(),
            Err(message) => self.failure().is_some() && message@
                == self.failure().unwrap().message_text(),
        }
    }
}

/// The routine generated for one structure.
#[derive(Debug)]
pub struct GeneratedRoutine {
    pub struct_name: String,
    pub fragments: Vec<RenderedFragment>,
}

impl GeneratedRoutine {
    /// Whether this routine is the one generated for `definition`.
    pub open spec fn generated_from(&self, definition: &StructureDefinition) -> bool {
        &&& definition.named_fields().is_ok()
        &&& self.struct_name@ == definition.name@
        &&& renders(self.fragments@, definition.named_fields().unwrap())
    }

    /// Whether `values` are the fields of an instance: one value for each
    /// fragment, each fitting its field's strategy.
    pub open spec fn accepts(&self, values: Seq<FieldValue>) -> bool {
        &&& values.len() == self.fragments@.len()
        &&& forall|i: int|
            0 <= i < values.len() ==> (#[trigger] values[i]).fits(self.fragments@[i].shape)
    }

    /// The fragments of an instance with the given field values, in
    /// declaration order.
    pub open spec fn fragment_texts(&self, values: Seq<FieldValue>) -> Seq<Seq<char>> {
        Seq::new(
            self.fragments@.len(),
            |i: int| fragment_text(self.fragments@[i].name@, values[i].text()),
        )
    }

    /// The representation of an instance with the given field values.
    pub open spec fn output(&self, values: Seq<FieldValue>) -> Option<Seq<char>> {
        if self.accepts(values) {
            Some(representation(self.struct_name@, self.fragment_texts(values)))
        } else {
            None
        }
    }

    /// The source of the routine.
    pub fn source(&self) -> (out: String)
        ensures
            out@ == routine_source(self.struct_name@, fragment_expressions(self.fragments@)),
    {
        generate_trait_impl(self.struct_name.as_str(), &self.fragments)
    }

    /// Runs the routine on the field values of an instance, given in
    /// declaration order. `None` where the values are not those of an
    /// instance.
    pub fn represent(&self, values: &Vec<FieldValue>) -> (result: Option<String>)
        ensures
            match result {
                Some(text) => self.output(values@) == Some(text@),
                None => self.output(values@).is_none(),
            },
    {
        if values.len() != self.fragments.len() {
            return None;
        }
        let mut parts: Vec<String> = Vec::new();
        let mut i: usize = 0;
        while i < self.fragments.len()
            invariant
                i <= self.fragments.len(),
                values.len() == self.fragments.len(),
                parts@.len() == i,
                forall|j: int| 0 <= j < i ==> (#[trigger] values@[j]).fits(self.fragments@[j].shape),
                forall|j: int|
                    0 <= j < i ==> (#[trigger] parts@[j])@ == fragment_text(
                        self.fragments@[j].name@,
                        values@[j].text(),
                    ),
            decreases self.fragments.len() - i,
        {
            match self.fragments[i].apply(&values[i]) {
                Some(part) => {
                    parts.push(part);
                },
                None => {
                    assert(!values@[i as int].fits(self.fragments@[i as int].shape));
                    return None;
                },
            }
            i += 1;
        }
        assert(views(parts@) =~= self.fragment_texts(values@));
        let mut out = self.struct_name.clone();
        out.append(" { ");
        let inner = join_with(&parts, ", ");
        out.append(inner.as_str());
        out.append(" }");
        Some(out)
    }
}

/// Classifies each declared field and pairs its name with its strategy,
/// keeping the declaration order. Fails where some field's type has no
/// strategy.
pub fn generate_field_formatters(fields: &Vec<DeclaredField>) -> (result: Result<
    Vec<RenderedFragment>,
    GenerationError,
>)
    ensures
        match result {
            Ok(fragments) => renders(fragments@, fields@),
            Err(error) => error == GenerationError::MalformedGenericArgument
                && some_field_malformed(fields@),
        },
{
    let mut fragments: Vec<RenderedFragment> = Vec::new();
    let mut i: usize = 0;
    while i < fields.len()
        invariant
            i <= fields.len(),
            fragments@.len() == i,
            forall|j: int|
                0 <= j < i ==> (#[trigger] fragments@[j]).name@ == fields@[j].name@
                    && fields@[j].declared.shape() == Ok::<_, GenerationError>(
                    fragments@[j].shape,
                ),
        decreases fields.len() - i,
    {
        match classify(&fields[i].declared) {
            Ok(shape) => {
                fragments.push(render(fields[i].name.as_str(), shape));
            },
            Err(error) => {
                assert(fields@[i as int].declared.shape().is_err());
                return Err(error);
            },
        }
        i += 1;
    }
    Ok(fragments)
}

/// Assembles the source of the routine for the type `struct_name` from the
/// fragments of its fields.
pub fn generate_trait_impl(struct_name: &str, field_formatters: &Vec<RenderedFragment>) -> (out:
    String)
    ensures
        out@ == routine_source(struct_name@, fragment_expressions(field_formatters@)),
{
    let mut expressions: Vec<String> = Vec::new();
    let mut i: usize = 0;
    while i < field_formatters.len()
        invariant
            i <= field_formatters.len(),
            expressions@.len() == i,
            forall|j: int|
                0 <= j < i ==> (#[trigger] expressions@[j])@ == expression_source(
                    field_formatters@[j].name@,
                    field_formatters@[j].shape,
                ),
        decreases field_formatters.len() - i,
    {
        expressions.push(field_formatters[i].expression());
        i += 1;
    }
    assert(views(expressions@) =~= fragment_expressions(field_formatters@));
    let mut out = String::from_str("impl representable_interface::Representable for ");
    out.append(struct_name);
    out.append(
        " { fn represent(&self) -> String { let mut result = String::new(); result.push_str(stringify!(",
    );
    out.append(struct_name);
    out.append(")); result.push_str(\" { \"); let fragments: Vec<String> = vec![");
    let inner = join_with(&expressions, ", ");
    out.append(inner.as_str());
    out.append("]; result.push_str(&fragments.join(\", \")); result.push_str(\" }\"); result } }");
    out
}

/// Generates the routine for a definition: extracts its named fields,
/// classifies and renders each, and keeps them in declaration order.
pub fn generate(definition: &StructureDefinition) -> (result: Result<
    GeneratedRoutine,
    GenerationError,
>)
    ensures
        match result {
            Ok(routine) => definition.failure().is_none() && routine.generated_from(definition),
            Err(error) => definition.failure() == Some(error),
        },
{
    match extract_named_fields(definition) {
        Ok(fields) => match generate_field_formatters(fields) {
            Ok(fragments) => {
                proof {
                    assert forall|i: int| 0 <= i < fields@.len() implies !(#[trigger] fields@[i])
                        .declared.shape().is_err() by {
                        let _ = fragments@[i].shape;
                    }
                }
                Ok(GeneratedRoutine { struct_name: definition.name.clone(), fragments })
            },
            Err(error) => Err(error),
        },
        Err(error) => Err(error),
    }
}

/// Generates for a definition what is handed back to the host: the source
/// of the routine, or the diagnostic of the failure.
pub fn derive_representable(definition: &StructureDefinition) -> (result: Result<String, String>)
    ensures
        definition.derives(result),
{
    match generate(definition) {
        Ok(routine) => {
            let source = routine.source();
            assert(fragment_expressions(routine.fragments@) =~= field_expressions(
                definition.named_fields().unwrap(),
            ));
            Ok(source)
        },
        Err(error) => Err(error.message()),
    }
}

} // verus!
