//! Per-field fragments: the expression emitted for a field, and the text
//! that expression yields for a value of the field.

use vstd::prelude::*;
use vstd::string::StringExecFns;
use crate::shape::{ElementShape, TypeShape};
use crate::text::{integer_text, integer_to_text, join, join_with, quote_text, quoted, views};

verus! {

/// The value of a field of a live instance, as its fragment reads it.
#[derive(Debug)]
pub enum FieldValue {
    /// A scalar, given by the text of its own textual conversion.
    Scalar(String),
    /// A sequence of text elements.
    Strings(Vec<String>),
    /// A sequence of 32-bit signed integers.
    Integers(Vec<i32>),
    /// A sequence of other elements, each given by its own representation.
    Others(Vec<String>),
}

/// The items between square brackets, separated by a comma and a space.
pub open spec fn bracketed(items: Seq<Seq<char>>) -> Seq<char> {
    "["@ + join(items, ", "@) + "]"@
}

impl FieldValue {
    /// Whether a field of the given strategy can hold this value.
    pub open spec fn fits(&self, shape: TypeShape) -> bool {
        match (self, shape) {
            (FieldValue::Scalar(_), TypeShape::Scalar) => true,
            (FieldValue::Strings(_), TypeShape::Sequence(ElementShape::StringElement)) => true,
            (FieldValue::Integers(_), TypeShape::Sequence(ElementShape::IntegerElement)) => true,
            (FieldValue::Others(_), TypeShape::Sequence(ElementShape::OtherElement)) => true,
            _ => false,
        }
    }

    /// The value as text: a scalar by its own conversion; a sequence between
    /// square brackets, text elements quoted without escaping, integers as
    /// numerals, other elements by their own representation.
    pub open spec fn text(&self) -> Seq<char> {
        match self {
            FieldValue::Scalar(t) => t@,
            FieldValue::Strings(items) => bracketed(
                Seq::new(items@.len(), |i: int| quoted(items@[i]@)),
            ),
            FieldValue::Integers(items) => bracketed(
                Seq::new(items@.len(), |i: int| integer_text(items@[i] as int)),
            ),
            FieldValue::Others(items) => bracketed(views(items@)),
        }
    }
}

/// The fragment `name: value` of one field.
pub open spec fn fragment_text(name: Seq<char>, value: Seq<char>) -> Seq<char> {
    name + ": "@ + value
}

/// The expression emitted for a scalar field. The field's name stands in it
/// twice: between quotes as a literal, which needs no escaping since an
/// identifier holds neither a quote nor a backslash, and behind `self.`.
pub open spec fn regular_source(name: Seq<char>) -> Seq<char> {
    "format!(\"{}: {}\", "@ + quoted(name) + ", self."@ + name + ")"@
}

/// The expression emitted for one element of a sequence, named `item`.
pub open spec fn element_source(element: ElementShape) -> Seq<char> {
    match element {
        ElementShape::StringElement => "format!(\"\\\"{}\\\"\", item)"@,
        ElementShape::IntegerElement => "item.to_string()"@,
        ElementShape::OtherElement => "item.represent()"@,
    }
}

/// The expression emitted for a sequence field whose elements are rendered
/// by the expression `mapper`.
pub open spec fn sequence_source_with(name: Seq<char>, mapper: Seq<char>) -> Seq<char> {
    "format!(\"{}: [{}]\", "@ + quoted(name) + ", self."@ + name + ".iter().map(|item| "@ + mapper
        + ").collect::<Vec<String>>().join(\", \"))"@
}

/// The expression emitted for a sequence field.
pub open spec fn sequence_source(name: Seq<char>, element: ElementShape) -> Seq<char> {
    sequence_source_with(name, element_source(element))
}

/// The expression emitted for a field of the given strategy.
pub open spec fn expression_source(name: Seq<char>, shape: TypeShape) -> Seq<char> {
    match shape {
        TypeShape::Scalar => regular_source(name),
        TypeShape::Sequence(element) => sequence_source(name, element),
    }
}

/// Emits the expression for a scalar field: its name, a colon and the
/// field's own textual conversion.
pub fn serialize_regular(field_name: &str) -> (out: String)
    ensures
        out@ == regular_source(field_name@),
{
    let mut out = String::from_str("format!(\"{}: {}\", ");
    let literal = quote_text(field_name);
    out.append(literal.as_str());
    out.append(", self.");
    out.append(field_name);
    out.append(")");
    out
}

fn serialize_sequence(field_name: &str, mapper: &str) -> (out: String)
    ensures
        out@ == sequence_source_with(field_name@, mapper@),
{
    let mut out = String::from_str("format!(\"{}: [{}]\", ");
    let literal = quote_text(field_name);
    out.append(literal.as_str());
    out.append(", self.");
    out.append(field_name);
    out.append(".iter().map(|item| ");
    out.append(mapper);
    out.append(").collect::<Vec<String>>().join(\", \"))");
    out
}

/// Emits the expression for a sequence of integers: numerals, unquoted.
pub fn serialize_vec_i32(field_name: &str) -> (out: String)
    ensures
        out@ == sequence_source(field_name@, ElementShape::IntegerElement),
{
    serialize_sequence(field_name, "item.to_string()")
}

/// Emits the expression for a sequence of text: each element between
/// double quotes.
pub fn serialize_vec_string(field_name: &str) -> (out: String)
    ensures
        out@ == sequence_source(field_name@, ElementShape::StringElement),
{
    serialize_sequence(field_name, "format!(\"\\\"{}\\\"\", item)")
}

/// Emits the expression for a sequence of other elements: each by its own
/// `represent`.
pub fn serialize_vec_generic(field_name: &str) -> (out: String)
    ensures
        out@ == sequence_source(field_name@, ElementShape::OtherElement),
{
    serialize_sequence(field_name, "item.represent()")
}

/// Emits the expression for a sequence field by its element strategy.
pub fn serialize_vec(field_name: &str, element: ElementShape) -> (out: String)
    ensures
        out@ == sequence_source(field_name@, element),
{
    match element {
        ElementShape::StringElement => serialize_vec_string(field_name),
        ElementShape::IntegerElement => serialize_vec_i32(field_name),
        ElementShape::OtherElement => serialize_vec_generic(field_name),
    }
}

/// The fragment of one field: which field it renders, and by which strategy.
#[derive(Debug)]
pub struct RenderedFragment {
    pub name: String,
    pub shape: TypeShape,
}

/// Pairs a field's name with its strategy.
pub fn render(name: &str, shape: TypeShape) -> (fragment: RenderedFragment)
    ensures
        fragment.name@ == name@,
        fragment.shape == shape,
{
    RenderedFragment { name: String::from_str(name), shape }
}

fn wrap_in_brackets(items: &Vec<String>) -> (out: String)
    ensures
        out@ == bracketed(views(items@)),
{
    let mut out = String::from_str("[");
    let inner = join_with(items, ", ");
    out.append(inner.as_str());
    out.append("]");
    out
}

fn quote_each(items: &Vec<String>) -> (out: Vec<String>)
    ensures
        views(out@) == Seq::new(items@.len(), |i: int| quoted(items@[i]@)),
{
    let mut out: Vec<String> = Vec::new();
    let mut i: usize = 0;
    while i < items.len()
        invariant
            i <= items.len(),
            out@.len() == i,
            forall|j: int| 0 <= j < i ==> (#[trigger] out@[j])@ == quoted(items@[j]@),
        decreases items.len() - i,
    {
        out.push(quote_text(items[i].as_str()));
        i += 1;
    }
    assert(views(out@) =~= Seq::new(items@.len(), |i: int| quoted(items@[i]@)));
    out
}

fn numeral_each(items: &Vec<i32>) -> (out: Vec<String>)
    ensures
        views(out@) == Seq::new(items@.len(), |i: int| integer_text(items@[i] as int)),
{
    let mut out: Vec<String> = Vec::new();
    let mut i: usize = 0;
    while i < items.len()
        invariant
            i <= items.len(),
            out@.len() == i,
            forall|j: int| 0 <= j < i ==> (#[trigger] out@[j])@ == integer_text(items@[j] as int),
        decreases items.len() - i,
    {
        out.push(integer_to_text(items[i]));
        i += 1;
    }
    assert(views(out@) =~= Seq::new(items@.len(), |i: int| integer_text(items@[i] as int)));
    out
}

impl RenderedFragment {
    /// The text of this fragment for a value of its field, where the value
    /// fits the field's strategy.
    pub open spec fn output(&self, value: &FieldValue) -> Option<Seq<char>> {
        if value.fits(self.shape) {
            Some(fragment_text(self.name@, value.text()))
        } else {
            None
        }
    }

    /// The expression emitted for this fragment.
    pub fn expression(&self) -> (out: String)
        ensures
            out@ == expression_source(self.name@, self.shape),
    {
        match self.shape {
            TypeShape::Scalar => serialize_regular(self.name.as_str()),
            TypeShape::Sequence(element) => serialize_vec(self.name.as_str(), element),
        }
    }

    /// Evaluates the fragment on a value of its field: `name: value`, with
    /// no separator before or after. A value that the field's strategy
    /// cannot hold gives `None`.
    pub fn apply(&self, value: &FieldValue) -> (result: Option<String>)
        ensures
            match result {
                Some(text) => self.output(value) == Some(text@),
                None => self.output(value).is_none(),
            },
    {
        let rendered = match (value, self.shape) {
            (FieldValue::Scalar(text), TypeShape::Scalar) => text.clone(),
            (FieldValue::Strings(items), TypeShape::Sequence(ElementShape::StringElement)) => {
                let parts = quote_each(items);
                wrap_in_brackets(&parts)
            },
            (FieldValue::Integers(items), TypeShape::Sequence(ElementShape::IntegerElement)) => {
                let parts = numeral_each(items);
                wrap_in_brackets(&parts)
            },
            (FieldValue::Others(items), TypeShape::Sequence(ElementShape::OtherElement)) => {
                wrap_in_brackets(items)
            },
            _ => {
                return None;
            },
        };
        let mut out = self.name.clone();
        out.append(": ");
        out.append(rendered.as_str());
        Some(out)
    }
}

} // verus!
