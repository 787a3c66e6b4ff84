//! Declared types and their classification into rendering strategies.

use vstd::prelude::*;
use crate::error::GenerationError;
use crate::text::text_is;

verus! {

/// How the elements of a sequence field are rendered.
#[derive(Clone, Copy, Debug, PartialEq, Eq, Structural)]
pub enum ElementShape {
    /// Text: each element is written between double quotes.
    StringElement,
    /// A 32-bit signed integer: each element is written as its numeral.
    IntegerElement,
    /// Any other element, rendered by its own `represent`.
    OtherElement,
}

/// The rendering strategy of a field.
#[derive(Clone, Copy, Debug, PartialEq, Eq, Structural)]
pub enum TypeShape {
    /// An ordered collection, rendered element by element.
    Sequence(ElementShape),
    /// Anything else, rendered by its own textual conversion.
    Scalar,
}

/// One argument in the angle brackets behind a type constructor.
#[derive(Debug)]
pub enum TypeArgument {
    /// A type written as a path, by the names of its segments in order.
    Path(Vec<String>),
    /// A type that is not a path, such as a reference, a tuple or an array.
    Unnamed,
    /// Something that is not a type, such as a lifetime or a constant.
    NotAType,
}

/// What stands behind a type constructor.
#[derive(Debug)]
pub enum TypeArguments {
    /// Nothing.
    Absent,
    /// Arguments in angle brackets, in order.
    AngleBracketed(Vec<TypeArgument>),
    /// Arguments in round brackets, as of a function type.
    Parenthesized,
}

/// A field's type as it was declared, as far as classification reads it.
#[derive(Debug)]
pub enum DeclaredType {
    /// A type written as a path: the names of its segments in order, and
    /// what follows the last of them.
    Path { segments: Vec<String>, arguments: TypeArguments },
    /// Any other form of type.
    Other,
}

/// The name of a type written as a path: the name of its last segment,
/// whatever qualifies it. A path without segments has the empty name.
pub open spec fn path_name(segments: Seq<String>) -> Seq<char> {
    if segments.len() == 0 {
        Seq::empty()
    } else {
        segments.last()@
    }
}

/// The element strategy chosen for an element type of the given name.
pub open spec fn element_shape_of(name: Seq<char>) -> ElementShape {
    if name == "String"@ {
        ElementShape::StringElement
    } else if name == "i32"@ {
        ElementShape::IntegerElement
    } else {
        ElementShape::OtherElement
    }
}

impl TypeArgument {
    /// The element strategy that this argument stands for, if it is a type:
    /// a path goes by its name, any other type is rendered by its own
    /// `represent`.
    pub open spec fn element_shape(&self) -> Option<ElementShape> {
        match self {
            TypeArgument::Path(segments) => Some(element_shape_of(path_name(segments@))),
            TypeArgument::Unnamed => Some(ElementShape::OtherElement),
            TypeArgument::NotAType => None,
        }
    }
}

impl TypeArguments {
    /// The element strategy, where the arguments are exactly one type
    /// between angle brackets.
    pub open spec fn sole_element(&self) -> Option<ElementShape> {
        match self {
            TypeArguments::AngleBracketed(args) => {
                if args@.len() == 1 {
                    args@[0].element_shape()
                } else {
                    None
                }
            },
            _ => None,
        }
    }
}

impl DeclaredType {
    /// The strategy for a field of this type. A path whose name is `Vec` is
    /// a sequence and needs exactly one element type; every other type is a
    /// scalar.
    pub open spec fn shape(&self) -> Result<TypeShape, GenerationError> {
        match self {
            DeclaredType::Path { segments, arguments } => {
                if path_name(segments@) == "Vec"@ {
                    match arguments.sole_element() {
                        Some(element) => Ok(TypeShape::Sequence(element)),
                        None => Err(GenerationError::MalformedGenericArgument),
                    }
                } else {
                    Ok(TypeShape::Scalar)
                }
            },
            DeclaredType::Other => Ok(TypeShape::Scalar),
        }
    }
}

/// The name of a type written as a path.
pub fn last_segment(segments: &Vec<String>) -> (name: &str)
    ensures
        name@ == path_name(segments@),
{
    if segments.len() == 0 {
        proof {
            reveal_strlit("");
            assert(""@ =~= Seq::<char>::empty());
        }
        ""
    } else {
        segments[segments.len() - 1].as_str()
    }
}

/// Chooses the element strategy by the element type's name.
pub fn classify_element(name: &str) -> (shape: ElementShape)
    ensures
        shape == element_shape_of(name@),
{
    if text_is(name, "String") {
        ElementShape::StringElement
    } else if text_is(name, "i32") {
        ElementShape::IntegerElement
    } else {
        ElementShape::OtherElement
    }
}

/// Chooses the element strategy of the arguments behind a sequence's name,
/// or fails where they are not exactly one type between angle brackets.
pub fn classify_arguments(arguments: &TypeArguments) -> (result: Result<
    ElementShape,
    GenerationError,
>)
    ensures
        match arguments.sole_element() {
            Some(element) => result == Ok::<ElementShape, GenerationError>(element),
            None => result == Err::<ElementShape, GenerationError>(
                GenerationError::MalformedGenericArgument,
            ),
        },
{
    match arguments {
        TypeArguments::AngleBracketed(args) => {
            if args.len() == 1 {
                match &args[0] {
                    TypeArgument::Path(segments) => Ok(classify_element(last_segment(segments))),
                    TypeArgument::Unnamed => Ok(ElementShape::OtherElement),
                    TypeArgument::NotAType => Err(GenerationError::MalformedGenericArgument),
                }
            } else {
                Err(GenerationError::MalformedGenericArgument)
            }
        },
        _ => Err(GenerationError::MalformedGenericArgument),
    }
}

/// Chooses the rendering strategy of a declared type, or fails where a
/// sequence's element type cannot be determined.
pub fn classify(declared: &DeclaredType) -> (result: Result<TypeShape, GenerationError>)
    ensures
        result == declared.shape(),
{
    match declared {
        DeclaredType::Path { segments, arguments } => {
            if text_is(last_segment(segments), "Vec") {
                match classify_arguments(arguments) {
                    Ok(element) => Ok(TypeShape::Sequence(element)),
                    Err(error) => Err(error),
                }
            } else {
                Ok(TypeShape::Scalar)
            }
        },
        DeclaredType::Other => Ok(TypeShape::Scalar),
    }
}

} // verus!
