use representable_derive::definition::{
    extract_named_fields, DeclaredField, DefinitionBody, FieldList, StructureDefinition,
};
use representable_derive::error::{GenerationError, UnsupportedReason};
use representable_derive::shape::{
    classify, classify_arguments, classify_element, last_segment, DeclaredType, ElementShape,
    TypeArgument, TypeArguments, TypeShape,
};

fn plain(constructor: &str) -> DeclaredType {
    DeclaredType::Path { segments: vec![constructor.to_string()], arguments: TypeArguments::Absent }
}

fn generic(constructor: &str, args: Vec<TypeArgument>) -> DeclaredType {
    DeclaredType::Path {
        segments: vec![constructor.to_string()],
        arguments: TypeArguments::AngleBracketed(args),
    }
}

fn named(name: &str) -> TypeArgument {
    TypeArgument::Path(vec![name.to_string()])
}

#[test]
fn element_names_choose_the_element_shape() {
    assert_eq!(classify_element("String"), ElementShape::StringElement);
    assert_eq!(classify_element("i32"), ElementShape::IntegerElement);
    assert_eq!(classify_element("Point"), ElementShape::OtherElement);
    assert_eq!(classify_element("i64"), ElementShape::OtherElement);
    assert_eq!(classify_element("string"), ElementShape::OtherElement);
    assert_eq!(classify_element("std"), ElementShape::OtherElement);
}

#[test]
fn sequences_are_classified_by_their_element() {
    assert_eq!(
        classify(&generic("Vec", vec![named("String")])),
        Ok(TypeShape::Sequence(ElementShape::StringElement))
    );
    assert_eq!(
        classify(&generic("Vec", vec![named("i32")])),
        Ok(TypeShape::Sequence(ElementShape::IntegerElement))
    );
    assert_eq!(
        classify(&generic("Vec", vec![named("Point")])),
        Ok(TypeShape::Sequence(ElementShape::OtherElement))
    );
}

#[test]
fn a_sole_type_that_is_no_path_is_another_element() {
    assert_eq!(
        classify(&generic("Vec", vec![TypeArgument::Unnamed])),
        Ok(TypeShape::Sequence(ElementShape::OtherElement))
    );
    assert_eq!(
        classify_arguments(&TypeArguments::AngleBracketed(vec![TypeArgument::Unnamed])),
        Ok(ElementShape::OtherElement)
    );
}

#[test]
fn a_path_goes_by_its_last_segment() {
    let qualified = |names: &[&str]| names.iter().map(|n| n.to_string()).collect::<Vec<String>>();
    assert_eq!(last_segment(&qualified(&["std", "string", "String"])), "String");
    assert_eq!(last_segment(&qualified(&["i32"])), "i32");
    assert_eq!(last_segment(&qualified(&[])), "");
    assert_eq!(
        classify(&DeclaredType::Path {
            segments: qualified(&["std", "vec", "Vec"]),
            arguments: TypeArguments::AngleBracketed(vec![TypeArgument::Path(qualified(&[
                "std", "string", "String"
            ]))]),
        }),
        Ok(TypeShape::Sequence(ElementShape::StringElement))
    );
    assert_eq!(
        classify(&DeclaredType::Path {
            segments: qualified(&["Vec", "Inner"]),
            arguments: TypeArguments::AngleBracketed(vec![named("i32")]),
        }),
        Ok(TypeShape::Scalar)
    );
    assert_eq!(
        classify(&generic("Vec", vec![TypeArgument::Path(qualified(&["String", "Inner"]))])),
        Ok(TypeShape::Sequence(ElementShape::OtherElement))
    );
    assert_eq!(
        classify(&DeclaredType::Path { segments: vec![], arguments: TypeArguments::Absent }),
        Ok(TypeShape::Scalar)
    );
}

#[test]
fn everything_else_is_a_scalar() {
    assert_eq!(classify(&plain("i32")), Ok(TypeShape::Scalar));
    assert_eq!(classify(&plain("String")), Ok(TypeShape::Scalar));
    assert_eq!(classify(&DeclaredType::Other), Ok(TypeShape::Scalar));
    assert_eq!(classify(&generic("Option", vec![named("i32")])), Ok(TypeShape::Scalar));
    assert_eq!(
        classify(&generic("HashMap", vec![named("String"), named("i32")])),
        Ok(TypeShape::Scalar)
    );
    assert_eq!(classify(&generic("vec", vec![named("i32")])), Ok(TypeShape::Scalar));
    assert_eq!(classify(&generic("VecDeque", vec![named("i32")])), Ok(TypeShape::Scalar));
}

#[test]
fn a_sequence_without_one_element_type_is_malformed() {
    let malformed = Err(GenerationError::MalformedGenericArgument);
    assert_eq!(classify(&plain("Vec")), malformed);
    assert_eq!(classify(&generic("Vec", vec![])), malformed);
    assert_eq!(classify(&generic("Vec", vec![named("i32"), named("Global")])), malformed);
    assert_eq!(classify(&generic("Vec", vec![TypeArgument::NotAType])), malformed);
    assert_eq!(
        classify(&DeclaredType::Path {
            segments: vec!["Vec".to_string()],
            arguments: TypeArguments::Parenthesized,
        }),
        malformed
    );
}

#[test]
fn named_fields_come_out_in_declaration_order() {
    let definition = StructureDefinition {
        name: "Point".to_string(),
        body: DefinitionBody::Product(FieldList::Named(vec![
            DeclaredField { name: "y".to_string(), declared: plain("i32") },
            DeclaredField { name: "x".to_string(), declared: plain("u8") },
            DeclaredField { name: "tags".to_string(), declared: generic("Vec", vec![named("String")]) },
        ])),
    };
    let fields = extract_named_fields(&definition).unwrap();
    let names: Vec<&str> = fields.iter().map(|f| f.name.as_str()).collect();
    assert_eq!(names, vec!["y", "x", "tags"]);
    assert!(matches!(&fields[1].declared, DeclaredType::Path { segments, .. } if segments[0] == "u8"));
}

#[test]
fn an_empty_named_field_list_is_accepted() {
    let definition = StructureDefinition {
        name: "Empty".to_string(),
        body: DefinitionBody::Product(FieldList::Named(vec![])),
    };
    assert_eq!(extract_named_fields(&definition).unwrap().len(), 0);
}

#[test]
fn sum_types_and_unions_are_not_structs() {
    let only_structs = GenerationError::UnsupportedShape(UnsupportedReason::OnlyStructs);
    let sum = StructureDefinition { name: "Choice".to_string(), body: DefinitionBody::Sum };
    assert_eq!(extract_named_fields(&sum).err(), Some(only_structs));
    let union = StructureDefinition { name: "Overlay".to_string(), body: DefinitionBody::Union };
    assert_eq!(extract_named_fields(&union).err(), Some(only_structs));
}

#[test]
fn positional_or_absent_fields_are_not_named() {
    let only_named = GenerationError::UnsupportedShape(UnsupportedReason::OnlyNamedFields);
    let tuple = StructureDefinition {
        name: "Pair".to_string(),
        body: DefinitionBody::Product(FieldList::Positional),
    };
    assert_eq!(extract_named_fields(&tuple).err(), Some(only_named));
    let unit = StructureDefinition {
        name: "Marker".to_string(),
        body: DefinitionBody::Product(FieldList::Absent),
    };
    assert_eq!(extract_named_fields(&unit).err(), Some(only_named));
}

#[test]
fn each_error_has_its_message() {
    assert_eq!(
        GenerationError::UnsupportedShape(UnsupportedReason::OnlyStructs).message(),
        "Representable only supports structs."
    );
    assert_eq!(
        GenerationError::UnsupportedShape(UnsupportedReason::OnlyNamedFields).message(),
        "Representable only supports named fields."
    );
    assert_eq!(
        GenerationError::MalformedGenericArgument.message(),
        "Invalid arguments or unsupported Vec type"
    );
}
