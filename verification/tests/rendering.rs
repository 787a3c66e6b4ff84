use representable_derive::render::{
    render, serialize_regular, serialize_vec, serialize_vec_generic, serialize_vec_i32,
    serialize_vec_string, FieldValue,
};
use representable_derive::shape::{ElementShape, TypeShape};

fn strings(items: &[&str]) -> Vec<String> {
    items.iter().map(|s| s.to_string()).collect()
}

#[test]
fn scalar_fragment_is_name_colon_value() {
    let fragment = render("age", TypeShape::Scalar);
    assert_eq!(fragment.name, "age");
    assert_eq!(fragment.shape, TypeShape::Scalar);
    assert_eq!(fragment.apply(&FieldValue::Scalar("42".to_string())), Some("age: 42".to_string()));
    assert_eq!(fragment.apply(&FieldValue::Scalar(String::new())), Some("age: ".to_string()));
}

#[test]
fn text_sequence_is_quoted_and_comma_joined() {
    let fragment = render("tags", TypeShape::Sequence(ElementShape::StringElement));
    assert_eq!(
        fragment.apply(&FieldValue::Strings(strings(&["a", "b"]))),
        Some("tags: [\"a\", \"b\"]".to_string())
    );
}

#[test]
fn text_sequence_does_not_escape_embedded_quotes() {
    let fragment = render("tags", TypeShape::Sequence(ElementShape::StringElement));
    assert_eq!(
        fragment.apply(&FieldValue::Strings(strings(&["a\"b"]))),
        Some("tags: [\"a\"b\"]".to_string())
    );
}

#[test]
fn integer_sequence_is_unquoted() {
    let fragment = render("nums", TypeShape::Sequence(ElementShape::IntegerElement));
    assert_eq!(
        fragment.apply(&FieldValue::Integers(vec![1, 2, 3])),
        Some("nums: [1, 2, 3]".to_string())
    );
    assert_eq!(
        fragment.apply(&FieldValue::Integers(vec![-5, 0, i32::MIN])),
        Some("nums: [-5, 0, -2147483648]".to_string())
    );
}

#[test]
fn other_sequence_uses_each_elements_representation() {
    let fragment = render("items", TypeShape::Sequence(ElementShape::OtherElement));
    assert_eq!(
        fragment.apply(&FieldValue::Others(strings(&["Point { x: 1, y: 2 }", "Point { x: 3, y: 4 }"]))),
        Some("items: [Point { x: 1, y: 2 }, Point { x: 3, y: 4 }]".to_string())
    );
}

#[test]
fn empty_sequences_render_as_empty_brackets() {
    let tags = render("tags", TypeShape::Sequence(ElementShape::StringElement));
    assert_eq!(tags.apply(&FieldValue::Strings(vec![])), Some("tags: []".to_string()));
    let nums = render("nums", TypeShape::Sequence(ElementShape::IntegerElement));
    assert_eq!(nums.apply(&FieldValue::Integers(vec![])), Some("nums: []".to_string()));
    let items = render("items", TypeShape::Sequence(ElementShape::OtherElement));
    assert_eq!(items.apply(&FieldValue::Others(vec![])), Some("items: []".to_string()));
}

#[test]
fn a_value_of_another_kind_is_refused() {
    let scalar = render("age", TypeShape::Scalar);
    assert_eq!(scalar.apply(&FieldValue::Integers(vec![1])), None);
    let nums = render("nums", TypeShape::Sequence(ElementShape::IntegerElement));
    assert_eq!(nums.apply(&FieldValue::Strings(strings(&["1"]))), None);
    assert_eq!(nums.apply(&FieldValue::Scalar("1".to_string())), None);
    let tags = render("tags", TypeShape::Sequence(ElementShape::StringElement));
    assert_eq!(tags.apply(&FieldValue::Others(strings(&["a"]))), None);
    let items = render("items", TypeShape::Sequence(ElementShape::OtherElement));
    assert_eq!(items.apply(&FieldValue::Strings(strings(&["a"]))), None);
}

#[test]
fn scalar_expression_formats_the_field_itself() {
    assert_eq!(serialize_regular("age"), r#"format!("{}: {}", "age", self.age)"#);
    assert_eq!(render("age", TypeShape::Scalar).expression(), serialize_regular("age"));
}

#[test]
fn integer_sequence_expression_maps_to_string() {
    assert_eq!(
        serialize_vec_i32("nums"),
        r#"format!("{}: [{}]", "nums", self.nums.iter().map(|item| item.to_string()).collect::<Vec<String>>().join(", "))"#
    );
}

#[test]
fn text_sequence_expression_quotes_each_item() {
    assert_eq!(
        serialize_vec_string("tags"),
        r#"format!("{}: [{}]", "tags", self.tags.iter().map(|item| format!("\"{}\"", item)).collect::<Vec<String>>().join(", "))"#
    );
}

#[test]
fn other_sequence_expression_calls_represent() {
    assert_eq!(
        serialize_vec_generic("items"),
        r#"format!("{}: [{}]", "items", self.items.iter().map(|item| item.represent()).collect::<Vec<String>>().join(", "))"#
    );
}

#[test]
fn sequence_expression_follows_the_element_shape() {
    assert_eq!(serialize_vec("v", ElementShape::StringElement), serialize_vec_string("v"));
    assert_eq!(serialize_vec("v", ElementShape::IntegerElement), serialize_vec_i32("v"));
    assert_eq!(serialize_vec("v", ElementShape::OtherElement), serialize_vec_generic("v"));
    let fragment = render("v", TypeShape::Sequence(ElementShape::IntegerElement));
    assert_eq!(fragment.expression(), serialize_vec_i32("v"));
}

#[test]
fn emitted_expressions_are_expressions() {
    for text in [
        serialize_regular("age"),
        serialize_vec_i32("nums"),
        serialize_vec_string("tags"),
        serialize_vec_generic("items"),
    ] {
        assert!(syn::parse_str::<syn::Expr>(&text).is_ok(), "{}", text);
    }
}
