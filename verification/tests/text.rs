use representable_derive::text::{integer_to_text, join_with, quote_text, text_is};

fn strings(items: &[&str]) -> Vec<String> {
    items.iter().map(|s| s.to_string()).collect()
}

#[test]
fn join_of_nothing_is_empty() {
    assert_eq!(join_with(&strings(&[]), ", "), "");
}

#[test]
fn join_of_one_part_has_no_separator() {
    assert_eq!(join_with(&strings(&["a"]), ", "), "a");
}

#[test]
fn join_puts_separator_between_neighbours_only() {
    assert_eq!(join_with(&strings(&["a", "b", "c"]), ", "), "a, b, c");
    assert_eq!(join_with(&strings(&["", ""]), "-"), "-");
}

#[test]
fn quote_text_wraps_without_escaping() {
    assert_eq!(quote_text("a"), "\"a\"");
    assert_eq!(quote_text(""), "\"\"");
    assert_eq!(quote_text("say \"hi\""), "\"say \"hi\"\"");
}

#[test]
fn integer_to_text_small_values() {
    assert_eq!(integer_to_text(0), "0");
    assert_eq!(integer_to_text(7), "7");
    assert_eq!(integer_to_text(9), "9");
    assert_eq!(integer_to_text(10), "10");
    assert_eq!(integer_to_text(1000), "1000");
    assert_eq!(integer_to_text(1234567890), "1234567890");
}

#[test]
fn integer_to_text_negative_values() {
    assert_eq!(integer_to_text(-1), "-1");
    assert_eq!(integer_to_text(-10), "-10");
    assert_eq!(integer_to_text(-905), "-905");
}

#[test]
fn integer_to_text_extremes() {
    assert_eq!(integer_to_text(i32::MAX), "2147483647");
    assert_eq!(integer_to_text(i32::MIN), "-2147483648");
}

#[test]
fn integer_to_text_agrees_with_std() {
    let mut v: i32 = -70000;
    while v < 70000 {
        assert_eq!(integer_to_text(v), v.to_string());
        v += 37;
    }
}

#[test]
fn text_is_compares_whole_words() {
    assert!(text_is("Vec", "Vec"));
    assert!(!text_is("Vec", "vec"));
    assert!(!text_is("Vec", "Ve"));
    assert!(!text_is("", "Vec"));
    assert!(text_is("", ""));
}
