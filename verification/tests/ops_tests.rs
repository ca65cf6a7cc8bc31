use rusty_server::{parse_operation, u64_to_string, Op};

#[test]
fn every_synonym_resolves() {
    assert_eq!(parse_operation("add"), Some(Op::Add));
    assert_eq!(parse_operation("addition"), Some(Op::Add));
    assert_eq!(parse_operation("+"), Some(Op::Add));
    assert_eq!(parse_operation("subtract"), Some(Op::Subtract));
    assert_eq!(parse_operation("subtraction"), Some(Op::Subtract));
    assert_eq!(parse_operation("-"), Some(Op::Subtract));
    assert_eq!(parse_operation("multiply"), Some(Op::Multiply));
    assert_eq!(parse_operation("multiplication"), Some(Op::Multiply));
    assert_eq!(parse_operation("*"), Some(Op::Multiply));
    assert_eq!(parse_operation("divide"), Some(Op::Divide));
    assert_eq!(parse_operation("division"), Some(Op::Divide));
    assert_eq!(parse_operation("/"), Some(Op::Divide));
}

#[test]
fn matching_ignores_ascii_case() {
    assert_eq!(parse_operation("ADD"), Some(Op::Add));
    assert_eq!(parse_operation("Add"), Some(Op::Add));
    assert_eq!(parse_operation("aDd"), Some(Op::Add));
    assert_eq!(parse_operation("SUBTRACTION"), Some(Op::Subtract));
    assert_eq!(parse_operation("Multiply"), Some(Op::Multiply));
    assert_eq!(parse_operation("DIVIDE"), Some(Op::Divide));
}

#[test]
fn words_outside_the_synonym_set_do_not_resolve() {
    assert_eq!(parse_operation("mod"), None);
    assert_eq!(parse_operation("power"), None);
    assert_eq!(parse_operation(""), None);
    assert_eq!(parse_operation("addd"), None);
    assert_eq!(parse_operation("ad"), None);
    assert_eq!(parse_operation("add "), None);
    assert_eq!(parse_operation("plus"), None);
}

#[test]
fn non_ascii_words_do_not_resolve() {
    assert_eq!(parse_operation("ädd"), None);
    assert_eq!(parse_operation("добавить"), None);
}

#[test]
fn decimal_rendering_is_exact() {
    assert_eq!(u64_to_string(0), "0");
    assert_eq!(u64_to_string(7), "7");
    assert_eq!(u64_to_string(10), "10");
    assert_eq!(u64_to_string(12345), "12345");
    assert_eq!(u64_to_string(u64::MAX), "18446744073709551615");
}
