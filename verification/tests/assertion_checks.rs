use mago_linter::assertions::{
    check_assertion_calls, get_specific_assertion, is_checked_test_method, should_use_strict_assertion,
    strict_assertion_name, ArgumentValue, AssertionArgument, AssertionCall, LiteralPosition,
};
use mago_linter::edit::{Span, TextEdit};

fn sp(start: u32, end: u32) -> Span {
    Span { start, end }
}

#[test]
fn test_method_names() {
    assert!(is_checked_test_method("testSomething"));
    assert!(is_checked_test_method("test_something"));
    assert!(is_checked_test_method("testÉté"));
    assert!(!is_checked_test_method("testsomething"));
    assert!(!is_checked_test_method("test"));
    assert!(!is_checked_test_method("helperTest"));
}

#[test]
fn strict_names_replace_equals() {
    assert_eq!(strict_assertion_name("assertEquals"), Some("assertSame"));
    assert_eq!(strict_assertion_name("assertAttributeNotEquals"), Some("assertAttributeNotSame"));
    assert_eq!(strict_assertion_name("assertSame"), None);
    assert!(should_use_strict_assertion("assertEquals", &vec![ArgumentValue::IntegerLiteral, ArgumentValue::Other]));
    assert!(!should_use_strict_assertion("assertEquals", &vec![ArgumentValue::NullLiteral, ArgumentValue::Other]));
    assert!(!should_use_strict_assertion(
        "assertAttributeEquals",
        &vec![ArgumentValue::StringLiteral, ArgumentValue::Other]
    ));
}

#[test]
fn specific_assertions() {
    assert_eq!(
        get_specific_assertion("assertEquals", ArgumentValue::NullLiteral, ArgumentValue::Other),
        Some(("assertNull", LiteralPosition::First))
    );
    assert_eq!(
        get_specific_assertion("assertNotSame", ArgumentValue::Other, ArgumentValue::NullLiteral),
        Some(("assertNotNull", LiteralPosition::Second))
    );
    assert_eq!(get_specific_assertion("assertNotSame", ArgumentValue::TrueLiteral, ArgumentValue::Other), None);
    assert_eq!(
        get_specific_assertion("assertSame", ArgumentValue::Other, ArgumentValue::FalseLiteral),
        Some(("assertFalse", LiteralPosition::Second))
    );
}

fn call(name: &str, args: Vec<(ArgumentValue, Span)>) -> AssertionCall {
    AssertionCall {
        selector: sp(7, 19),
        name: Some(name.to_string()),
        argument_list: Some(sp(19, 34)),
        arguments: args.into_iter().map(|(value, span)| AssertionArgument { value, span }).collect(),
    }
}

#[test]
fn specific_assertion_fix_drops_the_literal() {
    // $this->assertEquals(null, $x);
    let calls = vec![call("assertEquals", vec![(ArgumentValue::NullLiteral, sp(20, 24)), (ArgumentValue::Other, sp(26, 28))])];
    let fixes = check_assertion_calls("testFoo", &calls, true);
    assert_eq!(fixes.len(), 1);
    assert_eq!(fixes[0].replacement, "assertNull");
    assert!(fixes[0].potentially_unsafe);
    assert_eq!(
        fixes[0].fix,
        vec![TextEdit { start: 7, end: 19, text: "assertNull" }, TextEdit { start: 19, end: 26, text: "(" }]
    );
    // outside a test method nothing is proposed
    assert!(check_assertion_calls("helper", &calls, true).is_empty());
}

#[test]
fn strict_assertion_fix_renames_the_call() {
    let calls = vec![
        call("assertEquals", vec![(ArgumentValue::IntegerLiteral, sp(20, 21)), (ArgumentValue::Other, sp(23, 25))]),
        call("assertSame", vec![(ArgumentValue::IntegerLiteral, sp(20, 21)), (ArgumentValue::Other, sp(23, 25))]),
    ];
    let fixes = check_assertion_calls("test_values", &calls, false);
    assert_eq!(fixes.len(), 1);
    assert_eq!(fixes[0].call, 0);
    assert_eq!(fixes[0].fix, vec![TextEdit { start: 7, end: 19, text: "assertSame" }]);
}
