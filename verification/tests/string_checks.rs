use mago_linter::docblock_tags::{
    check_docblock_tags, hint_to_string, is_param_tag_unnecessary, is_return_tag_unnecessary, trim_chars, DocParameter,
    DocTag, DocTagKind, HintText,
};
use mago_linter::edit::{Span, TextEdit};
use mago_linter::keywords::check_lowercase_keyword;
use mago_linter::string_style::{
    boundary_edit_for_to_concat, check_binary_prefix, check_braced_interpolation, check_prefer_concatenation,
    check_prefer_interpolation, ConcatOperand, PrefixedString, StringPart, StringStyleOutcome, UnbracedExpression,
};

fn sp(start: u32, end: u32) -> Span {
    Span { start, end }
}

fn edit(start: u32, end: u32, text: &'static str) -> TextEdit {
    TextEdit { start, end, text }
}

fn lit(start: u32, end: u32, raw: &str) -> Box<ConcatOperand> {
    Box::new(ConcatOperand::StringLiteral { span: sp(start, end), double_quoted: false, raw: raw.to_string() })
}

#[test]
fn concatenation_becomes_interpolation() {
    // 'Hello ' . $name . '!'
    let e = ConcatOperand::Concat {
        lhs: Box::new(ConcatOperand::Concat { lhs: lit(0, 8, "'Hello '"), rhs: Box::new(ConcatOperand::Variable { span: sp(11, 16) }) }),
        rhs: lit(19, 22, "'!'"),
    };
    assert_eq!(
        check_prefer_interpolation(&e, false),
        StringStyleOutcome::Reported {
            fix: Some(vec![edit(0, 1, "\""), edit(21, 22, "\""), edit(7, 11, "{"), edit(16, 20, "}")])
        }
    );
    assert_eq!(check_prefer_interpolation(&e, true), StringStyleOutcome::NotReported);
}

#[test]
fn unsafe_literal_is_reported_without_fix() {
    let e = ConcatOperand::Concat { lhs: lit(0, 6, "'a$b'"), rhs: Box::new(ConcatOperand::Variable { span: sp(9, 11) }) };
    assert_eq!(check_prefer_interpolation(&e, false), StringStyleOutcome::Reported { fix: None });
    let only_literals = ConcatOperand::Concat { lhs: lit(0, 3, "'a'"), rhs: lit(6, 9, "'b'") };
    assert_eq!(check_prefer_interpolation(&only_literals, false), StringStyleOutcome::NotReported);
}

#[test]
fn interpolation_becomes_concatenation() {
    // "Hello {$name}!"
    let parts = vec![
        StringPart::Literal { span: sp(1, 7), value: "Hello ".to_string() },
        StringPart::Braced { left_brace: sp(7, 8), right_brace: sp(13, 14) },
        StringPart::Literal { span: sp(14, 15), value: "!".to_string() },
    ];
    assert_eq!(
        check_prefer_concatenation(&parts, sp(0, 1), sp(15, 16)),
        StringStyleOutcome::Reported { fix: Some(vec![edit(7, 8, "\" . "), edit(13, 14, " . \"")]) }
    );
    let only_var = vec![StringPart::Expression { span: sp(1, 3) }];
    assert_eq!(
        check_prefer_concatenation(&only_var, sp(0, 1), sp(3, 4)),
        StringStyleOutcome::Reported { fix: Some(vec![edit(0, 1, ""), edit(3, 4, "")]) }
    );
    let empty = vec![StringPart::Literal { span: sp(1, 1), value: String::new() }];
    assert_eq!(check_prefer_concatenation(&empty, sp(0, 1), sp(1, 2)), StringStyleOutcome::Reported { fix: None });
}

#[test]
fn boundary_glue() {
    let a = StringPart::Expression { span: sp(1, 3) };
    let b = StringPart::Expression { span: sp(3, 5) };
    assert_eq!(boundary_edit_for_to_concat(&a, &b), edit(3, 3, " . "));
}

#[test]
fn unbraced_variables_get_braces() {
    let parts = vec![
        StringPart::Literal { span: sp(1, 4), value: "id ".to_string() },
        StringPart::Expression { span: sp(4, 12) },
    ];
    let keys = vec![None, Some(sp(7, 11))];
    let (us, fix) = check_braced_interpolation(&parts, &keys).unwrap();
    assert_eq!(us, vec![UnbracedExpression { span: sp(4, 12), bareword_key: Some(sp(7, 11)) }]);
    assert_eq!(fix, vec![edit(4, 4, "{"), edit(7, 7, "'"), edit(11, 11, "'"), edit(12, 12, "}")]);
    assert!(check_braced_interpolation(&vec![StringPart::Braced { left_brace: sp(1, 2), right_brace: sp(4, 5) }], &vec![None]).is_none());
}

#[test]
fn binary_prefix() {
    assert_eq!(check_binary_prefix(&PrefixedString::Literal { span: sp(10, 16), raw: "b'foo'".to_string() }), Some(sp(10, 11)));
    assert_eq!(check_binary_prefix(&PrefixedString::Literal { span: sp(10, 15), raw: "'foo'".to_string() }), None);
    assert_eq!(check_binary_prefix(&PrefixedString::Composite { prefix: Some(sp(3, 4)) }), Some(sp(3, 4)));
}

#[test]
fn keywords_are_lowercased() {
    assert_eq!(check_lowercase_keyword(b"FUNCTION", false), Some(b"function".to_vec()));
    assert_eq!(check_lowercase_keyword(b"function", false), None);
    assert_eq!(check_lowercase_keyword(b"TRUE", true), None);
    assert_eq!(check_lowercase_keyword(b"TRUE", false), Some(b"true".to_vec()));
    assert_eq!(check_lowercase_keyword(b"Echo", true), Some(b"echo".to_vec()));
}

#[test]
fn hint_text_and_trimming() {
    let h = HintText::Nullable { inner: Box::new(HintText::Identifier { value: "\\Foo\\Bar".to_string() }) };
    assert_eq!(hint_to_string(&h).into_iter().collect::<String>(), "?Foo\\Bar");
    let u = HintText::Union { left: Box::new(HintText::Keyword { value: "int".to_string() }), right: Box::new(HintText::Null) };
    assert_eq!(hint_to_string(&u).into_iter().collect::<String>(), "int|null");
    let t: Vec<char> = " \t a b \n".chars().collect();
    assert_eq!(trim_chars(&t), vec!['a', ' ', 'b']);
    let nbsp: Vec<char> = "\u{00A0}x\u{2003}".chars().collect();
    assert_eq!(trim_chars(&nbsp), vec!['x']);
}

#[test]
fn docblock_tags_repeating_native_types() {
    let int = Some(HintText::Keyword { value: "int".to_string() });
    assert!(is_param_tag_unnecessary("INT $count", &int, "$count"));
    assert!(!is_param_tag_unnecessary("int $count the number", &int, "$count"));
    assert!(!is_param_tag_unnecessary("string $count", &int, "$count"));
    assert!(!is_param_tag_unnecessary("int $count", &None, "$count"));
    assert!(is_return_tag_unnecessary(" void ", &HintText::Keyword { value: "void".to_string() }));
    assert!(!is_return_tag_unnecessary("void nothing", &HintText::Keyword { value: "void".to_string() }));
    let tags = vec![
        DocTag { kind: DocTagKind::Param, description: "int $count".to_string(), span: sp(5, 20) },
        DocTag { kind: DocTagKind::Return, description: "bool true on success".to_string(), span: sp(25, 50) },
        DocTag { kind: DocTagKind::Other, description: "int $count".to_string(), span: sp(55, 60) },
    ];
    let params = vec![DocParameter { hint: int, name: "$count".to_string() }];
    let ret = Some(HintText::Keyword { value: "bool".to_string() });
    assert_eq!(check_docblock_tags(&tags, &params, &ret), vec![(sp(5, 20), DocTagKind::Param)]);
}

#[test]
fn concatenation_with_a_call_is_not_reported() {
    // "a: " . $x . strtolower($y)
    let e = ConcatOperand::Concat {
        lhs: Box::new(ConcatOperand::Concat {
            lhs: Box::new(ConcatOperand::StringLiteral { span: sp(0, 5), double_quoted: true, raw: "\"a: \"".to_string() }),
            rhs: Box::new(ConcatOperand::Variable { span: sp(8, 10) }),
        }),
        rhs: Box::new(ConcatOperand::Other),
    };
    assert_eq!(check_prefer_interpolation(&e, false), StringStyleOutcome::NotReported);
}
