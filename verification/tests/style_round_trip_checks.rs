use mago_linter::edit::{Span, TextEdit};
use mago_linter::string_style::{
    check_prefer_concatenation, check_prefer_interpolation, ConcatOperand, StringPart, StringStyleOutcome,
};

fn sp(start: u32, end: u32) -> Span {
    Span { start, end }
}

fn apply(text: &str, edits: &[TextEdit]) -> String {
    let mut sorted: Vec<TextEdit> = edits.to_vec();
    sorted.sort_by_key(|e| (e.start, e.end));
    let mut out = String::new();
    let mut pos: usize = 0;
    for e in sorted {
        out.push_str(&text[pos..e.start as usize]);
        out.push_str(e.text);
        pos = e.end as usize;
    }
    out.push_str(&text[pos..]);
    out
}

fn fix_of(outcome: StringStyleOutcome) -> Vec<TextEdit> {
    match outcome {
        StringStyleOutcome::Reported { fix: Some(edits) } => edits,
        other => panic!("expected a fix, got {:?}", other),
    }
}

fn dq(start: u32, end: u32, raw: &str) -> Box<ConcatOperand> {
    Box::new(ConcatOperand::StringLiteral { span: sp(start, end), double_quoted: true, raw: raw.to_string() })
}

fn var(start: u32, end: u32) -> Box<ConcatOperand> {
    Box::new(ConcatOperand::Variable { span: sp(start, end) })
}

#[test]
fn simple_variable_suffix_round_trips() {
    let s = "\"Hello, \" . $name . \"!\"";
    let e = ConcatOperand::Concat { lhs: Box::new(ConcatOperand::Concat { lhs: dq(0, 9, "\"Hello, \""), rhs: var(12, 17) }), rhs: dq(20, 23, "\"!\"") };
    let t = apply(s, &fix_of(check_prefer_interpolation(&e, false)));
    assert_eq!(t, "\"Hello, {$name}!\"");

    let parts = vec![
        StringPart::Literal { span: sp(1, 8), value: "Hello, ".to_string() },
        StringPart::Braced { left_brace: sp(8, 9), right_brace: sp(14, 15) },
        StringPart::Literal { span: sp(15, 16), value: "!".to_string() },
    ];
    let back = apply(&t, &fix_of(check_prefer_concatenation(&parts, sp(0, 1), sp(16, 17))));
    assert_eq!(back, s);
}

#[test]
fn leading_and_adjacent_variables_round_trip() {
    let s = "$a . $b . \" and \" . $c";
    let e = ConcatOperand::Concat {
        lhs: Box::new(ConcatOperand::Concat { lhs: Box::new(ConcatOperand::Concat { lhs: var(0, 2), rhs: var(5, 7) }), rhs: dq(10, 17, "\" and \"") }),
        rhs: var(20, 22),
    };
    let t = apply(s, &fix_of(check_prefer_interpolation(&e, false)));
    assert_eq!(t, "\"{$a}{$b} and {$c}\"");

    let parts = vec![
        StringPart::Braced { left_brace: sp(1, 2), right_brace: sp(4, 5) },
        StringPart::Braced { left_brace: sp(5, 6), right_brace: sp(8, 9) },
        StringPart::Literal { span: sp(9, 14), value: " and ".to_string() },
        StringPart::Braced { left_brace: sp(14, 15), right_brace: sp(17, 18) },
    ];
    let back = apply(&t, &fix_of(check_prefer_concatenation(&parts, sp(0, 1), sp(18, 19))));
    assert_eq!(back, s);
}
