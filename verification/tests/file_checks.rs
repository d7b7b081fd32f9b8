use mago_linter::config::FileNameConfig;
use mago_linter::deprecations::{check_deprecated_cast, switch_separator_fix, PrefixOperator};
use mago_linter::edit::{Span, TextEdit};
use mago_linter::file_name::{
    check_file_name, file_name_stem, ClassLikeDefinition, ClassLikeKind, FileNameMismatch, FunctionDefinition,
};
use mago_linter::is_null::{check_is_null, IsNullArgument, ParentNode};
use mago_linter::regex::{check_preg_replace, has_executable_modifier};
use mago_linter::use_imports::{check_use_statement, UnusedImports, Usage, UseForm, UseItemShape, UseStatementShape};
use mago_linter::variable_usage::{
    dead_stores, is_silenced_name, redundant_variables, unused_variables, DeclaredVariable, VariableFindings,
};
use mago_linter::yield_from::{check_redundant_yield_from, ArrayElementShape, ElementKind, YieldIterator};

fn sp(start: u32, end: u32) -> Span {
    Span { start, end }
}

#[test]
fn file_stems() {
    assert_eq!(file_name_stem(b"src/Foo/Bar.php"), b"Bar".to_vec());
    assert_eq!(file_name_stem(b"Bar.inc"), b"Bar".to_vec());
    assert_eq!(file_name_stem(b"dir/Bar.view.php"), b"Bar.view".to_vec());
    assert_eq!(file_name_stem(b"dir.d/Bar"), b"Bar".to_vec());
}

#[test]
fn single_class_must_match_the_file() {
    let cfg = FileNameConfig::default();
    let classes = vec![ClassLikeDefinition { kind: ClassLikeKind::Class, name: b"Foo".to_vec(), span: sp(6, 9) }];
    assert_eq!(
        check_file_name(&cfg, b"src/Bar.php", &classes, &vec![]),
        Some(FileNameMismatch::Definition { kind: Some(ClassLikeKind::Class), name: b"Foo".to_vec(), span: sp(6, 9), stem: b"Bar".to_vec() })
    );
    assert_eq!(check_file_name(&cfg, b"src/Foo.php", &classes, &vec![]), None);
    let functions = vec![FunctionDefinition { name: b"helper".to_vec(), span: sp(9, 15) }];
    assert_eq!(check_file_name(&cfg, b"src/Bar.php", &vec![], &functions), None);
    let checking = FileNameConfig { check_functions: true, ..cfg };
    assert!(check_file_name(&checking, b"src/Bar.php", &vec![], &functions).is_some());
}

#[test]
fn is_null_becomes_a_comparison() {
    let source = b"if (!is_null($x)) {}";
    let parents = vec![ParentNode::Transparent, ParentNode::Not { span: sp(4, 16) }, ParentNode::Other];
    let args = vec![IsNullArgument { spread: false, span: sp(13, 15) }];
    let r = check_is_null(sp(5, 16), &parents, &args, source);
    assert_eq!(r.span, sp(4, 16));
    assert!(r.negated);
    assert_eq!(r.replacement, Some(b"null !== $x".to_vec()));
    let spread = vec![IsNullArgument { spread: true, span: sp(13, 15) }];
    assert_eq!(check_is_null(sp(5, 16), &parents, &spread, source).replacement, None);
}

#[test]
fn executable_regex_modifier() {
    assert!(has_executable_modifier("/a/e"));
    assert!(has_executable_modifier("#a#ie"));
    assert!(!has_executable_modifier("/e/i"));
    assert!(!has_executable_modifier("/abc"));
    assert!(check_preg_replace(true, Some("/x/e")));
    assert!(!check_preg_replace(false, Some("/x/e")));
    assert!(!check_preg_replace(true, None));
}

#[test]
fn deprecated_casts() {
    assert_eq!(check_deprecated_cast(PrefixOperator::DoubleCast, sp(0, 8)), Some(TextEdit { start: 0, end: 8, text: "(float)" }));
    assert_eq!(check_deprecated_cast(PrefixOperator::Other, sp(0, 5)), None);
    assert_eq!(switch_separator_fix(sp(10, 11)), TextEdit { start: 10, end: 11, text: ":" });
}

#[test]
fn yield_from_single_element_array() {
    let it = YieldIterator::Array { elements: vec![ArrayElementShape { kind: ElementKind::Value, span: sp(12, 14) }], close_end: 15 };
    assert_eq!(
        check_redundant_yield_from(sp(0, 5), &it),
        Some(vec![TextEdit { start: 5, end: 12, text: " " }, TextEdit { start: 14, end: 15, text: "" }])
    );
    let spread = YieldIterator::Array { elements: vec![ArrayElementShape { kind: ElementKind::Variadic, span: sp(12, 17) }], close_end: 18 };
    assert_eq!(check_redundant_yield_from(sp(0, 5), &spread), None);
    assert_eq!(check_redundant_yield_from(sp(0, 5), &YieldIterator::Other), None);
}

fn item(name: &str, start: u32, end: u32) -> UseItemShape {
    UseItemShape { name: name.to_string(), alias: None, item_type: None, span: sp(start, end), entry_span: sp(start, end) }
}

#[test]
fn unused_imports() {
    let st = UseStatementShape {
        span: sp(0, 30),
        form: UseForm::Sequence,
        items: vec![item("App\\Foo", 4, 11), item("\\App\\Bar", 13, 21)],
        commas: vec![sp(11, 12)],
    };
    let usage = Usage { used_fqns: vec!["app\\foo".to_string()], docblocks: vec![], inline: vec![] };
    assert_eq!(
        check_use_statement(&st, &usage),
        UnusedImports::SomeUnused { unused: vec![1], deletions: vec![sp(11, 21)] }
    );
    let none_used = Usage { used_fqns: vec![], docblocks: vec![], inline: vec![] };
    assert_eq!(check_use_statement(&st, &none_used), UnusedImports::AllUnused { delete: sp(0, 30) });
    let in_doc = Usage { used_fqns: vec!["App\\Bar\\Baz".to_string()], docblocks: vec!["@var Foo $x".to_string()], inline: vec![] };
    assert_eq!(check_use_statement(&st, &in_doc), UnusedImports::AllUsed);
}

#[test]
fn unused_and_dead_variables() {
    assert!(is_silenced_name("$_"));
    assert!(is_silenced_name("$_unused"));
    assert!(!is_silenced_name("$x"));
    let decls = vec![
        DeclaredVariable { name: "$a".to_string(), span: sp(0, 2), by_reference: false },
        DeclaredVariable { name: "$b".to_string(), span: sp(3, 5), by_reference: false },
        DeclaredVariable { name: "$c".to_string(), span: sp(6, 9), by_reference: true },
        DeclaredVariable { name: "$_d".to_string(), span: sp(10, 13), by_reference: false },
    ];
    assert_eq!(unused_variables(&decls, &Some(vec!["$a".to_string()])), vec![sp(3, 5)]);
    assert!(unused_variables(&decls, &None).is_empty());
    let findings = vec![
        VariableFindings { name: "$x".to_string(), do_not_flag: false, dead_stores: vec![sp(0, 5), sp(6, 9)], pending_write: Some(sp(20, 25)) },
        VariableFindings { name: "$y".to_string(), do_not_flag: true, dead_stores: vec![sp(30, 35)], pending_write: Some(sp(40, 45)) },
    ];
    assert_eq!(dead_stores(&findings, false), vec![sp(0, 5), sp(6, 9)]);
    assert!(dead_stores(&findings, true).is_empty());
    assert_eq!(redundant_variables(&findings, false), vec![("$x".to_string(), sp(20, 25))]);
}

#[test]
fn double_negation_cancels_out() {
    // if (!!is_null($x)) {}
    let source = b"if (!!is_null($x)) {}";
    let parents = vec![ParentNode::Not { span: sp(5, 17) }, ParentNode::Not { span: sp(4, 17) }, ParentNode::Other];
    let args = vec![IsNullArgument { spread: false, span: sp(14, 16) }];
    let r = check_is_null(sp(6, 17), &parents, &args, source);
    assert_eq!(r.span, sp(4, 17));
    assert!(!r.negated);
    assert_eq!(r.replacement, Some(b"null === $x".to_vec()));
}

#[test]
fn leading_backslash_in_import_is_ignored() {
    let usage = Usage { used_fqns: vec!["DOMDocument".to_string()], docblocks: vec![], inline: vec![] };
    for name in ["\\DOMDocument", "DOMDocument"] {
        let st = UseStatementShape { span: sp(0, 20), form: UseForm::Sequence, items: vec![item(name, 4, 19)], commas: vec![] };
        assert_eq!(check_use_statement(&st, &usage), UnusedImports::AllUsed);
    }
    let st = UseStatementShape {
        span: sp(0, 30),
        form: UseForm::TypedSequence { function: true },
        items: vec![item("\\App\\helper", 13, 24)],
        commas: vec![],
    };
    let empty = Usage { used_fqns: vec![], docblocks: vec![], inline: vec![] };
    assert_eq!(check_use_statement(&st, &empty), UnusedImports::AllUnused { delete: sp(0, 30) });
}
