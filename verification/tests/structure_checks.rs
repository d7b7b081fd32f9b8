use mago_linter::config::{ExcessiveNestingConfig, NoEmptyCommentConfig, NoServiceStateMutationConfig};
use mago_linter::edit::{Span, TextEdit};
use mago_linter::empty_comment::{check_empty_comments, CommentTrivia, TriviaKind};
use mago_linter::isset::{check_redundant_isset, is_proper_prefix, paths_equal, AccessPath, AccessSegment};
use mago_linter::match_arms::{check_duplicate_match_arms, ArmResult};
use mago_linter::nesting::{check_excessive_nesting, NestNode, NestingReport};
use mago_linter::redundant_static::{check_redundant_static, Ancestor, HintNode, StaticUse};
use mago_linter::service_state::{
    check_service_state, MutationNode, ServiceClassLike, ServiceMethod, TargetExpr,
};

fn sp(start: u32, end: u32) -> Span {
    Span { start, end }
}

fn path(root: &str, segments: Vec<AccessSegment>) -> Option<AccessPath> {
    Some(AccessPath { root: root.to_string(), segments })
}

fn key(k: &str) -> AccessSegment {
    AccessSegment::StringKey { key: k.to_string() }
}

#[test]
fn isset_prefix_is_redundant() {
    // isset($d, $d['first'])
    let paths = vec![path("$d", vec![]), path("$d", vec![key("first")])];
    let nodes = vec![sp(6, 8), sp(10, 21)];
    let commas = vec![8u32];
    let r = check_redundant_isset(&paths, &nodes, &commas).unwrap();
    assert_eq!(r.redundant, vec![true, false]);
    assert_eq!(r.fix, vec![TextEdit { start: 6, end: 10, text: "" }]);
}

#[test]
fn isset_reverse_order_and_duplicates() {
    // isset($d['first']['second'], $d['first'], $d)
    let paths = vec![
        path("$d", vec![key("first"), key("second")]),
        path("$d", vec![key("first")]),
        path("$d", vec![]),
    ];
    let nodes = vec![sp(6, 26), sp(28, 39), sp(41, 43)];
    let commas = vec![26u32, 39];
    let r = check_redundant_isset(&paths, &nodes, &commas).unwrap();
    assert_eq!(r.redundant, vec![false, true, true]);
    assert_eq!(r.fix, vec![TextEdit { start: 26, end: 43, text: "" }]);
    // isset($d, $d): the first copy goes
    let dup = vec![path("$d", vec![]), path("$d", vec![])];
    let r = check_redundant_isset(&dup, &vec![sp(6, 8), sp(10, 12)], &vec![8u32]).unwrap();
    assert_eq!(r.redundant, vec![true, false]);
}

#[test]
fn isset_unrelated_arguments_are_kept() {
    let paths = vec![path("$a", vec![key("x")]), path("$b", vec![key("x")])];
    assert!(check_redundant_isset(&paths, &vec![sp(6, 13), sp(15, 22)], &vec![13u32]).is_none());
    let single = vec![path("$a", vec![])];
    assert!(check_redundant_isset(&single, &vec![sp(6, 8)], &vec![]).is_none());
    let a = AccessPath { root: "$a".to_string(), segments: vec![AccessSegment::IntegerKey { index: 0 }] };
    let b = AccessPath {
        root: "$a".to_string(),
        segments: vec![AccessSegment::IntegerKey { index: 0 }, AccessSegment::Property { name: "p".to_string() }],
    };
    assert!(is_proper_prefix(&a, &b));
    assert!(!is_proper_prefix(&b, &a));
    assert!(paths_equal(&a, &a));
}

fn trivia(kind: TriviaKind, start: u32, end: u32, empty: bool) -> CommentTrivia {
    CommentTrivia { kind, span: sp(start, end), empty }
}

#[test]
fn empty_comments_inside_a_block_are_kept() {
    let cfg = NoEmptyCommentConfig::default();
    // "//a\n//\n//b" : the empty line between two text lines is kept.
    let ts = vec![
        trivia(TriviaKind::SingleLineComment, 0, 3, false),
        trivia(TriviaKind::WhiteSpace, 3, 4, false),
        trivia(TriviaKind::SingleLineComment, 4, 6, true),
        trivia(TriviaKind::WhiteSpace, 6, 7, false),
        trivia(TriviaKind::SingleLineComment, 7, 10, false),
    ];
    assert!(check_empty_comments(&cfg, &ts).is_empty());
    // an empty line that ends the block is reported
    let ts = vec![
        trivia(TriviaKind::SingleLineComment, 0, 3, false),
        trivia(TriviaKind::WhiteSpace, 3, 4, false),
        trivia(TriviaKind::SingleLineComment, 4, 6, true),
    ];
    assert_eq!(check_empty_comments(&cfg, &ts), vec![sp(4, 6)]);
    let ts = vec![trivia(TriviaKind::MultiLineComment, 0, 4, true)];
    assert_eq!(check_empty_comments(&cfg, &ts), vec![sp(0, 4)]);
    let preserve = NoEmptyCommentConfig { preserve_single_line_comments: true, ..cfg };
    assert!(check_empty_comments(&preserve, &vec![trivia(TriviaKind::HashComment, 0, 1, true)]).is_empty());
}

fn block(start: u32, statements: Vec<NestNode>) -> NestNode {
    NestNode::Block { span: sp(start, start + 1), statements }
}

#[test]
fn nesting_beyond_threshold_is_reported() {
    let cfg = ExcessiveNestingConfig { threshold: 2, ..ExcessiveNestingConfig::default() };
    let program = vec![block(0, vec![block(1, vec![block(2, vec![block(3, vec![])])])])];
    assert_eq!(
        check_excessive_nesting(&cfg, &program),
        vec![NestingReport { span: sp(2, 3), level: 3, threshold: 2, function_like: false }]
    );
    let shallow = vec![block(0, vec![block(1, vec![])])];
    assert!(check_excessive_nesting(&cfg, &shallow).is_empty());
}

#[test]
fn function_like_bodies_are_also_checked_on_their_own() {
    let cfg = ExcessiveNestingConfig { threshold: 10, function_like_threshold: Some(1), ..ExcessiveNestingConfig::default() };
    let f = NestNode::FunctionLike { parts: vec![], body_span: sp(0, 50), body: vec![block(5, vec![block(6, vec![])])] };
    assert_eq!(
        check_excessive_nesting(&cfg, &vec![f]),
        vec![NestingReport { span: sp(6, 7), level: 2, threshold: 1, function_like: true }]
    );
}

#[test]
fn duplicate_match_results() {
    let arms = vec![
        ArmResult { span: sp(0, 1), constant: Some(b"1".to_vec()) },
        ArmResult { span: sp(2, 3), constant: None },
        ArmResult { span: sp(4, 5), constant: Some(b"2".to_vec()) },
        ArmResult { span: sp(6, 7), constant: Some(b"1".to_vec()) },
    ];
    assert_eq!(check_duplicate_match_arms(&arms), vec![(sp(6, 7), sp(0, 1))]);
}

#[test]
fn static_in_final_class() {
    let final_class = vec![Ancestor::Other, Ancestor::Class { is_final: true }];
    let hint = HintNode::Nullable { inner: Box::new(HintNode::Static { span: sp(30, 36) }) };
    let (spans, fix) = check_redundant_static(&final_class, &StaticUse::Method { return_hint: Some(hint) });
    assert_eq!(spans, vec![sp(30, 36)]);
    assert_eq!(fix, vec![TextEdit { start: 30, end: 36, text: "self" }]);
    let open_class = vec![Ancestor::Class { is_final: false }];
    let (spans, _) = check_redundant_static(&open_class, &StaticUse::ClassReference { static_keyword: Some(sp(4, 10)) });
    assert!(spans.is_empty());
    let trait_in_final = vec![Ancestor::OtherClassLike, Ancestor::Class { is_final: true }];
    let (spans, _) = check_redundant_static(&trait_in_final, &StaticUse::ClassReference { static_keyword: Some(sp(4, 10)) });
    assert!(spans.is_empty());
}

fn this_prop(start: u32, end: u32) -> TargetExpr {
    TargetExpr::Property { span: sp(start, end), on_this: true }
}

#[test]
fn service_state_mutations() {
    let cfg = NoServiceStateMutationConfig::default();
    let method = |name: &str, body: Vec<MutationNode>| ServiceMethod { name: name.to_string(), body };
    let class = ServiceClassLike {
        is_class: true,
        implements: vec![],
        in_namespace: true,
        included: true,
        excluded: false,
        methods: vec![
            method("__construct", vec![MutationNode::Assignment { target: this_prop(0, 5), children: vec![] }]),
            method(
                "handle",
                vec![
                    MutationNode::Assignment {
                        target: TargetExpr::ArrayAppend { array: Box::new(this_prop(10, 20)) },
                        children: vec![],
                    },
                    MutationNode::UnaryPostfix {
                        operand: TargetExpr::StaticProperty { span: sp(30, 40), on_self_or_static: true },
                        children: vec![],
                    },
                    MutationNode::NestedScope,
                    MutationNode::Unset { values: vec![TargetExpr::Other, this_prop(50, 55)], children: vec![] },
                ],
            ),
        ],
    };
    assert_eq!(check_service_state(&cfg, &class), vec![sp(10, 20), sp(30, 40), sp(50, 55)]);
    let reset = ServiceClassLike {
        implements: vec!["symfony\\contracts\\service\\resetinterface".to_string()],
        ..class
    };
    assert!(check_service_state(&cfg, &reset).is_empty());
}
