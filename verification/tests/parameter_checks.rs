use mago_linter::config::{ExcessiveParameterListConfig, NoBooleanFlagParameterConfig, NoShorthandArrayTypeConfig};
use mago_linter::doc_types::{check_doc_tags, check_types, ArrayTypeFinding, ArrayTypeKind, DocTagValue, DocType, TemplateValue};
use mago_linter::ignore_markers::{
    build_ignore_next_markers, build_ignore_regions, mark_used_ignore_next_markers, mark_used_ignore_regions,
    IgnoreNextMarker, IgnoreRegion, Trivia,
};
use mago_linter::params::{
    flag_parameter_reported, flag_use, is_used_as_flag, optional_parameter_reports, too_many_parameters,
    EnclosingFunctionLike, FlagNode, ParameterOrderReport,
};

#[test]
fn optional_parameters_before_required_ones() {
    let reports = optional_parameter_reports(&vec![false, true, true, false, true]);
    assert_eq!(reports, vec![ParameterOrderReport { required: 3, optionals: vec![1, 2] }]);
    assert!(optional_parameter_reports(&vec![false, true]).is_empty());
}

#[test]
fn parameter_count_thresholds() {
    let cfg = ExcessiveParameterListConfig::default();
    assert_eq!(too_many_parameters(&cfg, None, 6), (true, 5));
    assert_eq!(too_many_parameters(&cfg, None, 5), (false, 5));
    let ctor = ExcessiveParameterListConfig { constructor_threshold: Some(8), ..cfg };
    assert_eq!(too_many_parameters(&ctor, Some(b"__CONSTRUCT"), 7), (false, 8));
    assert_eq!(too_many_parameters(&ctor, Some(b"build"), 7), (true, 5));
}

#[test]
fn long_parameter_lists_are_counted_in_full() {
    let cfg = ExcessiveParameterListConfig::default();
    assert_eq!(too_many_parameters(&cfg, None, 256), (true, 5));
    assert_eq!(too_many_parameters(&cfg, None, 260), (true, 5));
}

#[test]
fn boolean_flags() {
    let cfg = NoBooleanFlagParameterConfig::default();
    assert!(flag_parameter_reported(&cfg, false, true, Some(b"run"), None));
    assert!(!flag_parameter_reported(&cfg, false, true, Some(b"__construct"), None));
    assert!(!flag_parameter_reported(&cfg, true, true, Some(b"run"), None));
    assert!(!flag_parameter_reported(&cfg, false, true, None, Some(false)));
    let setters = NoBooleanFlagParameterConfig { exclude_setters: true, ..cfg };
    assert!(!flag_parameter_reported(&setters, false, true, Some(b"setEnabled"), Some(true)));
    assert!(flag_parameter_reported(&setters, false, true, Some(b"set"), Some(true)));
}

#[test]
fn shorthand_array_types() {
    let cfg = NoShorthandArrayTypeConfig::default();
    let t = vec![DocType::Slice { start: 10, end: 12, inner: Box::new(DocType::Composite { nested: vec![] }) }];
    let mut out = Vec::new();
    check_types(&t, cfg.check_generic_array, &mut out);
    assert_eq!(out, vec![ArrayTypeFinding::Shorthand { start: 10, end: 12 }]);
    let generic = vec![DocType::GenericArray {
        kind: ArrayTypeKind::Array,
        start: 0,
        end: 10,
        parameters: Some(vec![DocType::Composite { nested: vec![] }]),
    }];
    let mut out = Vec::new();
    check_types(&generic, false, &mut out);
    assert!(out.is_empty());
    check_types(&generic, true, &mut out);
    assert_eq!(out, vec![ArrayTypeFinding::MissingKeyType { kind: ArrayTypeKind::Array, start: 0, end: 10 }]);
}

fn comment(text: &str, start: u32, end: u32) -> Trivia {
    Trivia { is_comment: true, text: text.to_string(), start, end }
}

#[test]
fn ignore_next_markers() {
    let ts = vec![comment("// @mago-format-ignore-next", 0, 27), comment("// plain", 30, 38)];
    let markers = build_ignore_next_markers(&ts);
    assert_eq!(markers, vec![IgnoreNextMarker { start: 0, end: 27 }]);
    assert_eq!(mark_used_ignore_next_markers(&markers, &vec![40]), vec![true]);
    assert_eq!(mark_used_ignore_next_markers(&markers, &vec![]), vec![false]);
}

#[test]
fn ignore_regions() {
    let ts = vec![
        comment("// @mago-format-ignore-start", 0, 28),
        comment("// @mago-format-ignore-end", 50, 76),
        comment("// @mago-formatter-ignore-start", 80, 111),
    ];
    let regions = build_ignore_regions(&ts, 200);
    assert_eq!(
        regions,
        vec![
            IgnoreRegion { marker_start: 0, marker_end: 28, start: 0, end: 76 },
            IgnoreRegion { marker_start: 80, marker_end: 111, start: 80, end: 200 },
        ]
    );
    assert_eq!(mark_used_ignore_regions(&regions, &vec![30]), vec![true, false]);
}

fn v(name: &str) -> FlagNode {
    FlagNode::Variable { name: name.as_bytes().to_vec() }
}

#[test]
fn parameter_stored_by_assignment_is_not_a_flag() {
    // $this->enabled = $enabled;
    let store = FlagNode::Assignment {
        plain: true,
        lhs: Box::new(FlagNode::Other { children: vec![v("$this")] }),
        rhs: Box::new(v("$enabled")),
    };
    assert!(!is_used_as_flag(&vec![store], b"$enabled"));
    // if ($enabled) { ... }
    let branch = FlagNode::Other { children: vec![v("$enabled")] };
    assert!(is_used_as_flag(&vec![branch], b"$enabled"));
    // $x .= $enabled; is a use
    let compound = FlagNode::Assignment { plain: false, lhs: Box::new(v("$x")), rhs: Box::new(v("$enabled")) };
    assert!(is_used_as_flag(&vec![compound], b"$enabled"));
    assert_eq!(flag_use(&Some(EnclosingFunctionLike::ArrowFunction), b"$enabled"), None);
    assert_eq!(flag_use(&Some(EnclosingFunctionLike::WithBody { body: None }), b"$enabled"), None);
    assert_eq!(flag_use(&Some(EnclosingFunctionLike::WithBody { body: Some(vec![]) }), b"$enabled"), Some(false));
}

fn slice(start: u32) -> DocType {
    DocType::Slice { start, end: start + 2, inner: Box::new(DocType::Composite { nested: vec![] }) }
}

#[test]
fn tags_are_checked_in_order() {
    let tags = vec![
        DocTagValue::Typed { ty: slice(10) },
        DocTagValue::Other,
        DocTagValue::Method {
            return_type: Some(slice(20)),
            templates: vec![TemplateValue { bound: Some(slice(30)), default: None }],
            parameter_types: vec![None, Some(slice(40))],
        },
        DocTagValue::Assert { ty: None },
    ];
    assert_eq!(
        check_doc_tags(&tags, false),
        vec![
            ArrayTypeFinding::Shorthand { start: 10, end: 12 },
            ArrayTypeFinding::Shorthand { start: 20, end: 22 },
            ArrayTypeFinding::Shorthand { start: 30, end: 32 },
            ArrayTypeFinding::Shorthand { start: 40, end: 42 },
        ]
    );
}
