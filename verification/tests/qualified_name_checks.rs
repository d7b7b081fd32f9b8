use mago_linter::fq::{
    class_like_reference, class_reference, constant_reference, is_ambiguous_constant_access, is_ambiguous_function_call,
    is_call_like_construct, is_keyword_constant, is_magento_registry, is_unambiguous_constant, namespace_of,
    reference_advice, short_name, ImportResolution, NameQualification, ReferenceAdvice,
};

#[test]
fn short_name_is_last_segment() {
    assert_eq!(short_name(b"Foo\\Bar\\Baz"), b"Baz".to_vec());
    assert_eq!(short_name(b"Baz"), b"Baz".to_vec());
    assert_eq!(short_name(b"Foo\\"), Vec::<u8>::new());
}

#[test]
fn namespace_is_what_precedes_last_segment() {
    assert_eq!(namespace_of(b"Foo\\Bar\\Baz"), Some(b"Foo\\Bar".to_vec()));
    assert_eq!(namespace_of(b"Baz"), None);
    assert_eq!(namespace_of(b"\\Baz"), None);
}

#[test]
fn keyword_and_stream_constants_are_unambiguous() {
    assert!(is_keyword_constant(b"TRUE"));
    assert!(is_keyword_constant(b"Null"));
    assert!(!is_keyword_constant(b"PHP_EOL"));
    assert!(is_unambiguous_constant(b"STDERR"));
    assert!(!is_unambiguous_constant(b"PHP_VERSION"));
    assert!(is_call_like_construct(b"Exit"));
    assert!(!is_call_like_construct(b"strlen"));
}

#[test]
fn ambiguous_calls_and_constants() {
    assert!(is_ambiguous_function_call(true, NameQualification::Unqualified, b"strlen", false));
    assert!(!is_ambiguous_function_call(false, NameQualification::Unqualified, b"strlen", false));
    assert!(!is_ambiguous_function_call(true, NameQualification::FullyQualified, b"strlen", false));
    assert!(!is_ambiguous_function_call(true, NameQualification::Unqualified, b"die", false));
    assert!(!is_ambiguous_function_call(true, NameQualification::Unqualified, b"strlen", true));
    assert!(is_ambiguous_constant_access(true, NameQualification::Unqualified, b"PHP_EOL", false));
    assert!(!is_ambiguous_constant_access(true, NameQualification::Unqualified, b"stdout", false));
    assert!(!is_ambiguous_constant_access(true, NameQualification::Qualified, b"PHP_EOL", false));
}

#[test]
fn magento_registry_is_matched_without_case() {
    assert!(is_magento_registry(b"magento\\framework\\registry"));
    assert!(!is_magento_registry(b"Magento\\Framework\\Registry2"));
}

#[test]
fn fully_qualified_references() {
    let r = class_like_reference(b"\\Foo\\Bar", true).unwrap();
    assert_eq!(r.name, b"Foo\\Bar".to_vec());
    assert_eq!(r.short_name, b"Bar".to_vec());
    assert!(class_like_reference(b"Bar", false).is_none());
    assert!(constant_reference(true, b"\\null", true).is_none());
    let c = constant_reference(true, b"\\PHP_EOL", true).unwrap();
    assert_eq!(c.short_name, b"PHP_EOL".to_vec());
}

#[test]
fn namespace_matters_for_classes_and_constants_only() {
    let g = class_like_reference(b"\\DateTime", true).unwrap();
    assert_eq!(g.name, b"DateTime".to_vec());
    assert!(class_reference(false, b"\\DateTime", true).is_none());
    let n = class_reference(true, b"\\Foo\\Bar", true).unwrap();
    assert_eq!(n.short_name, b"Bar".to_vec());
    assert!(class_reference(true, b"Bar", false).is_none());
    assert!(constant_reference(false, b"\\PHP_VERSION", true).is_none());
    let c = constant_reference(true, b"\\PHP_VERSION", true).unwrap();
    assert_eq!(c.name, b"PHP_VERSION".to_vec());
    assert!(constant_reference(true, b"\\true", true).is_none());
    assert!(constant_reference(true, b"\\FALSE", true).is_none());
    assert!(constant_reference(true, b"\\Null", true).is_none());
}

#[test]
fn reference_advice_depends_on_imports() {
    let short = b"Bar".to_vec();
    assert_eq!(reference_advice(&short, &None), ReferenceAdvice::Import);
    let aliased = Some(ImportResolution { local_name: b"Baz".to_vec(), already_available: true });
    assert_eq!(reference_advice(&short, &aliased), ReferenceAdvice::ReplaceWithAlias);
    let same = Some(ImportResolution { local_name: b"Bar".to_vec(), already_available: true });
    assert_eq!(reference_advice(&short, &same), ReferenceAdvice::AlreadyInScope);
    let new = Some(ImportResolution { local_name: b"Bar".to_vec(), already_available: false });
    assert_eq!(reference_advice(&short, &new), ReferenceAdvice::Import);
}
