use mago_linter::config::{FunctionNameConfig, MethodNameConfig, VariableNameConfig};
use mago_linter::naming::{
    assignment_target_is_checked, clean_variable_name, function_name_verdict, is_special_variable,
    method_name_verdict, name_verdict, parameter_is_checked, property_name_without_dollar, variable_name_verdict,
    NameVerdict,
};

#[test]
fn special_variables_are_recognised() {
    assert!(is_special_variable("$this"));
    assert!(is_special_variable("$_GET"));
    assert!(is_special_variable("$GLOBALS"));
    assert!(!is_special_variable("$user"));
    assert!(!assignment_target_is_checked(true, "$this"));
    assert!(assignment_target_is_checked(true, "$user"));
    assert!(!assignment_target_is_checked(false, "$user"));
}

#[test]
fn variable_names_lose_their_sigils() {
    assert_eq!(clean_variable_name("$userName"), vec!['u', 's', 'e', 'r', 'N', 'a', 'm', 'e']);
    assert_eq!(property_name_without_dollar("$id"), vec!['i', 'd']);
    assert_eq!(property_name_without_dollar("id"), vec!['i', 'd']);
}

#[test]
fn verdict_follows_the_configured_convention() {
    assert_eq!(name_verdict(false, false, true, false), NameVerdict::ShouldBeSnake);
    assert_eq!(name_verdict(true, false, false, true), NameVerdict::ShouldBeCamel);
    assert_eq!(name_verdict(true, true, false, false), NameVerdict::ShouldBeCamelOrSnake);
    assert_eq!(name_verdict(true, true, false, true), NameVerdict::Conforms);
    assert_eq!(name_verdict(false, true, true, true), NameVerdict::Conforms);
    let cfg = VariableNameConfig::default();
    assert_eq!(variable_name_verdict(&cfg, false, true), NameVerdict::Conforms);
    assert!(parameter_is_checked(&cfg, false) == cfg.check_parameters);
    assert!(!parameter_is_checked(&cfg, true));
}

#[test]
fn magic_and_test_methods() {
    let mut cfg = MethodNameConfig::default();
    assert_eq!(method_name_verdict(&cfg, "__construct", false, false), NameVerdict::Conforms);
    cfg.use_snake_case_for_tests = true;
    assert_eq!(method_name_verdict(&cfg, "testSomething", true, false), NameVerdict::TestShouldBeSnake);
    assert_eq!(method_name_verdict(&cfg, "test_something", false, true), NameVerdict::Conforms);
}

#[test]
fn drupal_hook_docs_are_exempt() {
    let cfg = FunctionNameConfig::default();
    let v = function_name_verdict(&cfg, "hook_form_FORM_ID_alter", true, b"modules/node.api.php", false, false, true, true);
    assert_eq!(v, NameVerdict::Conforms);
    let v = function_name_verdict(&cfg, "hook_form_FORM_ID_alter", false, b"modules/node.api.php", false, false, true, true);
    assert_ne!(v, NameVerdict::Conforms);
    let v = function_name_verdict(&cfg, "badName", false, b"x.php", false, false, true, false);
    assert_eq!(v, NameVerdict::Conforms);
}
