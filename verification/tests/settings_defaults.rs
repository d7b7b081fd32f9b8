use mago_linter::config::{Config, NoShorthandArrayTypeConfig, RedundantStaticConfig, RuleSettings};

#[test]
fn rule_is_disabled_by_default() {
    assert!(!<NoShorthandArrayTypeConfig as Config>::default_enabled());
    assert!(!RuleSettings::<NoShorthandArrayTypeConfig>::default_enabled());
}

#[test]
fn is_disabled_by_default() {
    assert!(!RuleSettings::<RedundantStaticConfig>::default().enabled);
}
