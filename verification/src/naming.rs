//! Naming conventions of variables, properties, methods and functions.
use vstd::prelude::*;

use crate::config::{FunctionNameConfig, MethodNameConfig, PropertyNameConfig, VariableNameConfig};
use crate::text::{bytes_end_with, chars_of, is_prefix, is_suffix, str_equals, str_starts_with};

verus! {

// ---------------------------------------------------------------------------
// Variables
// ---------------------------------------------------------------------------

/// The variables that PHP defines itself, whose names no convention governs.
pub open spec fn spec_is_special_variable(name: Seq<char>) -> bool {
    name == "$this"@ || name == "$_"@ || name == "$_GET"@ || name == "$_POST"@ || name
        == "$_SERVER"@ || name == "$_REQUEST"@ || name == "$_SESSION"@ || name == "$_COOKIE"@
        || name == "$_FILES"@ || name == "$_ENV"@ || name == "$GLOBALS"@ || name == "$argc"@
        || name == "$argv"@
}

/// Whether `name` is one of the variables that PHP defines itself (`$this`,
/// the superglobals, `$argc` and `$argv`).
pub fn is_special_variable(name: &str) -> (r: bool)
    ensures
        r == spec_is_special_variable(name@),
{
    str_equals(name, "$this") || str_equals(name, "$_") || str_equals(name, "$_GET") || str_equals(
        name,
        "$_POST",
    ) || str_equals(name, "$_SERVER") || str_equals(name, "$_REQUEST") || str_equals(
        name,
        "$_SESSION",
    ) || str_equals(name, "$_COOKIE") || str_equals(name, "$_FILES") || str_equals(name, "$_ENV")
        || str_equals(name, "$GLOBALS") || str_equals(name, "$argc") || str_equals(name, "$argv")
}

/// Whether `c` is stripped from the front of a variable name before its
/// convention is checked: `$`, `_` and ASCII digits.
pub open spec fn is_variable_name_prefix_char(c: char) -> bool {
    c == '$' || c == '_' || ('0' <= c && c <= '9')
}

/// The number of leading characters of `name` that are stripped.
pub open spec fn variable_prefix_len(name: Seq<char>) -> int
    decreases name.len(),
{
    if name.len() > 0 && is_variable_name_prefix_char(name[0]) {
        1 + variable_prefix_len(name.drop_first())
    } else {
        0
    }
}

proof fn lemma_variable_prefix_len(name: Seq<char>)
    ensures
        0 <= variable_prefix_len(name) <= name.len(),
        forall|k: int| 0 <= k < variable_prefix_len(name) ==> is_variable_name_prefix_char(#[trigger] name[k]),
        variable_prefix_len(name) < name.len() ==> !is_variable_name_prefix_char(name[variable_prefix_len(name)]),
    decreases name.len(),
{
    if name.len() > 0 && is_variable_name_prefix_char(name[0]) {
        lemma_variable_prefix_len(name.drop_first());
        assert forall|k: int| 0 <= k < variable_prefix_len(name) implies is_variable_name_prefix_char(#[trigger] name[k]) by {
            if k > 0 {
                assert(name[k] == name.drop_first()[k - 1]);
            }
        }
    }
}

/// The part of a variable name whose convention is checked: the name without
/// its leading `$`, `_` and digits.
pub fn clean_variable_name(name: &str) -> (clean: Vec<char>)
    ensures
        clean@ == name@.skip(variable_prefix_len(name@)),
{
    let c = chars_of(name);
    proof {
        lemma_variable_prefix_len(name@);
    }
    let mut k: usize = 0;
    assert(name@.skip(0) =~= name@);
    while k < c.len() && (c[k] == '$' || c[k] == '_' || (c[k] >= '0' && c[k] <= '9'))
        invariant
            c@ == name@,
            k <= c@.len(),
            k <= variable_prefix_len(name@),
            variable_prefix_len(name@) == k + variable_prefix_len(name@.skip(k as int)),
        decreases c@.len() - k,
    {
        assert(name@.skip(k as int).drop_first() =~= name@.skip(k as int + 1));
        assert(name@.skip(k as int)[0] == c@[k as int]);
        proof {
            lemma_variable_prefix_len(name@.skip(k as int + 1));
        }
        k += 1;
    }
    let mut clean: Vec<char> = Vec::new();
    let mut m: usize = k;
    while m < c.len()
        invariant
            c@ == name@,
            k <= m <= c@.len(),
            k == variable_prefix_len(name@),
            clean@ == name@.subrange(k as int, m as int),
        decreases c@.len() - m,
    {
        clean.push(c[m]);
        m += 1;
        assert(clean@ =~= name@.subrange(k as int, m as int));
    }
    clean
}

// ---------------------------------------------------------------------------
// Conventions
// ---------------------------------------------------------------------------

/// The outcome of checking a name against the configured convention.
#[derive(Clone, Copy, PartialEq, Eq, Debug)]
pub enum NameVerdict {
    /// The name follows the convention.
    Conforms,
    /// The name is neither in camel case nor in snake case.
    ShouldBeCamelOrSnake,
    /// The name is not in camel case.
    ShouldBeCamel,
    /// The name is not in snake case.
    ShouldBeSnake,
    /// The name of a test method is not in snake case.
    TestShouldBeSnake,
}

/// The verdict on a name given whether it is in camel case and whether it is
/// in snake case: with `either`, one of the two suffices; otherwise `camel`
/// selects camel case and its absence snake case.
pub open spec fn spec_name_verdict(camel: bool, either: bool, is_camel: bool, is_snake: bool) -> NameVerdict {
    if either {
        if !is_camel && !is_snake {
            NameVerdict::ShouldBeCamelOrSnake
        } else {
            NameVerdict::Conforms
        }
    } else if camel {
        if !is_camel {
            NameVerdict::ShouldBeCamel
        } else {
            NameVerdict::Conforms
        }
    } else if !is_snake {
        NameVerdict::ShouldBeSnake
    } else {
        NameVerdict::Conforms
    }
}

/// Checks a name against the convention selected by `camel` and `either`.
pub fn name_verdict(camel: bool, either: bool, is_camel: bool, is_snake: bool) -> (v: NameVerdict)
    ensures
        v == spec_name_verdict(camel, either, is_camel, is_snake),
{
    if either {
        if !is_camel && !is_snake {
            NameVerdict::ShouldBeCamelOrSnake
        } else {
            NameVerdict::Conforms
        }
    } else if camel {
        if !is_camel {
            NameVerdict::ShouldBeCamel
        } else {
            NameVerdict::Conforms
        }
    } else if !is_snake {
        NameVerdict::ShouldBeSnake
    } else {
        NameVerdict::Conforms
    }
}

/// A name in both camel case and snake case conforms to every convention.
pub proof fn law_camel_and_snake_always_conform(camel: bool, either: bool)
    ensures
        spec_name_verdict(camel, either, true, true) == NameVerdict::Conforms,
{
}

/// A reported name is reported for the convention that the configuration selects.
pub proof fn law_verdict_names_configured_convention(camel: bool, either: bool, is_camel: bool, is_snake: bool)
    ensures
        spec_name_verdict(camel, either, is_camel, is_snake) == NameVerdict::ShouldBeCamelOrSnake ==> either,
        spec_name_verdict(camel, either, is_camel, is_snake) == NameVerdict::ShouldBeCamel ==> !either && camel && !is_camel,
        spec_name_verdict(camel, either, is_camel, is_snake) == NameVerdict::ShouldBeSnake ==> !either && !camel && !is_snake,
{
}

// ---------------------------------------------------------------------------
// Rules
// ---------------------------------------------------------------------------

/// The verdict on a variable name, given whether its cleaned form (see
/// [`clean_variable_name`]) is in camel case and whether it is in snake case.
pub fn variable_name_verdict(cfg: &VariableNameConfig, is_camel: bool, is_snake: bool) -> (v: NameVerdict)
    ensures
        v == spec_name_verdict(cfg.camel, cfg.either, is_camel, is_snake),
{
    name_verdict(cfg.camel, cfg.either, is_camel, is_snake)
}

/// Whether the variable assigned by an assignment is checked: only plain `=`
/// assignments to a variable that PHP does not define itself.
pub fn assignment_target_is_checked(is_plain_assignment: bool, name: &str) -> (r: bool)
    ensures
        r == (is_plain_assignment && !spec_is_special_variable(name@)),
{
    is_plain_assignment && !is_special_variable(name)
}

/// Whether a parameter's name is checked: only when parameters are checked at
/// all and the parameter is not a promoted property.
pub fn parameter_is_checked(cfg: &VariableNameConfig, is_promoted_property: bool) -> (r: bool)
    ensures
        r == (cfg.check_parameters && !is_promoted_property),
{
    cfg.check_parameters && !is_promoted_property
}

/// The part of a property name whose convention is checked: the name
/// without its leading `$`, if it has one.
pub fn property_name_without_dollar(name: &str) -> (bare: Vec<char>)
    ensures
        bare@ == (if name@.len() > 0 && name@[0] == '$' { name@.drop_first() } else { name@ }),
{
    let c = chars_of(name);
    if c.len() > 0 && c[0] == '$' {
        let mut bare: Vec<char> = Vec::new();
        let mut k: usize = 1;
        while k < c.len()
            invariant
                c@ == name@,
                1 <= k <= c@.len(),
                bare@ == name@.subrange(1, k as int),
            decreases c@.len() - k,
        {
            bare.push(c[k]);
            k += 1;
            assert(bare@ =~= name@.subrange(1, k as int));
        }
        assert(bare@ =~= name@.drop_first());
        bare
    } else {
        c
    }
}

/// The verdict on a property name, given whether its name without `$` is in
/// camel case and whether it is in snake case.
pub fn property_name_verdict(cfg: &PropertyNameConfig, is_camel: bool, is_snake: bool) -> (v: NameVerdict)
    ensures
        v == spec_name_verdict(cfg.camel, cfg.either, is_camel, is_snake),
{
    name_verdict(cfg.camel, cfg.either, is_camel, is_snake)
}

/// Whether a method name is that of a test: it starts with `test` or `Test`.
pub open spec fn spec_is_test_method_name(name: Seq<char>) -> bool {
    is_prefix("test"@, name) || is_prefix("Test"@, name)
}

/// The verdict on a method name. Magic methods (`__construct`, `__get`, ...)
/// always conform; test methods must be in snake case when that is
/// configured; every other method follows the configured convention.
pub open spec fn spec_method_name_verdict(
    cfg: MethodNameConfig,
    name: Seq<char>,
    is_camel: bool,
    is_snake: bool,
) -> NameVerdict {
    if is_prefix("__"@, name) {
        NameVerdict::Conforms
    } else if cfg.use_snake_case_for_tests && spec_is_test_method_name(name) {
        if is_snake {
            NameVerdict::Conforms
        } else {
            NameVerdict::TestShouldBeSnake
        }
    } else {
        spec_name_verdict(cfg.camel, cfg.either, is_camel, is_snake)
    }
}

/// Checks a method name, given whether it is in camel case and whether it is
/// in snake case.
pub fn method_name_verdict(cfg: &MethodNameConfig, name: &str, is_camel: bool, is_snake: bool) -> (v:
    NameVerdict)
    ensures
        v == spec_method_name_verdict(*cfg, name@, is_camel, is_snake),
{
    if str_starts_with(name, "__") {
        return NameVerdict::Conforms;
    }
    let is_test_method = str_starts_with(name, "test") || str_starts_with(name, "Test");
    if cfg.use_snake_case_for_tests && is_test_method {
        if is_snake {
            return NameVerdict::Conforms;
        } else {
            return NameVerdict::TestShouldBeSnake;
        }
    }
    name_verdict(cfg.camel, cfg.either, is_camel, is_snake)
}

/// Whether a function is a Drupal hook documented in a `*.api.php` file,
/// whose name carries an uppercase placeholder and is exempt from the rule.
pub open spec fn spec_is_drupal_hook_doc(name: Seq<char>, drupal_enabled: bool, file_name: Seq<u8>) -> bool {
    is_prefix("hook_"@, name) && drupal_enabled && is_suffix(".api.php"@.map_values(|c: char| c as u8), file_name)
}

/// The verdict on a function name, given whether it is in camel case, whether
/// it is in snake case, and whether its camel case and snake case forms are
/// valid identifiers. A function is only reported when the suggested names are
/// valid identifiers.
pub open spec fn spec_function_name_verdict(
    cfg: FunctionNameConfig,
    name: Seq<char>,
    drupal_enabled: bool,
    file_name: Seq<u8>,
    is_camel: bool,
    is_snake: bool,
    camel_form_valid: bool,
    snake_form_valid: bool,
) -> NameVerdict {
    if spec_is_drupal_hook_doc(name, drupal_enabled, file_name) {
        NameVerdict::Conforms
    } else {
        match spec_name_verdict(cfg.camel, cfg.either, is_camel, is_snake) {
            NameVerdict::ShouldBeCamelOrSnake => if camel_form_valid && snake_form_valid {
                NameVerdict::ShouldBeCamelOrSnake
            } else {
                NameVerdict::Conforms
            },
            NameVerdict::ShouldBeCamel => if camel_form_valid {
                NameVerdict::ShouldBeCamel
            } else {
                NameVerdict::Conforms
            },
            NameVerdict::ShouldBeSnake => if snake_form_valid {
                NameVerdict::ShouldBeSnake
            } else {
                NameVerdict::Conforms
            },
            other => other,
        }
    }
}

/// Checks a function name; `file_name` is the path (or, without one, the
/// name) of the file that declares it.
pub fn function_name_verdict(
    cfg: &FunctionNameConfig,
    name: &str,
    drupal_enabled: bool,
    file_name: &[u8],
    is_camel: bool,
    is_snake: bool,
    camel_form_valid: bool,
    snake_form_valid: bool,
) -> (v: NameVerdict)
    ensures
        v == spec_function_name_verdict(
            *cfg,
            name@,
            drupal_enabled,
            file_name@,
            is_camel,
            is_snake,
            camel_form_valid,
            snake_form_valid,
        ),
{
    if str_starts_with(name, "hook_") && drupal_enabled {
        let suffix: [u8; 8] = [0x2eu8, 0x61u8, 0x70u8, 0x69u8, 0x2eu8, 0x70u8, 0x68u8, 0x70u8];
        proof {
            reveal_strlit(".api.php");
            assert(suffix@ =~= ".api.php"@.map_values(|c: char| c as u8));
        }
        if bytes_end_with(file_name, &suffix) {
            return NameVerdict::Conforms;
        }
    }
    match name_verdict(cfg.camel, cfg.either, is_camel, is_snake) {
        NameVerdict::ShouldBeCamelOrSnake => if camel_form_valid && snake_form_valid {
            NameVerdict::ShouldBeCamelOrSnake
        } else {
            NameVerdict::Conforms
        },
        NameVerdict::ShouldBeCamel => if camel_form_valid {
            NameVerdict::ShouldBeCamel
        } else {
            NameVerdict::Conforms
        },
        NameVerdict::ShouldBeSnake => if snake_form_valid {
            NameVerdict::ShouldBeSnake
        } else {
            NameVerdict::Conforms
        },
        other => other,
    }
}

/// With the snake-case-for-tests option off, test methods get no special
/// treatment: every method that is not magic is judged by the configured
/// convention alone, whatever its name, so two such methods that are alike in
/// case get the same verdict.
pub proof fn law_method_names_follow_the_convention_when_tests_are_not_special(
    cfg: MethodNameConfig,
    a: Seq<char>,
    b: Seq<char>,
    is_camel: bool,
    is_snake: bool,
)
    requires
        !cfg.use_snake_case_for_tests,
        !is_prefix("__"@, a),
        !is_prefix("__"@, b),
    ensures
        spec_method_name_verdict(cfg, a, is_camel, is_snake) == spec_name_verdict(
            cfg.camel,
            cfg.either,
            is_camel,
            is_snake,
        ),
        spec_method_name_verdict(cfg, a, is_camel, is_snake) == spec_method_name_verdict(cfg, b, is_camel, is_snake),
        spec_method_name_verdict(cfg, a, is_camel, is_snake) != NameVerdict::TestShouldBeSnake,
        cfg.camel && !cfg.either && is_camel ==> spec_method_name_verdict(cfg, a, is_camel, is_snake)
            == NameVerdict::Conforms,
{
}

/// A method is told to use snake case as a test only when the option is on,
/// its name starts with `test` or `Test`, and it is not in snake case; magic
/// methods always conform.
pub proof fn law_test_verdict_needs_the_option(cfg: MethodNameConfig, name: Seq<char>, is_camel: bool, is_snake: bool)
    ensures
        spec_method_name_verdict(cfg, name, is_camel, is_snake) == NameVerdict::TestShouldBeSnake
            ==> cfg.use_snake_case_for_tests && (is_prefix("test"@, name) || is_prefix("Test"@, name)) && !is_snake,
        is_prefix("__"@, name) ==> spec_method_name_verdict(cfg, name, is_camel, is_snake) == NameVerdict::Conforms,
{
}

} // verus!
