//! The configuration of each rule: the level its issues are reported at,
//! whether it is enabled by default, and its own options.
use vstd::prelude::*;

use crate::level::Level;

verus! {

/// What every rule's configuration provides.
pub trait Config {
    /// The level at which the rule reports its issues.
    fn level(&self) -> Level;

    /// Whether the rule is enabled when the user's settings do not mention it.
    spec fn enabled_by_default() -> bool;

    /// Whether the rule is enabled when the user's settings do not mention it.
    fn default_enabled() -> (enabled: bool)
        ensures
            enabled == Self::enabled_by_default(),
    ;
}

/// The nesting depth allowed by default.
pub const DEFAULT_NESTING_THRESHOLD: usize = 7;

/// Which way a string that mixes literal text and variables should be written.
#[derive(Clone, Copy, PartialEq, Eq, Debug, Hash)]
pub enum StringStyleOption {
    /// `"Hello {$name}"`.
    Interpolation,
    /// `'Hello ' . $name`.
    Concatenation,
}

/// The configuration of the AmbiguousConstantAccess rule.
#[derive(Clone, Copy, PartialEq, Eq, Debug, Hash)]
pub struct AmbiguousConstantAccessConfig {
    pub level: Level,
}

impl Default for AmbiguousConstantAccessConfig {
    fn default() -> (cfg: Self)
        ensures
            cfg.level == Level::Help,
    {
        Self { level: Level::Help }
    }
}

impl Config for AmbiguousConstantAccessConfig {
    fn level(&self) -> (l: Level)
        ensures
            l == self.level,
    {
        self.level
    }

    open spec fn enabled_by_default() -> bool {
        false
    }

    fn default_enabled() -> (enabled: bool) {
        false
    }
}

/// The configuration of the AmbiguousFunctionCall rule.
#[derive(Clone, Copy, PartialEq, Eq, Debug, Hash)]
pub struct AmbiguousFunctionCallConfig {
    pub level: Level,
}

impl Default for AmbiguousFunctionCallConfig {
    fn default() -> (cfg: Self)
        ensures
            cfg.level == Level::Help,
    {
        Self { level: Level::Help }
    }
}

impl Config for AmbiguousFunctionCallConfig {
    fn level(&self) -> (l: Level)
        ensures
            l == self.level,
    {
        self.level
    }

    open spec fn enabled_by_default() -> bool {
        false
    }

    fn default_enabled() -> (enabled: bool) {
        false
    }
}

/// The configuration of the BlockStatement rule.
#[derive(Clone, Copy, PartialEq, Eq, Debug, Hash)]
pub struct BlockStatementConfig {
    pub level: Level,
}

impl Default for BlockStatementConfig {
    fn default() -> (cfg: Self)
        ensures
            cfg.level == Level::Note,
    {
        Self { level: Level::Note }
    }
}

impl Config for BlockStatementConfig {
    fn level(&self) -> (l: Level)
        ensures
            l == self.level,
    {
        self.level
    }

    open spec fn enabled_by_default() -> bool {
        true
    }

    fn default_enabled() -> (enabled: bool) {
        true
    }
}

/// The configuration of the BracedStringInterpolation rule.
#[derive(Clone, Copy, PartialEq, Eq, Debug, Hash)]
pub struct BracedStringInterpolationConfig {
    pub level: Level,
}

impl Default for BracedStringInterpolationConfig {
    fn default() -> (cfg: Self)
        ensures
            cfg.level == Level::Note,
    {
        Self { level: Level::Note }
    }
}

impl Config for BracedStringInterpolationConfig {
    fn level(&self) -> (l: Level)
        ensures
            l == self.level,
    {
        self.level
    }

    open spec fn enabled_by_default() -> bool {
        true
    }

    fn default_enabled() -> (enabled: bool) {
        true
    }
}

/// The configuration of the EnumName rule.
#[derive(Clone, Copy, PartialEq, Eq, Debug, Hash)]
pub struct EnumNameConfig {
    pub level: Level,
}

impl Default for EnumNameConfig {
    fn default() -> (cfg: Self)
        ensures
            cfg.level == Level::Help,
    {
        Self { level: Level::Help }
    }
}

impl Config for EnumNameConfig {
    fn level(&self) -> (l: Level)
        ensures
            l == self.level,
    {
        self.level
    }

    open spec fn enabled_by_default() -> bool {
        true
    }

    fn default_enabled() -> (enabled: bool) {
        true
    }
}

/// The configuration of the FileName rule.
#[derive(Clone, Copy, PartialEq, Eq, Debug, Hash)]
pub struct FileNameConfig {
    pub level: Level,
    pub check_functions: bool,
}

impl Default for FileNameConfig {
    fn default() -> (cfg: Self)
        ensures
            cfg.level == Level::Warning,
            cfg.check_functions == false,
    {
        Self { level: Level::Warning, check_functions: false }
    }
}

impl Config for FileNameConfig {
    fn level(&self) -> (l: Level)
        ensures
            l == self.level,
    {
        self.level
    }

    open spec fn enabled_by_default() -> bool {
        true
    }

    fn default_enabled() -> (enabled: bool) {
        true
    }
}

/// The configuration of the FunctionName rule.
#[derive(Clone, Copy, PartialEq, Eq, Debug, Hash)]
pub struct FunctionNameConfig {
    pub level: Level,
    pub camel: bool,
    pub either: bool,
}

impl Default for FunctionNameConfig {
    fn default() -> (cfg: Self)
        ensures
            cfg.level == Level::Help,
            cfg.camel == false,
            cfg.either == false,
    {
        Self { level: Level::Help, camel: false, either: false }
    }
}

impl Config for FunctionNameConfig {
    fn level(&self) -> (l: Level)
        ensures
            l == self.level,
    {
        self.level
    }

    open spec fn enabled_by_default() -> bool {
        true
    }

    fn default_enabled() -> (enabled: bool) {
        true
    }
}

/// The configuration of the LowercaseKeyword rule.
#[derive(Clone, Copy, PartialEq, Eq, Debug, Hash)]
pub struct LowercaseKeywordConfig {
    pub level: Level,
}

impl Default for LowercaseKeywordConfig {
    fn default() -> (cfg: Self)
        ensures
            cfg.level == Level::Help,
    {
        Self { level: Level::Help }
    }
}

impl Config for LowercaseKeywordConfig {
    fn level(&self) -> (l: Level)
        ensures
            l == self.level,
    {
        self.level
    }

    open spec fn enabled_by_default() -> bool {
        true
    }

    fn default_enabled() -> (enabled: bool) {
        true
    }
}

/// The configuration of the MethodName rule.
#[derive(Clone, Copy, PartialEq, Eq, Debug, Hash)]
pub struct MethodNameConfig {
    pub level: Level,
    /// When `true`, method names must be in camelCase. When `false`, they must be in snake_case.
    pub camel: bool,
    /// When `true`, method names can be either camelCase or snake_case.
    pub either: bool,
    /// When `true`, test methods (names starting with `test`) must use snake_case
    /// (e.g., `test_something_works`), regardless of the `camel` setting.
    pub use_snake_case_for_tests: bool,
}

impl Default for MethodNameConfig {
    fn default() -> (cfg: Self)
        ensures
            cfg.level == Level::Help,
            cfg.camel == true,
            cfg.either == false,
            cfg.use_snake_case_for_tests == false,
    {
        Self { level: Level::Help, camel: true, either: false, use_snake_case_for_tests: false }
    }
}

impl Config for MethodNameConfig {
    fn level(&self) -> (l: Level)
        ensures
            l == self.level,
    {
        self.level
    }

    open spec fn enabled_by_default() -> bool {
        false
    }

    fn default_enabled() -> (enabled: bool) {
        false
    }
}

/// The configuration of the NoFullyQualifiedGlobalClass rule.
#[derive(Clone, Copy, PartialEq, Eq, Debug, Hash)]
pub struct NoFullyQualifiedGlobalClassConfig {
    pub level: Level,
}

impl Default for NoFullyQualifiedGlobalClassConfig {
    fn default() -> (cfg: Self)
        ensures
            cfg.level == Level::Help,
    {
        Self { level: Level::Help }
    }
}

impl Config for NoFullyQualifiedGlobalClassConfig {
    fn level(&self) -> (l: Level)
        ensures
            l == self.level,
    {
        self.level
    }

    open spec fn enabled_by_default() -> bool {
        false
    }

    fn default_enabled() -> (enabled: bool) {
        false
    }
}

/// The configuration of the NoFullyQualifiedGlobalClassLike rule.
#[derive(Clone, Copy, PartialEq, Eq, Debug, Hash)]
pub struct NoFullyQualifiedGlobalClassLikeConfig {
    pub level: Level,
}

impl Default for NoFullyQualifiedGlobalClassLikeConfig {
    fn default() -> (cfg: Self)
        ensures
            cfg.level == Level::Help,
    {
        Self { level: Level::Help }
    }
}

impl Config for NoFullyQualifiedGlobalClassLikeConfig {
    fn level(&self) -> (l: Level)
        ensures
            l == self.level,
    {
        self.level
    }

    open spec fn enabled_by_default() -> bool {
        false
    }

    fn default_enabled() -> (enabled: bool) {
        false
    }
}

/// The configuration of the NoFullyQualifiedGlobalConstant rule.
#[derive(Clone, Copy, PartialEq, Eq, Debug, Hash)]
pub struct NoFullyQualifiedGlobalConstantConfig {
    pub level: Level,
}

impl Default for NoFullyQualifiedGlobalConstantConfig {
    fn default() -> (cfg: Self)
        ensures
            cfg.level == Level::Help,
    {
        Self { level: Level::Help }
    }
}

impl Config for NoFullyQualifiedGlobalConstantConfig {
    fn level(&self) -> (l: Level)
        ensures
            l == self.level,
    {
        self.level
    }

    open spec fn enabled_by_default() -> bool {
        false
    }

    fn default_enabled() -> (enabled: bool) {
        false
    }
}

/// The configuration of the NoFullyQualifiedGlobalFunction rule.
#[derive(Clone, Copy, PartialEq, Eq, Debug, Hash)]
pub struct NoFullyQualifiedGlobalFunctionConfig {
    pub level: Level,
    pub namespaced: bool,
}

impl Default for NoFullyQualifiedGlobalFunctionConfig {
    fn default() -> (cfg: Self)
        ensures
            cfg.level == Level::Help,
            cfg.namespaced == false,
    {
        Self { level: Level::Help, namespaced: false }
    }
}

impl Config for NoFullyQualifiedGlobalFunctionConfig {
    fn level(&self) -> (l: Level)
        ensures
            l == self.level,
    {
        self.level
    }

    open spec fn enabled_by_default() -> bool {
        false
    }

    fn default_enabled() -> (enabled: bool) {
        false
    }
}

/// The configuration of the NoShorthandArrayType rule.
#[derive(Clone, Copy, PartialEq, Eq, Debug, Hash)]
pub struct NoShorthandArrayTypeConfig {
    pub level: Level,
    pub check_generic_array: bool,
}

impl Default for NoShorthandArrayTypeConfig {
    fn default() -> (cfg: Self)
        ensures
            cfg.level == Level::Warning,
            cfg.check_generic_array == false,
    {
        Self { level: Level::Warning, check_generic_array: false }
    }
}

impl Config for NoShorthandArrayTypeConfig {
    fn level(&self) -> (l: Level)
        ensures
            l == self.level,
    {
        self.level
    }

    open spec fn enabled_by_default() -> bool {
        false
    }

    fn default_enabled() -> (enabled: bool) {
        false
    }
}

/// The configuration of the PropertyName rule.
#[derive(Clone, Copy, PartialEq, Eq, Debug, Hash)]
pub struct PropertyNameConfig {
    pub level: Level,
    pub camel: bool,
    pub either: bool,
}

impl Default for PropertyNameConfig {
    fn default() -> (cfg: Self)
        ensures
            cfg.level == Level::Help,
            cfg.camel == true,
            cfg.either == false,
    {
        Self { level: Level::Help, camel: true, either: false }
    }
}

impl Config for PropertyNameConfig {
    fn level(&self) -> (l: Level)
        ensures
            l == self.level,
    {
        self.level
    }

    open spec fn enabled_by_default() -> bool {
        false
    }

    fn default_enabled() -> (enabled: bool) {
        false
    }
}

/// The configuration of the StringStyle rule.
#[derive(Clone, Copy, PartialEq, Eq, Debug, Hash)]
pub struct StringStyleConfig {
    pub level: Level,
    pub style: StringStyleOption,
}

impl Default for StringStyleConfig {
    fn default() -> (cfg: Self)
        ensures
            cfg.level == Level::Note,
            cfg.style == StringStyleOption::Interpolation,
    {
        Self { level: Level::Note, style: StringStyleOption::Interpolation }
    }
}

impl Config for StringStyleConfig {
    fn level(&self) -> (l: Level)
        ensures
            l == self.level,
    {
        self.level
    }

    open spec fn enabled_by_default() -> bool {
        false
    }

    fn default_enabled() -> (enabled: bool) {
        false
    }
}

/// The configuration of the VariableName rule.
#[derive(Clone, Copy, PartialEq, Eq, Debug, Hash)]
pub struct VariableNameConfig {
    pub level: Level,
    pub camel: bool,
    pub either: bool,
    pub check_parameters: bool,
}

impl Default for VariableNameConfig {
    fn default() -> (cfg: Self)
        ensures
            cfg.level == Level::Help,
            cfg.camel == false,
            cfg.either == true,
            cfg.check_parameters == true,
    {
        Self { level: Level::Help, camel: false, either: true, check_parameters: true }
    }
}

impl Config for VariableNameConfig {
    fn level(&self) -> (l: Level)
        ensures
            l == self.level,
    {
        self.level
    }

    open spec fn enabled_by_default() -> bool {
        false
    }

    fn default_enabled() -> (enabled: bool) {
        false
    }
}

/// The configuration of the IneffectiveFormatIgnoreNext rule.
#[derive(Clone, Copy, PartialEq, Eq, Debug, Hash)]
pub struct IneffectiveFormatIgnoreNextConfig {
    pub level: Level,
}

impl Default for IneffectiveFormatIgnoreNextConfig {
    fn default() -> (cfg: Self)
        ensures
            cfg.level == Level::Warning,
    {
        Self { level: Level::Warning }
    }
}

impl Config for IneffectiveFormatIgnoreNextConfig {
    fn level(&self) -> (l: Level)
        ensures
            l == self.level,
    {
        self.level
    }

    open spec fn enabled_by_default() -> bool {
        true
    }

    fn default_enabled() -> (enabled: bool) {
        true
    }
}

/// The configuration of the IneffectiveFormatIgnoreRegion rule.
#[derive(Clone, Copy, PartialEq, Eq, Debug, Hash)]
pub struct IneffectiveFormatIgnoreRegionConfig {
    pub level: Level,
}

impl Default for IneffectiveFormatIgnoreRegionConfig {
    fn default() -> (cfg: Self)
        ensures
            cfg.level == Level::Warning,
    {
        Self { level: Level::Warning }
    }
}

impl Config for IneffectiveFormatIgnoreRegionConfig {
    fn level(&self) -> (l: Level)
        ensures
            l == self.level,
    {
        self.level
    }

    open spec fn enabled_by_default() -> bool {
        true
    }

    fn default_enabled() -> (enabled: bool) {
        true
    }
}

/// The configuration of the NoAssignInArgument rule.
#[derive(Clone, Copy, PartialEq, Eq, Debug, Hash)]
pub struct NoAssignInArgumentConfig {
    pub level: Level,
}

impl Default for NoAssignInArgumentConfig {
    fn default() -> (cfg: Self)
        ensures
            cfg.level == Level::Warning,
    {
        Self { level: Level::Warning }
    }
}

impl Config for NoAssignInArgumentConfig {
    fn level(&self) -> (l: Level)
        ensures
            l == self.level,
    {
        self.level
    }

    open spec fn enabled_by_default() -> bool {
        false
    }

    fn default_enabled() -> (enabled: bool) {
        false
    }
}

/// The configuration of the NoDeadStore rule.
#[derive(Clone, Copy, PartialEq, Eq, Debug, Hash)]
pub struct NoDeadStoreConfig {
    pub level: Level,
}

impl Default for NoDeadStoreConfig {
    fn default() -> (cfg: Self)
        ensures
            cfg.level == Level::Warning,
    {
        Self { level: Level::Warning }
    }
}

impl Config for NoDeadStoreConfig {
    fn level(&self) -> (l: Level)
        ensures
            l == self.level,
    {
        self.level
    }

    open spec fn enabled_by_default() -> bool {
        false
    }

    fn default_enabled() -> (enabled: bool) {
        false
    }
}

/// The configuration of the NoMissingFormatArgument rule.
#[derive(Clone, Copy, PartialEq, Eq, Debug, Hash)]
pub struct NoMissingFormatArgumentConfig {
    pub level: Level,
}

impl Default for NoMissingFormatArgumentConfig {
    fn default() -> (cfg: Self)
        ensures
            cfg.level == Level::Error,
    {
        Self { level: Level::Error }
    }
}

impl Config for NoMissingFormatArgumentConfig {
    fn level(&self) -> (l: Level)
        ensures
            l == self.level,
    {
        self.level
    }

    open spec fn enabled_by_default() -> bool {
        true
    }

    fn default_enabled() -> (enabled: bool) {
        true
    }
}

/// The configuration of the NoRedundantVariable rule.
#[derive(Clone, Copy, PartialEq, Eq, Debug, Hash)]
pub struct NoRedundantVariableConfig {
    pub level: Level,
}

impl Default for NoRedundantVariableConfig {
    fn default() -> (cfg: Self)
        ensures
            cfg.level == Level::Warning,
    {
        Self { level: Level::Warning }
    }
}

impl Config for NoRedundantVariableConfig {
    fn level(&self) -> (l: Level)
        ensures
            l == self.level,
    {
        self.level
    }

    open spec fn enabled_by_default() -> bool {
        false
    }

    fn default_enabled() -> (enabled: bool) {
        false
    }
}

/// The configuration of the NoUnusedClosureCapture rule.
#[derive(Clone, Copy, PartialEq, Eq, Debug, Hash)]
pub struct NoUnusedClosureCaptureConfig {
    pub level: Level,
}

impl Default for NoUnusedClosureCaptureConfig {
    fn default() -> (cfg: Self)
        ensures
            cfg.level == Level::Warning,
    {
        Self { level: Level::Warning }
    }
}

impl Config for NoUnusedClosureCaptureConfig {
    fn level(&self) -> (l: Level)
        ensures
            l == self.level,
    {
        self.level
    }

    open spec fn enabled_by_default() -> bool {
        false
    }

    fn default_enabled() -> (enabled: bool) {
        false
    }
}

/// The configuration of the NoUnusedGlobal rule.
#[derive(Clone, Copy, PartialEq, Eq, Debug, Hash)]
pub struct NoUnusedGlobalConfig {
    pub level: Level,
}

impl Default for NoUnusedGlobalConfig {
    fn default() -> (cfg: Self)
        ensures
            cfg.level == Level::Warning,
    {
        Self { level: Level::Warning }
    }
}

impl Config for NoUnusedGlobalConfig {
    fn level(&self) -> (l: Level)
        ensures
            l == self.level,
    {
        self.level
    }

    open spec fn enabled_by_default() -> bool {
        false
    }

    fn default_enabled() -> (enabled: bool) {
        false
    }
}

/// The configuration of the NoUnusedStatic rule.
#[derive(Clone, Copy, PartialEq, Eq, Debug, Hash)]
pub struct NoUnusedStaticConfig {
    pub level: Level,
}

impl Default for NoUnusedStaticConfig {
    fn default() -> (cfg: Self)
        ensures
            cfg.level == Level::Warning,
    {
        Self { level: Level::Warning }
    }
}

impl Config for NoUnusedStaticConfig {
    fn level(&self) -> (l: Level)
        ensures
            l == self.level,
    {
        self.level
    }

    open spec fn enabled_by_default() -> bool {
        false
    }

    fn default_enabled() -> (enabled: bool) {
        false
    }
}

/// The configuration of the StrictAssertions rule.
#[derive(Clone, Copy, PartialEq, Eq, Debug, Hash)]
pub struct StrictAssertionsConfig {
    pub level: Level,
}

impl Default for StrictAssertionsConfig {
    fn default() -> (cfg: Self)
        ensures
            cfg.level == Level::Warning,
    {
        Self { level: Level::Warning }
    }
}

impl Config for StrictAssertionsConfig {
    fn level(&self) -> (l: Level)
        ensures
            l == self.level,
    {
        self.level
    }

    open spec fn enabled_by_default() -> bool {
        true
    }

    fn default_enabled() -> (enabled: bool) {
        true
    }
}

/// The configuration of the UseSpecificAssertions rule.
#[derive(Clone, Copy, PartialEq, Eq, Debug, Hash)]
pub struct UseSpecificAssertionsConfig {
    pub level: Level,
}

impl Default for UseSpecificAssertionsConfig {
    fn default() -> (cfg: Self)
        ensures
            cfg.level == Level::Warning,
    {
        Self { level: Level::Warning }
    }
}

impl Config for UseSpecificAssertionsConfig {
    fn level(&self) -> (l: Level)
        ensures
            l == self.level,
    {
        self.level
    }

    open spec fn enabled_by_default() -> bool {
        true
    }

    fn default_enabled() -> (enabled: bool) {
        true
    }
}

/// The configuration of the DeprecatedCast rule.
#[derive(Clone, Copy, PartialEq, Eq, Debug, Hash)]
pub struct DeprecatedCastConfig {
    pub level: Level,
}

impl Default for DeprecatedCastConfig {
    fn default() -> (cfg: Self)
        ensures
            cfg.level == Level::Error,
    {
        Self { level: Level::Error }
    }
}

impl Config for DeprecatedCastConfig {
    fn level(&self) -> (l: Level)
        ensures
            l == self.level,
    {
        self.level
    }

    open spec fn enabled_by_default() -> bool {
        true
    }

    fn default_enabled() -> (enabled: bool) {
        true
    }
}

/// The configuration of the DeprecatedShellExecuteString rule.
#[derive(Clone, Copy, PartialEq, Eq, Debug, Hash)]
pub struct DeprecatedShellExecuteStringConfig {
    pub level: Level,
}

impl Default for DeprecatedShellExecuteStringConfig {
    fn default() -> (cfg: Self)
        ensures
            cfg.level == Level::Error,
    {
        Self { level: Level::Error }
    }
}

impl Config for DeprecatedShellExecuteStringConfig {
    fn level(&self) -> (l: Level)
        ensures
            l == self.level,
    {
        self.level
    }

    open spec fn enabled_by_default() -> bool {
        true
    }

    fn default_enabled() -> (enabled: bool) {
        true
    }
}

/// The configuration of the DeprecatedSwitchSemicolon rule.
#[derive(Clone, Copy, PartialEq, Eq, Debug, Hash)]
pub struct DeprecatedSwitchSemicolonConfig {
    pub level: Level,
}

impl Default for DeprecatedSwitchSemicolonConfig {
    fn default() -> (cfg: Self)
        ensures
            cfg.level == Level::Error,
    {
        Self { level: Level::Error }
    }
}

impl Config for DeprecatedSwitchSemicolonConfig {
    fn level(&self) -> (l: Level)
        ensures
            l == self.level,
    {
        self.level
    }

    open spec fn enabled_by_default() -> bool {
        true
    }

    fn default_enabled() -> (enabled: bool) {
        true
    }
}

/// The configuration of the NoExecutableRegexModifier rule.
#[derive(Clone, Copy, PartialEq, Eq, Debug, Hash)]
pub struct NoExecutableRegexModifierConfig {
    pub level: Level,
}

impl Default for NoExecutableRegexModifierConfig {
    fn default() -> (cfg: Self)
        ensures
            cfg.level == Level::Error,
    {
        Self { level: Level::Error }
    }
}

impl Config for NoExecutableRegexModifierConfig {
    fn level(&self) -> (l: Level)
        ensures
            l == self.level,
    {
        self.level
    }

    open spec fn enabled_by_default() -> bool {
        true
    }

    fn default_enabled() -> (enabled: bool) {
        true
    }
}

/// The configuration of the NoRegistry rule.
#[derive(Clone, Copy, PartialEq, Eq, Debug, Hash)]
pub struct NoRegistryConfig {
    pub level: Level,
}

impl Default for NoRegistryConfig {
    fn default() -> (cfg: Self)
        ensures
            cfg.level == Level::Warning,
    {
        Self { level: Level::Warning }
    }
}

impl Config for NoRegistryConfig {
    fn level(&self) -> (l: Level)
        ensures
            l == self.level,
    {
        self.level
    }

    open spec fn enabled_by_default() -> bool {
        true
    }

    fn default_enabled() -> (enabled: bool) {
        true
    }
}

/// The configuration of the OptionalParamOrder rule.
#[derive(Clone, Copy, PartialEq, Eq, Debug, Hash)]
pub struct OptionalParamOrderConfig {
    pub level: Level,
}

impl Default for OptionalParamOrderConfig {
    fn default() -> (cfg: Self)
        ensures
            cfg.level == Level::Warning,
    {
        Self { level: Level::Warning }
    }
}

impl Config for OptionalParamOrderConfig {
    fn level(&self) -> (l: Level)
        ensures
            l == self.level,
    {
        self.level
    }

    open spec fn enabled_by_default() -> bool {
        true
    }

    fn default_enabled() -> (enabled: bool) {
        true
    }
}

/// The configuration of the ExcessiveNesting rule.
#[derive(Clone, Copy, PartialEq, Eq, Debug, Hash)]
pub struct ExcessiveNestingConfig {
    pub level: Level,
    pub threshold: usize,
    /// Maximum nesting depth allowed inside a single function, method, closure, or arrow function.
    ///
    /// When set, each function-like body is checked independently against this threshold,
    /// with nesting counted from the function body (not the file root).
    ///
    /// Default: `None` (function-like bodies are only checked against the global `threshold`).
    pub function_like_threshold: Option<usize>,
}

impl Default for ExcessiveNestingConfig {
    fn default() -> (cfg: Self)
        ensures
            cfg.level == Level::Warning,
            cfg.threshold == DEFAULT_NESTING_THRESHOLD,
            cfg.function_like_threshold is None,
    {
        Self { level: Level::Warning, threshold: DEFAULT_NESTING_THRESHOLD, function_like_threshold: None }
    }
}

impl Config for ExcessiveNestingConfig {
    fn level(&self) -> (l: Level)
        ensures
            l == self.level,
    {
        self.level
    }

    open spec fn enabled_by_default() -> bool {
        true
    }

    fn default_enabled() -> (enabled: bool) {
        true
    }
}

/// The configuration of the ExcessiveParameterList rule.
#[derive(Clone, Copy, PartialEq, Eq, Debug, Hash)]
pub struct ExcessiveParameterListConfig {
    pub level: Level,
    pub threshold: u8,
    pub constructor_threshold: Option<u8>,
}

impl Default for ExcessiveParameterListConfig {
    fn default() -> (cfg: Self)
        ensures
            cfg.level == Level::Error,
            cfg.threshold == 5,
            cfg.constructor_threshold is None,
    {
        Self { level: Level::Error, threshold: 5, constructor_threshold: None }
    }
}

impl Config for ExcessiveParameterListConfig {
    fn level(&self) -> (l: Level)
        ensures
            l == self.level,
    {
        self.level
    }

    open spec fn enabled_by_default() -> bool {
        true
    }

    fn default_enabled() -> (enabled: bool) {
        true
    }
}

/// The configuration of the NoBooleanFlagParameter rule.
#[derive(Clone, Copy, PartialEq, Eq, Debug, Hash)]
pub struct NoBooleanFlagParameterConfig {
    pub level: Level,
    /// When enabled, methods whose name starts with `set` are exempt from this rule.
    pub exclude_setters: bool,
    /// When enabled, constructors are exempt from this rule.
    pub exclude_constructors: bool,
}

impl Default for NoBooleanFlagParameterConfig {
    fn default() -> (cfg: Self)
        ensures
            cfg.level == Level::Help,
            cfg.exclude_setters == false,
            cfg.exclude_constructors == true,
    {
        Self { level: Level::Help, exclude_setters: false, exclude_constructors: true }
    }
}

impl Config for NoBooleanFlagParameterConfig {
    fn level(&self) -> (l: Level)
        ensures
            l == self.level,
    {
        self.level
    }

    open spec fn enabled_by_default() -> bool {
        true
    }

    fn default_enabled() -> (enabled: bool) {
        true
    }
}

/// The configuration of the ConstantCondition rule.
#[derive(Clone, Copy, PartialEq, Eq, Debug, Hash)]
pub struct ConstantConditionConfig {
    pub level: Level,
}

impl Default for ConstantConditionConfig {
    fn default() -> (cfg: Self)
        ensures
            cfg.level == Level::Help,
    {
        Self { level: Level::Help }
    }
}

impl Config for ConstantConditionConfig {
    fn level(&self) -> (l: Level)
        ensures
            l == self.level,
    {
        self.level
    }

    open spec fn enabled_by_default() -> bool {
        true
    }

    fn default_enabled() -> (enabled: bool) {
        true
    }
}

/// The configuration of the InlineVariableReturn rule.
#[derive(Clone, Copy, PartialEq, Eq, Debug, Hash)]
pub struct InlineVariableReturnConfig {
    pub level: Level,
}

impl Default for InlineVariableReturnConfig {
    fn default() -> (cfg: Self)
        ensures
            cfg.level == Level::Warning,
    {
        Self { level: Level::Warning }
    }
}

impl Config for InlineVariableReturnConfig {
    fn level(&self) -> (l: Level)
        ensures
            l == self.level,
    {
        self.level
    }

    open spec fn enabled_by_default() -> bool {
        true
    }

    fn default_enabled() -> (enabled: bool) {
        true
    }
}

/// The configuration of the NoDuplicateMatchArm rule.
#[derive(Clone, Copy, PartialEq, Eq, Debug, Hash)]
pub struct NoDuplicateMatchArmConfig {
    pub level: Level,
}

impl Default for NoDuplicateMatchArmConfig {
    fn default() -> (cfg: Self)
        ensures
            cfg.level == Level::Note,
    {
        Self { level: Level::Note }
    }
}

impl Config for NoDuplicateMatchArmConfig {
    fn level(&self) -> (l: Level)
        ensures
            l == self.level,
    {
        self.level
    }

    open spec fn enabled_by_default() -> bool {
        true
    }

    fn default_enabled() -> (enabled: bool) {
        true
    }
}

/// The configuration of the NoEmptyComment rule.
#[derive(Clone, Copy, PartialEq, Eq, Debug, Hash)]
pub struct NoEmptyCommentConfig {
    pub level: Level,
    pub preserve_single_line_comments: bool,
}

impl Default for NoEmptyCommentConfig {
    fn default() -> (cfg: Self)
        ensures
            cfg.level == Level::Note,
            cfg.preserve_single_line_comments == false,
    {
        Self { level: Level::Note, preserve_single_line_comments: false }
    }
}

impl Config for NoEmptyCommentConfig {
    fn level(&self) -> (l: Level)
        ensures
            l == self.level,
    {
        self.level
    }

    open spec fn enabled_by_default() -> bool {
        true
    }

    fn default_enabled() -> (enabled: bool) {
        true
    }
}

/// The configuration of the NoIsNull rule.
#[derive(Clone, Copy, PartialEq, Eq, Debug, Hash)]
pub struct NoIsNullConfig {
    pub level: Level,
}

impl Default for NoIsNullConfig {
    fn default() -> (cfg: Self)
        ensures
            cfg.level == Level::Note,
    {
        Self { level: Level::Note }
    }
}

impl Config for NoIsNullConfig {
    fn level(&self) -> (l: Level)
        ensures
            l == self.level,
    {
        self.level
    }

    open spec fn enabled_by_default() -> bool {
        false
    }

    fn default_enabled() -> (enabled: bool) {
        false
    }
}

/// The configuration of the NoIteratorToArrayInForeach rule.
#[derive(Clone, Copy, PartialEq, Eq, Debug, Hash)]
pub struct NoIteratorToArrayInForeachConfig {
    pub level: Level,
}

impl Default for NoIteratorToArrayInForeachConfig {
    fn default() -> (cfg: Self)
        ensures
            cfg.level == Level::Warning,
    {
        Self { level: Level::Warning }
    }
}

impl Config for NoIteratorToArrayInForeachConfig {
    fn level(&self) -> (l: Level)
        ensures
            l == self.level,
    {
        self.level
    }

    open spec fn enabled_by_default() -> bool {
        false
    }

    fn default_enabled() -> (enabled: bool) {
        false
    }
}

/// The configuration of the NoNoop rule.
#[derive(Clone, Copy, PartialEq, Eq, Debug, Hash)]
pub struct NoNoopConfig {
    pub level: Level,
}

impl Default for NoNoopConfig {
    fn default() -> (cfg: Self)
        ensures
            cfg.level == Level::Help,
    {
        Self { level: Level::Help }
    }
}

impl Config for NoNoopConfig {
    fn level(&self) -> (l: Level)
        ensures
            l == self.level,
    {
        self.level
    }

    open spec fn enabled_by_default() -> bool {
        true
    }

    fn default_enabled() -> (enabled: bool) {
        true
    }
}

/// The configuration of the NoRedundantBinaryStringPrefix rule.
#[derive(Clone, Copy, PartialEq, Eq, Debug, Hash)]
pub struct NoRedundantBinaryStringPrefixConfig {
    pub level: Level,
}

impl Default for NoRedundantBinaryStringPrefixConfig {
    fn default() -> (cfg: Self)
        ensures
            cfg.level == Level::Help,
    {
        Self { level: Level::Help }
    }
}

impl Config for NoRedundantBinaryStringPrefixConfig {
    fn level(&self) -> (l: Level)
        ensures
            l == self.level,
    {
        self.level
    }

    open spec fn enabled_by_default() -> bool {
        true
    }

    fn default_enabled() -> (enabled: bool) {
        true
    }
}

/// The configuration of the NoRedundantBlock rule.
#[derive(Clone, Copy, PartialEq, Eq, Debug, Hash)]
pub struct NoRedundantBlockConfig {
    pub level: Level,
}

impl Default for NoRedundantBlockConfig {
    fn default() -> (cfg: Self)
        ensures
            cfg.level == Level::Help,
    {
        Self { level: Level::Help }
    }
}

impl Config for NoRedundantBlockConfig {
    fn level(&self) -> (l: Level)
        ensures
            l == self.level,
    {
        self.level
    }

    open spec fn enabled_by_default() -> bool {
        true
    }

    fn default_enabled() -> (enabled: bool) {
        true
    }
}

/// The configuration of the NoRedundantElse rule.
#[derive(Clone, Copy, PartialEq, Eq, Debug, Hash)]
pub struct NoRedundantElseConfig {
    pub level: Level,
}

impl Default for NoRedundantElseConfig {
    fn default() -> (cfg: Self)
        ensures
            cfg.level == Level::Help,
    {
        Self { level: Level::Help }
    }
}

impl Config for NoRedundantElseConfig {
    fn level(&self) -> (l: Level)
        ensures
            l == self.level,
    {
        self.level
    }

    open spec fn enabled_by_default() -> bool {
        false
    }

    fn default_enabled() -> (enabled: bool) {
        false
    }
}

/// The configuration of the NoRedundantIsset rule.
#[derive(Clone, Copy, PartialEq, Eq, Debug, Hash)]
pub struct NoRedundantIssetConfig {
    pub level: Level,
}

impl Default for NoRedundantIssetConfig {
    fn default() -> (cfg: Self)
        ensures
            cfg.level == Level::Help,
    {
        Self { level: Level::Help }
    }
}

impl Config for NoRedundantIssetConfig {
    fn level(&self) -> (l: Level)
        ensures
            l == self.level,
    {
        self.level
    }

    open spec fn enabled_by_default() -> bool {
        true
    }

    fn default_enabled() -> (enabled: bool) {
        true
    }
}

/// The configuration of the NoRedundantLiteralReturn rule.
#[derive(Clone, Copy, PartialEq, Eq, Debug, Hash)]
pub struct NoRedundantLiteralReturnConfig {
    pub level: Level,
}

impl Default for NoRedundantLiteralReturnConfig {
    fn default() -> (cfg: Self)
        ensures
            cfg.level == Level::Warning,
    {
        Self { level: Level::Warning }
    }
}

impl Config for NoRedundantLiteralReturnConfig {
    fn level(&self) -> (l: Level)
        ensures
            l == self.level,
    {
        self.level
    }

    open spec fn enabled_by_default() -> bool {
        true
    }

    fn default_enabled() -> (enabled: bool) {
        true
    }
}

/// The configuration of the NoRedundantUse rule.
#[derive(Clone, Copy, PartialEq, Eq, Debug, Hash)]
pub struct NoRedundantUseConfig {
    pub level: Level,
}

impl Default for NoRedundantUseConfig {
    fn default() -> (cfg: Self)
        ensures
            cfg.level == Level::Warning,
    {
        Self { level: Level::Warning }
    }
}

impl Config for NoRedundantUseConfig {
    fn level(&self) -> (l: Level)
        ensures
            l == self.level,
    {
        self.level
    }

    open spec fn enabled_by_default() -> bool {
        true
    }

    fn default_enabled() -> (enabled: bool) {
        true
    }
}

/// The configuration of the NoRedundantYieldFrom rule.
#[derive(Clone, Copy, PartialEq, Eq, Debug, Hash)]
pub struct NoRedundantYieldFromConfig {
    pub level: Level,
}

impl Default for NoRedundantYieldFromConfig {
    fn default() -> (cfg: Self)
        ensures
            cfg.level == Level::Help,
    {
        Self { level: Level::Help }
    }
}

impl Config for NoRedundantYieldFromConfig {
    fn level(&self) -> (l: Level)
        ensures
            l == self.level,
    {
        self.level
    }

    open spec fn enabled_by_default() -> bool {
        true
    }

    fn default_enabled() -> (enabled: bool) {
        true
    }
}

/// The configuration of the NoSelfAssignment rule.
#[derive(Clone, Copy, PartialEq, Eq, Debug, Hash)]
pub struct NoSelfAssignmentConfig {
    pub level: Level,
}

impl Default for NoSelfAssignmentConfig {
    fn default() -> (cfg: Self)
        ensures
            cfg.level == Level::Warning,
    {
        Self { level: Level::Warning }
    }
}

impl Config for NoSelfAssignmentConfig {
    fn level(&self) -> (l: Level)
        ensures
            l == self.level,
    {
        self.level
    }

    open spec fn enabled_by_default() -> bool {
        true
    }

    fn default_enabled() -> (enabled: bool) {
        true
    }
}

/// The configuration of the NoUnnecessaryDocblockTag rule.
#[derive(Clone, Copy, PartialEq, Eq, Debug, Hash)]
pub struct NoUnnecessaryDocblockTagConfig {
    pub level: Level,
}

impl Default for NoUnnecessaryDocblockTagConfig {
    fn default() -> (cfg: Self)
        ensures
            cfg.level == Level::Help,
    {
        Self { level: Level::Help }
    }
}

impl Config for NoUnnecessaryDocblockTagConfig {
    fn level(&self) -> (l: Level)
        ensures
            l == self.level,
    {
        self.level
    }

    open spec fn enabled_by_default() -> bool {
        false
    }

    fn default_enabled() -> (enabled: bool) {
        false
    }
}

/// The configuration of the RedundantStatic rule.
#[derive(Clone, Copy, PartialEq, Eq, Debug, Hash)]
pub struct RedundantStaticConfig {
    pub level: Level,
}

impl Default for RedundantStaticConfig {
    fn default() -> (cfg: Self)
        ensures
            cfg.level == Level::Help,
    {
        Self { level: Level::Help }
    }
}

impl Config for RedundantStaticConfig {
    fn level(&self) -> (l: Level)
        ensures
            l == self.level,
    {
        self.level
    }

    open spec fn enabled_by_default() -> bool {
        false
    }

    fn default_enabled() -> (enabled: bool) {
        false
    }
}

/// The configuration of the NoEval rule.
#[derive(Clone, Copy, PartialEq, Eq, Debug, Hash)]
pub struct NoEvalConfig {
    pub level: Level,
}

impl Default for NoEvalConfig {
    fn default() -> (cfg: Self)
        ensures
            cfg.level == Level::Error,
    {
        Self { level: Level::Error }
    }
}

impl Config for NoEvalConfig {
    fn level(&self) -> (l: Level)
        ensures
            l == self.level,
    {
        self.level
    }

    open spec fn enabled_by_default() -> bool {
        true
    }

    fn default_enabled() -> (enabled: bool) {
        true
    }
}

/// The configuration of the NoServiceStateMutation rule.
#[derive(PartialEq, Eq, Debug)]
pub struct NoServiceStateMutationConfig {
    pub level: Level,
    /// Namespaces to include. Supports glob patterns: `*`, `**`, `{A,B}`.
    pub include_namespaces: Vec<String>,
    /// Namespaces to exclude. Supports glob patterns: `*`, `**`, `{A,B}`.
    pub exclude_namespaces: Vec<String>,
    pub allowed_methods: Vec<String>,
    pub reset_interfaces: Vec<String>,
}

impl Default for NoServiceStateMutationConfig {
    fn default() -> (cfg: Self)
        ensures
            cfg.level == Level::Warning,
            cfg.include_namespaces@.len() == 1,
            cfg.include_namespaces@[0]@ == "App\\"@,
            cfg.exclude_namespaces@.len() == 3,
            cfg.exclude_namespaces@[0]@ == "App\\Entity\\"@,
            cfg.exclude_namespaces@[1]@ == "App\\DTO\\"@,
            cfg.exclude_namespaces@[2]@ == "App\\ValueObject\\"@,
            cfg.allowed_methods@.len() == 2,
            cfg.allowed_methods@[0]@ == "__construct"@,
            cfg.allowed_methods@[1]@ == "reset"@,
            cfg.reset_interfaces@.len() == 1,
            cfg.reset_interfaces@[0]@ == "Symfony\\Contracts\\Service\\ResetInterface"@,
    {
        Self {
            level: Level::Warning,
            include_namespaces: vec!["App\\".to_owned()],
            exclude_namespaces: vec![
                "App\\Entity\\".to_owned(),
                "App\\DTO\\".to_owned(),
                "App\\ValueObject\\".to_owned(),
            ],
            allowed_methods: vec!["__construct".to_owned(), "reset".to_owned()],
            reset_interfaces: vec!["Symfony\\Contracts\\Service\\ResetInterface".to_owned()],
        }
    }
}

impl Config for NoServiceStateMutationConfig {
    fn level(&self) -> (l: Level)
        ensures
            l == self.level,
    {
        self.level
    }

    open spec fn enabled_by_default() -> bool {
        false
    }

    fn default_enabled() -> (enabled: bool) {
        false
    }
}

/// A rule's settings: whether it is enabled, and its configuration.
#[derive(Clone, PartialEq, Eq, Debug)]
pub struct RuleSettings<C> {
    pub enabled: bool,
    pub config: C,
}

impl<C: Config> RuleSettings<C> {
    /// Whether the rule is enabled when the user's settings do not mention it.
    pub fn default_enabled() -> (enabled: bool)
        ensures
            enabled == C::enabled_by_default(),
    {
        C::default_enabled()
    }
}

impl<C: Config + Default> Default for RuleSettings<C> {
    /// The settings of a rule the user does not configure: enabled as the
    /// rule is by default, with its default configuration.
    fn default() -> (s: Self)
        ensures
            s.enabled == C::enabled_by_default(),
            call_ensures(C::default, (), s.config),
    {
        RuleSettings { enabled: C::default_enabled(), config: C::default() }
    }
}

} // verus!
