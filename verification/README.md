# mago_linter

The decision logic of a set of PHP lint rules, written in Verus and proved
against specifications: each rule reads a small model of the syntax it looks
at (spans, names, literal values, statement shapes) and returns what it
reports and the text edits of its fix.

- `src/format_string.rs`, `src/format_call.rs`: `sprintf`-style format
  strings and the values their calls must pass.
- `src/naming.rs`, `src/file_name.rs`, `src/keywords.rs`: naming conventions.
- `src/fq.rs`, `src/use_imports.rs`: fully qualified and imported names.
- `src/assertions.rs`: PHPUnit assertions.
- `src/constant_condition.rs`, `src/termination.rs`, `src/literal_guard.rs`,
  `src/inline_return.rs`, `src/block_statement.rs`, `src/assignments.rs`,
  `src/yield_from.rs`, `src/is_null.rs`, `src/isset.rs`, `src/match_arms.rs`:
  statements and expressions that can be simplified.
- `src/string_style.rs`: interpolation, concatenation and string prefixes;
  `src/style_round_trip.rs`: the interpolation and concatenation fixes undo
  each other.
- `src/doc_types.rs`, `src/docblock_tags.rs`: docblock types and tags.
- `src/nesting.rs`, `src/params.rs`, `src/empty_comment.rs`,
  `src/ignore_markers.rs`, `src/variable_usage.rs`, `src/service_state.rs`,
  `src/redundant_static.rs`, `src/regex.rs`, `src/deprecations.rs`: the other
  rules.
- `src/config.rs`: the rules' configurations and their defaults.

Proof functions named `law_*` state properties that hold across inputs.
