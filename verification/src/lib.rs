use vstd::prelude::*;

pub mod assertions;
pub mod assignments;
pub mod block_statement;
pub mod config;
pub mod constant_condition;
pub mod deprecations;
pub mod doc_types;
pub mod docblock_tags;
pub mod edit;
pub mod empty_comment;
pub mod file_name;
pub mod format_call;
pub mod fq;
pub mod format_string;
pub mod ignore_markers;
pub mod inline_return;
pub mod is_null;
pub mod keywords;
pub mod isset;
pub mod level;
pub mod literal_guard;
pub mod match_arms;
pub mod naming;
pub mod nesting;
pub mod params;
pub mod service_state;
pub mod string_style;
pub mod style_round_trip;
pub mod redundant_static;
pub mod regex;
pub mod termination;
pub mod text;
pub mod use_imports;
pub mod variable_usage;
pub mod yield_from;

verus! {
}
