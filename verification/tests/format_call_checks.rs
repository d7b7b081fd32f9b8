use mago_linter::format_call::{
    checked_format_argument_problem, format_argument_problem, format_function_model, format_function_names, CallArgument, FormatArgumentProblem,
    FormatFunctionModel, ValuesModel,
};

fn literal(s: &str) -> CallArgument {
    CallArgument::Positional { unpacked: false, string_value: Some(s.as_bytes().to_vec()) }
}

fn value() -> CallArgument {
    CallArgument::Positional { unpacked: false, string_value: None }
}

#[test]
fn known_format_functions_have_models() {
    let names = format_function_names();
    assert_eq!(names.len(), 11);
    for name in names {
        assert!(format_function_model(name).is_some());
    }
    assert_eq!(
        format_function_model("fprintf"),
        Some(FormatFunctionModel { format_index: 1, values_model: ValuesModel::Variadic })
    );
    assert_eq!(
        format_function_model("vsprintf"),
        Some(FormatFunctionModel { format_index: 0, values_model: ValuesModel::Array })
    );
    assert_eq!(format_function_model("str_replace"), None);
}

#[test]
fn sprintf_with_missing_values_is_reported() {
    let model = format_function_model("sprintf").unwrap();
    let args = vec![literal("Hello %s, you have %d messages"), value()];
    assert_eq!(
        format_argument_problem(&model, &args),
        Some(FormatArgumentProblem::MissingValues { placeholder_count: 2, required_args: 2, values_count: 1 })
    );
}

#[test]
fn sprintf_with_enough_values_is_fine() {
    let model = format_function_model("sprintf").unwrap();
    let args = vec![literal("%1$s %1$s"), value()];
    assert_eq!(format_argument_problem(&model, &args), None);
}

#[test]
fn positional_placeholder_requires_its_index() {
    let model = format_function_model("printf").unwrap();
    let args = vec![literal("%3$s"), value(), value()];
    assert_eq!(
        format_argument_problem(&model, &args),
        Some(FormatArgumentProblem::MissingValues { placeholder_count: 1, required_args: 3, values_count: 2 })
    );
}

#[test]
fn fprintf_format_string_is_second_argument() {
    let model = format_function_model("fprintf").unwrap();
    let args = vec![value(), literal("%s %s"), value()];
    assert_eq!(
        format_argument_problem(&model, &args),
        Some(FormatArgumentProblem::MissingValues { placeholder_count: 2, required_args: 2, values_count: 1 })
    );
}

#[test]
fn vsprintf_without_values_array_is_reported() {
    let model = format_function_model("vsprintf").unwrap();
    let args = vec![literal("%s")];
    assert_eq!(format_argument_problem(&model, &args), Some(FormatArgumentProblem::MissingValuesArray { total_args: 1 }));
    let args = vec![literal("%s"), value()];
    assert_eq!(format_argument_problem(&model, &args), None);
}

#[test]
fn non_literal_or_unpacked_format_is_not_checked() {
    let model = format_function_model("sprintf").unwrap();
    assert_eq!(format_argument_problem(&model, &vec![value()]), None);
    let unpacked = CallArgument::Positional { unpacked: true, string_value: Some(b"%s".to_vec()) };
    assert_eq!(format_argument_problem(&model, &vec![unpacked]), None);
    assert_eq!(format_argument_problem(&model, &vec![CallArgument::Named]), None);
    assert_eq!(format_argument_problem(&model, &vec![]), None);
}

#[test]
fn unpacked_values_are_not_counted() {
    let model = format_function_model("sprintf").unwrap();
    let args = vec![literal("%s %s"), CallArgument::Positional { unpacked: true, string_value: None }];
    assert_eq!(format_argument_problem(&model, &args), None);
    let fewer = vec![literal("%s %s"), value()];
    assert_eq!(
        format_argument_problem(&model, &fewer),
        Some(FormatArgumentProblem::MissingValues { placeholder_count: 2, required_args: 2, values_count: 1 })
    );
}

#[test]
fn oversized_numbers_are_not_checked() {
    let model = format_function_model("sprintf").unwrap();
    let huge = vec![literal("%99999999999999999999$s")];
    assert_eq!(checked_format_argument_problem(&model, &huge), None);
    let short = vec![literal("%s %s"), value()];
    assert_eq!(
        checked_format_argument_problem(&model, &short),
        Some(Some(FormatArgumentProblem::MissingValues { placeholder_count: 2, required_args: 2, values_count: 1 }))
    );
    let fine = vec![literal("%2$s"), value(), value()];
    assert_eq!(checked_format_argument_problem(&model, &fine), Some(None));
}
