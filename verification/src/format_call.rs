//! Whether a call of a `sprintf`-style function passes enough values for the
//! placeholders of its literal format string.
use vstd::prelude::*;

use crate::format_string::{
    check_format_numbers, format_numbers_fit, parse_format_string, placeholders, required_args, FormatInfo,
};
use crate::text::str_equals;

verus! {

/// How a format function receives the values for its placeholders.
#[derive(Clone, Copy, PartialEq, Eq, Debug)]
pub enum ValuesModel {
    /// One argument per value, after the format string (`sprintf`).
    Variadic,
    /// A single array argument after the format string (`vsprintf`).
    Array,
}

/// Where a format function takes its format string and how it takes the values.
#[derive(Clone, Copy, PartialEq, Eq, Debug)]
pub struct FormatFunctionModel {
    /// The index of the format string among the arguments.
    pub format_index: usize,
    /// How the values follow it.
    pub values_model: ValuesModel,
}

/// The model of each known format function, by its fully qualified name.
pub open spec fn spec_format_function_model(name: Seq<char>) -> Option<FormatFunctionModel> {
    if name == "sprintf"@ || name == "printf"@ || name == "Psl\\Str\\format"@ || name
        == "Psl\\IO\\write"@ || name == "Psl\\IO\\write_line"@ || name == "Psl\\IO\\write_error"@
        || name == "Psl\\IO\\write_error_line"@ {
        Some(FormatFunctionModel { format_index: 0, values_model: ValuesModel::Variadic })
    } else if name == "fprintf"@ {
        Some(FormatFunctionModel { format_index: 1, values_model: ValuesModel::Variadic })
    } else if name == "vsprintf"@ || name == "vprintf"@ {
        Some(FormatFunctionModel { format_index: 0, values_model: ValuesModel::Array })
    } else if name == "vfprintf"@ {
        Some(FormatFunctionModel { format_index: 1, values_model: ValuesModel::Array })
    } else {
        None
    }
}

/// The names of the format functions that the rule knows, in the order in
/// which a call is matched against them.
pub fn format_function_names() -> (names: Vec<&'static str>)
    ensures
        forall|k: int| 0 <= k < names.len() ==> (#[trigger] spec_format_function_model(names@[k]@)) is Some,
        forall|name: Seq<char>| (#[trigger] spec_format_function_model(name)) is Some ==> exists|k: int|
            0 <= k < names.len() && names@[k]@ == name,
        names.len() == 11,
        names@.map_values(|n: &str| n@) == seq![
            "sprintf"@,
            "printf"@,
            "fprintf"@,
            "vsprintf"@,
            "vprintf"@,
            "vfprintf"@,
            "Psl\\Str\\format"@,
            "Psl\\IO\\write"@,
            "Psl\\IO\\write_line"@,
            "Psl\\IO\\write_error"@,
            "Psl\\IO\\write_error_line"@,
        ],
{
    let names = vec![
        "sprintf",
        "printf",
        "fprintf",
        "vsprintf",
        "vprintf",
        "vfprintf",
        "Psl\\Str\\format",
        "Psl\\IO\\write",
        "Psl\\IO\\write_line",
        "Psl\\IO\\write_error",
        "Psl\\IO\\write_error_line",
    ];
    proof {
        reveal_strlit("sprintf");
        reveal_strlit("printf");
        reveal_strlit("fprintf");
        reveal_strlit("vsprintf");
        reveal_strlit("vprintf");
        reveal_strlit("vfprintf");
        reveal_strlit("Psl\\Str\\format");
        reveal_strlit("Psl\\IO\\write");
        reveal_strlit("Psl\\IO\\write_line");
        reveal_strlit("Psl\\IO\\write_error");
        reveal_strlit("Psl\\IO\\write_error_line");
        assert forall|name: Seq<char>| (#[trigger] spec_format_function_model(name)) is Some implies exists|k: int|
            0 <= k < names.len() && names@[k]@ == name by {
            if name == names@[0]@ { assert(names@[0]@ == name); }
            else if name == names@[1]@ { assert(names@[1]@ == name); }
            else if name == names@[2]@ { assert(names@[2]@ == name); }
            else if name == names@[3]@ { assert(names@[3]@ == name); }
            else if name == names@[4]@ { assert(names@[4]@ == name); }
            else if name == names@[5]@ { assert(names@[5]@ == name); }
            else if name == names@[6]@ { assert(names@[6]@ == name); }
            else if name == names@[7]@ { assert(names@[7]@ == name); }
            else if name == names@[8]@ { assert(names@[8]@ == name); }
            else if name == names@[9]@ { assert(names@[9]@ == name); }
            else { assert(names@[10]@ == name); }
        }
    }
    assert(names@.map_values(|n: &str| n@) =~= seq![
        "sprintf"@,
        "printf"@,
        "fprintf"@,
        "vsprintf"@,
        "vprintf"@,
        "vfprintf"@,
        "Psl\\Str\\format"@,
        "Psl\\IO\\write"@,
        "Psl\\IO\\write_line"@,
        "Psl\\IO\\write_error"@,
        "Psl\\IO\\write_error_line"@,
    ]);
    names
}

/// The model of the format function named `name`, if it is one.
pub fn format_function_model(name: &str) -> (model: Option<FormatFunctionModel>)
    ensures
        model == spec_format_function_model(name@),
{
    let variadic0 = FormatFunctionModel { format_index: 0, values_model: ValuesModel::Variadic };
    if str_equals(name, "sprintf") || str_equals(name, "printf") || str_equals(name, "Psl\\Str\\format")
        || str_equals(name, "Psl\\IO\\write") || str_equals(name, "Psl\\IO\\write_line")
        || str_equals(name, "Psl\\IO\\write_error") || str_equals(name, "Psl\\IO\\write_error_line") {
        Some(variadic0)
    } else if str_equals(name, "fprintf") {
        Some(FormatFunctionModel { format_index: 1, values_model: ValuesModel::Variadic })
    } else if str_equals(name, "vsprintf") || str_equals(name, "vprintf") {
        Some(FormatFunctionModel { format_index: 0, values_model: ValuesModel::Array })
    } else if str_equals(name, "vfprintf") {
        Some(FormatFunctionModel { format_index: 1, values_model: ValuesModel::Array })
    } else {
        None
    }
}

/// An argument of a call, as far as the rule reads it.
#[derive(PartialEq, Eq, Debug)]
pub enum CallArgument {
    /// A positional argument: whether it is unpacked with `...`, and the bytes
    /// of its value when that value is a string literal.
    Positional { unpacked: bool, string_value: Option<Vec<u8>> },
    /// A named argument.
    Named,
}

/// What is wrong with the values given to a format function.
#[derive(Clone, Copy, PartialEq, Eq, Debug)]
pub enum FormatArgumentProblem {
    /// Fewer values than the format string asks for.
    MissingValues { placeholder_count: usize, required_args: usize, values_count: usize },
    /// No values array after the format string.
    MissingValuesArray { total_args: usize },
}

/// The literal format string of a call, when the argument at the format index
/// is a positional, not unpacked string literal.
pub open spec fn literal_format(model: FormatFunctionModel, arguments: Seq<CallArgument>) -> Option<Seq<u8>> {
    if model.format_index < arguments.len() {
        match arguments[model.format_index as int] {
            CallArgument::Positional { unpacked, string_value } => if !unpacked {
                match string_value {
                    Some(v) => Some(v@),
                    None => None,
                }
            } else {
                None
            },
            CallArgument::Named => None,
        }
    } else {
        None
    }
}

/// Whether some argument after the format string is unpacked with `...`, so
/// that the number of values passed is unknown.
pub open spec fn has_unpacked_value(model: FormatFunctionModel, arguments: Seq<CallArgument>) -> bool {
    exists|k: int|
        model.format_index < k < arguments.len() && #[trigger] arguments[k] matches CallArgument::Positional {
            unpacked: true,
            ..
        }
}

/// What the rule reports for a call of a format function with these
/// arguments: nothing unless the format string is a literal, nor when a
/// value argument is unpacked (its count is unknown); for a variadic
/// function, missing values when fewer values follow it than it asks for; for
/// an array function, a missing array when nothing follows it.
pub open spec fn spec_format_argument_problem(
    model: FormatFunctionModel,
    arguments: Seq<CallArgument>,
) -> Option<FormatArgumentProblem> {
    match literal_format(model, arguments) {
        None => None,
        Some(_) if has_unpacked_value(model, arguments) => None,
        Some(format) => {
            let ph = placeholders(format);
            let total = arguments.len();
            match model.values_model {
                ValuesModel::Variadic => {
                    let values = if total > model.format_index + 1 {
                        (total - model.format_index - 1) as nat
                    } else {
                        0nat
                    };
                    if values >= required_args(ph) {
                        None
                    } else {
                        Some(
                            FormatArgumentProblem::MissingValues {
                                placeholder_count: ph.len() as usize,
                                required_args: required_args(ph) as usize,
                                values_count: values as usize,
                            },
                        )
                    }
                },
                ValuesModel::Array => if total <= model.format_index + 1 {
                    Some(FormatArgumentProblem::MissingValuesArray { total_args: total as usize })
                } else {
                    None
                },
            }
        },
    }
}

/// Checks the arguments of a call of the format function described by `model`.
pub fn format_argument_problem(model: &FormatFunctionModel, arguments: &Vec<CallArgument>) -> (problem:
    Option<FormatArgumentProblem>)
    requires
        model.format_index < usize::MAX,
        literal_format(*model, arguments@) matches Some(f) ==> f.len() < usize::MAX
            && format_numbers_fit(f),
    ensures
        problem == spec_format_argument_problem(*model, arguments@),
{
    let total_args = arguments.len();
    if model.format_index >= total_args {
        return None;
    }
    let format_str = match &arguments[model.format_index] {
        CallArgument::Positional { unpacked, string_value } => {
            if *unpacked {
                return None;
            }
            match string_value {
                Some(v) => v,
                None => return None,
            }
        },
        CallArgument::Named => return None,
    };
    let mut k: usize = model.format_index + 1;
    while k < total_args
        invariant
            model.format_index < k,
            total_args == arguments.len(),
            forall|m: int|
                model.format_index < m < k ==> !(#[trigger] arguments@[m] matches CallArgument::Positional {
                    unpacked: true,
                    ..
                }),
        decreases total_args - k,
    {
        if let CallArgument::Positional { unpacked: true, .. } = &arguments[k] {
            assert(has_unpacked_value(*model, arguments@));
            return None;
        }
        k += 1;
    }
    let parsed: FormatInfo = parse_format_string(format_str.as_slice());
    match model.values_model {
        ValuesModel::Variadic => {
            let values_start = model.format_index + 1;
            let values_count = total_args.saturating_sub(values_start);
            if values_count >= parsed.required_args {
                None
            } else {
                Some(
                    FormatArgumentProblem::MissingValues {
                        placeholder_count: parsed.placeholder_count,
                        required_args: parsed.required_args,
                        values_count,
                    },
                )
            }
        },
        ValuesModel::Array => {
            if total_args <= model.format_index + 1 {
                Some(FormatArgumentProblem::MissingValuesArray { total_args })
            } else {
                None
            }
        },
    }
}

/// Checks the arguments of a call of a format function like
/// [`format_argument_problem`], after making sure that every number in the
/// placeholders of its literal format string fits in a `usize`: `None` when
/// one does not (nothing is checked then), else the outcome of the check.
pub fn checked_format_argument_problem(model: &FormatFunctionModel, arguments: &Vec<CallArgument>) -> (r:
    Option<Option<FormatArgumentProblem>>)
    requires
        model.format_index < usize::MAX,
    ensures
        r is None <==> (literal_format(*model, arguments@) matches Some(f) && (f.len() >= usize::MAX
            || !format_numbers_fit(f))),
        r matches Some(p) ==> p == spec_format_argument_problem(*model, arguments@),
{
    if model.format_index < arguments.len() {
        if let CallArgument::Positional { unpacked: false, string_value: Some(v) } = &arguments[model.format_index] {
            if v.len() >= usize::MAX || !check_format_numbers(v.as_slice()) {
                return None;
            }
        }
    }
    Some(format_argument_problem(model, arguments))
}

/// The table of format functions: `sprintf`, `printf` and the Psl string and
/// output functions take the format string first and one argument per value;
/// `fprintf` takes a stream first; `vsprintf`, `vprintf` and `vfprintf` take
/// their values as one array.
pub proof fn law_format_function_table()
    ensures
        spec_format_function_model("sprintf"@) == Some(FormatFunctionModel { format_index: 0, values_model: ValuesModel::Variadic }),
        spec_format_function_model("printf"@) == Some(FormatFunctionModel { format_index: 0, values_model: ValuesModel::Variadic }),
        spec_format_function_model("fprintf"@) == Some(FormatFunctionModel { format_index: 1, values_model: ValuesModel::Variadic }),
        spec_format_function_model("vsprintf"@) == Some(FormatFunctionModel { format_index: 0, values_model: ValuesModel::Array }),
        spec_format_function_model("vprintf"@) == Some(FormatFunctionModel { format_index: 0, values_model: ValuesModel::Array }),
        spec_format_function_model("vfprintf"@) == Some(FormatFunctionModel { format_index: 1, values_model: ValuesModel::Array }),
        spec_format_function_model("Psl\\Str\\format"@) == Some(FormatFunctionModel { format_index: 0, values_model: ValuesModel::Variadic }),
        spec_format_function_model("Psl\\IO\\write"@) == Some(FormatFunctionModel { format_index: 0, values_model: ValuesModel::Variadic }),
        spec_format_function_model("Psl\\IO\\write_line"@) == Some(FormatFunctionModel { format_index: 0, values_model: ValuesModel::Variadic }),
        spec_format_function_model("Psl\\IO\\write_error"@) == Some(FormatFunctionModel { format_index: 0, values_model: ValuesModel::Variadic }),
        spec_format_function_model("Psl\\IO\\write_error_line"@) == Some(FormatFunctionModel { format_index: 0, values_model: ValuesModel::Variadic }),
{
    reveal_strlit("sprintf");
    reveal_strlit("printf");
    reveal_strlit("fprintf");
    reveal_strlit("vsprintf");
    reveal_strlit("vprintf");
    reveal_strlit("vfprintf");
    reveal_strlit("Psl\\Str\\format");
    reveal_strlit("Psl\\IO\\write");
    reveal_strlit("Psl\\IO\\write_line");
    reveal_strlit("Psl\\IO\\write_error");
    reveal_strlit("Psl\\IO\\write_error_line");
    assert("sprintf"@[0] != "fprintf"@[0]);
    assert("sprintf"@[0] != "vprintf"@[0]);
    assert("fprintf"@[0] != "vprintf"@[0]);
    assert("vsprintf"@[1] != "vfprintf"@[1]);
    assert("sprintf"@.len() != "printf"@.len());
    assert("sprintf"@.len() != "vsprintf"@.len());
    assert("sprintf"@.len() != "vfprintf"@.len());
    assert("sprintf"@.len() != "Psl\\Str\\format"@.len());
    assert("sprintf"@.len() != "Psl\\IO\\write"@.len());
    assert("sprintf"@.len() != "Psl\\IO\\write_line"@.len());
    assert("sprintf"@.len() != "Psl\\IO\\write_error"@.len());
    assert("sprintf"@.len() != "Psl\\IO\\write_error_line"@.len());
    assert("printf"@.len() != "fprintf"@.len());
    assert("printf"@.len() != "vsprintf"@.len());
    assert("printf"@.len() != "vprintf"@.len());
    assert("printf"@.len() != "vfprintf"@.len());
    assert("printf"@.len() != "Psl\\Str\\format"@.len());
    assert("printf"@.len() != "Psl\\IO\\write"@.len());
    assert("printf"@.len() != "Psl\\IO\\write_line"@.len());
    assert("printf"@.len() != "Psl\\IO\\write_error"@.len());
    assert("printf"@.len() != "Psl\\IO\\write_error_line"@.len());
    assert("fprintf"@.len() != "vsprintf"@.len());
    assert("fprintf"@.len() != "vfprintf"@.len());
    assert("fprintf"@.len() != "Psl\\Str\\format"@.len());
    assert("fprintf"@.len() != "Psl\\IO\\write"@.len());
    assert("fprintf"@.len() != "Psl\\IO\\write_line"@.len());
    assert("fprintf"@.len() != "Psl\\IO\\write_error"@.len());
    assert("fprintf"@.len() != "Psl\\IO\\write_error_line"@.len());
    assert("vsprintf"@.len() != "vprintf"@.len());
    assert("vsprintf"@.len() != "Psl\\Str\\format"@.len());
    assert("vsprintf"@.len() != "Psl\\IO\\write"@.len());
    assert("vsprintf"@.len() != "Psl\\IO\\write_line"@.len());
    assert("vsprintf"@.len() != "Psl\\IO\\write_error"@.len());
    assert("vsprintf"@.len() != "Psl\\IO\\write_error_line"@.len());
    assert("vprintf"@.len() != "vfprintf"@.len());
    assert("vprintf"@.len() != "Psl\\Str\\format"@.len());
    assert("vprintf"@.len() != "Psl\\IO\\write"@.len());
    assert("vprintf"@.len() != "Psl\\IO\\write_line"@.len());
    assert("vprintf"@.len() != "Psl\\IO\\write_error"@.len());
    assert("vprintf"@.len() != "Psl\\IO\\write_error_line"@.len());
    assert("vfprintf"@.len() != "Psl\\Str\\format"@.len());
    assert("vfprintf"@.len() != "Psl\\IO\\write"@.len());
    assert("vfprintf"@.len() != "Psl\\IO\\write_line"@.len());
    assert("vfprintf"@.len() != "Psl\\IO\\write_error"@.len());
    assert("vfprintf"@.len() != "Psl\\IO\\write_error_line"@.len());
    assert("Psl\\Str\\format"@.len() != "Psl\\IO\\write"@.len());
    assert("Psl\\Str\\format"@.len() != "Psl\\IO\\write_line"@.len());
    assert("Psl\\Str\\format"@.len() != "Psl\\IO\\write_error"@.len());
    assert("Psl\\Str\\format"@.len() != "Psl\\IO\\write_error_line"@.len());
    assert("Psl\\IO\\write"@.len() != "Psl\\IO\\write_line"@.len());
    assert("Psl\\IO\\write"@.len() != "Psl\\IO\\write_error"@.len());
    assert("Psl\\IO\\write"@.len() != "Psl\\IO\\write_error_line"@.len());
    assert("Psl\\IO\\write_line"@.len() != "Psl\\IO\\write_error"@.len());
    assert("Psl\\IO\\write_line"@.len() != "Psl\\IO\\write_error_line"@.len());
    assert("Psl\\IO\\write_error"@.len() != "Psl\\IO\\write_error_line"@.len());
}

/// Each `v` function takes the values that its plain counterpart takes one by
/// one as a single array, after a format string at the same position.
pub proof fn law_v_functions_take_an_array(f: Seq<char>)
    requires
        f == "sprintf"@ || f == "printf"@ || f == "fprintf"@,
    ensures
        spec_format_function_model(f) matches Some(m) && m.values_model == ValuesModel::Variadic
            && spec_format_function_model(seq!['v'] + f) == Some(
            FormatFunctionModel { format_index: m.format_index, values_model: ValuesModel::Array },
        ),
{
    law_format_function_table();
    reveal_strlit("sprintf");
    reveal_strlit("printf");
    reveal_strlit("fprintf");
    reveal_strlit("vsprintf");
    reveal_strlit("vprintf");
    reveal_strlit("vfprintf");
    assert(seq!['v'] + "sprintf"@ =~= "vsprintf"@);
    assert(seq!['v'] + "printf"@ =~= "vprintf"@);
    assert(seq!['v'] + "fprintf"@ =~= "vfprintf"@);
}

} // verus!
