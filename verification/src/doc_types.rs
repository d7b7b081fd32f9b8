//! Array types in docblocks: the ambiguous shorthand `T[]` and generic arrays
//! without an explicit key type.
use vstd::prelude::*;

verus! {

/// The generic array types whose single type parameter leaves the key type open.
#[derive(Clone, Copy, PartialEq, Eq, Debug)]
pub enum ArrayTypeKind {
    /// `array<T>`
    Array,
    /// `non-empty-array<T>`
    NonEmptyArray,
    /// `associative-array<T>`
    AssociativeArray,
    /// `iterable<T>`
    Iterable,
}

/// A docblock type, as far as the array checks read it. Offsets are byte
/// offsets into the source file.
#[derive(PartialEq, Eq, Debug)]
pub enum DocType {
    /// One of the generic array types, spanning `start..end`, with its type
    /// parameters if it has any.
    GenericArray { kind: ArrayTypeKind, start: u32, end: u32, parameters: Option<Vec<DocType>> },
    /// The shorthand `T[]`, whose brackets span `start..end`.
    Slice { start: u32, end: u32, inner: Box<DocType> },
    /// Any other type, with the types nested in it in the order they are
    /// written (the members of a union, the parameters of `list<T>`, the
    /// fields of a shape, the parameters and return type of a callable, ...).
    Composite { nested: Vec<DocType> },
}

/// What the rule finds in a docblock type.
#[derive(Clone, Copy, PartialEq, Eq, Debug)]
pub enum ArrayTypeFinding {
    /// A shorthand `T[]` whose brackets span `start..end`.
    Shorthand { start: u32, end: u32 },
    /// A generic array type spanning `start..end` with a single type parameter.
    MissingKeyType { kind: ArrayTypeKind, start: u32, end: u32 },
}

/// The findings in `t`, in the order in which the type is written: a
/// generic array is reported (when `check_generic_array` is set and it has
/// exactly one type parameter) before what its parameters hold, and a
/// shorthand array before its element type.
pub open spec fn findings(t: DocType, check_generic_array: bool) -> Seq<ArrayTypeFinding>
    decreases t,
{
    match t {
        DocType::GenericArray { kind, start, end, parameters } => match parameters {
            Some(ps) => {
                let own = if check_generic_array && ps@.len() == 1 {
                    seq![ArrayTypeFinding::MissingKeyType { kind, start, end }]
                } else {
                    Seq::empty()
                };
                own + findings_in(ps@, check_generic_array)
            },
            None => Seq::empty(),
        },
        DocType::Slice { start, end, inner } => seq![ArrayTypeFinding::Shorthand { start, end }]
            + findings(*inner, check_generic_array),
        DocType::Composite { nested } => findings_in(nested@, check_generic_array),
    }
}

/// The findings in each of `ts`, one after the other.
pub open spec fn findings_in(ts: Seq<DocType>, check_generic_array: bool) -> Seq<ArrayTypeFinding>
    decreases ts,
{
    if ts.len() == 0 {
        Seq::empty()
    } else {
        findings_in(ts.drop_last(), check_generic_array) + findings(ts.last(), check_generic_array)
    }
}

proof fn lemma_findings_in_push(ts: Seq<DocType>, k: int, check_generic_array: bool)
    requires
        0 <= k < ts.len(),
    ensures
        findings_in(ts.take(k + 1), check_generic_array) == findings_in(ts.take(k), check_generic_array)
            + findings(ts[k], check_generic_array),
{
    assert(ts.take(k + 1).drop_last() =~= ts.take(k));
}

/// Appends to `out` the findings in `t`.
pub fn check_type(t: &DocType, check_generic_array: bool, out: &mut Vec<ArrayTypeFinding>)
    ensures
        final(out)@ == old(out)@ + findings(*t, check_generic_array),
    decreases t,
{
    match t {
        DocType::GenericArray { kind, start, end, parameters } => {
            match parameters {
                Some(ps) => {
                    if check_generic_array && ps.len() == 1 {
                        out.push(ArrayTypeFinding::MissingKeyType { kind: *kind, start: *start, end: *end });
                    }
                    check_types(ps, check_generic_array, out);
                },
                None => {
                    assert(out@ =~= old(out)@ + findings(*t, check_generic_array));
                },
            }
        },
        DocType::Slice { start, end, inner } => {
            out.push(ArrayTypeFinding::Shorthand { start: *start, end: *end });
            check_type(inner, check_generic_array, out);
        },
        DocType::Composite { nested } => {
            check_types(nested, check_generic_array, out);
        },
    }
}

/// Appends to `out` the findings in each of `ts`, one after the other.
pub fn check_types(ts: &Vec<DocType>, check_generic_array: bool, out: &mut Vec<ArrayTypeFinding>)
    ensures
        final(out)@ == old(out)@ + findings_in(ts@, check_generic_array),
    decreases ts,
{
    let ghost start = out@;
    let mut k: usize = 0;
    assert(ts@.take(0) =~= Seq::<DocType>::empty());
    while k < ts.len()
        invariant
            k <= ts@.len(),
            out@ == start + findings_in(ts@.take(k as int), check_generic_array),
        decreases ts@.len() - k,
    {
        proof {
            lemma_findings_in_push(ts@, k as int, check_generic_array);
        }
        check_type(&ts[k], check_generic_array, out);
        k += 1;
    }
    assert(ts@.take(k as int) =~= ts@);
}

/// With the generic array check off, the rule only reports shorthand arrays.
pub proof fn law_only_shorthand_without_generic_check(t: DocType)
    ensures
        forall|k: int| 0 <= k < findings(t, false).len() ==> #[trigger] findings(t, false)[k] is Shorthand,
    decreases t,
{
    match t {
        DocType::GenericArray { kind, start, end, parameters } => match parameters {
            Some(ps) => {
                law_only_shorthand_in_without_generic_check(ps@);
                assert(findings(t, false) =~= findings_in(ps@, false));
            },
            None => {},
        },
        DocType::Slice { start, end, inner } => {
            law_only_shorthand_without_generic_check(*inner);
            let f = findings(t, false);
            assert forall|k: int| 0 <= k < f.len() implies #[trigger] f[k] is Shorthand by {
                if k > 0 {
                    assert(f[k] == findings(*inner, false)[k - 1]);
                }
            }
        },
        DocType::Composite { nested } => {
            law_only_shorthand_in_without_generic_check(nested@);
        },
    }
}

/// With the generic array check off, the rule only reports shorthand arrays
/// in a sequence of types.
pub proof fn law_only_shorthand_in_without_generic_check(ts: Seq<DocType>)
    ensures
        forall|k: int| 0 <= k < findings_in(ts, false).len() ==> #[trigger] findings_in(ts, false)[k] is Shorthand,
    decreases ts,
{
    if ts.len() > 0 {
        law_only_shorthand_in_without_generic_check(ts.drop_last());
        law_only_shorthand_without_generic_check(ts.last());
        let a = findings_in(ts.drop_last(), false);
        let b = findings(ts.last(), false);
        let f = findings_in(ts, false);
        assert forall|k: int| 0 <= k < f.len() implies #[trigger] f[k] is Shorthand by {
            if k < a.len() {
                assert(f[k] == a[k]);
            } else {
                assert(f[k] == b[k - a.len()]);
            }
        }
    }
}

// ---------------------------------------------------------------------------
// Docblock tags
// ---------------------------------------------------------------------------

/// A `@template` declaration: the types of its bound and of its default.
#[derive(PartialEq, Eq, Debug)]
pub struct TemplateValue {
    pub bound: Option<DocType>,
    pub default: Option<DocType>,
}

/// The value of a docblock tag, as far as the array checks read it.
#[derive(PartialEq, Eq, Debug)]
pub enum DocTagValue {
    /// A tag whose value is a type: `@param`, `@param-out`,
    /// `@param-closure-this`, `@return`, `@real-return`, `@var`, `@throws`,
    /// `@mixin`, `@self-out`, `@extends`, `@implements`, `@use`,
    /// `@require-extends`, `@require-implements`, `@sealed`, `@inheritors`,
    /// `@where` and type aliases.
    Typed { ty: DocType },
    /// `@template`.
    Template { template: TemplateValue },
    /// `@method`: its return type, its templates and the types of its
    /// parameters.
    Method { return_type: Option<DocType>, templates: Vec<TemplateValue>, parameter_types: Vec<Option<DocType>> },
    /// `@property`, `@property-read`, `@property-write`: the property's type.
    Property { ty: Option<DocType> },
    /// `@assert`, `@assert-if-true`, `@assert-if-false`: the asserted type,
    /// when the assertion is a type.
    Assert { ty: Option<DocType> },
    /// Any other tag.
    Other,
}

/// The findings in an optional type.
pub open spec fn optional_findings(t: Option<DocType>, check_generic_array: bool) -> Seq<ArrayTypeFinding> {
    match t {
        Some(ty) => findings(ty, check_generic_array),
        None => Seq::empty(),
    }
}

/// The findings in a template's bound, then in its default.
pub open spec fn template_findings(t: TemplateValue, check_generic_array: bool) -> Seq<ArrayTypeFinding> {
    optional_findings(t.bound, check_generic_array) + optional_findings(t.default, check_generic_array)
}

/// The findings in some templates, one after the other.
pub open spec fn templates_findings(ts: Seq<TemplateValue>, check_generic_array: bool) -> Seq<ArrayTypeFinding>
    decreases ts.len(),
{
    if ts.len() == 0 {
        Seq::empty()
    } else {
        templates_findings(ts.drop_last(), check_generic_array) + template_findings(ts.last(), check_generic_array)
    }
}

/// The findings in some optional types, one after the other.
pub open spec fn optionals_findings(ts: Seq<Option<DocType>>, check_generic_array: bool) -> Seq<ArrayTypeFinding>
    decreases ts.len(),
{
    if ts.len() == 0 {
        Seq::empty()
    } else {
        optionals_findings(ts.drop_last(), check_generic_array) + optional_findings(ts.last(), check_generic_array)
    }
}

/// The findings in the types of a tag's value, in the order in which they
/// are written.
pub open spec fn tag_findings(v: DocTagValue, check_generic_array: bool) -> Seq<ArrayTypeFinding> {
    match v {
        DocTagValue::Typed { ty } => findings(ty, check_generic_array),
        DocTagValue::Template { template } => template_findings(template, check_generic_array),
        DocTagValue::Method { return_type, templates, parameter_types } => optional_findings(
            return_type,
            check_generic_array,
        ) + templates_findings(templates@, check_generic_array) + optionals_findings(
            parameter_types@,
            check_generic_array,
        ),
        DocTagValue::Property { ty } => optional_findings(ty, check_generic_array),
        DocTagValue::Assert { ty } => optional_findings(ty, check_generic_array),
        DocTagValue::Other => Seq::empty(),
    }
}

/// The findings in some tags, one after the other.
pub open spec fn tags_findings(vs: Seq<DocTagValue>, check_generic_array: bool) -> Seq<ArrayTypeFinding>
    decreases vs.len(),
{
    if vs.len() == 0 {
        Seq::empty()
    } else {
        tags_findings(vs.drop_last(), check_generic_array) + tag_findings(vs.last(), check_generic_array)
    }
}

fn check_optional_type(t: &Option<DocType>, check_generic_array: bool, out: &mut Vec<ArrayTypeFinding>)
    ensures
        final(out)@ == old(out)@ + optional_findings(*t, check_generic_array),
{
    match t {
        Some(ty) => check_type(ty, check_generic_array, out),
        None => {
            assert(out@ =~= old(out)@ + optional_findings(*t, check_generic_array));
        },
    }
}

/// Appends to `out` the findings in a template's bound and default.
pub fn check_template_tag_value(t: &TemplateValue, check_generic_array: bool, out: &mut Vec<ArrayTypeFinding>)
    ensures
        final(out)@ == old(out)@ + template_findings(*t, check_generic_array),
{
    check_optional_type(&t.bound, check_generic_array, out);
    check_optional_type(&t.default, check_generic_array, out);
    assert(out@ =~= old(out)@ + template_findings(*t, check_generic_array));
}

/// Appends to `out` the findings in the types of a tag's value.
pub fn check_tag_value(v: &DocTagValue, check_generic_array: bool, out: &mut Vec<ArrayTypeFinding>)
    ensures
        final(out)@ == old(out)@ + tag_findings(*v, check_generic_array),
{
    match v {
        DocTagValue::Typed { ty } => check_type(ty, check_generic_array, out),
        DocTagValue::Template { template } => check_template_tag_value(template, check_generic_array, out),
        DocTagValue::Method { return_type, templates, parameter_types } => {
            let ghost start = out@;
            check_optional_type(return_type, check_generic_array, out);
            let ghost after_return = out@;
            let mut k: usize = 0;
            while k < templates.len()
                invariant
                    k <= templates.len(),
                    out@ == after_return + templates_findings(templates@.take(k as int), check_generic_array),
                decreases templates.len() - k,
            {
                check_template_tag_value(&templates[k], check_generic_array, out);
                assert(templates@.take(k + 1).drop_last() =~= templates@.take(k as int));
                k += 1;
            }
            assert(templates@.take(k as int) =~= templates@);
            let ghost after_templates = out@;
            let mut k: usize = 0;
            while k < parameter_types.len()
                invariant
                    k <= parameter_types.len(),
                    out@ == after_templates + optionals_findings(parameter_types@.take(k as int), check_generic_array),
                decreases parameter_types.len() - k,
            {
                check_optional_type(&parameter_types[k], check_generic_array, out);
                assert(parameter_types@.take(k + 1).drop_last() =~= parameter_types@.take(k as int));
                k += 1;
            }
            assert(parameter_types@.take(k as int) =~= parameter_types@);
            assert(out@ =~= start + tag_findings(*v, check_generic_array));
        },
        DocTagValue::Property { ty } => check_optional_type(ty, check_generic_array, out),
        DocTagValue::Assert { ty } => check_optional_type(ty, check_generic_array, out),
        DocTagValue::Other => {
            assert(out@ =~= old(out)@ + tag_findings(*v, check_generic_array));
        },
    }
}

/// The findings in the tags of a file's docblocks, in order.
pub fn check_doc_tags(tags: &Vec<DocTagValue>, check_generic_array: bool) -> (out: Vec<ArrayTypeFinding>)
    ensures
        out@ == tags_findings(tags@, check_generic_array),
{
    let mut out: Vec<ArrayTypeFinding> = Vec::new();
    let mut k: usize = 0;
    while k < tags.len()
        invariant
            k <= tags.len(),
            out@ == tags_findings(tags@.take(k as int), check_generic_array),
        decreases tags.len() - k,
    {
        check_tag_value(&tags[k], check_generic_array, &mut out);
        assert(tags@.take(k + 1).drop_last() =~= tags@.take(k as int));
        k += 1;
    }
    assert(tags@.take(k as int) =~= tags@);
    out
}

} // verus!
