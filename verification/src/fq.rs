//! Names written with a leading `\`: what they refer to and how an import
//! can replace them.
use vstd::prelude::*;

use crate::text::{
    ascii, ascii_bytes, bytes_contain, bytes_eq_ignore_ascii_case, bytes_equal, bytes_subrange,
    eq_ignore_ascii_case, last_byte_position, lemma_rposition_in, rposition, trim_leading,
    trim_leading_byte,
};

verus! {

/// The byte `\`.
pub open spec fn backslash() -> u8 {
    0x5cu8
}

/// The last segment of a namespaced name: what follows its last `\`, or the
/// whole name when it has none.
pub open spec fn last_segment(name: Seq<u8>) -> Seq<u8> {
    match rposition(name, backslash()) {
        Some(k) => name.skip(k + 1),
        None => name,
    }
}

/// The namespace of a namespaced name: what precedes its last `\`, when that
/// is not empty.
pub open spec fn namespace_part(name: Seq<u8>) -> Option<Seq<u8>> {
    match rposition(name, backslash()) {
        Some(k) => if k > 0 { Some(name.take(k)) } else { None },
        None => None,
    }
}

/// The last segment of `name`.
pub fn short_name(name: &[u8]) -> (short: Vec<u8>)
    ensures
        short@ == last_segment(name@),
{
    proof {
        lemma_rposition_in(name@, backslash(), name@.len() as int);
    }
    let found = last_byte_position(0x5cu8, name);
    assert(name@.len() == name.len());
    match found {
        Some(k) => {
            assert(rposition(name@, backslash()) == Some(k as int));
            let v = bytes_subrange(name, k + 1, name.len());
            assert(v@ =~= name@.skip(k + 1));
            v
        },
        None => bytes_subrange(name, 0, name.len()),
    }
}

/// The namespace of `name`, if it has a non-empty one.
pub fn namespace_of(name: &[u8]) -> (ns: Option<Vec<u8>>)
    ensures
        match namespace_part(name@) {
            Some(n) => ns matches Some(v) && v@ == n,
            None => ns is None,
        },
{
    proof {
        lemma_rposition_in(name@, backslash(), name@.len() as int);
    }
    let found = last_byte_position(0x5cu8, name);
    assert(name@.len() == name.len());
    match found {
        Some(k) => if k > 0 {
            assert(rposition(name@, backslash()) == Some(k as int));
            let v = bytes_subrange(name, 0, k);
            assert(v@ =~= name@.take(k as int));
            Some(v)
        } else {
            None
        },
        None => {
            assert(rposition(name@, backslash()) is None);
            None
        },
    }
}

// ---------------------------------------------------------------------------
// Names that are never reported
// ---------------------------------------------------------------------------

/// Whether a constant name is one of the keywords `true`, `false` and `null`,
/// in any case.
pub open spec fn spec_is_keyword_constant(name: Seq<u8>) -> bool {
    eq_ignore_ascii_case(name, ascii("true"@)) || eq_ignore_ascii_case(name, ascii("false"@))
        || eq_ignore_ascii_case(name, ascii("null"@))
}

/// Whether the constant `name` is a keyword rather than a constant.
pub fn is_keyword_constant(name: &[u8]) -> (r: bool)
    ensures
        r == spec_is_keyword_constant(name@),
{
    proof {
        reveal_strlit("true");
        reveal_strlit("false");
        reveal_strlit("null");
    }
    bytes_eq_ignore_ascii_case(name, ascii_bytes("true")) || bytes_eq_ignore_ascii_case(
        name,
        ascii_bytes("false"),
    ) || bytes_eq_ignore_ascii_case(name, ascii_bytes("null"))
}

/// Whether an unqualified constant resolves without ambiguity: the keywords
/// and the `STDIN`, `STDOUT` and `STDERR` streams, in any case.
pub open spec fn spec_is_unambiguous_constant(name: Seq<u8>) -> bool {
    spec_is_keyword_constant(name) || eq_ignore_ascii_case(name, ascii("stdin"@)) || eq_ignore_ascii_case(
        name,
        ascii("stdout"@),
    ) || eq_ignore_ascii_case(name, ascii("stderr"@))
}

/// Whether the unqualified constant `name` is exempt from the ambiguity rule.
pub fn is_unambiguous_constant(name: &[u8]) -> (r: bool)
    ensures
        r == spec_is_unambiguous_constant(name@),
{
    proof {
        reveal_strlit("stdin");
        reveal_strlit("stdout");
        reveal_strlit("stderr");
    }
    is_keyword_constant(name) || bytes_eq_ignore_ascii_case(name, ascii_bytes("stdin"))
        || bytes_eq_ignore_ascii_case(name, ascii_bytes("stdout")) || bytes_eq_ignore_ascii_case(
        name,
        ascii_bytes("stderr"),
    )
}

/// Whether an unqualified call is a language construct (`clone`, `exit`,
/// `die`, in any case) rather than a function call.
pub open spec fn spec_is_call_like_construct(name: Seq<u8>) -> bool {
    eq_ignore_ascii_case(name, ascii("clone"@)) || eq_ignore_ascii_case(name, ascii("exit"@))
        || eq_ignore_ascii_case(name, ascii("die"@))
}

/// Whether the unqualified call of `name` is exempt from the ambiguity rule.
pub fn is_call_like_construct(name: &[u8]) -> (r: bool)
    ensures
        r == spec_is_call_like_construct(name@),
{
    proof {
        reveal_strlit("clone");
        reveal_strlit("exit");
        reveal_strlit("die");
    }
    bytes_eq_ignore_ascii_case(name, ascii_bytes("clone")) || bytes_eq_ignore_ascii_case(
        name,
        ascii_bytes("exit"),
    ) || bytes_eq_ignore_ascii_case(name, ascii_bytes("die"))
}

/// How a name is written: `foo`, `A\foo` or `\A\foo`.
#[derive(Clone, Copy, PartialEq, Eq, Debug)]
pub enum NameQualification {
    Unqualified,
    Qualified,
    FullyQualified,
}

/// Whether an unqualified function call inside a namespace is ambiguous:
/// PHP resolves it to the namespaced function if there is one, else to the
/// global one. Imported names and the constructs `clone`, `exit` and `die`
/// are not.
pub open spec fn spec_is_ambiguous_function_call(
    in_namespace: bool,
    qualification: NameQualification,
    name: Seq<u8>,
    imported: bool,
) -> bool {
    in_namespace && qualification is Unqualified && !spec_is_call_like_construct(name) && !imported
}

/// Whether a call of the function written `name` is ambiguous;
/// `in_namespace` tells whether the call is in a non-empty namespace and
/// `imported` whether the name is imported.
pub fn is_ambiguous_function_call(
    in_namespace: bool,
    qualification: NameQualification,
    name: &[u8],
    imported: bool,
) -> (r: bool)
    ensures
        r == spec_is_ambiguous_function_call(in_namespace, qualification, name@, imported),
{
    in_namespace && matches!(qualification, NameQualification::Unqualified) && !is_call_like_construct(name)
        && !imported
}

/// Whether an unqualified constant access inside a namespace is ambiguous.
/// Imported names, the keywords `true`, `false`, `null` and the streams
/// `STDIN`, `STDOUT`, `STDERR` are not.
pub open spec fn spec_is_ambiguous_constant_access(
    in_namespace: bool,
    qualification: NameQualification,
    name: Seq<u8>,
    imported: bool,
) -> bool {
    in_namespace && qualification is Unqualified && !imported && !spec_is_unambiguous_constant(name)
}

/// Whether an access of the constant written `name` is ambiguous.
pub fn is_ambiguous_constant_access(
    in_namespace: bool,
    qualification: NameQualification,
    name: &[u8],
    imported: bool,
) -> (r: bool)
    ensures
        r == spec_is_ambiguous_constant_access(in_namespace, qualification, name@, imported),
{
    in_namespace && matches!(qualification, NameQualification::Unqualified) && !imported
        && !is_unambiguous_constant(name)
}

/// Whether a type hint resolves to the deprecated Magento registry class.
pub open spec fn spec_is_magento_registry(fqcn: Seq<u8>) -> bool {
    eq_ignore_ascii_case(fqcn, ascii("Magento\\Framework\\Registry"@))
}

/// Whether the fully qualified class name `fqcn` is the Magento registry.
pub fn is_magento_registry(fqcn: &[u8]) -> (r: bool)
    ensures
        r == spec_is_magento_registry(fqcn@),
{
    proof {
        reveal_strlit("Magento\\Framework\\Registry");
    }
    bytes_eq_ignore_ascii_case(fqcn, ascii_bytes("Magento\\Framework\\Registry"))
}

// ---------------------------------------------------------------------------
// Advice for a fully qualified reference
// ---------------------------------------------------------------------------

/// What importing a name yields: the name under which it can be referenced
/// locally, and whether it is already available under that name.
#[derive(PartialEq, Eq, Debug)]
pub struct ImportResolution {
    pub local_name: Vec<u8>,
    pub already_available: bool,
}

/// What the rules advise for a fully qualified reference.
#[derive(Clone, Copy, PartialEq, Eq, Debug)]
pub enum ReferenceAdvice {
    /// The name is already imported under another alias; use that.
    ReplaceWithAlias,
    /// The name is already in scope; drop the leading `\`.
    AlreadyInScope,
    /// Import the name and reference it directly.
    Import,
}

/// The advice for a fully qualified class-like name or constant whose last
/// segment is `short`, given what importing it would yield.
pub open spec fn spec_reference_advice(short: Seq<u8>, resolution: Option<(Seq<u8>, bool)>) -> ReferenceAdvice {
    match resolution {
        Some((local, available)) => if available && local != short {
            ReferenceAdvice::ReplaceWithAlias
        } else if available {
            ReferenceAdvice::AlreadyInScope
        } else {
            ReferenceAdvice::Import
        },
        None => ReferenceAdvice::Import,
    }
}

/// The plain values of an import resolution.
pub open spec fn resolution_view(r: Option<ImportResolution>) -> Option<(Seq<u8>, bool)> {
    match r {
        Some(res) => Some((res.local_name@, res.already_available)),
        None => None,
    }
}

/// Decides the advice for a fully qualified class-like name or constant.
pub fn reference_advice(short: &Vec<u8>, resolution: &Option<ImportResolution>) -> (a: ReferenceAdvice)
    ensures
        a == spec_reference_advice(short@, resolution_view(*resolution)),
{
    match resolution {
        Some(res) => if res.already_available && !bytes_equal(res.local_name.as_slice(), short.as_slice()) {
            ReferenceAdvice::ReplaceWithAlias
        } else if res.already_available {
            ReferenceAdvice::AlreadyInScope
        } else {
            ReferenceAdvice::Import
        },
        None => ReferenceAdvice::Import,
    }
}

/// A fully qualified class-like reference `\A\B\C`: the name without its
/// leading `\` and its last segment.
pub struct ClassLikeReference {
    pub name: Vec<u8>,
    pub short_name: Vec<u8>,
}

/// The class-like reference written as `value`, when it is fully qualified,
/// whatever the namespace of the file.
pub fn class_like_reference(value: &[u8], is_fully_qualified: bool) -> (r: Option<ClassLikeReference>)
    ensures
        r is Some <==> is_fully_qualified,
        r matches Some(c) ==> c.name@ == trim_leading(value@, backslash()) && c.short_name@
            == last_segment(trim_leading(value@, backslash())),
{
    if !is_fully_qualified {
        return None;
    }
    let name = trim_leading_byte(value, 0x5cu8);
    let short_name = short_name(name.as_slice());
    Some(ClassLikeReference { name, short_name })
}

/// The class reference that the rule on fully qualified classes reports:
/// only in a file that declares a namespace, and only when the reference is
/// fully qualified.
pub fn class_reference(namespaced: bool, value: &[u8], is_fully_qualified: bool) -> (r: Option<
    ClassLikeReference,
>)
    ensures
        r is Some <==> namespaced && is_fully_qualified,
        r matches Some(c) ==> c.name@ == trim_leading(value@, backslash()) && c.short_name@
            == last_segment(trim_leading(value@, backslash())),
{
    if !namespaced {
        return None;
    }
    class_like_reference(value, is_fully_qualified)
}

/// The fully qualified constant reference written as `value`, when the file
/// declares a namespace, unless it is not fully qualified or names one of the
/// keywords `true`, `false`, `null`.
pub fn constant_reference(namespaced: bool, value: &[u8], is_fully_qualified: bool) -> (r: Option<
    ClassLikeReference,
>)
    ensures
        r is Some <==> namespaced && is_fully_qualified && !spec_is_keyword_constant(
            trim_leading(value@, backslash()),
        ),
        r matches Some(c) ==> c.name@ == trim_leading(value@, backslash()) && c.short_name@
            == last_segment(trim_leading(value@, backslash())),
{
    if !namespaced || !is_fully_qualified {
        return None;
    }
    let name = trim_leading_byte(value, 0x5cu8);
    if is_keyword_constant(name.as_slice()) {
        return None;
    }
    let short_name = short_name(name.as_slice());
    Some(ClassLikeReference { name, short_name })
}

// ---------------------------------------------------------------------------
// Function calls
// ---------------------------------------------------------------------------

/// A function call that the rule on fully qualified functions looks at.
pub struct FunctionReference {
    /// The function's name without the leading `\`.
    pub name: Vec<u8>,
    /// Whether the call is unqualified and reaches a namespaced function
    /// through a `use function` import.
    pub is_bare_call: bool,
    /// The last segment of the name.
    pub short_name: Vec<u8>,
    /// The namespace to import instead, when namespace imports are preferred.
    pub namespace: Option<Vec<u8>>,
}

/// The name of the function a call refers to and whether it is a bare call:
/// a fully qualified call names it directly; with `namespaced`, an
/// unqualified call of an imported function names the namespaced function it
/// resolves to; every other call is not looked at.
pub open spec fn spec_function_target(
    namespaced: bool,
    value: Seq<u8>,
    is_fully_qualified: bool,
    is_imported: bool,
    resolved: Seq<u8>,
) -> Option<(Seq<u8>, bool)> {
    if is_fully_qualified {
        Some((trim_leading(value, backslash()), false))
    } else if namespaced && !value.contains(backslash()) && is_imported {
        let stripped = trim_leading(resolved, backslash());
        if !stripped.contains(backslash()) {
            None
        } else {
            Some((stripped, true))
        }
    } else {
        None
    }
}

/// The call of the function written as `value`; `resolved` is the name it
/// resolves to through the imports of the file.
pub fn function_reference(
    namespaced: bool,
    value: &[u8],
    is_fully_qualified: bool,
    is_imported: bool,
    resolved: &[u8],
) -> (r: Option<FunctionReference>)
    ensures
        match spec_function_target(namespaced, value@, is_fully_qualified, is_imported, resolved@) {
            Some((name, bare)) => r matches Some(f) && f.name@ == name && f.is_bare_call == bare
                && f.short_name@ == last_segment(name) && (if namespaced {
                match namespace_part(name) {
                    Some(n) => f.namespace matches Some(v) && v@ == n,
                    None => f.namespace is None,
                }
            } else {
                f.namespace is None
            }),
            None => r is None,
        },
{
    let (name, is_bare_call) = if is_fully_qualified {
        (trim_leading_byte(value, 0x5cu8), false)
    } else if namespaced && !bytes_contain(value, 0x5cu8) && is_imported {
        let stripped = trim_leading_byte(resolved, 0x5cu8);
        if !bytes_contain(stripped.as_slice(), 0x5cu8) {
            return None;
        }
        (stripped, true)
    } else {
        return None;
    };
    let short_name = short_name(name.as_slice());
    let namespace = if namespaced {
        namespace_of(name.as_slice())
    } else {
        None
    };
    Some(FunctionReference { name, is_bare_call, short_name, namespace })
}

/// The text that replaces the call's name: the local name of the imported
/// namespace followed by `\` and the function's short name, or the local
/// name of the imported function.
pub open spec fn spec_function_replacement(
    short: Seq<u8>,
    namespace_import: bool,
    resolution: Option<(Seq<u8>, bool)>,
) -> Option<Seq<u8>> {
    match resolution {
        Some((local, _)) => if namespace_import {
            Some(local + seq![backslash()] + short)
        } else {
            Some(local)
        },
        None => None,
    }
}

/// The replacement for the call's name, given what importing its namespace
/// (when it has one to import) or the function itself yields.
pub fn function_replacement(reference: &FunctionReference, resolution: &Option<ImportResolution>) -> (r:
    Option<Vec<u8>>)
    ensures
        match spec_function_replacement(
            reference.short_name@,
            reference.namespace is Some,
            resolution_view(*resolution),
        ) {
            Some(t) => r matches Some(v) && v@ == t,
            None => r is None,
        },
{
    match resolution {
        Some(res) => {
            let mut v: Vec<u8> = Vec::new();
            let mut k: usize = 0;
            while k < res.local_name.len()
                invariant
                    k <= res.local_name@.len(),
                    v@ == res.local_name@.take(k as int),
                decreases res.local_name@.len() - k,
            {
                v.push(res.local_name[k]);
                k += 1;
                assert(v@ =~= res.local_name@.take(k as int));
            }
            assert(v@ =~= res.local_name@);
            if reference.namespace.is_some() {
                let ghost before = v@;
                v.push(0x5cu8);
                let mut m: usize = 0;
                while m < reference.short_name.len()
                    invariant
                        m <= reference.short_name@.len(),
                        v@ == before + seq![backslash()] + reference.short_name@.take(m as int),
                    decreases reference.short_name@.len() - m,
                {
                    v.push(reference.short_name[m]);
                    m += 1;
                    assert(v@ =~= before + seq![backslash()] + reference.short_name@.take(m as int));
                }
                assert(reference.short_name@.take(m as int) =~= reference.short_name@);
            }
            Some(v)
        },
        None => None,
    }
}

/// What the rule on fully qualified functions advises.
#[derive(Clone, Copy, PartialEq, Eq, Debug)]
pub enum FunctionAdvice {
    /// A `use function` import can become a namespace import, and the
    /// replacement is already in scope.
    MigrateToAvailableNamespace,
    /// A `use function` import can become a namespace import.
    MigrateToNamespace,
    /// The function is already reachable under another alias.
    ReplaceWithAlias,
    /// The function is already in scope; drop the leading `\`.
    AlreadyInScope,
    /// Import the function (or its namespace) and call it directly.
    Import,
}

/// The advice for a call, given what importing yields and the replacement.
pub open spec fn spec_function_advice(
    is_bare_call: bool,
    short: Seq<u8>,
    resolution: Option<(Seq<u8>, bool)>,
    replacement: Option<Seq<u8>>,
) -> FunctionAdvice {
    if is_bare_call {
        match (resolution, replacement) {
            (Some((_, available)), Some(_)) => if available {
                FunctionAdvice::MigrateToAvailableNamespace
            } else {
                FunctionAdvice::MigrateToNamespace
            },
            _ => FunctionAdvice::MigrateToNamespace,
        }
    } else {
        match resolution {
            Some((_, available)) => if available && (replacement matches Some(rep) && rep != short) {
                FunctionAdvice::ReplaceWithAlias
            } else if available {
                FunctionAdvice::AlreadyInScope
            } else {
                FunctionAdvice::Import
            },
            None => FunctionAdvice::Import,
        }
    }
}

/// Decides the advice for a call.
pub fn function_advice(
    reference: &FunctionReference,
    resolution: &Option<ImportResolution>,
    replacement: &Option<Vec<u8>>,
) -> (a: FunctionAdvice)
    ensures
        a == spec_function_advice(
            reference.is_bare_call,
            reference.short_name@,
            resolution_view(*resolution),
            match replacement {
                Some(v) => Some(v@),
                None => None,
            },
        ),
{
    if reference.is_bare_call {
        match (resolution, replacement) {
            (Some(res), Some(_)) => if res.already_available {
                FunctionAdvice::MigrateToAvailableNamespace
            } else {
                FunctionAdvice::MigrateToNamespace
            },
            _ => FunctionAdvice::MigrateToNamespace,
        }
    } else {
        match resolution {
            Some(res) => {
                let differs = match replacement {
                    Some(rep) => !bytes_equal(rep.as_slice(), reference.short_name.as_slice()),
                    None => false,
                };
                if res.already_available && differs {
                    FunctionAdvice::ReplaceWithAlias
                } else if res.already_available {
                    FunctionAdvice::AlreadyInScope
                } else {
                    FunctionAdvice::Import
                }
            },
            None => FunctionAdvice::Import,
        }
    }
}

/// Only an unqualified, unimported name inside a namespace can be ambiguous:
/// an imported name resolves to its import, a qualified name is resolved
/// relative to the namespace, and outside a namespace there is only the
/// global one. This holds of function calls and of constant accesses.
pub proof fn law_imported_or_qualified_names_are_never_ambiguous(
    in_namespace: bool,
    qualification: NameQualification,
    name: Seq<u8>,
    imported: bool,
)
    requires
        imported || !in_namespace || !(qualification is Unqualified),
    ensures
        !spec_is_ambiguous_constant_access(in_namespace, qualification, name, imported),
        !spec_is_ambiguous_function_call(in_namespace, qualification, name, imported),
{
}

/// Importing a name is what makes it unambiguous: whether an unqualified
/// name inside a namespace is reported depends on the import, and once it is
/// imported it never is.
pub proof fn law_import_decides_ambiguity(name: Seq<u8>)
    requires
        name.len() > 6,
    ensures
        spec_is_ambiguous_constant_access(true, NameQualification::Unqualified, name, false),
        !spec_is_ambiguous_constant_access(true, NameQualification::Unqualified, name, true),
        spec_is_ambiguous_function_call(true, NameQualification::Unqualified, name, false),
        !spec_is_ambiguous_function_call(true, NameQualification::Unqualified, name, true),
{
    reveal_strlit("true");
    reveal_strlit("false");
    reveal_strlit("null");
    reveal_strlit("stdin");
    reveal_strlit("stdout");
    reveal_strlit("stderr");
    reveal_strlit("clone");
    reveal_strlit("exit");
    reveal_strlit("die");
    assert(ascii("true"@).len() == 4);
    assert(ascii("false"@).len() == 5);
    assert(ascii("null"@).len() == 4);
    assert(ascii("stdin"@).len() == 5);
    assert(ascii("stdout"@).len() == 6);
    assert(ascii("stderr"@).len() == 6);
    assert(ascii("clone"@).len() == 5);
    assert(ascii("exit"@).len() == 4);
    assert(ascii("die"@).len() == 3);
}

} // verus!
