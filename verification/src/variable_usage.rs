//! Variables that are declared, captured or written but never used: unused
//! closure captures, unused `global` and `static` declarations, dead stores
//! and redundant variables. What the body of a function reads and writes is
//! analysed elsewhere; these functions decide what is reported from it.
use vstd::prelude::*;

use crate::edit::Span;
use crate::text::{is_prefix, str_equals, str_starts_with};

verus! {

/// Whether a variable name opts out of the unused-variable rules: `$_` and
/// the names that start with `$_`.
pub open spec fn spec_is_silenced_name(name: Seq<char>) -> bool {
    is_prefix("$_"@, name)
}

/// Whether a variable name opts out of the unused-variable rules.
pub fn is_silenced_name(name: &str) -> (r: bool)
    ensures
        r == spec_is_silenced_name(name@),
{
    str_starts_with(name, "$_")
}

/// The names of a list of strings.
pub open spec fn names_view(names: Seq<String>) -> Seq<Seq<char>> {
    names.map_values(|n: String| n@)
}

/// Whether `name` is among `names`.
fn name_in(name: &String, names: &Vec<String>) -> (r: bool)
    ensures
        r == names_view(names@).contains(name@),
{
    let mut k: usize = 0;
    while k < names.len()
        invariant
            k <= names.len(),
            forall|m: int| 0 <= m < k ==> names@[m]@ != name@,
        decreases names.len() - k,
    {
        if str_equals(names[k].as_str(), name.as_str()) {
            assert(names_view(names@)[k as int] == name@);
            return true;
        }
        k += 1;
    }
    assert forall|m: int| 0 <= m < names_view(names@).len() implies names_view(names@)[m] != name@ by {
        assert(names_view(names@)[m] == names@[m]@);
    }
    false
}

/// A declared or captured variable: its name (with its `$`) and where it
/// is declared.
#[derive(PartialEq, Eq, Debug)]
pub struct DeclaredVariable {
    pub name: String,
    pub span: Span,
    /// For a closure capture, whether it is captured by reference.
    pub by_reference: bool,
}

/// The declarations among the first `n` that are reported: those that are
/// not silenced, not by reference, and not among the referenced names.
pub open spec fn spec_unused_declarations(decls: Seq<DeclaredVariable>, referenced: Seq<Seq<char>>, n: int) -> Seq<
    Span,
>
    decreases n,
{
    if n <= 0 {
        Seq::empty()
    } else {
        let rest = spec_unused_declarations(decls, referenced, n - 1);
        let d = decls[n - 1];
        if !d.by_reference && !spec_is_silenced_name(d.name@) && !referenced.contains(d.name@) {
            rest.push(d.span)
        } else {
            rest
        }
    }
}

/// The unused declarations (closure captures by value, `global` or
/// `static` declarations) that are reported, in order, given the names the
/// body references; `None` when the analysis of the body gave up, in which
/// case nothing is reported.
pub open spec fn spec_unused_variables(decls: Seq<DeclaredVariable>, referenced: Option<Seq<Seq<char>>>) -> Seq<Span> {
    match referenced {
        Some(r) => spec_unused_declarations(decls, r, decls.len() as int),
        None => Seq::empty(),
    }
}

/// Finds the unused declarations.
pub fn unused_variables(decls: &Vec<DeclaredVariable>, referenced: &Option<Vec<String>>) -> (r: Vec<Span>)
    ensures
        r@ == spec_unused_variables(
            decls@,
            match referenced {
                Some(v) => Some(names_view(v@)),
                None => None,
            },
        ),
{
    let mut out: Vec<Span> = Vec::new();
    let names = match referenced {
        Some(v) => v,
        None => return out,
    };
    let mut i: usize = 0;
    while i < decls.len()
        invariant
            i <= decls.len(),
            out@ == spec_unused_declarations(decls@, names_view(names@), i as int),
        decreases decls.len() - i,
    {
        let d = &decls[i];
        if !d.by_reference && !is_silenced_name(d.name.as_str()) && !name_in(&d.name, names) {
            out.push(d.span);
        }
        i += 1;
    }
    out
}

/// What the analysis of a function body found for one variable.
#[derive(PartialEq, Eq, Debug)]
pub struct VariableFindings {
    pub name: String,
    /// Whether the variable must not be reported (it is a parameter passed
    /// by reference, a global, a static, used through `$$`, ...).
    pub do_not_flag: bool,
    /// The assignments overwritten before they are read.
    pub dead_stores: Vec<Span>,
    /// The last write, when nothing ever reads it.
    pub pending_write: Option<Span>,
}

/// Whether the findings for a variable can be reported.
pub open spec fn reportable(f: VariableFindings) -> bool {
    !f.do_not_flag && !spec_is_silenced_name(f.name@)
}

/// The dead stores of the first `n` variables that are reported, variable
/// by variable.
pub open spec fn spec_dead_stores(fs: Seq<VariableFindings>, n: int) -> Seq<Span>
    decreases n,
{
    if n <= 0 {
        Seq::empty()
    } else {
        let rest = spec_dead_stores(fs, n - 1);
        if reportable(fs[n - 1]) {
            rest + fs[n - 1].dead_stores@
        } else {
            rest
        }
    }
}

/// The writes of the first `n` variables that are never observed, with the
/// variable's name.
pub open spec fn spec_redundant_writes(fs: Seq<VariableFindings>, n: int) -> Seq<(Seq<char>, Span)>
    decreases n,
{
    if n <= 0 {
        Seq::empty()
    } else {
        let rest = spec_redundant_writes(fs, n - 1);
        let f = fs[n - 1];
        match f.pending_write {
            Some(sp) => if reportable(f) {
                rest.push((f.name@, sp))
            } else {
                rest
            },
            None => rest,
        }
    }
}

/// The dead stores to report; nothing when the analysis gave up.
pub fn dead_stores(findings: &Vec<VariableFindings>, bailed: bool) -> (r: Vec<Span>)
    ensures
        r@ == (if bailed { Seq::empty() } else { spec_dead_stores(findings@, findings.len() as int) }),
{
    let mut out: Vec<Span> = Vec::new();
    if bailed {
        return out;
    }
    let mut i: usize = 0;
    while i < findings.len()
        invariant
            i <= findings.len(),
            out@ == spec_dead_stores(findings@, i as int),
        decreases findings.len() - i,
    {
        let f = &findings[i];
        if !f.do_not_flag && !is_silenced_name(f.name.as_str()) {
            let ghost before = out@;
            let mut k: usize = 0;
            while k < f.dead_stores.len()
                invariant
                    k <= f.dead_stores.len(),
                    out@ == before + f.dead_stores@.take(k as int),
                decreases f.dead_stores.len() - k,
            {
                out.push(f.dead_stores[k]);
                assert(out@ =~= before + f.dead_stores@.take(k + 1));
                k += 1;
            }
            assert(f.dead_stores@.take(k as int) =~= f.dead_stores@);
        }
        i += 1;
    }
    out
}

/// The variables assigned but never used to report, with their names and
/// the unobserved write; nothing when the analysis gave up.
pub fn redundant_variables(findings: &Vec<VariableFindings>, bailed: bool) -> (r: Vec<(String, Span)>)
    ensures
        r@.map_values(|p: (String, Span)| (p.0@, p.1)) == (if bailed {
            Seq::empty()
        } else {
            spec_redundant_writes(findings@, findings.len() as int)
        }),
{
    let mut out: Vec<(String, Span)> = Vec::new();
    if bailed {
        assert(out@.map_values(|p: (String, Span)| (p.0@, p.1)) =~= Seq::empty());
        return out;
    }
    let mut i: usize = 0;
    while i < findings.len()
        invariant
            i <= findings.len(),
            out@.map_values(|p: (String, Span)| (p.0@, p.1)) == spec_redundant_writes(findings@, i as int),
        decreases findings.len() - i,
    {
        let f = &findings[i];
        if let Some(sp) = f.pending_write {
            if !f.do_not_flag && !is_silenced_name(f.name.as_str()) {
                let ghost before = out@;
                out.push((f.name.clone(), sp));
                assert(out@.map_values(|p: (String, Span)| (p.0@, p.1)) =~= before.map_values(
                    |p: (String, Span)| (p.0@, p.1),
                ).push((f.name@, sp)));
            }
        }
        i += 1;
    }
    out
}

} // verus!
