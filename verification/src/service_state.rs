//! Services that mutate their own state (`$this->prop = ...`,
//! `self::$prop++`, `unset($this->prop[...])`): in worker-mode runtimes the
//! state leaks between requests.
use vstd::prelude::*;

use crate::config::NoServiceStateMutationConfig;
use crate::docblock_tags::{chars_eq_ignore_ascii_case, eq_ignore_ascii_case_chars};
use crate::edit::Span;
use crate::text::{chars_of, str_equals};

verus! {

/// An expression that is written to, as far as the rule reads it.
#[derive(PartialEq, Eq, Debug)]
pub enum TargetExpr {
    /// A property access `object->name`, and whether the object is `$this`.
    Property { span: Span, on_this: bool },
    /// A static property access `Class::$name`, and whether the class is
    /// `self` or `static`.
    StaticProperty { span: Span, on_self_or_static: bool },
    /// `array[...]`.
    ArrayAccess { array: Box<TargetExpr> },
    /// `array[]`.
    ArrayAppend { array: Box<TargetExpr> },
    Other,
}

/// The `$this->prop` access a target writes to, through array accesses and
/// appends.
pub open spec fn this_property_in(t: TargetExpr) -> Option<Span>
    decreases t,
{
    match t {
        TargetExpr::Property { span, on_this } => if on_this {
            Some(span)
        } else {
            None
        },
        TargetExpr::ArrayAccess { array } => this_property_in(*array),
        TargetExpr::ArrayAppend { array } => this_property_in(*array),
        _ => None,
    }
}

/// The `self::$prop` or `static::$prop` access a target writes to, through
/// array accesses and appends.
pub open spec fn static_property_in(t: TargetExpr) -> Option<Span>
    decreases t,
{
    match t {
        TargetExpr::StaticProperty { span, on_self_or_static } => if on_self_or_static {
            Some(span)
        } else {
            None
        },
        TargetExpr::ArrayAccess { array } => static_property_in(*array),
        TargetExpr::ArrayAppend { array } => static_property_in(*array),
        _ => None,
    }
}

/// The service property a target writes to, if any.
pub open spec fn property_mutation(t: TargetExpr) -> Option<Span> {
    match this_property_in(t) {
        Some(s) => Some(s),
        None => static_property_in(t),
    }
}

fn this_property_mutation(t: &TargetExpr) -> (r: Option<Span>)
    ensures
        r == this_property_in(*t),
    decreases t,
{
    match t {
        TargetExpr::Property { span, on_this } => if *on_this {
            Some(*span)
        } else {
            None
        },
        TargetExpr::ArrayAccess { array } => this_property_mutation(array),
        TargetExpr::ArrayAppend { array } => this_property_mutation(array),
        _ => None,
    }
}

fn static_property_mutation(t: &TargetExpr) -> (r: Option<Span>)
    ensures
        r == static_property_in(*t),
    decreases t,
{
    match t {
        TargetExpr::StaticProperty { span, on_self_or_static } => if *on_self_or_static {
            Some(*span)
        } else {
            None
        },
        TargetExpr::ArrayAccess { array } => static_property_mutation(array),
        TargetExpr::ArrayAppend { array } => static_property_mutation(array),
        _ => None,
    }
}

/// The service property a target writes to, if any.
pub fn is_property_mutation(t: &TargetExpr) -> (r: Option<Span>)
    ensures
        r == property_mutation(*t),
{
    match this_property_mutation(t) {
        Some(s) => Some(s),
        None => static_property_mutation(t),
    }
}

/// A node of a method body, as far as the walk reads it. Each node lists
/// its children in walking order.
#[derive(PartialEq, Eq, Debug)]
pub enum MutationNode {
    /// An assignment (plain or compound) to `target`.
    Assignment { target: TargetExpr, children: Vec<MutationNode> },
    /// A prefix operator on `operand`, and whether it is `++` or `--`.
    UnaryPrefix { increment_or_decrement: bool, operand: TargetExpr, children: Vec<MutationNode> },
    /// A postfix `++` or `--` on `operand`.
    UnaryPostfix { operand: TargetExpr, children: Vec<MutationNode> },
    /// `unset(...)`.
    Unset { values: Vec<TargetExpr>, children: Vec<MutationNode> },
    /// A closure, arrow function or class-like: it has its own scope and is
    /// not walked.
    NestedScope,
    Other { children: Vec<MutationNode> },
}

/// The mutation a single target makes, as a sequence of at most one span.
pub open spec fn own_mutation(t: TargetExpr) -> Seq<Span> {
    match property_mutation(t) {
        Some(s) => seq![s],
        None => Seq::empty(),
    }
}

/// The spans of the service properties mutated among `ts`, in order.
pub open spec fn mutations_in_targets(ts: Seq<TargetExpr>) -> Seq<Span>
    decreases ts.len(),
{
    if ts.len() == 0 {
        Seq::empty()
    } else {
        mutations_in_targets(ts.drop_last()) + own_mutation(ts.last())
    }
}

/// The mutations found in a node, in walking order: the node's own, then
/// those of its children.
pub open spec fn node_mutations(n: MutationNode) -> Seq<Span>
    decreases n, 0int,
{
    match n {
        MutationNode::Assignment { target, children } => own_mutation(target) + list_mutations(children@),
        MutationNode::UnaryPrefix { increment_or_decrement, operand, children } => (if increment_or_decrement {
            own_mutation(operand)
        } else {
            Seq::empty()
        }) + list_mutations(children@),
        MutationNode::UnaryPostfix { operand, children } => own_mutation(operand) + list_mutations(children@),
        MutationNode::Unset { values, children } => mutations_in_targets(values@) + list_mutations(children@),
        MutationNode::NestedScope => Seq::empty(),
        MutationNode::Other { children } => list_mutations(children@),
    }
}

/// The mutations found in some nodes, one after the other.
pub open spec fn list_mutations(ns: Seq<MutationNode>) -> Seq<Span>
    decreases ns, 0int,
{
    if ns.len() == 0 {
        Seq::empty()
    } else {
        list_mutations(ns.drop_last()) + node_mutations(ns.last())
    }
}

fn push_mutation(t: &TargetExpr, out: &mut Vec<Span>)
    ensures
        final(out)@ == old(out)@ + own_mutation(*t),
{
    match is_property_mutation(t) {
        Some(s) => out.push(s),
        None => {
            assert(out@ =~= old(out)@ + Seq::<Span>::empty());
        },
    }
}

fn collect_in_node(n: &MutationNode, out: &mut Vec<Span>)
    ensures
        final(out)@ == old(out)@ + node_mutations(*n),
    decreases n, 0int,
{
    match n {
        MutationNode::Assignment { target, children } => {
            push_mutation(target, out);
            collect_in_list(children, out);
        },
        MutationNode::UnaryPrefix { increment_or_decrement, operand, children } => {
            if *increment_or_decrement {
                push_mutation(operand, out);
            }
            collect_in_list(children, out);
        },
        MutationNode::UnaryPostfix { operand, children } => {
            push_mutation(operand, out);
            collect_in_list(children, out);
        },
        MutationNode::Unset { values, children } => {
            let ghost start = out@;
            let mut k: usize = 0;
            while k < values.len()
                invariant
                    k <= values.len(),
                    out@ == start + mutations_in_targets(values@.take(k as int)),
                decreases values.len() - k,
            {
                push_mutation(&values[k], out);
                assert(values@.take(k + 1).drop_last() =~= values@.take(k as int));
                k += 1;
            }
            assert(values@.take(k as int) =~= values@);
            collect_in_list(children, out);
        },
        MutationNode::NestedScope => {},
        MutationNode::Other { children } => {
            collect_in_list(children, out);
        },
    }
    assert(out@ =~= old(out)@ + node_mutations(*n));
}

fn collect_in_list(ns: &Vec<MutationNode>, out: &mut Vec<Span>)
    ensures
        final(out)@ == old(out)@ + list_mutations(ns@),
    decreases ns, 0int,
{
    let ghost start = out@;
    let mut k: usize = 0;
    while k < ns.len()
        invariant
            k <= ns.len(),
            out@ == start + list_mutations(ns@.take(k as int)),
        decreases ns.len() - k,
    {
        collect_in_node(&ns[k], out);
        assert(ns@.take(k + 1).drop_last() =~= ns@.take(k as int));
        k += 1;
    }
    assert(ns@.take(k as int) =~= ns@);
}

/// A method of the checked class or trait: its name and its body.
#[derive(PartialEq, Eq, Debug)]
pub struct ServiceMethod {
    pub name: String,
    pub body: Vec<MutationNode>,
}

/// The class-like the rule checks.
#[derive(PartialEq, Eq, Debug)]
pub struct ServiceClassLike {
    /// Whether it is a class (rather than a trait).
    pub is_class: bool,
    /// The resolved names of the interfaces a class implements.
    pub implements: Vec<String>,
    /// Whether it is declared in a (non-empty) namespace.
    pub in_namespace: bool,
    /// Whether that namespace matches one of the configured include
    /// patterns, and one of the exclude patterns.
    pub included: bool,
    pub excluded: bool,
    pub methods: Vec<ServiceMethod>,
}

/// Whether a class implements one of the reset interfaces (names compared
/// without regard to ASCII case).
pub open spec fn is_reset_class(c: ServiceClassLike, reset_interfaces: Seq<String>) -> bool {
    c.is_class && exists|i: int, j: int|
        0 <= i < c.implements.len() && 0 <= j < reset_interfaces.len() && eq_ignore_ascii_case_chars(
            #[trigger] c.implements@[i]@,
            #[trigger] reset_interfaces[j]@,
        )
}

/// Whether a method is allowed to mutate state (its name is one of the
/// allowed methods, compared exactly).
pub open spec fn is_allowed_method(m: ServiceMethod, allowed: Seq<String>) -> bool {
    exists|k: int| 0 <= k < allowed.len() && #[trigger] allowed[k]@ == m.name@
}

/// The mutations reported in the first `n` methods, method by method.
pub open spec fn methods_mutations(ms: Seq<ServiceMethod>, allowed: Seq<String>, n: int) -> Seq<Span>
    decreases n,
{
    if n <= 0 {
        Seq::empty()
    } else {
        methods_mutations(ms, allowed, n - 1) + (if is_allowed_method(ms[n - 1], allowed) {
            Seq::empty()
        } else {
            list_mutations(ms[n - 1].body@)
        })
    }
}

/// The state mutations the rule reports in a class or trait: none for a
/// class implementing a reset interface, outside any namespace, outside the
/// included namespaces or inside an excluded one; else those of every
/// method that is not allowed.
pub open spec fn spec_service_mutations(cfg: NoServiceStateMutationConfig, c: ServiceClassLike) -> Seq<Span> {
    if is_reset_class(c, cfg.reset_interfaces@) || !c.in_namespace || !c.included || c.excluded {
        Seq::empty()
    } else {
        methods_mutations(c.methods@, cfg.allowed_methods@, c.methods.len() as int)
    }
}

fn implements_reset_interface(c: &ServiceClassLike, reset_interfaces: &Vec<String>) -> (r: bool)
    ensures
        r == is_reset_class(*c, reset_interfaces@),
{
    if !c.is_class {
        return false;
    }
    let mut i: usize = 0;
    while i < c.implements.len()
        invariant
            c.is_class,
            i <= c.implements.len(),
            forall|a: int, b: int|
                0 <= a < i && 0 <= b < reset_interfaces.len() ==> !eq_ignore_ascii_case_chars(
                    #[trigger] c.implements@[a]@,
                    #[trigger] reset_interfaces@[b]@,
                ),
        decreases c.implements.len() - i,
    {
        let name = chars_of(c.implements[i].as_str());
        let mut j: usize = 0;
        while j < reset_interfaces.len()
            invariant
                c.is_class,
                i < c.implements.len(),
                j <= reset_interfaces.len(),
                name@ == c.implements@[i as int]@,
                forall|a: int, b: int|
                    0 <= a < i && 0 <= b < reset_interfaces.len() ==> !eq_ignore_ascii_case_chars(
                        #[trigger] c.implements@[a]@,
                        #[trigger] reset_interfaces@[b]@,
                    ),
                forall|b: int| 0 <= b < j ==> !eq_ignore_ascii_case_chars(c.implements@[i as int]@, #[trigger] reset_interfaces@[b]@),
            decreases reset_interfaces.len() - j,
        {
            let ri = chars_of(reset_interfaces[j].as_str());
            if chars_eq_ignore_ascii_case(&name, &ri) {
                assert(eq_ignore_ascii_case_chars(c.implements@[i as int]@, reset_interfaces@[j as int]@));
                return true;
            }
            j += 1;
        }
        i += 1;
    }
    false
}

fn method_is_allowed(m: &ServiceMethod, allowed: &Vec<String>) -> (r: bool)
    ensures
        r == is_allowed_method(*m, allowed@),
{
    let mut k: usize = 0;
    while k < allowed.len()
        invariant
            k <= allowed.len(),
            forall|j: int| 0 <= j < k ==> #[trigger] allowed@[j]@ != m.name@,
        decreases allowed.len() - k,
    {
        if str_equals(allowed[k].as_str(), m.name.as_str()) {
            return true;
        }
        k += 1;
    }
    false
}

/// Checks a class or trait: the spans of the service properties it
/// mutates, in order.
pub fn check_service_state(cfg: &NoServiceStateMutationConfig, c: &ServiceClassLike) -> (r: Vec<Span>)
    ensures
        r@ == spec_service_mutations(*cfg, *c),
{
    let mut out: Vec<Span> = Vec::new();
    if implements_reset_interface(c, &cfg.reset_interfaces) || !c.in_namespace || !c.included || c.excluded {
        return out;
    }
    let mut i: usize = 0;
    while i < c.methods.len()
        invariant
            i <= c.methods.len(),
            out@ == methods_mutations(c.methods@, cfg.allowed_methods@, i as int),
        decreases c.methods.len() - i,
    {
        let m = &c.methods[i];
        if !method_is_allowed(m, &cfg.allowed_methods) {
            collect_in_list(&m.body, &mut out);
        } else {
            assert(out@ =~= methods_mutations(c.methods@, cfg.allowed_methods@, i + 1));
        }
        i += 1;
    }
    out
}

} // verus!
