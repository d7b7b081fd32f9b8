//! Excessive block nesting. Blocks are counted from the file root against
//! the global threshold; with a function-like threshold, the body of each
//! function, method, closure and property hook is also checked on its own,
//! counting from that body.
use vstd::prelude::*;

use crate::config::ExcessiveNestingConfig;
use crate::edit::Span;

verus! {

/// A node of the syntax tree, as far as the nesting walk reads it.
#[derive(PartialEq, Eq, Debug)]
pub enum NestNode {
    /// A block `{ ... }` and its statements.
    Block { span: Span, statements: Vec<NestNode> },
    /// A function, method with a body, closure or property hook with a
    /// block body: the nodes walked before the body (attributes, parameters,
    /// ...), then the body's span and statements.
    FunctionLike { parts: Vec<NestNode>, body_span: Span, body: Vec<NestNode> },
    /// Any other node, with its children in walking order.
    Other { children: Vec<NestNode> },
}

/// The walker's state: the current nesting level, the threshold in force,
/// and whether it is inside a function-like body walked on its own.
#[derive(Clone, Copy, PartialEq, Eq, Debug)]
pub struct NestState {
    pub level: usize,
    pub threshold: usize,
    pub function_like: bool,
}

/// A block nested too deeply: its span, its nesting level, the threshold it
/// exceeds, and whether that is the function-like threshold.
#[derive(Clone, Copy, PartialEq, Eq, Debug)]
pub struct NestingReport {
    pub span: Span,
    pub level: usize,
    pub threshold: usize,
    pub function_like: bool,
}

/// The reports for a block with the given span and statements: a block one
/// level deeper than `s` is reported when that level exceeds the threshold,
/// and then what it holds is not walked.
pub open spec fn block_reports(span: Span, statements: Seq<NestNode>, s: NestState, fl: Option<usize>) -> Seq<
    NestingReport,
>
    decreases statements, 1int,
{
    let l = s.level + 1;
    if l > s.threshold {
        seq![NestingReport { span, level: l as usize, threshold: s.threshold, function_like: s.function_like }]
    } else {
        list_reports(statements, NestState { level: l as usize, ..s }, fl)
    }
}

/// The reports for a node, in walking order.
pub open spec fn node_reports(n: NestNode, s: NestState, fl: Option<usize>) -> Seq<NestingReport>
    decreases n, 0int,
{
    match n {
        NestNode::Block { span, statements } => block_reports(span, statements@, s, fl),
        NestNode::FunctionLike { parts, body_span, body } => {
            let own = match fl {
                Some(t) => list_reports(body@, NestState { level: 0, threshold: t, function_like: true }, fl),
                None => Seq::empty(),
            };
            own + list_reports(parts@, s, fl) + block_reports(body_span, body@, s, fl)
        },
        NestNode::Other { children } => list_reports(children@, s, fl),
    }
}

/// The reports for a sequence of nodes, one after the other.
pub open spec fn list_reports(ns: Seq<NestNode>, s: NestState, fl: Option<usize>) -> Seq<NestingReport>
    decreases ns, 0int,
{
    if ns.len() == 0 {
        Seq::empty()
    } else {
        list_reports(ns.drop_last(), s, fl) + node_reports(ns.last(), s, fl)
    }
}

/// The deepest nesting of blocks in a node.
pub open spec fn node_depth(n: NestNode) -> nat
    decreases n, 0int,
{
    match n {
        NestNode::Block { statements, .. } => 1 + list_depth(statements@),
        NestNode::FunctionLike { parts, body, .. } => {
            let p = list_depth(parts@);
            let b = 1 + list_depth(body@);
            if p >= b {
                p
            } else {
                b
            }
        },
        NestNode::Other { children } => list_depth(children@),
    }
}

/// The deepest nesting of blocks among some nodes.
pub open spec fn list_depth(ns: Seq<NestNode>) -> nat
    decreases ns, 0int,
{
    if ns.len() == 0 {
        0
    } else {
        let a = list_depth(ns.drop_last());
        let b = node_depth(ns.last());
        if a >= b {
            a
        } else {
            b
        }
    }
}

proof fn lemma_list_depth(ns: Seq<NestNode>, k: int)
    requires
        0 <= k < ns.len(),
    ensures
        node_depth(ns[k]) <= list_depth(ns),
        list_depth(ns.take(k)) <= list_depth(ns),
    decreases ns.len(),
{
    if k < ns.len() - 1 {
        lemma_list_depth(ns.drop_last(), k);
        assert(ns.drop_last().take(k) =~= ns.take(k));
    } else {
        assert(ns.take(k) =~= ns.drop_last());
    }
}

/// Walks a block: reports it when too deep, else walks its statements.
fn walk_block(span: Span, statements: &Vec<NestNode>, s: NestState, fl: Option<usize>, out: &mut Vec<NestingReport>)
    requires
        s.level + 1 + list_depth(statements@) <= usize::MAX,
    ensures
        final(out)@ == old(out)@ + block_reports(span, statements@, s, fl),
    decreases statements, 1int,
{
    let l = s.level + 1;
    if l > s.threshold {
        out.push(NestingReport { span, level: l, threshold: s.threshold, function_like: s.function_like });
    } else {
        walk_list(statements, NestState { level: l, ..s }, fl, out);
    }
}

/// Walks a node.
fn walk_node(n: &NestNode, s: NestState, fl: Option<usize>, out: &mut Vec<NestingReport>)
    requires
        s.level + node_depth(*n) <= usize::MAX,
    ensures
        final(out)@ == old(out)@ + node_reports(*n, s, fl),
    decreases n, 0int,
{
    match n {
        NestNode::Block { span, statements } => {
            walk_block(*span, statements, s, fl, out);
        },
        NestNode::FunctionLike { parts, body_span, body } => {
            let ghost start = out@;
            match fl {
                Some(t) => {
                    walk_list(body, NestState { level: 0, threshold: t, function_like: true }, fl, out);
                },
                None => {},
            }
            let ghost own = out@;
            walk_list(parts, s, fl, out);
            walk_block(*body_span, body, s, fl, out);
            assert(out@ =~= start + node_reports(*n, s, fl));
        },
        NestNode::Other { children } => {
            walk_list(children, s, fl, out);
        },
    }
}

/// Walks nodes one after the other.
fn walk_list(ns: &Vec<NestNode>, s: NestState, fl: Option<usize>, out: &mut Vec<NestingReport>)
    requires
        s.level + list_depth(ns@) <= usize::MAX,
    ensures
        final(out)@ == old(out)@ + list_reports(ns@, s, fl),
    decreases ns, 0int,
{
    let ghost start = out@;
    let mut k: usize = 0;
    while k < ns.len()
        invariant
            k <= ns.len(),
            s.level + list_depth(ns@) <= usize::MAX,
            out@ == start + list_reports(ns@.take(k as int), s, fl),
        decreases ns.len() - k,
    {
        proof {
            lemma_list_depth(ns@, k as int);
        }
        walk_node(&ns[k], s, fl, out);
        assert(ns@.take(k + 1).drop_last() =~= ns@.take(k as int));
        k += 1;
    }
    assert(ns@.take(k as int) =~= ns@);
}

/// The blocks of a program nested too deeply, in walking order. The
/// program's depth is bounded so that the nesting level can be counted.
pub fn check_excessive_nesting(cfg: &ExcessiveNestingConfig, program: &Vec<NestNode>) -> (r: Vec<NestingReport>)
    requires
        list_depth(program@) <= usize::MAX,
    ensures
        r@ == list_reports(
            program@,
            NestState { level: 0, threshold: cfg.threshold, function_like: false },
            cfg.function_like_threshold,
        ),
{
    let mut out: Vec<NestingReport> = Vec::new();
    walk_list(
        program,
        NestState { level: 0, threshold: cfg.threshold, function_like: false },
        cfg.function_like_threshold,
        &mut out,
    );
    assert(out@ =~= list_reports(
        program@,
        NestState { level: 0, threshold: cfg.threshold, function_like: false },
        cfg.function_like_threshold,
    ));
    out
}

/// Every report in `rs` is of a block deeper than the threshold it names.
pub open spec fn all_exceed(rs: Seq<NestingReport>) -> bool {
    forall|k: int| 0 <= k < rs.len() ==> #[trigger] rs[k].level > rs[k].threshold
}

proof fn lemma_block_reports_exceed(span: Span, statements: Seq<NestNode>, s: NestState, fl: Option<usize>)
    requires
        s.level + 1 + list_depth(statements) <= usize::MAX,
    ensures
        all_exceed(block_reports(span, statements, s, fl)),
    decreases statements, 1int,
{
    let l = s.level + 1;
    if l <= s.threshold {
        lemma_list_reports_exceed(statements, NestState { level: l as usize, ..s }, fl);
    }
}

proof fn lemma_node_reports_exceed(n: NestNode, s: NestState, fl: Option<usize>)
    requires
        s.level + node_depth(n) <= usize::MAX,
    ensures
        all_exceed(node_reports(n, s, fl)),
    decreases n, 0int,
{
    match n {
        NestNode::Block { span, statements } => lemma_block_reports_exceed(span, statements@, s, fl),
        NestNode::FunctionLike { parts, body_span, body } => {
            if let Some(t) = fl {
                lemma_list_reports_exceed(body@, NestState { level: 0, threshold: t, function_like: true }, fl);
            }
            lemma_list_reports_exceed(parts@, s, fl);
            lemma_block_reports_exceed(body_span, body@, s, fl);
        },
        NestNode::Other { children } => lemma_list_reports_exceed(children@, s, fl),
    }
}

proof fn lemma_list_reports_exceed(ns: Seq<NestNode>, s: NestState, fl: Option<usize>)
    requires
        s.level + list_depth(ns) <= usize::MAX,
    ensures
        all_exceed(list_reports(ns, s, fl)),
    decreases ns, 0int,
{
    if ns.len() > 0 {
        lemma_list_reports_exceed(ns.drop_last(), s, fl);
        lemma_node_reports_exceed(ns.last(), s, fl);
    }
}

/// Every block the rule reports is nested deeper than the threshold in
/// force where it stands.
pub proof fn law_reports_exceed_threshold(cfg: ExcessiveNestingConfig, program: Seq<NestNode>)
    requires
        list_depth(program) <= usize::MAX,
    ensures
        all_exceed(
            list_reports(
                program,
                NestState { level: 0, threshold: cfg.threshold, function_like: false },
                cfg.function_like_threshold,
            ),
        ),
{
    lemma_list_reports_exceed(
        program,
        NestState { level: 0, threshold: cfg.threshold, function_like: false },
        cfg.function_like_threshold,
    );
}

proof fn lemma_block_shallow(span: Span, statements: Seq<NestNode>, s: NestState, fl: Option<usize>)
    requires
        s.level + 1 + list_depth(statements) <= s.threshold,
        fl is None,
    ensures
        block_reports(span, statements, s, fl).len() == 0,
    decreases statements, 1int,
{
    lemma_list_shallow(statements, NestState { level: (s.level + 1) as usize, ..s }, fl);
}

proof fn lemma_node_shallow(n: NestNode, s: NestState, fl: Option<usize>)
    requires
        s.level + node_depth(n) <= s.threshold,
        fl is None,
    ensures
        node_reports(n, s, fl).len() == 0,
    decreases n, 0int,
{
    match n {
        NestNode::Block { span, statements } => lemma_block_shallow(span, statements@, s, fl),
        NestNode::FunctionLike { parts, body_span, body } => {
            lemma_list_shallow(parts@, s, fl);
            lemma_block_shallow(body_span, body@, s, fl);
        },
        NestNode::Other { children } => lemma_list_shallow(children@, s, fl),
    }
}

proof fn lemma_list_shallow(ns: Seq<NestNode>, s: NestState, fl: Option<usize>)
    requires
        s.level + list_depth(ns) <= s.threshold,
        fl is None,
    ensures
        list_reports(ns, s, fl).len() == 0,
    decreases ns, 0int,
{
    if ns.len() > 0 {
        lemma_list_shallow(ns.drop_last(), s, fl);
        lemma_node_shallow(ns.last(), s, fl);
    }
}

/// Without a function-like threshold, a program whose blocks are nested no
/// deeper than the threshold is not reported at all.
pub proof fn law_shallow_program_not_reported(cfg: ExcessiveNestingConfig, program: Seq<NestNode>)
    requires
        list_depth(program) <= cfg.threshold,
        cfg.function_like_threshold is None,
    ensures
        list_reports(
            program,
            NestState { level: 0, threshold: cfg.threshold, function_like: false },
            cfg.function_like_threshold,
        ).len() == 0,
{
    lemma_list_shallow(
        program,
        NestState { level: 0, threshold: cfg.threshold, function_like: false },
        cfg.function_like_threshold,
    );
}

} // verus!
