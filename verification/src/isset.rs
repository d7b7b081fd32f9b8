//! Redundant `isset` arguments: in `isset($a, $a['k'])` the check of `$a`
//! is implied by the more specific check of `$a['k']`, and a repeated
//! argument is implied by its later copy.
use vstd::prelude::*;

use crate::edit::{deletion, delete, edits_view, lemma_edits_view_push, Span, TextEdit};
use crate::text::str_equals;

verus! {

broadcast use lemma_edits_view_push;

/// One step of an access path.
#[derive(PartialEq, Eq, Debug)]
pub enum AccessSegment {
    /// `->name` (or `?->name`).
    Property { name: String },
    /// `['key']`.
    StringKey { key: String },
    /// `[0]`.
    IntegerKey { index: u64 },
}

/// A statically known access path: a variable followed by property and
/// array accesses with literal keys, as in `$a->b['c'][0]`.
#[derive(PartialEq, Eq, Debug)]
pub struct AccessPath {
    /// The variable's name, with its `$`.
    pub root: String,
    pub segments: Vec<AccessSegment>,
}

/// Whether two segments access the same thing.
pub open spec fn segment_eq(a: AccessSegment, b: AccessSegment) -> bool {
    match a {
        AccessSegment::Property { name: x } => match b {
            AccessSegment::Property { name: y } => x@ == y@,
            _ => false,
        },
        AccessSegment::StringKey { key: x } => match b {
            AccessSegment::StringKey { key: y } => x@ == y@,
            _ => false,
        },
        AccessSegment::IntegerKey { index: x } => match b {
            AccessSegment::IntegerKey { index: y } => x == y,
            _ => false,
        },
    }
}

/// Whether the first `n` segments of two paths are the same.
pub open spec fn same_first_segments(p: AccessPath, q: AccessPath, n: int) -> bool {
    forall|k: int| 0 <= k < n ==> segment_eq(#[trigger] p.segments@[k], q.segments@[k])
}

/// Whether two paths are the same.
pub open spec fn path_eq(p: AccessPath, q: AccessPath) -> bool {
    p.root@ == q.root@ && p.segments.len() == q.segments.len() && same_first_segments(p, q, p.segments.len() as int)
}

/// Whether `p` is a proper prefix of `q`: `q` accesses something inside
/// what `p` accesses.
pub open spec fn proper_prefix(p: AccessPath, q: AccessPath) -> bool {
    p.root@ == q.root@ && p.segments.len() < q.segments.len() && same_first_segments(p, q, p.segments.len() as int)
}

/// Whether the argument at position `i` is implied by a more specific
/// argument anywhere in the call.
pub open spec fn covered_by_extension(paths: Seq<Option<AccessPath>>, i: int) -> bool {
    exists|j: int|
        0 <= j < paths.len() && j != i && #[trigger] paths[j] is Some && proper_prefix(paths[i]->0, paths[j]->0)
}

/// Whether the argument at position `i` is repeated later in the call.
pub open spec fn repeated_later(paths: Seq<Option<AccessPath>>, i: int) -> bool {
    exists|j: int| i < j < paths.len() && #[trigger] paths[j] is Some && path_eq(paths[j]->0, paths[i]->0)
}

/// Whether the argument at position `i` is redundant. Arguments that are
/// not plain access paths are never redundant.
pub open spec fn is_redundant(paths: Seq<Option<AccessPath>>, i: int) -> bool {
    paths[i] is Some && (covered_by_extension(paths, i) || repeated_later(paths, i))
}

/// The end of the run of redundant arguments that starts at `i`.
pub open spec fn run_end(red: Seq<bool>, i: int) -> int
    decreases red.len() - i,
{
    if 0 <= i < red.len() && red[i] {
        run_end(red, i + 1)
    } else {
        i
    }
}

/// A run of redundant arguments ends at or after its start, within the
/// arguments, and at a kept argument when it does not reach the end.
pub proof fn lemma_run_end(red: Seq<bool>, i: int)
    requires
        0 <= i <= red.len(),
    ensures
        i <= run_end(red, i) <= red.len(),
        forall|k: int| i <= k < run_end(red, i) ==> red[k],
        run_end(red, i) < red.len() ==> !red[run_end(red, i)],
    decreases red.len() - i,
{
    if i < red.len() && red[i] {
        lemma_run_end(red, i + 1);
    }
}

/// The deletions that remove the runs of redundant arguments from position
/// `i` on: a run followed by another argument goes up to the start of that
/// argument; a run at the end goes from the comma before it to its end.
pub open spec fn fix_from(red: Seq<bool>, nodes: Seq<Span>, commas: Seq<u32>, i: int) -> Seq<
    (u32, u32, Seq<char>),
>
    decreases red.len() - i,
{
    if i < 0 || i >= red.len() {
        Seq::empty()
    } else if !red[i] {
        fix_from(red, nodes, commas, i + 1)
    } else {
        proof {
            lemma_run_end(red, i + 1);
        }
        let e = run_end(red, i + 1);
        let d = if e < red.len() {
            deletion(nodes[i].start, nodes[e].start)
        } else {
            deletion(commas[i - 1], nodes[e - 1].end)
        };
        seq![d] + fix_from(red, nodes, commas, e)
    }
}

/// What the rule reports of an `isset(...)` call: which arguments are
/// redundant, and the deletions that remove them.
#[derive(PartialEq, Eq, Debug)]
pub struct RedundantIsset {
    pub redundant: Vec<bool>,
    pub fix: Vec<TextEdit>,
}

/// The arguments' redundancy, in order.
pub open spec fn redundancy(paths: Seq<Option<AccessPath>>) -> Seq<bool> {
    Seq::new(paths.len(), |i: int| is_redundant(paths, i))
}

/// What the rule reports: nothing for fewer than two arguments or when no
/// argument is redundant; else the redundancy of each argument and the fix.
pub open spec fn spec_redundant_isset(paths: Seq<Option<AccessPath>>, nodes: Seq<Span>, commas: Seq<u32>) -> Option<
    (Seq<bool>, Seq<(u32, u32, Seq<char>)>),
> {
    if paths.len() < 2 || !(exists|i: int| 0 <= i < paths.len() && #[trigger] is_redundant(paths, i)) {
        None
    } else {
        Some((redundancy(paths), fix_from(redundancy(paths), nodes, commas, 0)))
    }
}

/// Whether two segments access the same thing.
fn segments_equal(a: &AccessSegment, b: &AccessSegment) -> (r: bool)
    ensures
        r == segment_eq(*a, *b),
{
    match a {
        AccessSegment::Property { name: x } => match b {
            AccessSegment::Property { name: y } => str_equals(x.as_str(), y.as_str()),
            _ => false,
        },
        AccessSegment::StringKey { key: x } => match b {
            AccessSegment::StringKey { key: y } => str_equals(x.as_str(), y.as_str()),
            _ => false,
        },
        AccessSegment::IntegerKey { index: x } => match b {
            AccessSegment::IntegerKey { index: y } => *x == *y,
            _ => false,
        },
    }
}

/// Whether the first `n` segments of two paths are the same.
fn first_segments_equal(p: &AccessPath, q: &AccessPath, n: usize) -> (r: bool)
    requires
        n <= p.segments.len(),
        n <= q.segments.len(),
    ensures
        r == same_first_segments(*p, *q, n as int),
{
    let mut k: usize = 0;
    while k < n
        invariant
            k <= n,
            n <= p.segments.len(),
            n <= q.segments.len(),
            same_first_segments(*p, *q, k as int),
        decreases n - k,
    {
        if !segments_equal(&p.segments[k], &q.segments[k]) {
            return false;
        }
        k += 1;
    }
    true
}

/// Whether two paths are the same.
pub fn paths_equal(p: &AccessPath, q: &AccessPath) -> (r: bool)
    ensures
        r == path_eq(*p, *q),
{
    str_equals(p.root.as_str(), q.root.as_str()) && p.segments.len() == q.segments.len() && first_segments_equal(
        p,
        q,
        p.segments.len(),
    )
}

/// Whether `p` is a proper prefix of `q`.
pub fn is_proper_prefix(p: &AccessPath, q: &AccessPath) -> (r: bool)
    ensures
        r == proper_prefix(*p, *q),
{
    str_equals(p.root.as_str(), q.root.as_str()) && p.segments.len() < q.segments.len() && first_segments_equal(
        p,
        q,
        p.segments.len(),
    )
}

/// Whether the argument at position `i` is redundant.
fn argument_is_redundant(paths: &Vec<Option<AccessPath>>, i: usize) -> (r: bool)
    requires
        i < paths.len(),
    ensures
        r == is_redundant(paths@, i as int),
{
    let path_i = match &paths[i] {
        Some(p) => p,
        None => return false,
    };
    let mut j: usize = 0;
    while j < paths.len()
        invariant
            i < paths.len(),
            j <= paths.len(),
            paths@[i as int] == Some(*path_i),
            forall|m: int|
                0 <= m < j && m != i && #[trigger] paths@[m] is Some ==> !proper_prefix(*path_i, paths@[m]->0),
        decreases paths.len() - j,
    {
        if j != i {
            if let Some(path_j) = &paths[j] {
                if is_proper_prefix(path_i, path_j) {
                    assert(covered_by_extension(paths@, i as int));
                    return true;
                }
            }
        }
        j += 1;
    }
    assert(!covered_by_extension(paths@, i as int));
    let mut j: usize = i + 1;
    while j < paths.len()
        invariant
            i < j <= paths.len(),
            paths@[i as int] == Some(*path_i),
            forall|m: int| i < m < j && #[trigger] paths@[m] is Some ==> !path_eq(paths@[m]->0, *path_i),
        decreases paths.len() - j,
    {
        if let Some(path_j) = &paths[j] {
            if paths_equal(path_j, path_i) {
                assert(repeated_later(paths@, i as int));
                return true;
            }
        }
        j += 1;
    }
    false
}

/// Among the first `n` arguments that are access paths, the last one of
/// the greatest depth; `-1` when there is none.
pub open spec fn deepest_last(paths: Seq<Option<AccessPath>>, n: int) -> int
    decreases n,
{
    if n <= 0 {
        -1
    } else {
        let b = deepest_last(paths, n - 1);
        if paths[n - 1] is Some && (b < 0 || paths[n - 1]->0.segments.len() >= paths[b]->0.segments.len()) {
            n - 1
        } else {
            b
        }
    }
}

proof fn lemma_deepest_last(paths: Seq<Option<AccessPath>>, n: int)
    requires
        0 <= n <= paths.len(),
    ensures
        deepest_last(paths, n) < n,
        deepest_last(paths, n) < 0 ==> forall|j: int| 0 <= j < n ==> #[trigger] paths[j] is None,
        deepest_last(paths, n) >= 0 ==> {
            let b = deepest_last(paths, n);
            &&& paths[b] is Some
            &&& forall|j: int|
                0 <= j < n && #[trigger] paths[j] is Some ==> paths[j]->0.segments.len() <= paths[b]->0.segments.len()
            &&& forall|j: int|
                b < j < n && #[trigger] paths[j] is Some ==> paths[j]->0.segments.len() < paths[b]->0.segments.len()
        },
    decreases n,
{
    if n > 0 {
        lemma_deepest_last(paths, n - 1);
    }
}

/// An `isset` call always keeps at least one of its arguments: the last of
/// its deepest access paths is neither covered by a more specific argument
/// nor repeated later.
pub proof fn law_isset_keeps_an_argument(paths: Seq<Option<AccessPath>>)
    requires
        paths.len() > 0,
    ensures
        exists|i: int| 0 <= i < paths.len() && !#[trigger] is_redundant(paths, i),
{
    lemma_deepest_last(paths, paths.len() as int);
    let b = deepest_last(paths, paths.len() as int);
    if b < 0 {
        assert(!is_redundant(paths, 0));
    } else {
        assert(!covered_by_extension(paths, b));
        assert(!repeated_later(paths, b));
        assert(!is_redundant(paths, b));
    }
}

/// Checks an `isset(...)` call: `paths` holds the access path of each
/// argument (`None` for one that is not a plain access path), `nodes` the
/// span of each argument and `commas` the start of each comma between them.
pub fn check_redundant_isset(paths: &Vec<Option<AccessPath>>, nodes: &Vec<Span>, commas: &Vec<u32>) -> (r: Option<
    RedundantIsset,
>)
    requires
        nodes.len() == paths.len(),
        commas.len() + 1 >= paths.len(),
    ensures
        match r {
            Some(x) => spec_redundant_isset(paths@, nodes@, commas@) == Some((x.redundant@, edits_view(x.fix@))),
            None => spec_redundant_isset(paths@, nodes@, commas@) is None,
        },
{
    let n = paths.len();
    if n < 2 {
        return None;
    }
    let mut red: Vec<bool> = Vec::new();
    let mut any = false;
    let mut i: usize = 0;
    while i < n
        invariant
            n == paths.len(),
            i <= n,
            red@ == redundancy(paths@).take(i as int),
            any == (exists|k: int| 0 <= k < i && #[trigger] is_redundant(paths@, k)),
        decreases n - i,
    {
        let r = argument_is_redundant(paths, i);
        red.push(r);
        proof {
            assert(red@ =~= redundancy(paths@).take(i + 1));
            if r {
                assert(is_redundant(paths@, i as int));
            }
        }
        any = any || r;
        i += 1;
    }
    assert(red@ =~= redundancy(paths@));
    if !any {
        return None;
    }
    proof {
        law_isset_keeps_an_argument(paths@);
    }
    let ghost all = fix_from(red@, nodes@, commas@, 0);
    let mut edits: Vec<TextEdit> = Vec::new();
    let mut i: usize = 0;
    while i < n
        invariant
            n == paths.len(),
            n == red.len(),
            n == nodes.len(),
            commas.len() + 1 >= n,
            i <= n,
            red@ == redundancy(paths@),
            exists|k: int| 0 <= k < paths.len() && !#[trigger] is_redundant(paths@, k),
            edits_view(edits@) + fix_from(red@, nodes@, commas@, i as int) == all,
        decreases n - i,
    {
        if !red[i] {
            i += 1;
            continue;
        }
        let gs = i;
        proof {
            lemma_run_end(red@, gs + 1);
        }
        i += 1;
        while i < n && red[i]
            invariant
                n == red.len(),
                gs < i <= n,
                run_end(red@, i as int) == run_end(red@, gs + 1),
            decreases n - i,
        {
            i += 1;
        }
        proof {
            lemma_run_end(red@, gs as int);
        }
        let d = if i < n {
            delete(nodes[gs].start, nodes[i].start)
        } else {
            proof {
                if gs == 0 {
                    let k = choose|k: int| 0 <= k < paths.len() && !#[trigger] is_redundant(paths@, k);
                    assert(red@[k]);
                }
            }
            delete(commas[gs - 1], nodes[i - 1].end)
        };
        let ghost before = edits@;
        edits.push(d);
        assert(edits_view(edits@) + fix_from(red@, nodes@, commas@, i as int) =~= edits_view(before) + fix_from(
            red@,
            nodes@,
            commas@,
            gs as int,
        ));
    }
    Some(RedundantIsset { redundant: red, fix: edits })
}

} // verus!
