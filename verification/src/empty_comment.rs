//! Empty comments. Inside a block of consecutive single-line comments, an
//! empty line only counts at the start or the end of the block: the empty
//! lines between text lines are left alone.
use vstd::prelude::*;

use crate::config::NoEmptyCommentConfig;
use crate::edit::Span;

verus! {

/// The kinds of trivia.
#[derive(Clone, Copy, PartialEq, Eq, Structural, Debug)]
pub enum TriviaKind {
    WhiteSpace,
    /// `// ...`
    SingleLineComment,
    /// `# ...`
    HashComment,
    /// `/* ... */`
    MultiLineComment,
    /// `/** ... */`
    DocBlockComment,
}

/// Whether a kind of trivia is a comment.
pub open spec fn is_comment(k: TriviaKind) -> bool {
    !(k is WhiteSpace)
}

/// Whether a kind of trivia is a single-line comment.
pub open spec fn is_single_line(k: TriviaKind) -> bool {
    k is SingleLineComment || k is HashComment
}

/// A piece of trivia: its kind, its span and, for a comment, whether every
/// line of its text is blank once the comment markers are removed.
#[derive(Clone, Copy, PartialEq, Eq, Debug)]
pub struct CommentTrivia {
    pub kind: TriviaKind,
    pub span: Span,
    pub empty: bool,
}

/// The state of the scan: the block of single-line comments being followed
/// (their kind and where the block ends so far), the empty comments held
/// back until it is known whether they close the block, and the comments
/// reported so far.
pub struct ScanState {
    pub block: Option<(TriviaKind, u32)>,
    pub pending: Seq<Span>,
    pub reported: Seq<Span>,
}

/// One step of the scan over the trivia `t`.
pub open spec fn scan_step(s: ScanState, t: CommentTrivia, preserve_single_line: bool) -> ScanState {
    // Does `t` continue the block being followed?
    let block = match s.block {
        Some((k, e)) => if (t.kind == k || t.kind is WhiteSpace) && t.span.start == e {
            Some((k, t.span.end))
        } else {
            None
        },
        None => None,
    };
    // When no block goes on, the held-back comments are reported.
    let (pending, reported) = if block is None {
        (Seq::<Span>::empty(), s.reported + s.pending)
    } else {
        (s.pending, s.reported)
    };
    if !is_comment(t.kind) || (is_single_line(t.kind) && preserve_single_line) {
        ScanState { block, pending, reported }
    } else if !t.empty {
        if is_single_line(t.kind) {
            ScanState { block: Some((t.kind, t.span.end)), pending: Seq::empty(), reported }
        } else {
            ScanState { block, pending, reported }
        }
    } else {
        ScanState { block, pending: pending.push(t.span), reported }
    }
}

/// The state after scanning the first `n` trivia.
pub open spec fn scan(ts: Seq<CommentTrivia>, n: int, preserve_single_line: bool) -> ScanState
    decreases n,
{
    if n <= 0 {
        ScanState { block: None, pending: Seq::empty(), reported: Seq::empty() }
    } else {
        scan_step(scan(ts, n - 1, preserve_single_line), ts[n - 1], preserve_single_line)
    }
}

/// The empty comments that the rule reports, in order: at the end of the
/// scan, the comments still held back are reported too.
pub open spec fn spec_empty_comments(ts: Seq<CommentTrivia>, preserve_single_line: bool) -> Seq<Span> {
    let s = scan(ts, ts.len() as int, preserve_single_line);
    s.reported + s.pending
}

/// Finds the empty comments of a program, given its trivia in order. Each
/// reported comment is deleted by the fix.
pub fn check_empty_comments(cfg: &NoEmptyCommentConfig, trivia: &Vec<CommentTrivia>) -> (reported: Vec<Span>)
    ensures
        reported@ == spec_empty_comments(trivia@, cfg.preserve_single_line_comments),
{
    let preserve = cfg.preserve_single_line_comments;
    let mut block: Option<(TriviaKind, u32)> = None;
    let mut pending: Vec<Span> = Vec::new();
    let mut reported: Vec<Span> = Vec::new();
    let mut i: usize = 0;
    while i < trivia.len()
        invariant
            i <= trivia.len(),
            preserve == cfg.preserve_single_line_comments,
            scan(trivia@, i as int, preserve) == (ScanState { block, pending: pending@, reported: reported@ }),
        decreases trivia.len() - i,
    {
        let t = trivia[i];
        let ghost before = ScanState { block, pending: pending@, reported: reported@ };
        if let Some((k, e)) = block {
            if (t.kind == k || matches!(t.kind, TriviaKind::WhiteSpace)) && t.span.start == e {
                block = Some((k, t.span.end));
            } else {
                block = None;
            }
        }
        if block.is_none() {
            reported.append(&mut pending);
        }
        let comment = !matches!(t.kind, TriviaKind::WhiteSpace);
        let single = matches!(t.kind, TriviaKind::SingleLineComment) || matches!(t.kind, TriviaKind::HashComment);
        if comment && !(single && preserve) {
            if !t.empty {
                if single {
                    block = Some((t.kind, t.span.end));
                    pending.clear();
                }
            } else {
                pending.push(t.span);
            }
        }
        assert(ScanState { block, pending: pending@, reported: reported@ } == scan_step(before, t, preserve));
        i += 1;
    }
    reported.append(&mut pending);
    reported
}

/// Whether `sp` is the span of an empty comment that the configuration lets
/// the rule report.
pub open spec fn reportable(ts: Seq<CommentTrivia>, sp: Span, preserve_single_line: bool) -> bool {
    exists|j: int|
        0 <= j < ts.len() && #[trigger] ts[j].span == sp && is_comment(ts[j].kind) && ts[j].empty && !(
        is_single_line(ts[j].kind) && preserve_single_line)
}

proof fn lemma_scan_reportable(ts: Seq<CommentTrivia>, n: int, preserve_single_line: bool)
    requires
        0 <= n <= ts.len(),
    ensures
        forall|k: int|
            0 <= k < scan(ts, n, preserve_single_line).pending.len() ==> reportable(
                ts,
                #[trigger] scan(ts, n, preserve_single_line).pending[k],
                preserve_single_line,
            ),
        forall|k: int|
            0 <= k < scan(ts, n, preserve_single_line).reported.len() ==> reportable(
                ts,
                #[trigger] scan(ts, n, preserve_single_line).reported[k],
                preserve_single_line,
            ),
    decreases n,
{
    if n > 0 {
        lemma_scan_reportable(ts, n - 1, preserve_single_line);
        let s = scan(ts, n - 1, preserve_single_line);
        let t = ts[n - 1];
        let r = scan(ts, n, preserve_single_line);
        assert forall|k: int| 0 <= k < r.pending.len() implies reportable(
            ts,
            #[trigger] r.pending[k],
            preserve_single_line,
        ) by {
            if k < s.pending.len() && r.pending[k] == s.pending[k] {
                assert(reportable(ts, s.pending[k], preserve_single_line));
            } else {
                assert(ts[n - 1].span == r.pending[k]);
            }
        }
        assert forall|k: int| 0 <= k < r.reported.len() implies reportable(
            ts,
            #[trigger] r.reported[k],
            preserve_single_line,
        ) by {
            if k < s.reported.len() {
                assert(r.reported[k] == s.reported[k]);
            } else {
                assert(r.reported[k] == s.pending[k - s.reported.len()]);
            }
        }
    }
}

/// Only empty comments are reported, and never a single-line comment when
/// the configuration preserves them.
pub proof fn law_only_empty_comments_reported(ts: Seq<CommentTrivia>, preserve_single_line: bool)
    ensures
        forall|k: int|
            0 <= k < spec_empty_comments(ts, preserve_single_line).len() ==> reportable(
                ts,
                #[trigger] spec_empty_comments(ts, preserve_single_line)[k],
                preserve_single_line,
            ),
{
    lemma_scan_reportable(ts, ts.len() as int, preserve_single_line);
    let s = scan(ts, ts.len() as int, preserve_single_line);
    assert forall|k: int| 0 <= k < spec_empty_comments(ts, preserve_single_line).len() implies reportable(
        ts,
        #[trigger] spec_empty_comments(ts, preserve_single_line)[k],
        preserve_single_line,
    ) by {
        if k < s.reported.len() {
            assert(spec_empty_comments(ts, preserve_single_line)[k] == s.reported[k]);
        } else {
            assert(spec_empty_comments(ts, preserve_single_line)[k] == s.pending[k - s.reported.len()]);
        }
    }
}

} // verus!
