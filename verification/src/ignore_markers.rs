//! Formatter ignore markers in comments (`@mago-format-ignore-next`,
//! `@mago-format-ignore-start` ... `@mago-format-ignore-end`) that have no
//! effect because no statement or class member is where they apply.
use vstd::prelude::*;

use crate::text::{contains_seq, str_contains};

verus! {

/// A piece of trivia (a comment or whitespace) of the source file.
#[derive(PartialEq, Eq, Debug)]
pub struct Trivia {
    /// Whether it is a comment.
    pub is_comment: bool,
    /// Its text.
    pub text: String,
    /// Where it starts and ends in the source file.
    pub start: u32,
    pub end: u32,
}

/// Whether a comment holds a marker that ignores the next statement.
pub open spec fn has_ignore_next_marker(text: Seq<char>) -> bool {
    contains_seq(text, "@mago-format-ignore-next"@) || contains_seq(text, "@mago-formatter-ignore-next"@)
}

/// Whether a comment holds a marker that starts an ignored region.
pub open spec fn has_ignore_start_marker(text: Seq<char>) -> bool {
    contains_seq(text, "@mago-format-ignore-start"@) || contains_seq(text, "@mago-formatter-ignore-start"@)
}

/// Whether a comment holds a marker that ends an ignored region.
pub open spec fn has_ignore_end_marker(text: Seq<char>) -> bool {
    contains_seq(text, "@mago-format-ignore-end"@) || contains_seq(text, "@mago-formatter-ignore-end"@)
}

// ---------------------------------------------------------------------------
// Ignore-next markers
// ---------------------------------------------------------------------------

/// An ignore-next marker: the span of its comment.
#[derive(Clone, Copy, PartialEq, Eq, Debug)]
pub struct IgnoreNextMarker {
    pub start: u32,
    pub end: u32,
}

/// The ignore-next markers among `ts`, in order.
pub open spec fn spec_ignore_next_markers(ts: Seq<Trivia>) -> Seq<IgnoreNextMarker>
    decreases ts.len(),
{
    if ts.len() == 0 {
        Seq::empty()
    } else {
        let rest = spec_ignore_next_markers(ts.drop_last());
        let t = ts.last();
        if t.is_comment && has_ignore_next_marker(t.text@) {
            rest.push(IgnoreNextMarker { start: t.start, end: t.end })
        } else {
            rest
        }
    }
}

/// Builds ignore-next markers from the comments among `trivia`.
pub fn build_ignore_next_markers(trivia: &Vec<Trivia>) -> (markers: Vec<IgnoreNextMarker>)
    ensures
        markers@ == spec_ignore_next_markers(trivia@),
{
    let mut markers: Vec<IgnoreNextMarker> = Vec::new();
    let mut k: usize = 0;
    assert(trivia@.take(0) =~= Seq::<Trivia>::empty());
    while k < trivia.len()
        invariant
            k <= trivia@.len(),
            markers@ == spec_ignore_next_markers(trivia@.take(k as int)),
        decreases trivia@.len() - k,
    {
        assert(trivia@.take(k as int + 1).drop_last() =~= trivia@.take(k as int));
        let t = &trivia[k];
        if t.is_comment && (str_contains(t.text.as_str(), "@mago-format-ignore-next") || str_contains(
            t.text.as_str(),
            "@mago-formatter-ignore-next",
        )) {
            markers.push(IgnoreNextMarker { start: t.start, end: t.end });
        }
        k += 1;
    }
    assert(trivia@.take(k as int) =~= trivia@);
    markers
}

/// Which markers a statement (or class member) starting at `stmt_start`
/// uses: the first one not yet used that ends before it.
pub open spec fn use_next_marker(markers: Seq<IgnoreNextMarker>, used: Seq<bool>, stmt_start: u32) -> Seq<bool> {
    if exists|k: int| 0 <= k < markers.len() && !used[k] && stmt_start > #[trigger] markers[k].end {
        let k = choose|k: int|
            0 <= k < markers.len() && !used[k] && stmt_start > #[trigger] markers[k].end && forall|m: int|
                0 <= m < k ==> !(!used[m] && stmt_start > #[trigger] markers[m].end);
        used.update(k, true)
    } else {
        used
    }
}

/// Which markers the statements and class members that start at `starts`
/// (in the order in which the syntax tree is walked) use.
pub open spec fn markers_used(markers: Seq<IgnoreNextMarker>, starts: Seq<u32>) -> Seq<bool>
    decreases starts.len(),
{
    if starts.len() == 0 {
        Seq::new(markers.len(), |k: int| false)
    } else {
        use_next_marker(markers, markers_used(markers, starts.drop_last()), starts.last())
    }
}

/// Marks, for each statement or class member start in walk order, the first
/// unused marker that ends before it; returns which markers were used.
pub fn mark_used_ignore_next_markers(markers: &Vec<IgnoreNextMarker>, starts: &Vec<u32>) -> (used: Vec<bool>)
    ensures
        used@ == markers_used(markers@, starts@),
{
    let mut used: Vec<bool> = Vec::new();
    let mut k: usize = 0;
    while k < markers.len()
        invariant
            k <= markers@.len(),
            used@ == Seq::new(k as nat, |m: int| false),
        decreases markers@.len() - k,
    {
        used.push(false);
        k += 1;
        assert(used@ =~= Seq::new(k as nat, |m: int| false));
    }
    let mut s: usize = 0;
    assert(starts@.take(0) =~= Seq::<u32>::empty());
    while s < starts.len()
        invariant
            s <= starts@.len(),
            used@.len() == markers@.len(),
            used@ == markers_used(markers@, starts@.take(s as int)),
        decreases starts@.len() - s,
    {
        assert(starts@.take(s as int + 1).drop_last() =~= starts@.take(s as int));
        assert(starts@.take(s as int + 1).last() == starts@[s as int]);
        let stmt_start = starts[s];
        let ghost before = used@;
        let mut m: usize = 0;
        while m < markers.len()
            invariant
                m <= markers@.len(),
                used@ == before,
                before.len() == markers@.len(),
                forall|j: int| 0 <= j < m ==> !(!before[j] && stmt_start > #[trigger] markers@[j].end),
            ensures
                m <= markers@.len(),
                used@ == before,
                forall|j: int| 0 <= j < m ==> !(!before[j] && stmt_start > #[trigger] markers@[j].end),
                m < markers@.len() ==> !before[m as int] && stmt_start > markers@[m as int].end,
            decreases markers@.len() - m,
        {
            if !used[m] && stmt_start > markers[m].end {
                break;
            }
            m += 1;
        }
        if m < markers.len() {
            used.set(m, true);
            proof {
                lemma_first_unused(markers@, before, stmt_start, m as int);
            }
        } else {
            assert(!(exists|k: int| 0 <= k < markers@.len() && !before[k] && stmt_start > #[trigger] markers@[k].end));
        }
        s += 1;
    }
    assert(starts@.take(s as int) =~= starts@);
    used
}

proof fn lemma_first_unused(markers: Seq<IgnoreNextMarker>, used: Seq<bool>, stmt_start: u32, m: int)
    requires
        used.len() == markers.len(),
        0 <= m < markers.len(),
        !used[m] && stmt_start > markers[m].end,
        forall|j: int| 0 <= j < m ==> !(!used[j] && stmt_start > #[trigger] markers[j].end),
    ensures
        use_next_marker(markers, used, stmt_start) == used.update(m, true),
{
    assert(!used[m] && stmt_start > markers[m].end);
    let k = choose|k: int|
        0 <= k < markers.len() && !used[k] && stmt_start > #[trigger] markers[k].end && forall|j: int|
            0 <= j < k ==> !(!used[j] && stmt_start > #[trigger] markers[j].end);
    assert(exists|k: int| 0 <= k < markers.len() && !used[k] && stmt_start > #[trigger] markers[k].end && forall|j: int|
            0 <= j < k ==> !(!used[j] && stmt_start > #[trigger] markers[j].end)) by {
        assert(forall|j: int| 0 <= j < m ==> !(!used[j] && stmt_start > #[trigger] markers[j].end));
    }
    assert(k == m) by {
        if k > m {
            assert(!(!used[m] && stmt_start > markers[m].end));
        }
    }
}

// ---------------------------------------------------------------------------
// Ignore regions
// ---------------------------------------------------------------------------

/// An ignored region: the span of the comment that starts it, and the range
/// from the start of that comment to the end of the comment that ends it
/// (or to the end of the file).
#[derive(Clone, Copy, PartialEq, Eq, Debug)]
pub struct IgnoreRegion {
    pub marker_start: u32,
    pub marker_end: u32,
    pub start: u32,
    pub end: u32,
}

/// The regions closed so far among `ts` and the start marker of the region
/// still open, if any. A start marker opens a region unless one is open; an
/// end marker closes the open region; other markers are ignored.
pub open spec fn scan_regions(ts: Seq<Trivia>) -> (Seq<IgnoreRegion>, Option<(u32, u32)>)
    decreases ts.len(),
{
    if ts.len() == 0 {
        (Seq::empty(), None)
    } else {
        let (regions, open) = scan_regions(ts.drop_last());
        let t = ts.last();
        if !t.is_comment {
            (regions, open)
        } else if has_ignore_start_marker(t.text@) && open is None {
            (regions, Some((t.start, t.end)))
        } else if open is Some && has_ignore_end_marker(t.text@) {
            let (ms, me) = open->0;
            (regions.push(IgnoreRegion { marker_start: ms, marker_end: me, start: ms, end: t.end }), None)
        } else {
            (regions, open)
        }
    }
}

/// The ignored regions of a file of `source_len` bytes whose trivia are `ts`:
/// a region left open extends to the end of the file.
pub open spec fn spec_ignore_regions(ts: Seq<Trivia>, source_len: u32) -> Seq<IgnoreRegion> {
    let (regions, open) = scan_regions(ts);
    match open {
        Some((ms, me)) => regions.push(IgnoreRegion { marker_start: ms, marker_end: me, start: ms, end: source_len }),
        None => regions,
    }
}

/// Builds the ignored regions of a file of `source_len` bytes from its trivia.
pub fn build_ignore_regions(trivia: &Vec<Trivia>, source_len: u32) -> (regions: Vec<IgnoreRegion>)
    ensures
        regions@ == spec_ignore_regions(trivia@, source_len),
{
    let mut regions: Vec<IgnoreRegion> = Vec::new();
    let mut current_start: Option<(u32, u32)> = None;
    let mut k: usize = 0;
    assert(trivia@.take(0) =~= Seq::<Trivia>::empty());
    while k < trivia.len()
        invariant
            k <= trivia@.len(),
            (regions@, current_start) == scan_regions(trivia@.take(k as int)),
        decreases trivia@.len() - k,
    {
        assert(trivia@.take(k as int + 1).drop_last() =~= trivia@.take(k as int));
        let t = &trivia[k];
        if t.is_comment {
            let text = t.text.as_str();
            let has_start = str_contains(text, "@mago-format-ignore-start") || str_contains(
                text,
                "@mago-formatter-ignore-start",
            );
            let has_end = str_contains(text, "@mago-format-ignore-end") || str_contains(
                text,
                "@mago-formatter-ignore-end",
            );
            if has_start && current_start.is_none() {
                current_start = Some((t.start, t.end));
            } else if current_start.is_some() && has_end {
                let (ms, me) = current_start.unwrap();
                regions.push(IgnoreRegion { marker_start: ms, marker_end: me, start: ms, end: t.end });
                current_start = None;
            }
        }
        k += 1;
    }
    assert(trivia@.take(k as int) =~= trivia@);
    if let Some((ms, me)) = current_start {
        regions.push(IgnoreRegion { marker_start: ms, marker_end: me, start: ms, end: source_len });
    }
    regions
}

/// Whether the trivia are in source order and do not overlap.
pub open spec fn trivia_in_order(ts: Seq<Trivia>) -> bool {
    &&& forall|k: int| 0 <= k < ts.len() ==> #[trigger] ts[k].start <= ts[k].end
    &&& forall|k: int, l: int| 0 <= k < l < ts.len() ==> #[trigger] ts[k].end <= #[trigger] ts[l].start
}

/// Where the last of `ts` ends (0 when there is none).
pub open spec fn trivia_end(ts: Seq<Trivia>) -> u32 {
    if ts.len() == 0 { 0 } else { ts.last().end }
}

proof fn lemma_scan_regions_ordered(ts: Seq<Trivia>)
    requires
        trivia_in_order(ts),
    ensures
        ({
            let (regions, open) = scan_regions(ts);
            &&& forall|k: int| 0 <= k < regions.len() ==> (#[trigger] regions[k]).start <= regions[k].end
                && regions[k].end <= trivia_end(ts)
            &&& forall|k: int, l: int| 0 <= k < l < regions.len() ==> #[trigger] regions[k].end
                <= #[trigger] regions[l].start
            &&& open matches Some((ms, me)) ==> ms <= me && me <= trivia_end(ts) && forall|k: int|
                0 <= k < regions.len() ==> (#[trigger] regions[k]).end <= ms
        }),
    decreases ts.len(),
{
    if ts.len() > 0 {
        let prev = ts.drop_last();
        assert(trivia_in_order(prev)) by {
            assert forall|k: int, l: int| 0 <= k < l < prev.len() implies #[trigger] prev[k].end <= #[trigger] prev[l].start by {
                assert(prev[k] == ts[k] && prev[l] == ts[l]);
            }
            assert forall|k: int| 0 <= k < prev.len() implies #[trigger] prev[k].start <= prev[k].end by {
                assert(prev[k] == ts[k]);
            }
        }
        lemma_scan_regions_ordered(prev);
        let t = ts.last();
        assert(t == ts[ts.len() - 1]);
        assert(t.start <= t.end);
        if prev.len() > 0 {
            assert(prev.last() == ts[ts.len() - 2]);
            assert(trivia_end(prev) <= t.start);
        }
        assert(trivia_end(prev) <= t.start);
        assert(trivia_end(ts) == t.end);
        let (pr, po) = scan_regions(prev);
        let (regions, open) = scan_regions(ts);
        if !t.is_comment {
            assert(regions == pr && open == po);
        } else if has_ignore_start_marker(t.text@) && po is None {
            assert(regions == pr && open == Some((t.start, t.end)));
            assert forall|k: int| 0 <= k < regions.len() implies #[trigger] regions[k].end <= t.start by {
                assert(pr[k].end <= trivia_end(prev));
            }
        } else if po is Some && has_ignore_end_marker(t.text@) {
            let (ms, me) = po->0;
            let r = IgnoreRegion { marker_start: ms, marker_end: me, start: ms, end: t.end };
            assert(regions == pr.push(r));
            assert(open is None);
            assert forall|k: int| 0 <= k < regions.len() implies #[trigger] regions[k].start <= regions[k].end
                && regions[k].end <= trivia_end(ts) by {
                if k < pr.len() {
                    assert(regions[k] == pr[k]);
                }
            }
            assert forall|k: int, l: int| 0 <= k < l < regions.len() implies #[trigger] regions[k].end
                <= #[trigger] regions[l].start by {
                assert(regions[k] == pr[k]);
                if l < pr.len() {
                    assert(regions[l] == pr[l]);
                }
            }
        } else {
            assert(regions == pr && open == po);
        }
    }
}

/// The ignored regions of a file whose trivia are in order, and end within
/// the file, each span from their start to their end and follow one another
/// without overlapping.
pub proof fn law_ignore_regions_ordered(ts: Seq<Trivia>, source_len: u32)
    requires
        trivia_in_order(ts),
        trivia_end(ts) <= source_len,
    ensures
        forall|k: int| 0 <= k < spec_ignore_regions(ts, source_len).len() ==> #[trigger] spec_ignore_regions(
            ts,
            source_len,
        )[k].start <= spec_ignore_regions(ts, source_len)[k].end,
        forall|k: int, l: int|
            0 <= k < l < spec_ignore_regions(ts, source_len).len() ==> #[trigger] spec_ignore_regions(
                ts,
                source_len,
            )[k].end <= #[trigger] spec_ignore_regions(ts, source_len)[l].start,
{
    lemma_scan_regions_ordered(ts);
    let (regions, open) = scan_regions(ts);
    let all = spec_ignore_regions(ts, source_len);
    match open {
        Some((ms, me)) => {
            assert forall|k: int| 0 <= k < all.len() implies #[trigger] all[k].start <= all[k].end by {
                if k < regions.len() {
                    assert(all[k] == regions[k]);
                }
            }
            assert forall|k: int, l: int| 0 <= k < l < all.len() implies #[trigger] all[k].end <= #[trigger] all[l].start by {
                assert(all[k] == regions[k]);
                if l < regions.len() {
                    assert(all[l] == regions[l]);
                }
            }
        },
        None => {},
    }
}

/// Whether some statement or class member starts inside the region.
pub open spec fn region_used(region: IgnoreRegion, starts: Seq<u32>) -> bool {
    exists|k: int| 0 <= k < starts.len() && region.start <= #[trigger] starts[k] && starts[k] < region.end
}

/// Which regions hold the start of some statement or class member.
pub fn mark_used_ignore_regions(regions: &Vec<IgnoreRegion>, starts: &Vec<u32>) -> (used: Vec<bool>)
    ensures
        used@.len() == regions@.len(),
        forall|k: int| 0 <= k < regions@.len() ==> #[trigger] used@[k] == region_used(regions@[k], starts@),
{
    let mut used: Vec<bool> = Vec::new();
    let mut k: usize = 0;
    while k < regions.len()
        invariant
            k <= regions@.len(),
            used@.len() == k,
            forall|j: int| 0 <= j < k ==> #[trigger] used@[j] == region_used(regions@[j], starts@),
        decreases regions@.len() - k,
    {
        let region = regions[k];
        let mut found = false;
        let mut s: usize = 0;
        while s < starts.len()
            invariant
                s <= starts@.len(),
                found == exists|m: int| 0 <= m < s && region.start <= #[trigger] starts@[m] && starts@[m] < region.end,
            decreases starts@.len() - s,
        {
            if starts[s] >= region.start && starts[s] < region.end {
                found = true;
            }
            s += 1;
        }
        used.push(found);
        k += 1;
    }
    used
}

} // verus!
