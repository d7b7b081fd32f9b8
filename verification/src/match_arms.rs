//! `match` arms whose result is the same constant as an earlier arm's.
use vstd::prelude::*;

use crate::edit::Span;
use crate::text::bytes_equal;

verus! {

/// The result of a `match` arm with a condition (the default arm is not
/// compared): its span and, when it is a constant, its value, encoded so
/// that two constants are equal exactly when their encodings are.
#[derive(PartialEq, Eq, Debug)]
pub struct ArmResult {
    pub span: Span,
    pub constant: Option<Vec<u8>>,
}

/// The first occurrences among the first `n` arms: the constant value and
/// the span of each arm whose value had not appeared before, in order.
pub open spec fn first_occurrences(arms: Seq<ArmResult>, n: int) -> Seq<(Seq<u8>, Span)>
    decreases n,
{
    if n <= 0 {
        Seq::empty()
    } else {
        let seen = first_occurrences(arms, n - 1);
        let a = arms[n - 1];
        match a.constant {
            Some(v) => if exists|k: int| 0 <= k < seen.len() && #[trigger] seen[k].0 == v@ {
                seen
            } else {
                seen.push((v@, a.span))
            },
            None => seen,
        }
    }
}

/// The duplicate results among the first `n` arms, in order: the span of
/// each arm whose value appeared before, with the span of the first arm
/// that had it.
pub open spec fn duplicate_results(arms: Seq<ArmResult>, n: int) -> Seq<(Span, Span)>
    decreases n,
{
    if n <= 0 {
        Seq::empty()
    } else {
        let rest = duplicate_results(arms, n - 1);
        let seen = first_occurrences(arms, n - 1);
        let a = arms[n - 1];
        match a.constant {
            Some(v) => if exists|k: int| 0 <= k < seen.len() && #[trigger] seen[k].0 == v@ {
                let k = choose|k: int| 0 <= k < seen.len() && #[trigger] seen[k].0 == v@;
                rest.push((a.span, seen[k].1))
            } else {
                rest
            },
            None => rest,
        }
    }
}

proof fn lemma_first_occurrences_distinct(arms: Seq<ArmResult>, n: int)
    requires
        0 <= n <= arms.len(),
    ensures
        forall|i: int, j: int|
            0 <= i < j < first_occurrences(arms, n).len() ==> #[trigger] first_occurrences(arms, n)[i].0
                != #[trigger] first_occurrences(arms, n)[j].0,
    decreases n,
{
    if n > 0 {
        lemma_first_occurrences_distinct(arms, n - 1);
        let seen = first_occurrences(arms, n - 1);
        let r = first_occurrences(arms, n);
        assert forall|i: int, j: int| 0 <= i < j < r.len() implies #[trigger] r[i].0 != #[trigger] r[j].0 by {
            if j < seen.len() {
                assert(r[i] == seen[i] && r[j] == seen[j]);
            } else {
                assert(r[i] == seen[i]);
            }
        }
    }
}

/// Every first occurrence comes from an arm among the first `n`.
proof fn lemma_first_occurrences_from_arms(arms: Seq<ArmResult>, n: int)
    requires
        0 <= n <= arms.len(),
    ensures
        forall|k: int|
            #![trigger first_occurrences(arms, n)[k]]
            0 <= k < first_occurrences(arms, n).len() ==> exists|i: int|
                0 <= i < n && #[trigger] arms[i].constant is Some && arms[i].constant->0@ == first_occurrences(
                    arms,
                    n,
                )[k].0 && arms[i].span == first_occurrences(arms, n)[k].1,
    decreases n,
{
    if n > 0 {
        lemma_first_occurrences_from_arms(arms, n - 1);
        let seen = first_occurrences(arms, n - 1);
        let r = first_occurrences(arms, n);
        assert forall|k: int| #![trigger r[k]] 0 <= k < r.len() implies exists|i: int|
            0 <= i < n && #[trigger] arms[i].constant is Some && arms[i].constant->0@ == r[k].0 && arms[i].span
                == r[k].1 by {
            if k < seen.len() {
                assert(r[k] == seen[k]);
                let i = choose|i: int|
                    0 <= i < n - 1 && #[trigger] arms[i].constant is Some && arms[i].constant->0@ == seen[k].0
                        && arms[i].span == seen[k].1;
                assert(arms[i].constant is Some);
            } else {
                assert(arms[n - 1].constant is Some);
            }
        }
    }
}

/// Every reported arm repeats the constant of an earlier arm, and is shown
/// with that earlier arm.
pub proof fn law_duplicates_point_to_earlier_arms(arms: Seq<ArmResult>, n: int)
    requires
        0 <= n <= arms.len(),
    ensures
        forall|k: int|
            #![trigger duplicate_results(arms, n)[k]]
            0 <= k < duplicate_results(arms, n).len() ==> exists|i: int, j: int|
                0 <= i < j < n && #[trigger] arms[i].constant is Some && #[trigger] arms[j].constant is Some
                    && arms[i].constant->0@ == arms[j].constant->0@ && arms[j].span == duplicate_results(arms, n)[k].0
                    && arms[i].span == duplicate_results(arms, n)[k].1,
    decreases n,
{
    if n > 0 {
        law_duplicates_point_to_earlier_arms(arms, n - 1);
        lemma_first_occurrences_from_arms(arms, n - 1);
        let rest = duplicate_results(arms, n - 1);
        let r = duplicate_results(arms, n);
        let seen = first_occurrences(arms, n - 1);
        assert forall|k: int| #![trigger r[k]] 0 <= k < r.len() implies exists|i: int, j: int|
            0 <= i < j < n && #[trigger] arms[i].constant is Some && #[trigger] arms[j].constant is Some
                && arms[i].constant->0@ == arms[j].constant->0@ && arms[j].span == r[k].0 && arms[i].span
                == r[k].1 by {
            if k < rest.len() {
                assert(r[k] == rest[k]);
                let (i, j) = choose|i: int, j: int|
                    0 <= i < j < n - 1 && #[trigger] arms[i].constant is Some && #[trigger] arms[j].constant is Some
                        && arms[i].constant->0@ == arms[j].constant->0@ && arms[j].span == rest[k].0 && arms[i].span
                        == rest[k].1;
                assert(arms[i].constant is Some && arms[j].constant is Some);
            } else {
                let v = arms[n - 1].constant->0;
                let c = choose|c: int| 0 <= c < seen.len() && #[trigger] seen[c].0 == v@;
                let i = choose|i: int|
                    0 <= i < n - 1 && #[trigger] arms[i].constant is Some && arms[i].constant->0@ == seen[c].0
                        && arms[i].span == seen[c].1;
                assert(arms[i].constant is Some && arms[n - 1].constant is Some);
            }
        }
    }
}

/// The position of the first pair whose value is `v`.
fn position_of(seen: &Vec<(&Vec<u8>, Span)>, v: &Vec<u8>) -> (r: Option<usize>)
    ensures
        match r {
            Some(k) => k < seen.len() && seen@[k as int].0@ == v@ && forall|m: int|
                0 <= m < k ==> seen@[m].0@ != v@,
            None => forall|m: int| 0 <= m < seen.len() ==> seen@[m].0@ != v@,
        },
{
    let mut k: usize = 0;
    while k < seen.len()
        invariant
            k <= seen.len(),
            forall|m: int| 0 <= m < k ==> seen@[m].0@ != v@,
        decreases seen.len() - k,
    {
        if bytes_equal(seen[k].0.as_slice(), v.as_slice()) {
            return Some(k);
        }
        k += 1;
    }
    None
}

/// Finds the arms whose constant result repeats an earlier arm's, with the
/// span of that earlier arm.
pub fn check_duplicate_match_arms(arms: &Vec<ArmResult>) -> (r: Vec<(Span, Span)>)
    ensures
        r@ == duplicate_results(arms@, arms.len() as int),
{
    let mut seen: Vec<(&Vec<u8>, Span)> = Vec::new();
    let mut out: Vec<(Span, Span)> = Vec::new();
    let mut i: usize = 0;
    while i < arms.len()
        invariant
            i <= arms.len(),
            seen@.map_values(|p: (&Vec<u8>, Span)| (p.0@, p.1)) == first_occurrences(arms@, i as int),
            out@ == duplicate_results(arms@, i as int),
        decreases arms.len() - i,
    {
        proof {
            lemma_first_occurrences_distinct(arms@, i as int);
        }
        let ghost sv = seen@.map_values(|p: (&Vec<u8>, Span)| (p.0@, p.1));
        if let Some(v) = &arms[i].constant {
            let found = position_of(&seen, v);
            match found {
                Some(k) => {
                    proof {
                        assert(sv[k as int].0 == v@);
                        let c = choose|c: int| 0 <= c < sv.len() && #[trigger] sv[c].0 == v@;
                        assert(c == k);
                    }
                    out.push((arms[i].span, seen[k].1));
                },
                None => {
                    assert forall|m: int| 0 <= m < sv.len() implies #[trigger] sv[m].0 != v@ by {
                        assert(sv[m].0 == seen@[m].0@);
                    }
                    seen.push((v, arms[i].span));
                    assert(seen@.map_values(|p: (&Vec<u8>, Span)| (p.0@, p.1)) =~= sv.push((v@, arms@[i as int].span)));
                },
            }
        }
        i += 1;
    }
    out
}

} // verus!
