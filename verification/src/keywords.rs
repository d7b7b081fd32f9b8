//! Keywords written with uppercase letters (`IF`, `True`, `NULL`, ...)
//! should be lowercase.
use vstd::prelude::*;

use crate::text::{ascii_lower, bytes_equal};

verus! {

/// Whether a byte is an uppercase ASCII letter.
pub open spec fn is_ascii_uppercase(b: u8) -> bool {
    0x41u8 <= b && b <= 0x5au8
}

/// A keyword with every ASCII letter lowercased.
pub open spec fn lowercased(k: Seq<u8>) -> Seq<u8> {
    k.map_values(|b: u8| ascii_lower(b))
}

/// The bytes of `true`, `false` and `null`.
pub open spec fn is_boolean_or_null(k: Seq<u8>) -> bool {
    k == seq![0x74u8, 0x72u8, 0x75u8, 0x65u8] || k == seq![0x66u8, 0x61u8, 0x6cu8, 0x73u8, 0x65u8] || k == seq![
        0x6eu8,
        0x75u8,
        0x6cu8,
        0x6cu8,
    ]
}

/// What the rule does with a keyword: nothing when it holds no uppercase
/// letter, nor for `true`, `false` and `null` when the Drupal integration
/// is enabled (Drupal writes them in uppercase); else it proposes the
/// lowercase keyword as its replacement.
pub open spec fn spec_lowercase_keyword(keyword: Seq<u8>, drupal: bool) -> Option<Seq<u8>> {
    if forall|k: int| 0 <= k < keyword.len() ==> !is_ascii_uppercase(#[trigger] keyword[k]) {
        None
    } else if drupal && is_boolean_or_null(lowercased(keyword)) {
        None
    } else {
        Some(lowercased(keyword))
    }
}

/// Checks a keyword; `drupal` tells whether the Drupal integration is
/// enabled. Returns the replacement for the keyword, if it is reported.
pub fn check_lowercase_keyword(keyword: &[u8], drupal: bool) -> (r: Option<Vec<u8>>)
    ensures
        match r {
            Some(v) => spec_lowercase_keyword(keyword@, drupal) == Some(v@),
            None => spec_lowercase_keyword(keyword@, drupal) is None,
        },
{
    let mut lower: Vec<u8> = Vec::new();
    let mut has_upper = false;
    let mut k: usize = 0;
    while k < keyword.len()
        invariant
            k <= keyword@.len(),
            lower@ == lowercased(keyword@.take(k as int)),
            has_upper == (exists|m: int| 0 <= m < k && #[trigger] is_ascii_uppercase(keyword@[m])),
        decreases keyword.len() - k,
    {
        let b = keyword[k];
        let l = if b >= 0x41u8 && b <= 0x5au8 {
            assert(is_ascii_uppercase(keyword@[k as int]));
            has_upper = true;
            b + 0x20u8
        } else {
            b
        };
        lower.push(l);
        assert(lower@ =~= lowercased(keyword@.take(k + 1)));
        k += 1;
    }
    assert(keyword@.take(k as int) =~= keyword@);
    if !has_upper {
        return None;
    }
    if drupal {
        let t: [u8; 4] = [0x74u8, 0x72u8, 0x75u8, 0x65u8];
        let f: [u8; 5] = [0x66u8, 0x61u8, 0x6cu8, 0x73u8, 0x65u8];
        let n: [u8; 4] = [0x6eu8, 0x75u8, 0x6cu8, 0x6cu8];
        assert(t@ =~= seq![0x74u8, 0x72u8, 0x75u8, 0x65u8]);
        assert(f@ =~= seq![0x66u8, 0x61u8, 0x6cu8, 0x73u8, 0x65u8]);
        assert(n@ =~= seq![0x6eu8, 0x75u8, 0x6cu8, 0x6cu8]);
        if bytes_equal(lower.as_slice(), &t) || bytes_equal(lower.as_slice(), &f) || bytes_equal(
            lower.as_slice(),
            &n,
        ) {
            return None;
        }
    }
    Some(lower)
}

/// The fix is final: the lowercase keyword it proposes is not reported
/// again.
pub proof fn law_lowercase_fix_is_accepted(keyword: Seq<u8>, drupal: bool)
    ensures
        spec_lowercase_keyword(lowercased(keyword), drupal) is None,
{
    let l = lowercased(keyword);
    assert forall|k: int| 0 <= k < l.len() implies !is_ascii_uppercase(#[trigger] l[k]) by {
        assert(l[k] == ascii_lower(keyword[k]));
    }
}

} // verus!
