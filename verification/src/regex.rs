//! The `e` (evaluate) modifier of `preg_replace` patterns.
use vstd::prelude::*;

use crate::text::chars_of;

verus! {

/// The index of the last occurrence of the opening delimiter `c[0]`, when that
/// occurrence is not the opening delimiter itself.
pub open spec fn closing_delimiter(c: Seq<char>) -> Option<int> {
    if c.len() > 0 && exists|k: int| 0 < k < c.len() && #[trigger] c[k] == c[0] {
        Some(
            choose|k: int|
                0 < k < c.len() && #[trigger] c[k] == c[0] && forall|m: int| k < m < c.len() ==> #[trigger] c[m] != c[0],
        )
    } else {
        None
    }
}

/// Whether a pattern `<delimiter><pattern><delimiter><modifiers>` has an `e`
/// among the modifiers after its closing delimiter (the last occurrence of the
/// opening one).
pub open spec fn spec_has_executable_modifier(c: Seq<char>) -> bool {
    match closing_delimiter(c) {
        Some(k) => exists|m: int| k < m < c.len() && #[trigger] c[m] == 'e',
        None => false,
    }
}

/// Checks if a regex pattern string contains the `e` modifier.
pub fn has_executable_modifier(pattern: &str) -> (r: bool)
    ensures
        r == spec_has_executable_modifier(pattern@),
{
    let c = chars_of(pattern);
    if c.len() == 0 {
        return false;
    }
    let delimiter = c[0];
    let mut last: usize = c.len() - 1;
    while last > 0 && c[last] != delimiter
        invariant
            last < c@.len(),
            c@.len() > 0,
            delimiter == c@[0],
            forall|m: int| last < m < c@.len() ==> c@[m] != delimiter,
        decreases last,
    {
        last -= 1;
    }
    if last == 0 {
        assert(!(exists|k: int| 0 < k < c@.len() && #[trigger] c@[k] == c@[0]));
        return false;
    }
    let ghost k = last as int;
    assert(0 < k < c@.len() && c@[k] == c@[0] && forall|m: int| k < m < c@.len() ==> #[trigger] c@[m] != c@[0]);
    let ghost chosen = closing_delimiter(c@)->0;
    assert(chosen == k) by {
        if chosen < k {
            assert(c@[k] != c@[0]);
        } else if chosen > k {
            assert(c@[chosen] != c@[0]);
        }
    }
    let mut m: usize = last + 1;
    while m < c.len()
        invariant
            last < m <= c@.len(),
            k == last,
            chosen == k,
            c@ == pattern@,
            closing_delimiter(c@) == Some(k),
            forall|j: int| last < j < m ==> c@[j] != 'e',
        decreases c@.len() - m,
    {
        if c[m] == 'e' {
            assert(k < m < c@.len() && c@[m as int] == 'e');
            return true;
        }
        m += 1;
    }
    false
}

/// Whether a call is reported: a call of `preg_replace` (the name as
/// resolved in its namespace) whose first argument, positional or named, is
/// a string literal with the `e` modifier.
pub open spec fn spec_preg_replace_uses_e(is_preg_replace: bool, first_argument: Option<Seq<char>>) -> bool {
    is_preg_replace && match first_argument {
        Some(p) => spec_has_executable_modifier(p),
        None => false,
    }
}

/// Checks a function call; `first_argument` is the value of its first
/// argument when that is a string literal.
pub fn check_preg_replace(is_preg_replace: bool, first_argument: Option<&str>) -> (r: bool)
    ensures
        r == spec_preg_replace_uses_e(
            is_preg_replace,
            match first_argument {
                Some(p) => Some(p@),
                None => None,
            },
        ),
{
    if !is_preg_replace {
        return false;
    }
    match first_argument {
        Some(p) => has_executable_modifier(p),
        None => false,
    }
}

} // verus!
