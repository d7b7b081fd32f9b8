//! Placeholder analysis of `sprintf`-style format strings.
//!
//! A format string is scanned from left to right. `%%` is an escaped percent
//! sign, a `%` at the very end is ignored, and every other `%` starts a
//! placeholder: an optional argument position (`%2$s`), flags (`-`, `+`,
//! space, `0`, or `'` followed by a padding character), a width, an optional
//! precision and an optional conversion letter.
use vstd::prelude::*;

verus! {

// ---------------------------------------------------------------------------
// Model of the scanner
// ---------------------------------------------------------------------------

/// Whether `b` is an ASCII decimal digit.
pub open spec fn is_digit(b: u8) -> bool {
    0x30u8 <= b && b <= 0x39u8
}

/// Whether `b` is one of the flag bytes `-`, `+`, space and `0`.
pub open spec fn is_flag(b: u8) -> bool {
    b == 0x2du8 || b == 0x2bu8 || b == 0x20u8 || b == 0x30u8
}

/// Whether `b` is one of the conversion letters `s d u f F e E x X o b c`.
pub open spec fn is_conversion(b: u8) -> bool {
    b == 0x73u8 || b == 0x64u8 || b == 0x75u8 || b == 0x66u8 || b == 0x46u8 || b == 0x65u8
        || b == 0x45u8 || b == 0x78u8 || b == 0x58u8 || b == 0x6fu8 || b == 0x62u8 || b == 0x63u8
}

/// The end of the run of digits that starts at `i` (`i` itself when there is none).
pub open spec fn digit_run_end(s: Seq<u8>, i: int) -> int
    decreases s.len() - i,
{
    if 0 <= i < s.len() && is_digit(s[i]) {
        digit_run_end(s, i + 1)
    } else {
        i
    }
}

/// The decimal value of the digits `s[a..b]`.
pub open spec fn digits_value(s: Seq<u8>, a: int, b: int) -> nat
    decreases b - a,
{
    if b <= a {
        0
    } else {
        (digits_value(s, a, b - 1) * 10 + (s[b - 1] - 0x30u8)) as nat
    }
}

/// The value of the run of digits that starts at `i` (0 when there is none).
pub open spec fn run_value(s: Seq<u8>, i: int) -> nat {
    digits_value(s, i, digit_run_end(s, i))
}

/// The argument position written right after a `%` at `i - 1`, such as the `2`
/// of `%2$s`, with the index just past the `$`.
pub open spec fn position_at(s: Seq<u8>, i: int) -> Option<(nat, int)> {
    if 0 <= i < s.len() && is_digit(s[i]) {
        let j = digit_run_end(s, i);
        if j < s.len() && s[j] == 0x24u8 {
            Some((run_value(s, i), j + 1))
        } else {
            None
        }
    } else {
        None
    }
}

/// The index just past the flags that start at `i`. A `'` flag always takes
/// the following byte as its padding character, so this can be one past the end.
pub open spec fn flags_end(s: Seq<u8>, i: int) -> int
    decreases s.len() + 2 - i,
{
    if i < 0 || i >= s.len() {
        i
    } else if is_flag(s[i]) {
        flags_end(s, i + 1)
    } else if s[i] == 0x27u8 {
        flags_end(s, i + 2)
    } else {
        i
    }
}

/// The index just past the width (the digits after the flags).
pub open spec fn width_end(s: Seq<u8>, i: int) -> int {
    digit_run_end(s, flags_end(s, i))
}

/// The index just past the precision (a `.` and digits), if there is one.
pub open spec fn precision_end(s: Seq<u8>, i: int) -> int {
    let w = width_end(s, i);
    if 0 <= w < s.len() && s[w] == 0x2eu8 {
        digit_run_end(s, w + 1)
    } else {
        w
    }
}

/// The index just past the whole specification (flags, width, precision and
/// conversion letter) that starts at `i`.
pub open spec fn spec_end(s: Seq<u8>, i: int) -> int {
    let p = precision_end(s, i);
    if 0 <= p < s.len() && is_conversion(s[p]) {
        p + 1
    } else {
        p
    }
}

/// Where the specification of a placeholder whose `%` is at `i - 1` starts:
/// after its position when it has one.
pub open spec fn spec_start(s: Seq<u8>, i: int) -> int {
    match position_at(s, i) {
        Some((_, j)) => j,
        None => i,
    }
}

/// The argument position of the placeholder whose `%` is at `i - 1`, if any.
pub open spec fn position_of(s: Seq<u8>, i: int) -> Option<nat> {
    match position_at(s, i) {
        Some((p, _)) => Some(p),
        None => None,
    }
}

pub proof fn lemma_digit_run_end_bounds(s: Seq<u8>, i: int)
    ensures
        i <= digit_run_end(s, i),
        0 <= i <= s.len() ==> digit_run_end(s, i) <= s.len(),
        i > s.len() || i < 0 ==> digit_run_end(s, i) == i,
    decreases s.len() - i,
{
    if 0 <= i < s.len() && is_digit(s[i]) {
        lemma_digit_run_end_bounds(s, i + 1);
    }
}

pub proof fn lemma_flags_end_bounds(s: Seq<u8>, i: int)
    ensures
        i <= flags_end(s, i),
        0 <= i <= s.len() ==> flags_end(s, i) <= s.len() + 1,
        i > s.len() ==> flags_end(s, i) == i,
    decreases s.len() + 2 - i,
{
    if 0 <= i < s.len() {
        if is_flag(s[i]) {
            lemma_flags_end_bounds(s, i + 1);
        } else if s[i] == 0x27u8 {
            lemma_flags_end_bounds(s, i + 2);
        }
    }
}

pub proof fn lemma_spec_end_bounds(s: Seq<u8>, i: int)
    requires
        0 <= i <= s.len(),
    ensures
        i <= spec_end(s, i) <= s.len() + 1,
{
    lemma_flags_end_bounds(s, i);
    let f = flags_end(s, i);
    lemma_digit_run_end_bounds(s, f);
    let w = width_end(s, i);
    if 0 <= w < s.len() && s[w] == 0x2eu8 {
        lemma_digit_run_end_bounds(s, w + 1);
    }
}

pub proof fn lemma_spec_start_bounds(s: Seq<u8>, i: int)
    requires
        0 <= i <= s.len(),
    ensures
        i <= spec_start(s, i) <= s.len(),
{
    lemma_digit_run_end_bounds(s, i);
}

/// The placeholders of `s[i..]`, each given by its argument position (`None`
/// for a sequential placeholder such as `%s`).
pub open spec fn placeholders_from(s: Seq<u8>, i: int) -> Seq<Option<nat>>
    decreases s.len() + 2 - i,
{
    if i < 0 || i >= s.len() {
        Seq::empty()
    } else if s[i] != 0x25u8 {
        placeholders_from(s, i + 1)
    } else if i + 1 >= s.len() {
        Seq::empty()
    } else if s[i + 1] == 0x25u8 {
        placeholders_from(s, i + 2)
    } else {
        let next = spec_end(s, spec_start(s, i + 1));
        proof {
            lemma_spec_start_bounds(s, i + 1);
            lemma_spec_end_bounds(s, spec_start(s, i + 1));
        }
        seq![position_of(s, i + 1)] + placeholders_from(s, next)
    }
}

/// The placeholders of the whole format string, in order.
pub open spec fn placeholders(s: Seq<u8>) -> Seq<Option<nat>> {
    placeholders_from(s, 0)
}

/// How many placeholders take the next argument in turn.
pub open spec fn sequential_count(ph: Seq<Option<nat>>) -> nat
    decreases ph.len(),
{
    if ph.len() == 0 {
        0
    } else {
        (if ph[0] is None { 1nat } else { 0nat }) + sequential_count(ph.drop_first())
    }
}

/// Whether some placeholder names an argument position.
pub open spec fn has_positional(ph: Seq<Option<nat>>) -> bool {
    exists|k: int| 0 <= k < ph.len() && #[trigger] ph[k] is Some
}

/// The largest argument position named by a placeholder (0 when there is none).
pub open spec fn max_position(ph: Seq<Option<nat>>) -> nat
    decreases ph.len(),
{
    if ph.len() == 0 {
        0
    } else {
        let rest = max_position(ph.drop_first());
        match ph[0] {
            Some(p) => if p > rest { p } else { rest },
            None => rest,
        }
    }
}

/// How many values a call must pass after the format string: the number of
/// sequential placeholders, or, when some placeholder names a position, the
/// largest of that count and the highest position named.
pub open spec fn required_args(ph: Seq<Option<nat>>) -> nat {
    if has_positional(ph) {
        let m = max_position(ph);
        let c = sequential_count(ph);
        if m > c { m } else { c }
    } else {
        sequential_count(ph)
    }
}

/// Whether every number that the scanner reads in the placeholder whose `%`
/// is at `i - 1` (its position, width and precision) fits in a `usize`.
pub open spec fn placeholder_numbers_fit(s: Seq<u8>, i: int) -> bool {
    let j = spec_start(s, i);
    let w = width_end(s, j);
    &&& run_value(s, i) <= usize::MAX
    &&& run_value(s, flags_end(s, j)) <= usize::MAX
    &&& (0 <= w < s.len() && s[w] == 0x2eu8 ==> run_value(s, w + 1) <= usize::MAX)
}

/// Whether every number read while scanning `s[i..]` fits in a `usize`.
pub open spec fn numbers_fit_from(s: Seq<u8>, i: int) -> bool
    decreases s.len() + 2 - i,
{
    if i < 0 || i >= s.len() {
        true
    } else if s[i] != 0x25u8 {
        numbers_fit_from(s, i + 1)
    } else if i + 1 >= s.len() {
        true
    } else if s[i + 1] == 0x25u8 {
        numbers_fit_from(s, i + 2)
    } else {
        let next = spec_end(s, spec_start(s, i + 1));
        proof {
            lemma_spec_start_bounds(s, i + 1);
            lemma_spec_end_bounds(s, spec_start(s, i + 1));
        }
        placeholder_numbers_fit(s, i + 1) && numbers_fit_from(s, next)
    }
}

/// Whether every number in the placeholders of `s` fits in a `usize`; on other
/// strings the scanner's arithmetic would overflow.
pub open spec fn format_numbers_fit(s: Seq<u8>) -> bool {
    numbers_fit_from(s, 0)
}

// ---------------------------------------------------------------------------
// Lemmas about the model
// ---------------------------------------------------------------------------

proof fn lemma_digits_value_monotone(s: Seq<u8>, a: int, b: int, c: int)
    requires
        a <= b <= c,
        forall|k: int| a <= k < c ==> #[trigger] is_digit(s[k]),
    ensures
        digits_value(s, a, b) <= digits_value(s, a, c),
    decreases c - b,
{
    if b < c {
        lemma_digits_value_monotone(s, a, b, c - 1);
        assert(is_digit(s[c - 1]));
    }
}

proof fn lemma_run_is_digits(s: Seq<u8>, i: int, k: int)
    requires
        i <= k < digit_run_end(s, i),
    ensures
        0 <= k < s.len(),
        is_digit(s[k]),
    decreases s.len() - i,
{
    if 0 <= i < s.len() && is_digit(s[i]) {
        if k > i {
            lemma_run_is_digits(s, i + 1, k);
        }
    }
}

proof fn lemma_run_end_step(s: Seq<u8>, start: int, k: int)
    requires
        0 <= start <= k,
        k < s.len(),
        is_digit(s[k]),
        forall|m: int| start <= m < k ==> #[trigger] is_digit(s[m]),
    ensures
        digit_run_end(s, start) == digit_run_end(s, k + 1),
    decreases k - start,
{
    if start < k {
        lemma_run_end_step(s, start + 1, k);
    }
}

proof fn lemma_run_end_stop(s: Seq<u8>, start: int, k: int)
    requires
        0 <= start <= k <= s.len(),
        forall|m: int| start <= m < k ==> #[trigger] is_digit(s[m]),
        !(k < s.len() && is_digit(s[k])),
    ensures
        digit_run_end(s, start) == k,
    decreases k - start,
{
    if start < k {
        lemma_run_end_stop(s, start + 1, k);
    }
}

// ---------------------------------------------------------------------------
// Executable scanner
// ---------------------------------------------------------------------------

/// The counts that a format string asks for.
pub struct FormatInfo {
    /// How many placeholders the format string holds.
    pub placeholder_count: usize,
    /// How many values a call must pass for them.
    pub required_args: usize,
}

/// Reads the run of digits at `*i` in `bytes[..len]`, advances `*i` past it
/// and returns its value. Nothing at or after `len` is read.
pub fn parse_number(bytes: &[u8], i: &mut usize, len: usize) -> (n: usize)
    requires
        len <= bytes@.len(),
        run_value(bytes@.take(len as int), *old(i) as int) <= usize::MAX,
    ensures
        *final(i) as int == digit_run_end(bytes@.take(len as int), *old(i) as int),
        n == run_value(bytes@.take(len as int), *old(i) as int),
{
    let ghost s = bytes@.take(len as int);
    let ghost start = *i as int;
    let mut n: usize = 0;
    proof {
        lemma_digit_run_end_bounds(s, start);
    }
    while *i < len && bytes[*i] >= 0x30u8 && bytes[*i] <= 0x39u8
        invariant
            len == s.len(),
            len <= bytes@.len(),
            s == bytes@.take(len as int),
            start <= *i <= digit_run_end(s, start),
            forall|m: int| start <= m < *i ==> #[trigger] is_digit(s[m]),
            n == digits_value(s, start, *i as int),
            run_value(s, start) <= usize::MAX,
        decreases len - *i,
    {
        assert(s[*i as int] == bytes@[*i as int]);
        let d = bytes[*i] - 0x30u8;
        proof {
            lemma_run_end_step(s, start, *i as int);
            lemma_digit_run_end_bounds(s, *i as int + 1);
            assert forall|m: int| start <= m < digit_run_end(s, start) implies #[trigger] is_digit(
                s[m],
            ) by {
                lemma_run_is_digits(s, start, m);
            }
            lemma_digits_value_monotone(s, start, *i as int + 1, digit_run_end(s, start));
        }
        n = n * 10 + d as usize;
        *i = *i + 1;
    }
    proof {
        if *i < len {
            assert(s[*i as int] == bytes@[*i as int]);
        }
        if start <= s.len() {
            lemma_run_end_stop(s, start, *i as int);
        }
    }
    n
}

/// Reads an argument position such as the `2$` of `%2$s` at `*i` in
/// `bytes[..len]`. When there is one, advances `*i` past the `$` and returns
/// it; otherwise leaves `*i`. Nothing at or after `len` is read.
pub fn parse_position(bytes: &[u8], i: &mut usize, len: usize) -> (pos: Option<usize>)
    requires
        len <= bytes@.len(),
        *old(i) <= len,
        run_value(bytes@.take(len as int), *old(i) as int) <= usize::MAX,
    ensures
        pos == (match position_at(bytes@.take(len as int), *old(i) as int) {
            Some((p, _)) => Some(p as usize),
            None => None::<usize>,
        }),
        *final(i) as int == spec_start(bytes@.take(len as int), *old(i) as int),
{
    let ghost s = bytes@.take(len as int);
    if *i < len {
        assert(s[*i as int] == bytes@[*i as int]);
    }
    if *i >= len || !(bytes[*i] >= 0x30u8 && bytes[*i] <= 0x39u8) {
        return None;
    }
    let start = *i;
    let n = parse_number(bytes, i, len);
    proof {
        lemma_digit_run_end_bounds(s, start as int);
        if *i < len {
            assert(s[*i as int] == bytes@[*i as int]);
        }
    }
    if *i < len && bytes[*i] == 0x24u8 {
        *i = *i + 1;
        return Some(n);
    }
    *i = start;
    None
}

/// Advances `*i` past the flags of a placeholder in `bytes[..len]`. A `'`
/// flag takes the next byte with it, so `*i` can end one past `len`.
fn skip_flags(bytes: &[u8], i: &mut usize, len: usize)
    requires
        len <= bytes@.len(),
        len < usize::MAX,
        *old(i) <= len,
    ensures
        *final(i) as int == flags_end(bytes@.take(len as int), *old(i) as int),
        *final(i) <= len + 1,
{
    let ghost s = bytes@.take(len as int);
    let ghost start = *i as int;
    proof {
        lemma_flags_end_bounds(s, start);
    }
    loop
        invariant
            len == s.len(),
            len <= bytes@.len(),
            s == bytes@.take(len as int),
            len < usize::MAX,
            *i <= len + 1,
            flags_end(s, start) == flags_end(s, *i as int),
        ensures
            *i as int == flags_end(s, start),
        decreases len + 2 - *i,
    {
        if *i >= len {
            proof {
                return_flags_done(s, *i as int);
            }
            break;
        }
        assert(s[*i as int] == bytes@[*i as int]);
        let b = bytes[*i];
        if b == 0x2du8 || b == 0x2bu8 || b == 0x20u8 || b == 0x30u8 {
            *i = *i + 1;
        } else if b == 0x27u8 {
            *i = *i + 2;
            if *i > len {
                proof {
                    lemma_flags_end_bounds(s, *i as int);
                }
                break;
            }
        } else {
            break;
        }
    }
    proof {
        lemma_flags_end_bounds(s, start);
    }
}

/// Advances `*i` past the flags, width, precision and conversion letter of a
/// placeholder in `bytes[..len]`. Nothing at or after `len` is read.
pub fn skip_format_spec(bytes: &[u8], i: &mut usize, len: usize)
    requires
        len <= bytes@.len(),
        len < usize::MAX,
        *old(i) <= len,
        run_value(bytes@.take(len as int), flags_end(bytes@.take(len as int), *old(i) as int)) <= usize::MAX,
        ({
            let s = bytes@.take(len as int);
            let w = width_end(s, *old(i) as int);
            0 <= w < s.len() && s[w] == 0x2eu8 ==> run_value(s, w + 1) <= usize::MAX
        }),
    ensures
        *final(i) as int == spec_end(bytes@.take(len as int), *old(i) as int),
{
    let ghost s = bytes@.take(len as int);
    let ghost start = *i as int;
    skip_flags(bytes, i, len);
    proof {
        lemma_flags_end_bounds(s, start);
        lemma_digit_run_end_bounds(s, *i as int);
    }
    parse_number(bytes, i, len);
    if *i < len {
        assert(s[*i as int] == bytes@[*i as int]);
    }
    if *i < len && bytes[*i] == 0x2eu8 {
        *i = *i + 1;
        proof {
            lemma_digit_run_end_bounds(s, *i as int);
        }
        parse_number(bytes, i, len);
    }
    if *i < len {
        assert(s[*i as int] == bytes@[*i as int]);
        let c = bytes[*i];
        if c == 0x73u8 || c == 0x64u8 || c == 0x75u8 || c == 0x66u8 || c == 0x46u8 || c == 0x65u8
            || c == 0x45u8 || c == 0x78u8 || c == 0x58u8 || c == 0x6fu8 || c == 0x62u8 || c
            == 0x63u8 {
            *i = *i + 1;
        }
    }
}

/// Whether the run of digits at `at` in `bytes[..len]` has a value that fits
/// in a `usize`. Nothing at or after `len` is read.
fn run_fits(bytes: &[u8], at: usize, len: usize) -> (fits: bool)
    requires
        len <= bytes@.len(),
    ensures
        fits == (run_value(bytes@.take(len as int), at as int) <= usize::MAX),
{
    let ghost s = bytes@.take(len as int);
    let ghost start = at as int;
    proof {
        lemma_digit_run_end_bounds(s, start);
    }
    if at > len {
        return true;
    }
    let mut i: usize = at;
    let mut n: usize = 0;
    while i < len && bytes[i] >= 0x30u8 && bytes[i] <= 0x39u8
        invariant
            len == s.len(),
            len <= bytes@.len(),
            s == bytes@.take(len as int),
            start == at as int,
            start <= i <= digit_run_end(s, start),
            digit_run_end(s, start) <= len,
            forall|m: int| start <= m < i ==> #[trigger] is_digit(s[m]),
            n == digits_value(s, start, i as int),
        decreases len - i,
    {
        assert(s[i as int] == bytes@[i as int]);
        let d = bytes[i] - 0x30u8;
        proof {
            lemma_run_end_step(s, start, i as int);
            lemma_digit_run_end_bounds(s, i as int + 1);
            assert forall|m: int| start <= m < digit_run_end(s, start) implies #[trigger] is_digit(
                s[m],
            ) by {
                lemma_run_is_digits(s, start, m);
            }
            lemma_digits_value_monotone(s, start, i as int + 1, digit_run_end(s, start));
            assert(digits_value(s, start, i as int + 1) == n * 10 + d);
        }
        let tenfold = n.checked_mul(10);
        match tenfold {
            None => {
                assert(run_value(s, start) > usize::MAX);
                return false;
            },
            Some(m) => {
                match m.checked_add(d as usize) {
                    None => {
                        assert(run_value(s, start) > usize::MAX);
                        return false;
                    },
                    Some(v) => {
                        n = v;
                    },
                }
            },
        }
        i = i + 1;
    }
    proof {
        if i < len {
            assert(s[i as int] == bytes@[i as int]);
        }
        lemma_run_end_stop(s, start, i as int);
    }
    true
}

/// For a placeholder whose `%` is at `at - 1` in `bytes[..len]`: `None` when
/// one of its numbers does not fit in a `usize`, else the index just past it.
fn checked_placeholder_end(bytes: &[u8], at: usize, len: usize) -> (end: Option<usize>)
    requires
        len <= bytes@.len(),
        len < usize::MAX,
        at <= len,
    ensures
        ({
            let s = bytes@.take(len as int);
            &&& (end is Some) == placeholder_numbers_fit(s, at as int)
            &&& end is Some ==> end->0 as int == spec_end(s, spec_start(s, at as int))
        }),
{
    let ghost s = bytes@.take(len as int);
    if !run_fits(bytes, at, len) {
        return None;
    }
    let mut i: usize = at;
    parse_position(bytes, &mut i, len);
    let j: usize = i;
    proof {
        lemma_spec_start_bounds(s, at as int);
    }
    skip_flags(bytes, &mut i, len);
    if !run_fits(bytes, i, len) {
        return None;
    }
    if i <= len {
        parse_number(bytes, &mut i, len);
        if i < len {
            assert(s[i as int] == bytes@[i as int]);
            if bytes[i] == 0x2eu8 && !run_fits(bytes, i + 1, len) {
                return None;
            }
        }
    } else {
        proof {
            lemma_digit_run_end_bounds(s, i as int);
        }
    }
    let mut k: usize = j;
    skip_format_spec(bytes, &mut k, len);
    Some(k)
}

/// Whether every number in the placeholders of `format_str` fits in a `usize`,
/// which is what [`parse_format_string`] needs.
pub fn check_format_numbers(format_str: &[u8]) -> (fits: bool)
    requires
        format_str@.len() < usize::MAX,
    ensures
        fits == format_numbers_fit(format_str@),
{
    let bytes = format_str;
    let len = bytes.len();
    let ghost s = bytes@;
    assert(bytes@.take(len as int) =~= s);
    let mut i: usize = 0;
    while i < len
        invariant
            len == s.len(),
            s == format_str@,
            s == bytes@,
            bytes@.take(len as int) == s,
            len < usize::MAX,
            i <= len + 1,
            numbers_fit_from(s, 0) == numbers_fit_from(s, i as int),
        ensures
            i >= len,
            numbers_fit_from(s, 0) == numbers_fit_from(s, i as int),
        decreases len + 2 - i,
    {
        let ghost percent = i as int;
        if bytes[i] != 0x25u8 {
            i += 1;
            continue;
        }
        i += 1;
        if i >= len {
            assert(numbers_fit_from(s, percent));
            break;
        }
        if bytes[i] == 0x25u8 {
            i += 1;
            continue;
        }
        proof {
            lemma_spec_start_bounds(s, i as int);
            lemma_spec_end_bounds(s, spec_start(s, i as int));
            assert(numbers_fit_from(s, percent) == (placeholder_numbers_fit(s, i as int)
                && numbers_fit_from(s, spec_end(s, spec_start(s, i as int)))));
        }
        match checked_placeholder_end(bytes, i, len) {
            None => {
                return false;
            },
            Some(next) => {
                i = next;
            },
        }
    }
    assert(numbers_fit_from(s, i as int));
    true
}

proof fn lemma_cons_counts(x: Option<nat>, rest: Seq<Option<nat>>)
    ensures
        (seq![x] + rest).len() == rest.len() + 1,
        sequential_count(seq![x] + rest) == (if x is None { 1nat } else { 0nat })
            + sequential_count(rest),
        max_position(seq![x] + rest) == (match x {
            Some(p) => if p > max_position(rest) { p } else { max_position(rest) },
            None => max_position(rest),
        }),
        has_positional(seq![x] + rest) == (x is Some || has_positional(rest)),
{
    let whole = seq![x] + rest;
    assert(whole.drop_first() =~= rest);
    assert(whole[0] == x);
    if has_positional(rest) {
        let k = choose|k: int| 0 <= k < rest.len() && #[trigger] rest[k] is Some;
        assert(whole[k + 1] == rest[k]);
    }
    if has_positional(whole) {
        let k = choose|k: int| 0 <= k < whole.len() && #[trigger] whole[k] is Some;
        if k > 0 {
            assert(rest[k - 1] == whole[k]);
        }
    }
}

proof fn lemma_sequential_count_bound(ph: Seq<Option<nat>>)
    ensures
        sequential_count(ph) <= ph.len(),
    decreases ph.len(),
{
    if ph.len() > 0 {
        lemma_sequential_count_bound(ph.drop_first());
    }
}

proof fn lemma_no_positional_max(ph: Seq<Option<nat>>)
    requires
        !has_positional(ph),
    ensures
        max_position(ph) == 0,
    decreases ph.len(),
{
    if ph.len() > 0 {
        assert(!(ph[0] is Some));
        assert forall|k: int| 0 <= k < ph.drop_first().len() implies !(#[trigger] ph.drop_first()[k] is Some) by {
            assert(ph.drop_first()[k] == ph[k + 1]);
        }
        lemma_no_positional_max(ph.drop_first());
    }
}

proof fn lemma_placeholders_bound(s: Seq<u8>, i: int)
    requires
        0 <= i <= s.len() + 1,
    ensures
        placeholders_from(s, i).len() <= s.len() + 2 - i,
    decreases s.len() + 2 - i,
{
    if i < 0 || i >= s.len() {
    } else if s[i] != 0x25u8 {
        lemma_placeholders_bound(s, i + 1);
    } else if i + 1 >= s.len() {
    } else if s[i + 1] == 0x25u8 {
        lemma_placeholders_bound(s, i + 2);
    } else {
        lemma_spec_start_bounds(s, i + 1);
        lemma_spec_end_bounds(s, spec_start(s, i + 1));
        let next = spec_end(s, spec_start(s, i + 1));
        lemma_placeholders_bound(s, next);
        lemma_cons_counts(position_of(s, i + 1), placeholders_from(s, next));
    }
}

/// Scans `format_str` and counts its placeholders and the values that a call
/// must pass for them.
pub fn parse_format_string(format_str: &[u8]) -> (info: FormatInfo)
    requires
        format_str@.len() < usize::MAX,
        format_numbers_fit(format_str@),
    ensures
        info.placeholder_count == placeholders(format_str@).len(),
        info.required_args == required_args(placeholders(format_str@)),
{
    let bytes = format_str;
    let len = bytes.len();
    let ghost s = bytes@;
    assert(bytes@.take(len as int) =~= s);
    let ghost all = placeholders(s);
    let mut i: usize = 0;
    let mut placeholder_count: usize = 0;
    let mut max_pos: usize = 0;
    let mut has_positional_placeholder = false;
    let mut seq_count: usize = 0;
    proof {
        lemma_placeholders_bound(s, 0);
    }
    while i < len
        invariant
            len == s.len(),
            s == bytes@,
            bytes@.take(len as int) == s,
            len < usize::MAX,
            i <= len + 1,
            all == placeholders(s),
            numbers_fit_from(s, i as int),
            placeholder_count + placeholders_from(s, i as int).len() == all.len(),
            seq_count + sequential_count(placeholders_from(s, i as int)) == sequential_count(all),
            (has_positional_placeholder || has_positional(placeholders_from(s, i as int)))
                == has_positional(all),
            (if max_pos > max_position(placeholders_from(s, i as int)) {
                max_pos as nat
            } else {
                max_position(placeholders_from(s, i as int))
            }) == max_position(all),
            !has_positional_placeholder ==> max_pos == 0,
            seq_count <= placeholder_count,
            placeholder_count <= i,
            all.len() <= len + 2,
        ensures
            placeholder_count == all.len(),
            seq_count == sequential_count(all),
            has_positional_placeholder == has_positional(all),
            max_pos == max_position(all),
        decreases len + 2 - i,
    {
        if bytes[i] != 0x25u8 {
            i += 1;
            continue;
        }
        i += 1;
        if i >= len {
            break;
        }
        if bytes[i] == 0x25u8 {
            i += 1;
            continue;
        }
        let ghost at = i as int;
        let ghost rest = placeholders_from(s, spec_end(s, spec_start(s, at)));
        proof {
            lemma_spec_start_bounds(s, at);
            lemma_spec_end_bounds(s, spec_start(s, at));
            lemma_cons_counts(position_of(s, at), rest);
            lemma_sequential_count_bound(rest);
            lemma_flags_end_bounds(s, spec_start(s, at));
        }
        placeholder_count += 1;
        let pos = parse_position(bytes, &mut i, len);
        if let Some(p) = pos {
            has_positional_placeholder = true;
            if p > max_pos {
                max_pos = p;
            }
        } else {
            seq_count += 1;
        }
        skip_format_spec(bytes, &mut i, len);
    }
    proof {
        if !has_positional(all) {
            lemma_no_positional_max(all);
        }
    }
    let required_args = if has_positional_placeholder {
        if max_pos > seq_count { max_pos } else { seq_count }
    } else {
        seq_count
    };
    FormatInfo { placeholder_count, required_args }
}

// ---------------------------------------------------------------------------
// Laws
// ---------------------------------------------------------------------------

proof fn lemma_shift_digit_run_end(p: Seq<u8>, t: Seq<u8>, k: int)
    requires
        0 <= k,
    ensures
        digit_run_end(p + t, p.len() + k) == p.len() + digit_run_end(t, k),
    decreases t.len() - k,
{
    let s = p + t;
    if 0 <= k < t.len() {
        assert(s[p.len() + k] == t[k]);
        if is_digit(t[k]) {
            lemma_shift_digit_run_end(p, t, k + 1);
        }
    }
}

proof fn lemma_shift_digits_value(p: Seq<u8>, t: Seq<u8>, a: int, b: int)
    requires
        0 <= a,
        b <= t.len(),
    ensures
        digits_value(p + t, p.len() + a, p.len() + b) == digits_value(t, a, b),
    decreases b - a,
{
    if a < b {
        lemma_shift_digits_value(p, t, a, b - 1);
        assert((p + t)[p.len() + b - 1] == t[b - 1]);
    }
}

proof fn lemma_shift_run_value(p: Seq<u8>, t: Seq<u8>, k: int)
    requires
        0 <= k,
    ensures
        run_value(p + t, p.len() + k) == run_value(t, k),
{
    lemma_shift_digit_run_end(p, t, k);
    lemma_digit_run_end_bounds(t, k);
    if k <= t.len() {
        lemma_shift_digits_value(p, t, k, digit_run_end(t, k));
    }
}

proof fn lemma_shift_flags_end(p: Seq<u8>, t: Seq<u8>, k: int)
    requires
        0 <= k,
    ensures
        flags_end(p + t, p.len() + k) == p.len() + flags_end(t, k),
    decreases t.len() + 2 - k,
{
    if k < t.len() {
        assert((p + t)[p.len() + k] == t[k]);
        if is_flag(t[k]) {
            lemma_shift_flags_end(p, t, k + 1);
        } else if t[k] == 0x27u8 {
            lemma_shift_flags_end(p, t, k + 2);
        }
    }
}

proof fn lemma_shift_spec_end(p: Seq<u8>, t: Seq<u8>, k: int)
    requires
        0 <= k,
    ensures
        spec_end(p + t, p.len() + k) == p.len() + spec_end(t, k),
{
    let s = p + t;
    lemma_shift_flags_end(p, t, k);
    lemma_flags_end_bounds(t, k);
    let f = flags_end(t, k);
    lemma_shift_digit_run_end(p, t, f);
    lemma_digit_run_end_bounds(t, f);
    let w = width_end(t, k);
    if 0 <= w < t.len() {
        assert(s[p.len() + w] == t[w]);
    }
    if 0 <= w < t.len() && t[w] == 0x2eu8 {
        lemma_shift_digit_run_end(p, t, w + 1);
        lemma_digit_run_end_bounds(t, w + 1);
    }
    let q = precision_end(t, k);
    if 0 <= q < t.len() {
        assert(s[p.len() + q] == t[q]);
    }
}

proof fn lemma_shift_position(p: Seq<u8>, t: Seq<u8>, k: int)
    requires
        0 <= k,
    ensures
        position_of(p + t, p.len() + k) == position_of(t, k),
        spec_start(p + t, p.len() + k) == p.len() + spec_start(t, k),
{
    let s = p + t;
    if k < t.len() {
        assert(s[p.len() + k] == t[k]);
        lemma_shift_digit_run_end(p, t, k);
        lemma_digit_run_end_bounds(t, k);
        let j = digit_run_end(t, k);
        if j < t.len() {
            assert(s[p.len() + j] == t[j]);
        }
        lemma_shift_run_value(p, t, k);
    }
}

/// Whatever precedes the scanned part does not change the placeholders found
/// from there on.
proof fn lemma_shift_placeholders(p: Seq<u8>, t: Seq<u8>, k: int)
    requires
        0 <= k,
    ensures
        placeholders_from(p + t, p.len() + k) == placeholders_from(t, k),
    decreases t.len() + 2 - k,
{
    let s = p + t;
    if k >= t.len() {
    } else {
        assert(s[p.len() + k] == t[k]);
        if t[k] != 0x25u8 {
            lemma_shift_placeholders(p, t, k + 1);
        } else if k + 1 >= t.len() {
        } else {
            assert(s[p.len() + k + 1] == t[k + 1]);
            if t[k + 1] == 0x25u8 {
                lemma_shift_placeholders(p, t, k + 2);
            } else {
                lemma_shift_position(p, t, k + 1);
                lemma_spec_start_bounds(t, k + 1);
                lemma_shift_spec_end(p, t, spec_start(t, k + 1));
                lemma_spec_end_bounds(t, spec_start(t, k + 1));
                lemma_shift_placeholders(p, t, spec_end(t, spec_start(t, k + 1)));
            }
        }
    }
}

/// Whether `s` holds no `%` at all.
pub open spec fn has_no_percent(s: Seq<u8>) -> bool {
    forall|k: int| 0 <= k < s.len() ==> #[trigger] s[k] != 0x25u8
}

proof fn lemma_plain_prefix_skipped(s: Seq<u8>, n: int, k: int)
    requires
        0 <= k <= n <= s.len(),
        forall|m: int| 0 <= m < n ==> #[trigger] s[m] != 0x25u8,
    ensures
        placeholders_from(s, k) == placeholders_from(s, n),
    decreases n - k,
{
    if k < n {
        lemma_plain_prefix_skipped(s, n, k + 1);
    }
}

/// Text without a `%` in front of a format string adds no placeholder and
/// changes none of those that follow.
pub proof fn law_plain_prefix_adds_nothing(p: Seq<u8>, t: Seq<u8>)
    requires
        has_no_percent(p),
    ensures
        placeholders(p + t) == placeholders(t),
{
    let s = p + t;
    assert forall|m: int| 0 <= m < p.len() implies #[trigger] s[m] != 0x25u8 by {
        assert(s[m] == p[m]);
    }
    lemma_plain_prefix_skipped(s, p.len() as int, 0);
    lemma_shift_placeholders(p, t, 0);
}

/// A format string without a `%` has no placeholders and asks for no values.
pub proof fn law_no_percent_no_placeholders(s: Seq<u8>)
    requires
        has_no_percent(s),
    ensures
        placeholders(s).len() == 0,
        required_args(placeholders(s)) == 0,
{
    lemma_plain_prefix_skipped(s, s.len() as int, 0);
    assert(!has_positional(placeholders(s)));
}

/// An escaped percent sign `%%` in front of a format string adds no
/// placeholder and changes none of those that follow.
pub proof fn law_escaped_percent_adds_nothing(t: Seq<u8>)
    ensures
        placeholders(seq![0x25u8, 0x25u8] + t) == placeholders(t),
{
    let p = seq![0x25u8, 0x25u8];
    let s = p + t;
    assert(s[0] == 0x25u8);
    assert(s[1] == 0x25u8);
    assert(placeholders_from(s, 0) == placeholders_from(s, 2));
    lemma_shift_placeholders(p, t, 0);
}

proof fn lemma_all_sequential_count(ph: Seq<Option<nat>>)
    requires
        !has_positional(ph),
    ensures
        sequential_count(ph) == ph.len(),
    decreases ph.len(),
{
    if ph.len() > 0 {
        assert(!(ph[0] is Some));
        assert forall|k: int| 0 <= k < ph.drop_first().len() implies !(#[trigger] ph.drop_first()[k] is Some) by {
            assert(ph.drop_first()[k] == ph[k + 1]);
        }
        lemma_all_sequential_count(ph.drop_first());
    }
}

/// When no placeholder names a position, a call needs exactly one value per
/// placeholder.
pub proof fn law_sequential_needs_one_value_each(s: Seq<u8>)
    requires
        !has_positional(placeholders(s)),
    ensures
        required_args(placeholders(s)) == placeholders(s).len(),
{
    lemma_all_sequential_count(placeholders(s));
}

proof fn lemma_max_position_bounds(ph: Seq<Option<nat>>, k: int)
    requires
        0 <= k < ph.len(),
        ph[k] is Some,
    ensures
        ph[k]->0 <= max_position(ph),
    decreases ph.len(),
{
    if k > 0 {
        assert(ph.drop_first()[k - 1] == ph[k]);
        lemma_max_position_bounds(ph.drop_first(), k - 1);
    }
}

/// The values a format string asks for cover every placeholder: there are at
/// least as many as sequential placeholders, and at least as many as the
/// highest position any placeholder names.
pub proof fn law_required_args_cover_placeholders(s: Seq<u8>)
    ensures
        sequential_count(placeholders(s)) <= required_args(placeholders(s)),
        forall|k: int|
            0 <= k < placeholders(s).len() && (#[trigger] placeholders(s)[k]) is Some
                ==> placeholders(s)[k]->0 <= required_args(placeholders(s)),
        required_args(placeholders(s)) <= placeholders(s).len() || has_positional(placeholders(s)),
{
    let ph = placeholders(s);
    lemma_sequential_count_bound(ph);
    assert forall|k: int| 0 <= k < ph.len() && (#[trigger] ph[k]) is Some implies ph[k]->0
        <= required_args(ph) by {
        lemma_max_position_bounds(ph, k);
    }
}

proof fn return_flags_done(s: Seq<u8>, i: int)
    requires
        i >= s.len(),
    ensures
        flags_end(s, i) == i,
{
}

} // verus!
