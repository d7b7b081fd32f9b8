use vstd::prelude::*;

verus! {

/// Whether a byte is one of the whitespace bytes skipped between a statement and
/// the next token: space, tab, carriage return and line feed.
pub open spec fn is_skippable_whitespace(b: u8) -> bool {
    b == 0x20u8 || b == 0x09u8 || b == 0x0du8 || b == 0x0au8
}

/// The first position at or after `offset` that does not hold skippable
/// whitespace, or the length of `bytes` when there is none.
pub open spec fn next_non_whitespace(bytes: Seq<u8>, offset: int) -> int
    decreases bytes.len() - offset,
{
    if offset >= bytes.len() || !is_skippable_whitespace(bytes[offset]) {
        offset
    } else {
        next_non_whitespace(bytes, offset + 1)
    }
}

/// Finds the next non-whitespace position after `offset`, so that a deletion
/// that ends there also swallows the whitespace that follows a removed statement.
pub fn find_next_non_whitespace(bytes: &[u8], offset: u32) -> (pos: u32)
    requires
        bytes@.len() <= u32::MAX,
    ensures
        pos == next_non_whitespace(bytes@, offset as int),
{
    let mut pos: usize = offset as usize;
    while pos < bytes.len()
        invariant
            bytes@.len() <= u32::MAX,
            offset <= pos,
            pos <= bytes@.len() || pos == offset,
            next_non_whitespace(bytes@, offset as int) == next_non_whitespace(bytes@, pos as int),
        ensures
            next_non_whitespace(bytes@, offset as int) == pos,
            offset <= pos,
            pos <= bytes@.len() || pos == offset,
        decreases bytes@.len() - pos,
    {
        let b = bytes[pos];
        if b == 0x20u8 || b == 0x09u8 || b == 0x0du8 || b == 0x0au8 {
            pos += 1;
        } else {
            break;
        }
    }
    pos as u32
}

/// The characters of `s`, in order.
pub fn chars_of(s: &str) -> (v: Vec<char>)
    ensures
        v@ == s@,
{
    broadcast use vstd::string::group_string_axioms;

    let mut v: Vec<char> = Vec::new();
    for c in it: s.chars()
        invariant
            v@ == it.seq().take(it.index() as int),
            it.seq() == s@,
    {
        v.push(c);
        assert(v@ =~= it.seq().take(it.index() as int + 1));
    }
    assert(v@ =~= s@);
    v
}

/// Whether two character sequences are equal.
pub fn chars_equal(a: &Vec<char>, b: &Vec<char>) -> (r: bool)
    ensures
        r == (a@ == b@),
{
    if a.len() != b.len() {
        return false;
    }
    let mut k: usize = 0;
    while k < a.len()
        invariant
            a.len() == b.len(),
            k <= a.len(),
            forall|m: int| 0 <= m < k ==> a@[m] == b@[m],
        decreases a.len() - k,
    {
        if a[k] != b[k] {
            return false;
        }
        k += 1;
    }
    assert(a@ =~= b@);
    true
}

/// Whether two strings are equal.
pub fn str_equals(a: &str, b: &str) -> (r: bool)
    ensures
        r == (a@ == b@),
{
    let va = chars_of(a);
    let vb = chars_of(b);
    chars_equal(&va, &vb)
}

/// Whether `p` is a prefix of `s`.
pub open spec fn is_prefix<A>(p: Seq<A>, s: Seq<A>) -> bool {
    p.len() <= s.len() && s.subrange(0, p.len() as int) == p
}

/// Whether `p` is a suffix of `s`.
pub open spec fn is_suffix<A>(p: Seq<A>, s: Seq<A>) -> bool {
    p.len() <= s.len() && s.subrange(s.len() - p.len(), s.len() as int) == p
}

/// Whether the characters `s` start with the characters `p`.
pub fn chars_start_with(s: &Vec<char>, p: &Vec<char>) -> (r: bool)
    ensures
        r == is_prefix(p@, s@),
{
    if p.len() > s.len() {
        return false;
    }
    let mut k: usize = 0;
    while k < p.len()
        invariant
            p.len() <= s.len(),
            k <= p.len(),
            forall|m: int| 0 <= m < k ==> s@[m] == p@[m],
        decreases p.len() - k,
    {
        if s[k] != p[k] {
            assert(s@.subrange(0, p@.len() as int)[k as int] != p@[k as int]);
            return false;
        }
        k += 1;
    }
    assert(s@.subrange(0, p@.len() as int) =~= p@);
    true
}

/// Whether the string `s` starts with the string `p`.
pub fn str_starts_with(s: &str, p: &str) -> (r: bool)
    ensures
        r == is_prefix(p@, s@),
{
    let vs = chars_of(s);
    let vp = chars_of(p);
    chars_start_with(&vs, &vp)
}

/// Whether the bytes `s` end with the bytes `p`.
pub fn bytes_end_with(s: &[u8], p: &[u8]) -> (r: bool)
    ensures
        r == is_suffix(p@, s@),
{
    if p.len() > s.len() {
        return false;
    }
    let off = s.len() - p.len();
    let mut k: usize = 0;
    while k < p.len()
        invariant
            p@.len() <= s@.len(),
            off == s@.len() - p@.len(),
            s@.len() == s.len(),
            k <= p@.len(),
            forall|m: int| 0 <= m < k ==> s@[off + m] == p@[m],
        decreases p.len() - k,
    {
        if s[off + k] != p[k] {
            assert(s@.subrange(off as int, s@.len() as int)[k as int] != p@[k as int]);
            return false;
        }
        k += 1;
    }
    assert(s@.subrange(off as int, s@.len() as int) =~= p@);
    true
}

/// Whether two byte strings are equal.
pub fn bytes_equal(a: &[u8], b: &[u8]) -> (r: bool)
    ensures
        r == (a@ == b@),
{
    if a.len() != b.len() {
        return false;
    }
    let mut k: usize = 0;
    while k < a.len()
        invariant
            a@.len() == b@.len(),
            k <= a@.len(),
            forall|m: int| 0 <= m < k ==> a@[m] == b@[m],
        decreases a.len() - k,
    {
        if a[k] != b[k] {
            return false;
        }
        k += 1;
    }
    assert(a@ =~= b@);
    true
}

/// Whether `p` occurs in `s` as a contiguous part.
pub open spec fn contains_seq<A>(s: Seq<A>, p: Seq<A>) -> bool {
    exists|i: int| 0 <= i && i + p.len() <= s.len() && #[trigger] s.subrange(i, i + p.len()) == p
}

/// Whether the characters `p` occur in the characters `s`.
pub fn chars_contain(s: &Vec<char>, p: &Vec<char>) -> (r: bool)
    ensures
        r == contains_seq(s@, p@),
{
    if p.len() > s.len() {
        return false;
    }
    let last = s.len() - p.len();
    let mut i: usize = 0;
    while i <= last
        invariant
            p@.len() <= s@.len(),
            last == s@.len() - p@.len(),
            s@.len() == s.len(),
            i <= last,
            forall|j: int| 0 <= j < i ==> #[trigger] s@.subrange(j, j + p@.len()) != p@,
        ensures
            forall|j: int| 0 <= j <= last ==> #[trigger] s@.subrange(j, j + p@.len()) != p@,
        decreases last - i,
    {
        let mut k: usize = 0;
        let mut matched = true;
        while k < p.len()
            invariant
                p@.len() <= s@.len(),
                s@.len() == s.len(),
                i <= last,
                last == s@.len() - p@.len(),
                k <= p@.len(),
                matched ==> forall|m: int| 0 <= m < k ==> s@[i + m] == p@[m],
                !matched ==> s@.subrange(i as int, i + p@.len()) != p@,
            decreases p.len() - k,
        {
            if matched && s[i + k] != p[k] {
                assert(s@.subrange(i as int, i + p@.len())[k as int] != p@[k as int]);
                matched = false;
            }
            k += 1;
        }
        if matched {
            assert(s@.subrange(i as int, i + p@.len()) =~= p@);
            return true;
        }
        if i == last {
            break;
        }
        i += 1;
    }
    proof {
        assert forall|j: int| 0 <= j && j + p@.len() <= s@.len() implies #[trigger] s@.subrange(j, j + p@.len()) != p@ by {
            assert(j <= last);
        }
    }
    false
}

/// Whether the string `p` occurs in the string `s`.
pub fn str_contains(s: &str, p: &str) -> (r: bool)
    ensures
        r == contains_seq(s@, p@),
{
    let vs = chars_of(s);
    let vp = chars_of(p);
    chars_contain(&vs, &vp)
}

/// The bytes `s[a..b]`.
pub fn bytes_subrange(s: &[u8], a: usize, b: usize) -> (v: Vec<u8>)
    requires
        a <= b <= s@.len(),
    ensures
        v@ == s@.subrange(a as int, b as int),
{
    let mut v: Vec<u8> = Vec::new();
    let mut k: usize = a;
    while k < b
        invariant
            a <= k <= b,
            b <= s@.len(),
            v@ == s@.subrange(a as int, k as int),
        decreases b - k,
    {
        v.push(s[k]);
        k += 1;
        assert(v@ =~= s@.subrange(a as int, k as int));
    }
    v
}

/// The index of the first byte at or after `i` that is not `b`.
pub open spec fn skip_byte_from(s: Seq<u8>, b: u8, i: int) -> int
    decreases s.len() - i,
{
    if 0 <= i < s.len() && s[i] == b {
        skip_byte_from(s, b, i + 1)
    } else {
        i
    }
}

/// `s` without its leading bytes `b`.
pub open spec fn trim_leading(s: Seq<u8>, b: u8) -> Seq<u8> {
    s.skip(skip_byte_from(s, b, 0))
}

proof fn lemma_skip_byte_from_bounds(s: Seq<u8>, b: u8, i: int)
    requires
        0 <= i <= s.len(),
    ensures
        i <= skip_byte_from(s, b, i) <= s.len(),
    decreases s.len() - i,
{
    if i < s.len() && s[i] == b {
        lemma_skip_byte_from_bounds(s, b, i + 1);
    }
}

/// The bytes of `s` after its leading bytes `b`.
pub fn trim_leading_byte(s: &[u8], b: u8) -> (v: Vec<u8>)
    ensures
        v@ == trim_leading(s@, b),
{
    let mut k: usize = 0;
    proof {
        lemma_skip_byte_from_bounds(s@, b, 0);
    }
    while k < s.len() && s[k] == b
        invariant
            k <= s@.len(),
            skip_byte_from(s@, b, 0) == skip_byte_from(s@, b, k as int),
        decreases s@.len() - k,
    {
        k += 1;
    }
    let v = bytes_subrange(s, k, s.len());
    assert(v@ =~= s@.skip(k as int));
    v
}

/// The index of the last byte `b` in `s[..n]`.
pub open spec fn rposition_in(s: Seq<u8>, b: u8, n: int) -> Option<int>
    decreases n,
{
    if n <= 0 {
        None
    } else if s[n - 1] == b {
        Some(n - 1)
    } else {
        rposition_in(s, b, n - 1)
    }
}

/// The index of the last byte `b` in `s`.
pub open spec fn rposition(s: Seq<u8>, b: u8) -> Option<int> {
    rposition_in(s, b, s.len() as int)
}

pub proof fn lemma_rposition_in(s: Seq<u8>, b: u8, n: int)
    requires
        0 <= n <= s.len(),
    ensures
        match rposition_in(s, b, n) {
            Some(k) => 0 <= k < n && s[k] == b && forall|m: int| k < m < n ==> #[trigger] s[m] != b,
            None => forall|m: int| 0 <= m < n ==> #[trigger] s[m] != b,
        },
    decreases n,
{
    if n > 0 && s[n - 1] != b {
        lemma_rposition_in(s, b, n - 1);
    }
}

/// Calls `memchr::memrchr`, which returns the index of the last occurrence of
/// `needle` in `haystack` (as `haystack.iter().rposition(|&b| b == needle)`
/// would), or `None` when there is none.
#[verifier::external_body]
pub(crate) fn last_byte_position(needle: u8, haystack: &[u8]) -> (r: Option<usize>)
    ensures
        r == (match rposition(haystack@, needle) {
            Some(k) => Some(k as usize),
            None => None::<usize>,
        }),
{
    memchr::memrchr(needle, haystack)
}

/// Whether the byte `b` occurs in `s`.
pub fn bytes_contain(s: &[u8], b: u8) -> (r: bool)
    ensures
        r == s@.contains(b),
{
    let mut k: usize = 0;
    while k < s.len()
        invariant
            k <= s@.len(),
            forall|m: int| 0 <= m < k ==> s@[m] != b,
        decreases s@.len() - k,
    {
        if s[k] == b {
            assert(s@[k as int] == b);
            return true;
        }
        k += 1;
    }
    false
}

/// The ASCII lower case of a byte.
pub open spec fn ascii_lower(b: u8) -> u8 {
    if 0x41u8 <= b && b <= 0x5au8 {
        (b + 0x20u8) as u8
    } else {
        b
    }
}

/// Whether two byte strings are equal when ASCII letters are compared
/// without regard to case.
pub open spec fn eq_ignore_ascii_case(a: Seq<u8>, b: Seq<u8>) -> bool {
    a.len() == b.len() && forall|k: int| 0 <= k < a.len() ==> #[trigger] ascii_lower(a[k]) == ascii_lower(b[k])
}

/// Compares two byte strings without regard to ASCII case.
pub fn bytes_eq_ignore_ascii_case(a: &[u8], b: &[u8]) -> (r: bool)
    ensures
        r == eq_ignore_ascii_case(a@, b@),
{
    if a.len() != b.len() {
        return false;
    }
    let mut k: usize = 0;
    while k < a.len()
        invariant
            a@.len() == b@.len(),
            k <= a@.len(),
            forall|m: int| 0 <= m < k ==> #[trigger] ascii_lower(a@[m]) == ascii_lower(b@[m]),
        decreases a@.len() - k,
    {
        let x = a[k];
        let y = b[k];
        let lx = if x >= 0x41u8 && x <= 0x5au8 { x + 0x20u8 } else { x };
        let ly = if y >= 0x41u8 && y <= 0x5au8 { y + 0x20u8 } else { y };
        if lx != ly {
            assert(ascii_lower(a@[k as int]) != ascii_lower(b@[k as int]));
            return false;
        }
        k += 1;
    }
    true
}

/// The bytes of an ASCII text.
pub open spec fn ascii(s: Seq<char>) -> Seq<u8> {
    s.map_values(|c: char| c as u8)
}

/// The bytes of an ASCII string.
pub fn ascii_bytes(s: &str) -> (b: &[u8])
    requires
        vstd::string::is_ascii(s),
    ensures
        b@ == ascii(s@),
{
    broadcast use vstd::string::is_ascii_spec_bytes;

    let b = s.as_bytes();
    assert(b@ =~= ascii(s@));
    b
}

} // verus!
