//! Docblock `@param` and `@return` tags that only repeat the native type
//! hint, with no description.
use vstd::prelude::*;

use crate::edit::Span;
use crate::text::chars_of;

verus! {

/// Whether `c` has the Unicode `White_Space` property.
pub uninterp spec fn has_white_space_property(c: char) -> bool;

/// Calls `char::is_whitespace`, which reports whether `c` has the Unicode
/// `White_Space` property. Among ASCII characters those are the space and
/// `\t`, `\n`, `\x0B`, `\x0C`, `\r`; nothing more of the Unicode tables is
/// stated.
#[verifier::external_body]
fn char_is_whitespace(c: char) -> (r: bool)
    ensures
        r == has_white_space_property(c),
        (c as u32) < 128 ==> (r <==> (c == ' ' || ('\t' <= c && c <= '\r'))),
{
    c.is_whitespace()
}

/// The first position at or after `i` that does not hold whitespace.
pub open spec fn skip_white(s: Seq<char>, i: int) -> int
    decreases s.len() - i,
{
    if 0 <= i < s.len() && has_white_space_property(s[i]) {
        skip_white(s, i + 1)
    } else {
        i
    }
}

/// The end of `s[..j]` once its trailing whitespace is dropped.
pub open spec fn trim_end_at(s: Seq<char>, j: int) -> int
    decreases j,
{
    if 0 < j <= s.len() && has_white_space_property(s[j - 1]) {
        trim_end_at(s, j - 1)
    } else {
        j
    }
}

/// `s` without its leading and trailing whitespace.
pub open spec fn trimmed(s: Seq<char>) -> Seq<char> {
    let a = skip_white(s, 0);
    let b = trim_end_at(s, s.len() as int);
    if a >= b {
        Seq::empty()
    } else {
        s.subrange(a, b)
    }
}

/// `s` without its leading and trailing whitespace.
pub fn trim_chars(s: &Vec<char>) -> (r: Vec<char>)
    ensures
        r@ == trimmed(s@),
{
    let mut a: usize = 0;
    while a < s.len() && char_is_whitespace(s[a])
        invariant
            a <= s.len(),
            skip_white(s@, a as int) == skip_white(s@, 0),
        decreases s.len() - a,
    {
        a += 1;
    }
    let mut b: usize = s.len();
    while b > 0 && char_is_whitespace(s[b - 1])
        invariant
            b <= s.len(),
            trim_end_at(s@, b as int) == trim_end_at(s@, s@.len() as int),
        decreases b,
    {
        b -= 1;
    }
    let mut r: Vec<char> = Vec::new();
    if a >= b {
        return r;
    }
    let mut k: usize = a;
    while k < b
        invariant
            a <= k <= b,
            b <= s.len(),
            r@ == s@.subrange(a as int, k as int),
        decreases b - k,
    {
        r.push(s[k]);
        k += 1;
        assert(r@ =~= s@.subrange(a as int, k as int));
    }
    r
}

/// The first position from `i` on where `p` occurs in `s`.
pub open spec fn find_from(s: Seq<char>, p: Seq<char>, i: int) -> Option<int>
    decreases s.len() + 1 - i,
{
    if i < 0 || i + p.len() > s.len() {
        None
    } else if s.subrange(i, i + p.len()) == p {
        Some(i)
    } else {
        find_from(s, p, i + 1)
    }
}

/// Whether `p` occurs in `s` at position `i`.
fn occurs_at(s: &Vec<char>, p: &Vec<char>, i: usize) -> (r: bool)
    requires
        i + p.len() <= s.len(),
    ensures
        r == (s@.subrange(i as int, i + p@.len()) == p@),
{
    let mut k: usize = 0;
    while k < p.len()
        invariant
            i + p.len() <= s.len(),
            k <= p.len(),
            forall|m: int| 0 <= m < k ==> s@[i + m] == p@[m],
        decreases p.len() - k,
    {
        if s[i + k] != p[k] {
            assert(s@.subrange(i as int, i + p@.len())[k as int] != p@[k as int]);
            return false;
        }
        k += 1;
    }
    assert(s@.subrange(i as int, i + p@.len()) =~= p@);
    true
}

/// The first position where `p` occurs in `s`.
pub fn find_chars(s: &Vec<char>, p: &Vec<char>) -> (r: Option<usize>)
    ensures
        match r {
            Some(i) => find_from(s@, p@, 0) == Some(i as int),
            None => find_from(s@, p@, 0) is None,
        },
{
    if p.len() > s.len() {
        return None;
    }
    if p.len() == 0 {
        assert(s@.subrange(0, 0) =~= p@);
        return Some(0);
    }
    let last = s.len() - p.len();
    let mut i: usize = 0;
    while i <= last
        invariant
            0 < p.len() <= s.len(),
            last == s.len() - p.len(),
            i <= last + 1,
            find_from(s@, p@, i as int) == find_from(s@, p@, 0),
        decreases last + 1 - i,
    {
        if occurs_at(s, p, i) {
            return Some(i);
        }
        i += 1;
    }
    None
}

/// The first position in `s` that holds whitespace.
pub open spec fn first_white_from(s: Seq<char>, i: int) -> Option<int>
    decreases s.len() - i,
{
    if i < 0 || i >= s.len() {
        None
    } else if has_white_space_property(s[i]) {
        Some(i)
    } else {
        first_white_from(s, i + 1)
    }
}

/// The code point of a character with ASCII letters lowercased.
pub open spec fn ascii_lower_char(c: char) -> u32 {
    if 'A' <= c && c <= 'Z' {
        (c as u32 + 32) as u32
    } else {
        c as u32
    }
}

/// Whether two texts are equal when ASCII letters are compared without
/// regard to case.
pub open spec fn eq_ignore_ascii_case_chars(a: Seq<char>, b: Seq<char>) -> bool {
    a.len() == b.len() && forall|k: int| 0 <= k < a.len() ==> #[trigger] ascii_lower_char(a[k]) == ascii_lower_char(b[k])
}

fn lower_char(c: char) -> (r: u32)
    ensures
        r == ascii_lower_char(c),
{
    if 'A' <= c && c <= 'Z' {
        c as u32 + 32
    } else {
        c as u32
    }
}

/// Whether two texts are equal without regard to ASCII case.
pub fn chars_eq_ignore_ascii_case(a: &Vec<char>, b: &Vec<char>) -> (r: bool)
    ensures
        r == eq_ignore_ascii_case_chars(a@, b@),
{
    if a.len() != b.len() {
        return false;
    }
    let mut k: usize = 0;
    while k < a.len()
        invariant
            a.len() == b.len(),
            k <= a.len(),
            forall|m: int| 0 <= m < k ==> #[trigger] ascii_lower_char(a@[m]) == ascii_lower_char(b@[m]),
        decreases a.len() - k,
    {
        if lower_char(a[k]) != lower_char(b[k]) {
            return false;
        }
        k += 1;
    }
    true
}

/// A native type hint, as far as its text is concerned.
#[derive(PartialEq, Eq, Debug)]
pub enum HintText {
    /// A class-like name, as written.
    Identifier { value: String },
    Nullable { inner: Box<HintText> },
    Union { left: Box<HintText>, right: Box<HintText> },
    Intersection { left: Box<HintText>, right: Box<HintText> },
    Parenthesized { inner: Box<HintText> },
    Null,
    True,
    False,
    Array,
    Callable,
    Static,
    SelfType,
    Parent,
    /// `void`, `never`, `float`, `bool`, `int`, `string`, `object`, `mixed`
    /// or `iterable`, as written.
    Keyword { value: String },
}

/// `s` without its leading backslashes.
pub open spec fn strip_leading_backslashes(s: Seq<char>) -> Seq<char>
    decreases s.len(),
{
    if s.len() > 0 && s[0] == '\\' {
        strip_leading_backslashes(s.skip(1))
    } else {
        s
    }
}

/// The text of a type hint: names without their leading `\`, and the
/// operators `?`, `|`, `&` and parentheses as in the source.
pub open spec fn hint_text(h: HintText) -> Seq<char>
    decreases h,
{
    match h {
        HintText::Identifier { value } => strip_leading_backslashes(value@),
        HintText::Nullable { inner } => seq!['?'] + hint_text(*inner),
        HintText::Union { left, right } => hint_text(*left) + seq!['|'] + hint_text(*right),
        HintText::Intersection { left, right } => hint_text(*left) + seq!['&'] + hint_text(*right),
        HintText::Parenthesized { inner } => seq!['('] + hint_text(*inner) + seq![')'],
        HintText::Null => seq!['n', 'u', 'l', 'l'],
        HintText::True => seq!['t', 'r', 'u', 'e'],
        HintText::False => seq!['f', 'a', 'l', 's', 'e'],
        HintText::Array => seq!['a', 'r', 'r', 'a', 'y'],
        HintText::Callable => seq!['c', 'a', 'l', 'l', 'a', 'b', 'l', 'e'],
        HintText::Static => seq!['s', 't', 'a', 't', 'i', 'c'],
        HintText::SelfType => seq!['s', 'e', 'l', 'f'],
        HintText::Parent => seq!['p', 'a', 'r', 'e', 'n', 't'],
        HintText::Keyword { value } => value@,
    }
}

fn push_all(out: &mut Vec<char>, cs: &[char])
    ensures
        final(out)@ == old(out)@ + cs@,
{
    let mut k: usize = 0;
    while k < cs.len()
        invariant
            k <= cs.len(),
            out@ == old(out)@ + cs@.take(k as int),
        decreases cs.len() - k,
    {
        out.push(cs[k]);
        assert(out@ =~= old(out)@ + cs@.take(k + 1));
        k += 1;
    }
    assert(cs@.take(k as int) =~= cs@);
}

/// Appends the text of a type hint.
fn push_hint_text(h: &HintText, out: &mut Vec<char>)
    ensures
        final(out)@ == old(out)@ + hint_text(*h),
    decreases h,
{
    match h {
        HintText::Identifier { value } => {
            let cs = chars_of(value.as_str());
            assert(cs@.skip(0) =~= cs@);
            let mut k: usize = 0;
            while k < cs.len() && cs[k] == '\\'
                invariant
                    k <= cs.len(),
                    cs@ == value@,
                    strip_leading_backslashes(cs@.skip(k as int)) == strip_leading_backslashes(value@),
                decreases cs.len() - k,
            {
                assert(cs@.skip(k as int).skip(1) =~= cs@.skip(k + 1));
                k += 1;
            }
            let ghost before = out@;
            let mut m: usize = k;
            while m < cs.len()
                invariant
                    k <= m <= cs.len(),
                    out@ == before + cs@.subrange(k as int, m as int),
                decreases cs.len() - m,
            {
                out.push(cs[m]);
                m += 1;
                assert(out@ =~= before + cs@.subrange(k as int, m as int));
            }
            assert(cs@.subrange(k as int, m as int) =~= cs@.skip(k as int));
        },
        HintText::Nullable { inner } => {
            out.push('?');
            push_hint_text(inner, out);
            assert(out@ =~= old(out)@ + hint_text(*h));
        },
        HintText::Union { left, right } => {
            push_hint_text(left, out);
            out.push('|');
            push_hint_text(right, out);
            assert(out@ =~= old(out)@ + hint_text(*h));
        },
        HintText::Intersection { left, right } => {
            push_hint_text(left, out);
            out.push('&');
            push_hint_text(right, out);
            assert(out@ =~= old(out)@ + hint_text(*h));
        },
        HintText::Parenthesized { inner } => {
            out.push('(');
            push_hint_text(inner, out);
            out.push(')');
            assert(out@ =~= old(out)@ + hint_text(*h));
        },
        HintText::Null => push_all(out, &['n', 'u', 'l', 'l']),
        HintText::True => push_all(out, &['t', 'r', 'u', 'e']),
        HintText::False => push_all(out, &['f', 'a', 'l', 's', 'e']),
        HintText::Array => push_all(out, &['a', 'r', 'r', 'a', 'y']),
        HintText::Callable => push_all(out, &['c', 'a', 'l', 'l', 'a', 'b', 'l', 'e']),
        HintText::Static => push_all(out, &['s', 't', 'a', 't', 'i', 'c']),
        HintText::SelfType => push_all(out, &['s', 'e', 'l', 'f']),
        HintText::Parent => push_all(out, &['p', 'a', 'r', 'e', 'n', 't']),
        HintText::Keyword { value } => {
            let cs = chars_of(value.as_str());
            push_all(out, cs.as_slice());
        },
    }
}

/// The text of a type hint.
pub fn hint_to_string(h: &HintText) -> (r: Vec<char>)
    ensures
        r@ == hint_text(*h),
{
    let mut out: Vec<char> = Vec::new();
    push_hint_text(h, &mut out);
    assert(out@ =~= hint_text(*h));
    out
}

/// The characters `s[a..b]`.
fn chars_subrange(s: &Vec<char>, a: usize, b: usize) -> (r: Vec<char>)
    requires
        a <= b <= s.len(),
    ensures
        r@ == s@.subrange(a as int, b as int),
{
    let mut r: Vec<char> = Vec::new();
    let mut k: usize = a;
    while k < b
        invariant
            a <= k <= b,
            b <= s.len(),
            r@ == s@.subrange(a as int, k as int),
        decreases b - k,
    {
        r.push(s[k]);
        k += 1;
        assert(r@ =~= s@.subrange(a as int, k as int));
    }
    r
}

/// Whether a `@param` description only repeats the parameter's native type:
/// once trimmed it is the type (compared without regard to ASCII case), the
/// parameter's name, and nothing after the name. A parameter without a type
/// hint, or an empty description, never makes the tag unnecessary.
pub open spec fn param_tag_unnecessary(description: Seq<char>, hint: Option<HintText>, name: Seq<char>) -> bool {
    match hint {
        None => false,
        Some(h) => {
            let d = trimmed(description);
            if d.len() == 0 {
                false
            } else {
                match find_from(d, name, 0) {
                    None => false,
                    Some(p) => trimmed(d.skip(p + name.len())).len() == 0 && eq_ignore_ascii_case_chars(
                        trimmed(d.take(p)),
                        hint_text(h),
                    ),
                }
            }
        },
    }
}

/// Whether a `@return` description only repeats the native return type:
/// once trimmed it is a single word equal to the type, without regard to
/// ASCII case.
pub open spec fn return_tag_unnecessary(description: Seq<char>, hint: HintText) -> bool {
    let d = trimmed(description);
    if d.len() == 0 {
        false
    } else {
        match first_white_from(d, 0) {
            Some(p) => trimmed(d.skip(p)).len() == 0 && eq_ignore_ascii_case_chars(d.take(p), hint_text(hint)),
            None => eq_ignore_ascii_case_chars(d, hint_text(hint)),
        }
    }
}

proof fn lemma_find_from(s: Seq<char>, p: Seq<char>, i: int)
    requires
        0 <= i,
    ensures
        match find_from(s, p, i) {
            Some(k) => i <= k && k + p.len() <= s.len(),
            None => true,
        },
    decreases s.len() + 1 - i,
{
    if i + p.len() <= s.len() && s.subrange(i, i + p.len()) != p {
        lemma_find_from(s, p, i + 1);
    }
}

/// Whether a `@param` description only repeats the native type of the
/// parameter named `name` (with its `$`).
pub fn is_param_tag_unnecessary(description: &str, hint: &Option<HintText>, name: &str) -> (r: bool)
    ensures
        r == param_tag_unnecessary(description@, *hint, name@),
{
    let h = match hint {
        Some(h) => h,
        None => return false,
    };
    let d = trim_chars(&chars_of(description));
    if d.len() == 0 {
        return false;
    }
    let n = chars_of(name);
    let found = find_chars(&d, &n);
    let p = match found {
        Some(p) => p,
        None => return false,
    };
    proof {
        lemma_find_from(d@, n@, 0);
    }
    let after = trim_chars(&chars_subrange(&d, p + n.len(), d.len()));
    assert(d@.subrange(p + n@.len(), d@.len() as int) =~= d@.skip(p + n@.len()));
    if after.len() != 0 {
        return false;
    }
    let type_part = trim_chars(&chars_subrange(&d, 0, p));
    assert(d@.subrange(0, p as int) =~= d@.take(p as int));
    let native = hint_to_string(h);
    chars_eq_ignore_ascii_case(&type_part, &native)
}

/// Whether a `@return` description only repeats the native return type.
pub fn is_return_tag_unnecessary(description: &str, hint: &HintText) -> (r: bool)
    ensures
        r == return_tag_unnecessary(description@, *hint),
{
    let d = trim_chars(&chars_of(description));
    if d.len() == 0 {
        return false;
    }
    let native = hint_to_string(hint);
    let mut k: usize = 0;
    while k < d.len() && !char_is_whitespace(d[k])
        invariant
            k <= d.len(),
            first_white_from(d@, k as int) == first_white_from(d@, 0),
        decreases d.len() - k,
    {
        k += 1;
    }
    if k < d.len() {
        let rest = trim_chars(&chars_subrange(&d, k, d.len()));
        assert(d@.subrange(k as int, d@.len() as int) =~= d@.skip(k as int));
        if rest.len() != 0 {
            return false;
        }
        let word = chars_subrange(&d, 0, k);
        assert(d@.subrange(0, k as int) =~= d@.take(k as int));
        chars_eq_ignore_ascii_case(&word, &native)
    } else {
        chars_eq_ignore_ascii_case(&d, &native)
    }
}

/// A parameter of the documented function: its native type hint, if any,
/// and its name with its `$`.
#[derive(PartialEq, Eq, Debug)]
pub struct DocParameter {
    pub hint: Option<HintText>,
    pub name: String,
}

/// The kinds of docblock tags the rule reads.
#[derive(Clone, Copy, PartialEq, Eq, Debug)]
pub enum DocTagKind {
    Param,
    Return,
    Other,
}

/// A docblock tag: its kind, its description (what follows the tag name)
/// and its span.
#[derive(PartialEq, Eq, Debug)]
pub struct DocTag {
    pub kind: DocTagKind,
    pub description: String,
    pub span: Span,
}

/// Whether the tag is reported: a `@param` tag that only repeats the type of
/// one of the parameters, or a `@return` tag that only repeats the native
/// return type.
pub open spec fn tag_unnecessary(t: DocTag, params: Seq<DocParameter>, return_hint: Option<HintText>) -> bool {
    match t.kind {
        DocTagKind::Param => exists|k: int|
            0 <= k < params.len() && #[trigger] param_tag_unnecessary(
                t.description@,
                params[k].hint,
                params[k].name@,
            ),
        DocTagKind::Return => match return_hint {
            Some(h) => return_tag_unnecessary(t.description@, h),
            None => false,
        },
        DocTagKind::Other => false,
    }
}

/// The reported tags among the first `n`, in order: their spans and kinds.
pub open spec fn unnecessary_tags(
    tags: Seq<DocTag>,
    params: Seq<DocParameter>,
    return_hint: Option<HintText>,
    n: int,
) -> Seq<(Span, DocTagKind)>
    decreases n,
{
    if n <= 0 {
        Seq::empty()
    } else {
        let rest = unnecessary_tags(tags, params, return_hint, n - 1);
        if tag_unnecessary(tags[n - 1], params, return_hint) {
            rest.push((tags[n - 1].span, tags[n - 1].kind))
        } else {
            rest
        }
    }
}

/// Whether a tag is reported.
fn is_tag_unnecessary(t: &DocTag, params: &Vec<DocParameter>, return_hint: &Option<HintText>) -> (r: bool)
    ensures
        r == tag_unnecessary(*t, params@, *return_hint),
{
    match t.kind {
        DocTagKind::Param => {
            let mut k: usize = 0;
            while k < params.len()
                invariant
                    k <= params.len(),
                    t.kind == DocTagKind::Param,
                    forall|m: int|
                        0 <= m < k ==> !#[trigger] param_tag_unnecessary(
                            t.description@,
                            params@[m].hint,
                            params@[m].name@,
                        ),
                decreases params.len() - k,
            {
                if is_param_tag_unnecessary(t.description.as_str(), &params[k].hint, params[k].name.as_str()) {
                    return true;
                }
                k += 1;
            }
            false
        },
        DocTagKind::Return => match return_hint {
            Some(h) => is_return_tag_unnecessary(t.description.as_str(), h),
            None => false,
        },
        DocTagKind::Other => false,
    }
}

/// Checks the tags of the docblock of a function or method with the given
/// parameters and native return type: the unnecessary tags, in order.
pub fn check_docblock_tags(tags: &Vec<DocTag>, params: &Vec<DocParameter>, return_hint: &Option<HintText>) -> (r: Vec<
    (Span, DocTagKind),
>)
    ensures
        r@ == unnecessary_tags(tags@, params@, *return_hint, tags.len() as int),
{
    let mut out: Vec<(Span, DocTagKind)> = Vec::new();
    let mut i: usize = 0;
    while i < tags.len()
        invariant
            i <= tags.len(),
            out@ == unnecessary_tags(tags@, params@, *return_hint, i as int),
        decreases tags.len() - i,
    {
        if is_tag_unnecessary(&tags[i], params, return_hint) {
            out.push((tags[i].span, tags[i].kind));
        }
        i += 1;
    }
    out
}

} // verus!
