//! Unused imports: `use` statements whose items are never referenced.
use vstd::prelude::*;

use crate::docblock_tags::{
    ascii_lower_char, chars_eq_ignore_ascii_case, eq_ignore_ascii_case_chars, strip_leading_backslashes,
};
use crate::edit::Span;
use crate::text::{chars_contain, chars_of, contains_seq};

verus! {

/// What an imported item is.
#[derive(Clone, Copy, PartialEq, Eq, Debug)]
pub enum ImportType {
    ClassOrNamespace,
    Function,
    Constant,
}

/// The form of a `use` statement.
#[derive(PartialEq, Eq, Debug)]
pub enum UseForm {
    /// `use A\B, C\D;`
    Sequence,
    /// `use function A\f, B\g;` (or `use const ...`).
    TypedSequence { function: bool },
    /// `use A\{B, function f, const C};`: the namespace prefix.
    MixedList { prefix: String, list_span: Span },
    /// `use function A\{f, g};` (or `use const ...`).
    TypedList { prefix: String, function: bool },
}

/// An item of a `use` statement.
#[derive(PartialEq, Eq, Debug)]
pub struct UseItemShape {
    /// The name as written.
    pub name: String,
    /// The alias after `as`, if any.
    pub alias: Option<String>,
    /// In a mixed list, `Some(true)` for `function`, `Some(false)` for
    /// `const`, `None` otherwise.
    pub item_type: Option<bool>,
    /// The item's span, and the span of its list entry (with its `function`
    /// or `const` keyword in a mixed list).
    pub span: Span,
    pub entry_span: Span,
}

/// A `use` statement: its span, its form, its items and the commas between
/// them.
#[derive(PartialEq, Eq, Debug)]
pub struct UseStatementShape {
    pub span: Span,
    pub form: UseForm,
    pub items: Vec<UseItemShape>,
    pub commas: Vec<Span>,
}

/// The last segment of a name: what follows its last `\`.
pub open spec fn last_name_segment(name: Seq<char>) -> Seq<char>
    decreases name.len(),
{
    if name.len() == 0 {
        name
    } else if name.last() == '\\' {
        Seq::empty()
    } else {
        last_name_segment(name.drop_last()).push(name.last())
    }
}

/// The name under which an item is referenced: its alias, or the last
/// segment of its name.
pub open spec fn alias_of(item: UseItemShape) -> Seq<char> {
    match item.alias {
        Some(a) => a@,
        None => last_name_segment(item.name@),
    }
}

/// What an item imports.
pub open spec fn import_type_of(form: UseForm, item: UseItemShape) -> ImportType {
    match form {
        UseForm::Sequence => ImportType::ClassOrNamespace,
        UseForm::TypedSequence { function } | UseForm::TypedList { function, .. } => if function {
            ImportType::Function
        } else {
            ImportType::Constant
        },
        UseForm::MixedList { .. } => match item.item_type {
            Some(true) => ImportType::Function,
            Some(false) => ImportType::Constant,
            None => ImportType::ClassOrNamespace,
        },
    }
}

/// The fully qualified name an item imports, without a leading `\`.
pub open spec fn fqn_of(form: UseForm, item: UseItemShape) -> Seq<char> {
    match form {
        UseForm::Sequence | UseForm::TypedSequence { .. } => strip_leading_backslashes(item.name@),
        UseForm::MixedList { prefix, .. } | UseForm::TypedList { prefix, .. } => strip_leading_backslashes(prefix@)
            + seq!['\\'] + item.name@,
    }
}

/// Whether `p` starts `s`, comparing ASCII letters without regard to case.
pub open spec fn starts_with_ignore_ascii_case(s: Seq<char>, p: Seq<char>) -> bool {
    p.len() <= s.len() && eq_ignore_ascii_case_chars(s.take(p.len() as int), p)
}

/// What the file shows of the names it uses: the fully qualified names its
/// references resolve to, the texts of its docblocks, and its inline HTML
/// (only read for Tempest views).
pub struct UsageView {
    pub used_fqns: Seq<Seq<char>>,
    pub docblocks: Seq<Seq<char>>,
    pub inline: Seq<Seq<char>>,
}

/// Whether an item is used: its alias is mentioned in a docblock or in
/// inline HTML, a used name equals what it imports, or, for a class or
/// namespace, a used name lies inside it.
pub open spec fn item_used(form: UseForm, item: UseItemShape, u: UsageView) -> bool {
    let alias = alias_of(item);
    let fqn = fqn_of(form, item);
    (exists|k: int| 0 <= k < u.docblocks.len() && contains_seq(#[trigger] u.docblocks[k], alias)) || (exists|k: int|
        0 <= k < u.inline.len() && contains_seq(#[trigger] u.inline[k], alias)) || (exists|k: int|
        0 <= k < u.used_fqns.len() && eq_ignore_ascii_case_chars(#[trigger] u.used_fqns[k], fqn)) || (import_type_of(
        form,
        item,
    ) is ClassOrNamespace && exists|k: int|
        0 <= k < u.used_fqns.len() && starts_with_ignore_ascii_case(#[trigger] u.used_fqns[k], fqn + seq!['\\']))
}

/// The span to delete to remove the item at position `index` from its
/// statement: the whole statement (or, in a mixed list, the whole list)
/// when it is the only item, else its entry together with the comma before
/// it, or after it for the first item.
pub open spec fn item_deletion(st: UseStatementShape, index: int) -> Span {
    let n = st.items.len();
    let e = st.items@[index].entry_span;
    if n == 1 {
        match st.form {
            UseForm::MixedList { list_span, .. } => list_span,
            _ => st.span,
        }
    } else if index > 0 {
        Span { start: st.commas@[index - 1].start, end: e.end }
    } else {
        Span { start: e.start, end: st.commas@[0].end }
    }
}

/// What the rule reports of a `use` statement.
#[derive(PartialEq, Eq, Debug)]
pub enum UnusedImports {
    AllUsed,
    /// Every item is unused: the statement is deleted.
    AllUnused { delete: Span },
    /// Some items are unused: their positions, and the spans to delete,
    /// last item first.
    SomeUnused { unused: Vec<usize>, deletions: Vec<Span> },
}

/// The positions of the unused items among the first `n`.
pub open spec fn unused_positions(st: UseStatementShape, u: UsageView, n: int) -> Seq<usize>
    decreases n,
{
    if n <= 0 {
        Seq::empty()
    } else {
        let rest = unused_positions(st, u, n - 1);
        if item_used(st.form, st.items@[n - 1], u) {
            rest
        } else {
            rest.push((n - 1) as usize)
        }
    }
}

/// What the rule reports of a `use` statement.
pub open spec fn spec_unused_imports(st: UseStatementShape, u: UsageView) -> (Seq<usize>, Option<Span>, Seq<Span>) {
    let unused = unused_positions(st, u, st.items.len() as int);
    if unused.len() == 0 {
        (unused, None, Seq::empty())
    } else if unused.len() == st.items.len() {
        (unused, Some(st.span), Seq::empty())
    } else {
        (unused, None, unused.reverse().map_values(|i: usize| item_deletion(st, i as int)))
    }
}

/// The usage facts of a file, as strings.
#[derive(PartialEq, Eq, Debug)]
pub struct Usage {
    pub used_fqns: Vec<String>,
    pub docblocks: Vec<String>,
    pub inline: Vec<String>,
}

/// The texts of some strings.
pub open spec fn texts(v: Seq<String>) -> Seq<Seq<char>> {
    v.map_values(|s: String| s@)
}

/// The plain values of the usage facts.
pub open spec fn usage_view(u: Usage) -> UsageView {
    UsageView { used_fqns: texts(u.used_fqns@), docblocks: texts(u.docblocks@), inline: texts(u.inline@) }
}

/// The last segment of a name.
fn last_segment_of(name: &Vec<char>) -> (r: Vec<char>)
    ensures
        r@ == last_name_segment(name@),
{
    let mut i: usize = name.len();
    assert(name@.take(i as int) =~= name@);
    assert(name@.subrange(i as int, name@.len() as int) =~= Seq::<char>::empty());
    while i > 0 && name[i - 1] != '\\'
        invariant
            i <= name.len(),
            last_name_segment(name@) == last_name_segment(name@.take(i as int)) + name@.subrange(
                i as int,
                name@.len() as int,
            ),
        decreases i,
    {
        assert(name@.take(i as int).drop_last() =~= name@.take(i - 1));
        assert(name@.subrange(i - 1, name@.len() as int) =~= seq![name@[i - 1]] + name@.subrange(
            i as int,
            name@.len() as int,
        ));
        i -= 1;
    }
    let mut r: Vec<char> = Vec::new();
    let mut k: usize = i;
    while k < name.len()
        invariant
            i <= k <= name.len(),
            r@ == name@.subrange(i as int, k as int),
        decreases name.len() - k,
    {
        r.push(name[k]);
        k += 1;
        assert(r@ =~= name@.subrange(i as int, k as int));
    }
    r
}

/// `s` without its leading backslashes.
fn strip_backslashes(s: &Vec<char>) -> (r: Vec<char>)
    ensures
        r@ == strip_leading_backslashes(s@),
{
    let mut k: usize = 0;
    assert(s@.skip(0) =~= s@);
    while k < s.len() && s[k] == '\\'
        invariant
            k <= s.len(),
            strip_leading_backslashes(s@.skip(k as int)) == strip_leading_backslashes(s@),
        decreases s.len() - k,
    {
        assert(s@.skip(k as int).skip(1) =~= s@.skip(k + 1));
        k += 1;
    }
    let mut r: Vec<char> = Vec::new();
    let mut m: usize = k;
    while m < s.len()
        invariant
            k <= m <= s.len(),
            r@ == s@.subrange(k as int, m as int),
        decreases s.len() - m,
    {
        r.push(s[m]);
        m += 1;
        assert(r@ =~= s@.subrange(k as int, m as int));
    }
    assert(s@.subrange(k as int, m as int) =~= s@.skip(k as int));
    r
}

/// The name under which an item is referenced.
fn alias_chars(item: &UseItemShape) -> (r: Vec<char>)
    ensures
        r@ == alias_of(*item),
{
    match &item.alias {
        Some(a) => chars_of(a.as_str()),
        None => last_segment_of(&chars_of(item.name.as_str())),
    }
}

/// What an item imports.
fn import_type(form: &UseForm, item: &UseItemShape) -> (r: ImportType)
    ensures
        r == import_type_of(*form, *item),
{
    match form {
        UseForm::Sequence => ImportType::ClassOrNamespace,
        UseForm::TypedSequence { function } => if *function {
            ImportType::Function
        } else {
            ImportType::Constant
        },
        UseForm::TypedList { function, .. } => if *function {
            ImportType::Function
        } else {
            ImportType::Constant
        },
        UseForm::MixedList { .. } => match item.item_type {
            Some(true) => ImportType::Function,
            Some(false) => ImportType::Constant,
            None => ImportType::ClassOrNamespace,
        },
    }
}

/// The fully qualified name an item imports.
fn fqn_chars(form: &UseForm, item: &UseItemShape) -> (r: Vec<char>)
    ensures
        r@ == fqn_of(*form, *item),
{
    match form {
        UseForm::Sequence | UseForm::TypedSequence { .. } => strip_backslashes(&chars_of(item.name.as_str())),
        UseForm::MixedList { prefix, .. } | UseForm::TypedList { prefix, .. } => {
            let mut r = strip_backslashes(&chars_of(prefix.as_str()));
            let ghost p = r@;
            r.push('\\');
            let mut name = chars_of(item.name.as_str());
            r.append(&mut name);
            assert(r@ =~= fqn_of(*form, *item));
            r
        },
    }
}

/// Whether `p` starts `s`, without regard to ASCII case.
fn starts_with_ignore_case(s: &Vec<char>, p: &Vec<char>) -> (r: bool)
    ensures
        r == starts_with_ignore_ascii_case(s@, p@),
{
    if p.len() > s.len() {
        return false;
    }
    let mut k: usize = 0;
    while k < p.len()
        invariant
            p.len() <= s.len(),
            k <= p.len(),
            forall|m: int| 0 <= m < k ==> #[trigger] ascii_lower_char(s@[m]) == ascii_lower_char(p@[m]),
        decreases p.len() - k,
    {
        let a = s[k];
        let b = p[k];
        let la: u32 = if 'A' <= a && a <= 'Z' { a as u32 + 32 } else { a as u32 };
        let lb: u32 = if 'A' <= b && b <= 'Z' { b as u32 + 32 } else { b as u32 };
        if la != lb {
            assert(ascii_lower_char(s@.take(p@.len() as int)[k as int]) != ascii_lower_char(p@[k as int]));
            return false;
        }
        k += 1;
    }
    assert forall|m: int| 0 <= m < p@.len() implies #[trigger] ascii_lower_char(s@.take(p@.len() as int)[m])
        == ascii_lower_char(p@[m]) by {
        assert(s@.take(p@.len() as int)[m] == s@[m]);
    }
    true
}

/// Whether one of the texts contains `needle`.
fn any_contains(texts_v: &Vec<String>, needle: &Vec<char>) -> (r: bool)
    ensures
        r == exists|k: int| 0 <= k < texts(texts_v@).len() && contains_seq(#[trigger] texts(texts_v@)[k], needle@),
{
    let mut k: usize = 0;
    while k < texts_v.len()
        invariant
            k <= texts_v.len(),
            forall|m: int| 0 <= m < k ==> !contains_seq(#[trigger] texts(texts_v@)[m], needle@),
        decreases texts_v.len() - k,
    {
        let t = chars_of(texts_v[k].as_str());
        if chars_contain(&t, needle) {
            assert(texts(texts_v@)[k as int] == t@);
            return true;
        }
        assert(texts(texts_v@)[k as int] == t@);
        k += 1;
    }
    false
}

/// Whether an item is used.
fn is_item_used(form: &UseForm, item: &UseItemShape, u: &Usage) -> (r: bool)
    ensures
        r == item_used(*form, *item, usage_view(*u)),
{
    let alias = alias_chars(item);
    let fqn = fqn_chars(form, item);
    let ghost uv = usage_view(*u);
    assert(uv.docblocks == texts(u.docblocks@));
    assert(uv.inline == texts(u.inline@));
    if any_contains(&u.docblocks, &alias) {
        return true;
    }
    if any_contains(&u.inline, &alias) {
        return true;
    }
    let mut k: usize = 0;
    while k < u.used_fqns.len()
        invariant
            k <= u.used_fqns.len(),
            uv == usage_view(*u),
            fqn@ == fqn_of(*form, *item),
            forall|m: int| 0 <= m < k ==> !eq_ignore_ascii_case_chars(#[trigger] uv.used_fqns[m], fqn@),
        decreases u.used_fqns.len() - k,
    {
        let used = chars_of(u.used_fqns[k].as_str());
        assert(uv.used_fqns[k as int] == used@);
        if chars_eq_ignore_ascii_case(&used, &fqn) {
            assert(eq_ignore_ascii_case_chars(uv.used_fqns[k as int], fqn_of(*form, *item)));
            return true;
        }
        k += 1;
    }
    if !matches!(import_type(form, item), ImportType::ClassOrNamespace) {
        return false;
    }
    let mut prefix = fqn;
    prefix.push('\\');
    assert(prefix@ =~= fqn_of(*form, *item) + seq!['\\']);
    let mut k: usize = 0;
    while k < u.used_fqns.len()
        invariant
            k <= u.used_fqns.len(),
            uv == usage_view(*u),
            prefix@ == fqn_of(*form, *item) + seq!['\\'],
            import_type_of(*form, *item) is ClassOrNamespace,
            forall|m: int| 0 <= m < k ==> !starts_with_ignore_ascii_case(#[trigger] uv.used_fqns[m], prefix@),
        decreases u.used_fqns.len() - k,
    {
        let used = chars_of(u.used_fqns[k].as_str());
        assert(uv.used_fqns[k as int] == used@);
        if starts_with_ignore_case(&used, &prefix) {
            assert(starts_with_ignore_ascii_case(uv.used_fqns[k as int], fqn_of(*form, *item) + seq!['\\']));
            return true;
        }
        k += 1;
    }
    false
}

/// The span to delete to remove the item at position `index`.
pub fn calculate_delete_range_for_item(st: &UseStatementShape, index: usize) -> (r: Span)
    requires
        index < st.items.len(),
        st.commas.len() + 1 >= st.items.len(),
    ensures
        r == item_deletion(*st, index as int),
{
    let n = st.items.len();
    let e = st.items[index].entry_span;
    if n == 1 {
        match &st.form {
            UseForm::MixedList { list_span, .. } => *list_span,
            _ => st.span,
        }
    } else if index > 0 {
        Span { start: st.commas[index - 1].start, end: e.end }
    } else {
        Span { start: e.start, end: st.commas[0].end }
    }
}

/// Checks a `use` statement against what the file uses.
pub fn check_use_statement(st: &UseStatementShape, u: &Usage) -> (r: UnusedImports)
    requires
        st.commas.len() + 1 >= st.items.len(),
    ensures
        ({
            let (unused, whole, items) = spec_unused_imports(*st, usage_view(*u));
            match r {
                UnusedImports::AllUsed => unused.len() == 0,
                UnusedImports::AllUnused { delete } => unused.len() > 0 && whole == Some(delete),
                UnusedImports::SomeUnused { unused: us, deletions } => unused.len() > 0 && whole is None && us@
                    == unused && deletions@ == items,
            }
        }),
{
    let ghost uv = usage_view(*u);
    let mut unused: Vec<usize> = Vec::new();
    let mut i: usize = 0;
    while i < st.items.len()
        invariant
            i <= st.items.len(),
            uv == usage_view(*u),
            unused@ == unused_positions(*st, uv, i as int),
            unused.len() <= i,
            forall|m: int| 0 <= m < unused.len() ==> #[trigger] unused@[m] < i,
        decreases st.items.len() - i,
    {
        if !is_item_used(&st.form, &st.items[i], u) {
            unused.push(i);
        }
        i += 1;
    }
    if unused.len() == 0 {
        return UnusedImports::AllUsed;
    }
    if unused.len() >= st.items.len() {
        return UnusedImports::AllUnused { delete: st.span };
    }
    let mut deletions: Vec<Span> = Vec::new();
    let mut k: usize = unused.len();
    while k > 0
        invariant
            k <= unused.len(),
            unused.len() < st.items.len(),
            st.commas.len() + 1 >= st.items.len(),
            forall|m: int| 0 <= m < unused.len() ==> #[trigger] unused@[m] < st.items.len(),
            deletions@ == unused@.subrange(k as int, unused@.len() as int).reverse().map_values(
                |j: usize| item_deletion(*st, j as int),
            ),
        decreases k,
    {
        let j = unused[k - 1];
        let d = calculate_delete_range_for_item(st, j);
        let ghost before = deletions@;
        deletions.push(d);
        assert(unused@.subrange(k - 1, unused@.len() as int).reverse() =~= unused@.subrange(
            k as int,
            unused@.len() as int,
        ).reverse().push(unused@[k - 1]));
        assert(deletions@ =~= unused@.subrange(k - 1, unused@.len() as int).reverse().map_values(
            |j: usize| item_deletion(*st, j as int),
        ));
        k -= 1;
    }
    assert(unused@.subrange(0, unused@.len() as int) =~= unused@);
    UnusedImports::SomeUnused { unused, deletions }
}

proof fn lemma_segment_after_backslash(p: Seq<char>, n: Seq<char>)
    requires
        p.len() > 0,
        p.last() == '\\',
    ensures
        last_name_segment(p + n) == last_name_segment(n),
    decreases n.len(),
{
    if n.len() == 0 {
        assert(p + n =~= p);
    } else {
        assert((p + n).last() == n.last());
        assert((p + n).drop_last() =~= p + n.drop_last());
        lemma_segment_after_backslash(p, n.drop_last());
    }
}

/// A leading `\` in an imported name changes nothing: `use \A\B;` is used
/// exactly when `use A\B;` is.
pub proof fn law_leading_backslash_is_ignored(form: UseForm, a: UseItemShape, b: UseItemShape, u: UsageView)
    requires
        form is Sequence || form is TypedSequence,
        b.name@ == seq!['\\'] + a.name@,
        b.alias == a.alias,
        b.item_type == a.item_type,
    ensures
        item_used(form, a, u) == item_used(form, b, u),
{
    lemma_segment_after_backslash(seq!['\\'], a.name@);
    assert(b.name@.len() > 0 && b.name@[0] == '\\');
    assert(b.name@.skip(1) =~= a.name@);
    assert(fqn_of(form, b) == fqn_of(form, a));
    assert(alias_of(b) == alias_of(a));
}

/// Whether the entries of a statement with several items and the commas
/// between them come in source order: entry, comma, entry, ..., with each
/// comma one character or more.
pub open spec fn entries_in_source_order(st: UseStatementShape) -> bool {
    let n = st.items.len();
    &&& st.commas.len() + 1 == n
    &&& forall|k: int|
        0 <= k < n ==> (#[trigger] st.items@[k]).entry_span.start <= st.items@[k].entry_span.end
    &&& forall|k: int| 0 <= k < n - 1 ==> (#[trigger] st.commas@[k]).start < st.commas@[k].end
    &&& forall|k: int, m: int|
        #![trigger st.commas@[k], st.items@[m]]
        0 <= k < n - 1 && 0 <= m < n ==> (m <= k ==> st.items@[m].entry_span.end <= st.commas@[k].start) && (k
            < m ==> st.commas@[k].end <= st.items@[m].entry_span.start)
}

/// Removing one item of a statement that has several removes exactly that
/// entry and one comma next to it (the one before it, or the one after the
/// first item), so that what remains is still a comma-separated list: the
/// deleted span holds the entry and that comma, and no other entry or comma.
pub proof fn law_item_deletion_takes_one_comma(st: UseStatementShape, index: int)
    requires
        st.items.len() >= 2,
        entries_in_source_order(st),
        0 <= index < st.items.len(),
    ensures
        ({
            let d = item_deletion(st, index);
            let e = st.items@[index].entry_span;
            let j = if index > 0 { index - 1 } else { 0 };
            &&& d.start <= e.start && e.end <= d.end
            &&& d.start <= st.commas@[j].start && st.commas@[j].end <= d.end
            &&& forall|k: int|
                0 <= k < st.items.len() && k != index ==> (#[trigger] st.items@[k]).entry_span.end <= d.start
                    || d.end <= st.items@[k].entry_span.start
            &&& forall|c: int|
                0 <= c < st.commas.len() && c != j ==> (#[trigger] st.commas@[c]).end <= d.start || d.end
                    <= st.commas@[c].start
        }),
{
    let n = st.items.len() as int;
    let d = item_deletion(st, index);
    let e = st.items@[index].entry_span;
    let j = if index > 0 { index - 1 } else { 0 };
    assert(st.commas@[j] == st.commas@[j] && st.items@[index] == st.items@[index]);
    assert forall|k: int|
        0 <= k < st.items.len() && k != index implies (#[trigger] st.items@[k]).entry_span.end <= d.start
            || d.end <= st.items@[k].entry_span.start by {
        if k < index {
            assert(st.commas@[index - 1] == st.commas@[index - 1]);
            assert(st.items@[k].entry_span.end <= st.commas@[index - 1].start);
        } else {
            assert(st.commas@[k - 1] == st.commas@[k - 1]);
            assert(st.commas@[k - 1].end <= st.items@[k].entry_span.start);
            if index > 0 {
                assert(st.items@[index].entry_span.end <= st.commas@[k - 1].start);
            } else {
                assert(st.commas@[0].end <= st.items@[k].entry_span.start);
            }
        }
    }
    assert forall|c: int|
        0 <= c < st.commas.len() && c != j implies (#[trigger] st.commas@[c]).end <= d.start || d.end
            <= st.commas@[c].start by {
        if c < j {
            assert(st.commas@[c].end <= st.items@[c + 1].entry_span.start);
            assert(st.items@[c + 1].entry_span.end <= st.commas@[j].start);
        } else {
            if index > 0 {
                assert(st.items@[index].entry_span.end <= st.commas@[c].start);
            } else {
                assert(st.commas@[0].end <= st.items@[1].entry_span.start);
                assert(st.items@[1].entry_span.end <= st.commas@[c].start);
            }
        }
    }
}

/// Removing the only item of a statement removes the whole statement (in a
/// mixed list, the whole braced list), so that no empty `use` is left.
pub proof fn law_only_item_takes_the_statement(st: UseStatementShape)
    requires
        st.items.len() == 1,
    ensures
        !(st.form is MixedList) ==> item_deletion(st, 0) == st.span,
        st.form matches UseForm::MixedList { list_span, .. } ==> item_deletion(st, 0) == list_span,
{
}

} // verus!
