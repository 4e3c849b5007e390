//! Text helpers: trimming path separators and joining segments.

use vstd::prelude::*;
use vstd::string::*;

verus! {

/// The path separator.
pub open spec fn sep() -> char {
    '/'
}

/// `s` without its trailing separators.
pub open spec fn trim_end(s: Seq<char>) -> Seq<char>
    decreases s.len(),
{
    if s.len() > 0 && s.last() == sep() {
        trim_end(s.drop_last())
    } else {
        s
    }
}

/// `s` without its leading separators.
pub open spec fn trim_start(s: Seq<char>) -> Seq<char>
    decreases s.len(),
{
    if s.len() > 0 && s.first() == sep() {
        trim_start(s.drop_first())
    } else {
        s
    }
}

/// The segments joined by single separators, each first trimmed of its
/// trailing separators.
pub open spec fn join_path(base: Seq<char>, database: Seq<char>, table: Seq<char>) -> Seq<char> {
    trim_end(base) + seq![sep()] + trim_end(database) + seq![sep()] + trim_end(table)
}

/// The items joined by single spaces.
pub open spec fn join_spaced(items: Seq<Seq<char>>) -> Seq<char>
    decreases items.len(),
{
    if items.len() == 0 {
        Seq::empty()
    } else if items.len() == 1 {
        items[0]
    } else {
        join_spaced(items.drop_last()) + seq![' '] + items.last()
    }
}

/// Whether `needle` is one of `items`.
pub open spec fn has_text(items: Seq<Seq<char>>, needle: Seq<char>) -> bool {
    exists|i: int| 0 <= i < items.len() && items[i] == needle
}

/// A trimmed text is a prefix of the untrimmed one that does not end in a
/// separator, and what was cut off holds separators only.
pub proof fn lemma_trim_end_shape(s: Seq<char>)
    ensures
        trim_end(s).len() <= s.len(),
        trim_end(s) == s.subrange(0, trim_end(s).len() as int),
        trim_end(s).len() > 0 ==> trim_end(s).last() != sep(),
        forall|i: int| trim_end(s).len() <= i < s.len() ==> #[trigger] s[i] == sep(),
    decreases s.len(),
{
    if s.len() > 0 && s.last() == sep() {
        lemma_trim_end_shape(s.drop_last());
        let t = trim_end(s.drop_last());
        assert(t == s.subrange(0, t.len() as int));
        assert forall|i: int| t.len() <= i < s.len() implies #[trigger] s[i] == sep() by {
            if i < s.len() - 1 {
                assert(s.drop_last()[i] == sep());
            }
        }
    } else {
        assert(s == s.subrange(0, s.len() as int));
    }
}

/// Trimming is idempotent: a second trim changes nothing.
pub proof fn lemma_trim_end_idempotent(s: Seq<char>)
    ensures
        trim_end(trim_end(s)) == trim_end(s),
    decreases s.len(),
{
    if s.len() > 0 && s.last() == sep() {
        lemma_trim_end_idempotent(s.drop_last());
    }
}

/// One more trailing separator does not change what trimming leaves.
pub proof fn lemma_trim_end_absorbs_separator(s: Seq<char>)
    ensures
        trim_end(s.push(sep())) == trim_end(s),
{
    assert(s.push(sep()).drop_last() == s);
}

/// Joining is blind to trailing separators on any segment: segments that
/// were trimmed beforehand, or that carry one more separator, give the same path.
pub proof fn lemma_join_path_ignores_trailing(base: Seq<char>, database: Seq<char>, table: Seq<char>)
    ensures
        join_path(trim_end(base), trim_end(database), trim_end(table)) == join_path(
            base,
            database,
            table,
        ),
        join_path(base.push(sep()), database.push(sep()), table.push(sep())) == join_path(
            base,
            database,
            table,
        ),
{
    lemma_trim_end_idempotent(base);
    lemma_trim_end_idempotent(database);
    lemma_trim_end_idempotent(table);
    lemma_trim_end_absorbs_separator(base);
    lemma_trim_end_absorbs_separator(database);
    lemma_trim_end_absorbs_separator(table);
}

/// Copies `s` without its trailing separators.
pub fn trim_end_separators(s: &str) -> (r: String)
    ensures
        r@ == trim_end(s@),
{
    let mut n: usize = s.unicode_len();
    assert(s@.subrange(0, n as int) == s@);
    while n > 0 && s.get_char(n - 1) == '/'
        invariant
            n <= s@.len(),
            trim_end(s@) == trim_end(s@.subrange(0, n as int)),
        decreases n,
    {
        assert(s@.subrange(0, n as int).drop_last() == s@.subrange(0, n as int - 1));
        n = n - 1;
    }
    String::from_str(s.substring_char(0, n))
}

/// Copies `s` without its leading separators.
pub fn trim_start_separators(s: &str) -> (r: String)
    ensures
        r@ == trim_start(s@),
{
    let len: usize = s.unicode_len();
    let mut k: usize = 0;
    assert(s@.subrange(0, len as int) == s@);
    while k < len && s.get_char(k) == '/'
        invariant
            k <= len,
            len == s@.len(),
            trim_start(s@) == trim_start(s@.subrange(k as int, len as int)),
        decreases len - k,
    {
        assert(s@.subrange(k as int, len as int).drop_first() == s@.subrange(
            k as int + 1,
            len as int,
        ));
        k = k + 1;
    }
    String::from_str(s.substring_char(k, len))
}

/// Builds the path of a table below a base: base, database and table, each
/// trimmed of trailing separators, joined by single separators.
pub fn table_path(base: &str, database: &str, table: &str) -> (r: String)
    ensures
        r@ == join_path(base@, database@, table@),
{
    proof {
        reveal_strlit("/");
    }
    assert("/"@ == seq![sep()]);
    let mut out = trim_end_separators(base);
    out.append("/");
    let d = trim_end_separators(database);
    out.append(d.as_str());
    out.append("/");
    let t = trim_end_separators(table);
    out.append(t.as_str());
    out
}

/// Joins the items with single spaces.
pub fn join_with_spaces(items: &Vec<String>) -> (r: String)
    ensures
        r@ == join_spaced(items.deep_view()),
{
    proof {
        reveal_strlit(" ");
    }
    assert(" "@ == seq![' ']);
    let mut out = String::new();
    let mut i: usize = 0;
    while i < items.len()
        invariant
            i <= items.len(),
            out@ == join_spaced(items.deep_view().subrange(0, i as int)),
            " "@ == seq![' '],
        decreases items.len() - i,
    {
        let ghost prefix = items.deep_view().subrange(0, i as int + 1);
        assert(prefix.drop_last() == items.deep_view().subrange(0, i as int));
        assert(prefix.last() == items[i as int]@);
        if i > 0 {
            out.append(" ");
        } else {
            assert(out@ == Seq::<char>::empty());
            assert(Seq::<char>::empty() + items[i as int]@ == items[i as int]@);
        }
        out.append(items[i].as_str());
        i = i + 1;
    }
    assert(items.deep_view().subrange(0, i as int) == items.deep_view());
    out
}

/// Whether `needle` is one of `items`.
pub fn contains_text(items: &Vec<String>, needle: &str) -> (r: bool)
    ensures
        r == has_text(items.deep_view(), needle@),
{
    let wanted = String::from_str(needle);
    let mut i: usize = 0;
    while i < items.len()
        invariant
            i <= items.len(),
            wanted@ == needle@,
            forall|j: int| 0 <= j < i ==> items.deep_view()[j] != needle@,
        decreases items.len() - i,
    {
        if items[i] == wanted {
            assert(items.deep_view()[i as int] == needle@);
            return true;
        }
        i = i + 1;
    }
    false
}

/// Appends `item` to `items`.
pub fn push_text(items: &mut Vec<String>, item: String)
    ensures
        final(items).deep_view() == old(items).deep_view().push(item@),
{
    let ghost before = items.deep_view();
    items.push(item);
    assert(items.deep_view().len() == before.len() + 1);
    assert forall|j: int| 0 <= j < items.deep_view().len() implies items.deep_view()[j]
        == before.push(item@)[j] by {
        if j < before.len() {
            assert(before[j] == old(items)@[j]@);
        }
    }
    assert(items.deep_view() =~= before.push(item@));
}

/// Appends copies of `more` to `items`, in order.
pub fn extend_texts(items: &mut Vec<String>, more: &Vec<String>)
    ensures
        final(items).deep_view() == old(items).deep_view() + more.deep_view(),
{
    let ghost before = items.deep_view();
    assert(items.deep_view() =~= before + more.deep_view().subrange(0, 0));
    let mut i: usize = 0;
    while i < more.len()
        invariant
            i <= more.len(),
            items.deep_view() == before + more.deep_view().subrange(0, i as int),
        decreases more.len() - i,
    {
        push_text(items, more[i].clone());
        assert(items.deep_view() =~= before + more.deep_view().subrange(0, i as int + 1));
        i = i + 1;
    }
    assert(more.deep_view().subrange(0, i as int) =~= more.deep_view());
}

/// The first of `wanted` that is not among `have`.
pub open spec fn first_absent(wanted: Seq<Seq<char>>, have: Seq<Seq<char>>) -> Option<Seq<char>>
    decreases wanted.len(),
{
    if wanted.len() == 0 {
        None
    } else if !has_text(have, wanted.first()) {
        Some(wanted.first())
    } else {
        first_absent(wanted.drop_first(), have)
    }
}

/// Nothing is absent exactly when every wanted item is among `have`, and
/// what is reported absent is a wanted item that is not there.
pub proof fn lemma_first_absent(wanted: Seq<Seq<char>>, have: Seq<Seq<char>>)
    ensures
        first_absent(wanted, have) is None <==> forall|i: int|
            0 <= i < wanted.len() ==> has_text(have, #[trigger] wanted[i]),
        first_absent(wanted, have) matches Some(t) ==> has_text(wanted, t) && !has_text(have, t),
    decreases wanted.len(),
{
    if wanted.len() > 0 {
        let rest = wanted.drop_first();
        lemma_first_absent(rest, have);
        if has_text(have, wanted.first()) {
            assert forall|i: int| 0 <= i < rest.len() implies rest[i] == wanted[i + 1] by {}
            if first_absent(rest, have) is None {
                assert forall|i: int| 0 <= i < wanted.len() implies has_text(
                    have,
                    #[trigger] wanted[i],
                ) by {
                    if i > 0 {
                        assert(wanted[i] == rest[i - 1]);
                    }
                }
            } else {
                let t = first_absent(rest, have).unwrap();
                let j = choose|j: int| 0 <= j < rest.len() && rest[j] == t;
                assert(wanted[j + 1] == t);
            }
        } else {
            assert(wanted[0] == wanted.first());
        }
    }
}

/// The first of `wanted` that is not among `have`, if there is one.
pub fn find_absent(wanted: &Vec<String>, have: &Vec<String>) -> (r: Option<String>)
    ensures
        r.deep_view() == first_absent(wanted.deep_view(), have.deep_view()),
{
    let ghost all = wanted.deep_view();
    assert(all.subrange(0, all.len() as int) =~= all);
    let mut i: usize = 0;
    assert(all.subrange(0, all.len() as int) == all.subrange(i as int, all.len() as int));
    while i < wanted.len()
        invariant
            i <= wanted.len(),
            all == wanted.deep_view(),
            first_absent(all, have.deep_view()) == first_absent(
                all.subrange(i as int, all.len() as int),
                have.deep_view(),
            ),
        decreases wanted.len() - i,
    {
        let ghost rest = all.subrange(i as int, all.len() as int);
        assert(rest.first() == wanted[i as int]@);
        assert(rest.drop_first() =~= all.subrange(i as int + 1, all.len() as int));
        if !contains_text(have, wanted[i].as_str()) {
            return Some(wanted[i].clone());
        }
        i = i + 1;
    }
    None
}

/// A copy of `items`.
pub fn copy_texts(items: &Vec<String>) -> (r: Vec<String>)
    ensures
        r.deep_view() == items.deep_view(),
{
    let mut out: Vec<String> = Vec::new();
    assert(out.deep_view() =~= items.deep_view().subrange(0, 0));
    let mut i: usize = 0;
    while i < items.len()
        invariant
            i <= items.len(),
            out.deep_view() == items.deep_view().subrange(0, i as int),
        decreases items.len() - i,
    {
        push_text(&mut out, items[i].clone());
        assert(out.deep_view() =~= items.deep_view().subrange(0, i as int + 1));
        i = i + 1;
    }
    assert(items.deep_view().subrange(0, i as int) =~= items.deep_view());
    out
}

} // verus!
