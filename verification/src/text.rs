//! Character-level views of source text: whitespace, trimming, and splitting into lines and
//! tokens.
use vstd::prelude::*;

verus! {

/// The characters of `s`, in order.
pub fn chars_of(s: &str) -> (r: Vec<char>)
    ensures
        r@ == s@,
{
    let mut r: Vec<char> = Vec::new();
    for c in it: s.chars()
        invariant
            r@ == it.seq().take(it.index() as int),
    {
        r.push(c);
        assert(r@ =~= it.seq().take(it.index() + 1));
    }
    r
}

/// Collects characters into a `String` (`String::from_iter`); the result holds exactly those
/// characters.
#[verifier::external_body]
pub(crate) fn string_from_chars(cs: &[char]) -> (r: String)
    ensures
        r@ == cs@,
{
    cs.iter().collect()
}

/// Whether `c` has the Unicode `White_Space` property (what `char::is_whitespace` tests).
pub open spec fn is_ws(c: char) -> bool {
    ||| c == ' '
    ||| ('\u{9}' <= c && c <= '\u{d}')
    ||| c == '\u{85}'
    ||| c == '\u{a0}'
    ||| c == '\u{1680}'
    ||| ('\u{2000}' <= c && c <= '\u{200a}')
    ||| c == '\u{2028}'
    ||| c == '\u{2029}'
    ||| c == '\u{202f}'
    ||| c == '\u{205f}'
    ||| c == '\u{3000}'
}

/// Whether `c` is Unicode whitespace.
pub fn is_whitespace(c: char) -> (r: bool)
    ensures
        r == is_ws(c),
{
    c == ' ' || ('\u{9}' <= c && c <= '\u{d}') || c == '\u{85}' || c == '\u{a0}' || c
        == '\u{1680}' || ('\u{2000}' <= c && c <= '\u{200a}') || c == '\u{2028}' || c
        == '\u{2029}' || c == '\u{202f}' || c == '\u{205f}' || c == '\u{3000}'
}

/// `s` without its leading whitespace.
pub open spec fn trim_start(s: Seq<char>) -> Seq<char>
    decreases s.len(),
{
    if s.len() > 0 && is_ws(s[0]) {
        trim_start(s.drop_first())
    } else {
        s
    }
}

/// `s` without its trailing whitespace.
pub open spec fn trim_end(s: Seq<char>) -> Seq<char>
    decreases s.len(),
{
    if s.len() > 0 && is_ws(s.last()) {
        trim_end(s.drop_last())
    } else {
        s
    }
}

/// `s` without leading and trailing whitespace (`str::trim`).
pub open spec fn trim(s: Seq<char>) -> Seq<char> {
    trim_end(trim_start(s))
}

/// The separators a text is split at.
#[derive(Debug, Clone, Copy, PartialEq, Eq, Structural)]
pub enum Sep {
    /// Line feeds.
    Newline,
    /// Unicode whitespace.
    White,
    /// Spaces and commas.
    SpaceComma,
}

pub open spec fn is_sep(sep: Sep, c: char) -> bool {
    match sep {
        Sep::Newline => c == '\n',
        Sep::White => is_ws(c),
        Sep::SpaceComma => c == ' ' || c == ',',
    }
}

fn is_separator(sep: Sep, c: char) -> (r: bool)
    ensures
        r == is_sep(sep, c),
{
    match sep {
        Sep::Newline => c == '\n',
        Sep::White => is_whitespace(c),
        Sep::SpaceComma => c == ' ' || c == ',',
    }
}

/// The pieces of `s` completed so far and the piece in progress, scanning left to right.
/// With `keep_empty`, empty pieces between adjacent separators are kept; without, only the
/// nonempty runs of non-separators are.
pub open spec fn split_state(s: Seq<char>, sep: Sep, keep_empty: bool) -> (Seq<Seq<char>>, Seq<char>)
    decreases s.len(),
{
    if s.len() == 0 {
        (Seq::empty(), Seq::empty())
    } else {
        let (done, cur) = split_state(s.drop_last(), sep, keep_empty);
        let c = s.last();
        if is_sep(sep, c) {
            if keep_empty || cur.len() > 0 {
                (done.push(cur), Seq::empty())
            } else {
                (done, Seq::empty())
            }
        } else {
            (done, cur.push(c))
        }
    }
}

/// `s` split at the separators `sep`; with `keep_empty` the pieces between every two
/// separators (`str::split`), without it the nonempty runs between separators
/// (`str::split_whitespace`, or `split` filtered for nonempty pieces).
pub open spec fn split(s: Seq<char>, sep: Sep, keep_empty: bool) -> Seq<Seq<char>> {
    let (done, cur) = split_state(s, sep, keep_empty);
    if keep_empty || cur.len() > 0 {
        done.push(cur)
    } else {
        done
    }
}

/// The lines of a text: the pieces between line feeds.
pub open spec fn lines(s: Seq<char>) -> Seq<Seq<char>> {
    split(s, Sep::Newline, true)
}

/// The characters of `text` that the ranges `rs` cover.
pub open spec fn range_texts(text: Seq<char>, rs: Seq<(usize, usize)>) -> Seq<Seq<char>> {
    rs.map_values(|r: (usize, usize)| text.subrange(r.0 as int, r.1 as int))
}

/// Every range of `rs` lies within `a..b`.
pub open spec fn ranges_within(rs: Seq<(usize, usize)>, a: int, b: int) -> bool {
    forall|i: int| 0 <= i < rs.len() ==> a <= (#[trigger] rs[i]).0 <= rs[i].1 <= b
}

/// Splits `text[a..b]` at the separators `sep`, returning the pieces as index ranges of `text`.
pub fn split_ranges(text: &Vec<char>, a: usize, b: usize, sep: Sep, keep_empty: bool) -> (r: Vec<
    (usize, usize),
>)
    requires
        a <= b <= text@.len(),
    ensures
        range_texts(text@, r@) == split(text@.subrange(a as int, b as int), sep, keep_empty),
        ranges_within(r@, a as int, b as int),
{
    let mut done: Vec<(usize, usize)> = Vec::new();
    let mut start: usize = a;
    let mut i: usize = a;
    assert(text@.subrange(a as int, a as int) =~= Seq::<char>::empty());
    while i < b
        invariant
            a <= start <= i <= b <= text@.len(),
            ranges_within(done@, a as int, i as int),
            split_state(text@.subrange(a as int, i as int), sep, keep_empty) == (
                range_texts(text@, done@),
                text@.subrange(start as int, i as int),
            ),
        decreases b - i,
    {
        let ghost pre = text@.subrange(a as int, i as int);
        let ghost next = text@.subrange(a as int, i + 1);
        assert(next.drop_last() =~= pre);
        assert(next.last() == text@[i as int]);
        let c = text[i];
        if is_separator(sep, c) {
            if keep_empty || start < i {
                let ghost before = done@;
                done.push((start, i));
                assert(range_texts(text@, done@) =~= range_texts(text@, before).push(
                    text@.subrange(start as int, i as int),
                ));
            }
            start = i + 1;
            assert(text@.subrange(start as int, i + 1) =~= Seq::<char>::empty());
        } else {
            assert(text@.subrange(start as int, i + 1) =~= text@.subrange(start as int, i as int).push(c));
        }
        i += 1;
    }
    if keep_empty || start < b {
        let ghost before = done@;
        done.push((start, b));
        assert(range_texts(text@, done@) =~= range_texts(text@, before).push(
            text@.subrange(start as int, b as int),
        ));
    }
    done
}

/// The range of `text[a..b]` left after trimming whitespace at both ends.
pub fn trim_range(text: &Vec<char>, a: usize, b: usize) -> (r: (usize, usize))
    requires
        a <= b <= text@.len(),
    ensures
        a <= r.0 <= r.1 <= b,
        text@.subrange(r.0 as int, r.1 as int) == trim(text@.subrange(a as int, b as int)),
{
    let mut i: usize = a;
    while i < b && is_whitespace(text[i])
        invariant
            a <= i <= b <= text@.len(),
            trim_start(text@.subrange(a as int, b as int)) == trim_start(
                text@.subrange(i as int, b as int),
            ),
        decreases b - i,
    {
        assert(text@.subrange(i as int, b as int).drop_first() =~= text@.subrange(
            i + 1,
            b as int,
        ));
        i += 1;
    }
    assert(trim_start(text@.subrange(a as int, b as int)) == text@.subrange(i as int, b as int));
    let mut j: usize = b;
    while j > i && is_whitespace(text[j - 1])
        invariant
            a <= i <= j <= b <= text@.len(),
            trim(text@.subrange(a as int, b as int)) == trim_end(text@.subrange(i as int, j as int)),
        decreases j - i,
    {
        assert(text@.subrange(i as int, j as int).drop_last() =~= text@.subrange(
            i as int,
            j - 1,
        ));
        j -= 1;
    }
    (i, j)
}

/// A text that ends in a character other than a separator splits into at least one piece, and
/// its last piece ends in that character.
pub proof fn lemma_split_last(s: Seq<char>, sep: Sep)
    requires
        s.len() > 0,
        !is_sep(sep, s.last()),
    ensures
        split(s, sep, false).len() > 0,
        split(s, sep, false).last().len() > 0,
        split(s, sep, false).last().last() == s.last(),
{
}

/// Without trailing whitespace, a nonempty text ends in a character that is not whitespace.
proof fn lemma_trim_end_last(s: Seq<char>)
    ensures
        trim_end(s).len() > 0 ==> !is_ws(trim_end(s).last()),
    decreases s.len(),
{
    if s.len() > 0 && is_ws(s.last()) {
        lemma_trim_end_last(s.drop_last());
    }
}

/// A trimmed nonempty text ends in a character that is not whitespace.
pub proof fn lemma_trim_last(s: Seq<char>)
    ensures
        trim(s).len() > 0 ==> !is_ws(trim(s).last()),
{
    lemma_trim_end_last(trim_start(s));
}

/// `s` with every comma written as a space.
pub open spec fn commas_to_spaces(s: Seq<char>) -> Seq<char> {
    s.map_values(|c: char| if c == ',' { ' ' } else { c })
}

proof fn lemma_split_state_commas(s: Seq<char>)
    ensures
        split_state(commas_to_spaces(s), Sep::SpaceComma, false) == split_state(s, Sep::SpaceComma, false),
    decreases s.len(),
{
    if s.len() > 0 {
        assert(commas_to_spaces(s).drop_last() =~= commas_to_spaces(s.drop_last()));
        lemma_split_state_commas(s.drop_last());
    }
}

/// Spaces and commas separate operands alike: writing a space for each comma does not change
/// the parts that a statement splits into.
pub proof fn lemma_commas_are_spaces(s: Seq<char>)
    ensures
        split(commas_to_spaces(s), Sep::SpaceComma, false) == split(s, Sep::SpaceComma, false),
{
    lemma_split_state_commas(s);
}

} // verus!
