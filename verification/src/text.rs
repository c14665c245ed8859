//! Text predicates that request validation and path splitting rest on.

use vstd::prelude::*;

verus! {

/// A character that carries the Unicode `White_Space` property.
pub open spec fn is_white_space(c: char) -> bool {
    let n = c as u32;
    ||| 0x09 <= n <= 0x0D
    ||| n == 0x20
    ||| n == 0x85
    ||| n == 0xA0
    ||| n == 0x1680
    ||| 0x2000 <= n <= 0x200A
    ||| n == 0x2028
    ||| n == 0x2029
    ||| n == 0x202F
    ||| n == 0x205F
    ||| n == 0x3000
}

/// A text that trimming would leave empty: every character is white space.
pub open spec fn is_blank(s: Seq<char>) -> bool {
    forall|i: int| 0 <= i < s.len() ==> is_white_space(#[trigger] s[i])
}

/// Computes [`is_white_space`].
pub fn char_is_white_space(c: char) -> (b: bool)
    ensures
        b == is_white_space(c),
{
    let n: u32 = c as u32;
    (0x09 <= n && n <= 0x0D) || n == 0x20 || n == 0x85 || n == 0xA0 || n == 0x1680 || (0x2000 <= n
        && n <= 0x200A) || n == 0x2028 || n == 0x2029 || n == 0x202F || n == 0x205F || n == 0x3000
}

/// Whether `s` is empty once leading and trailing white space is removed.
pub fn str_is_blank(s: &str) -> (b: bool)
    ensures
        b == is_blank(s@),
{
    let mut blank = true;
    for c in it: s.chars()
        invariant
            it.seq() == s@,
            blank == is_blank(s@.take(it.index() as int)),
    {
        if !char_is_white_space(c) {
            blank = false;
            assert(!is_white_space(s@.take(it.index() + 1)[it.index() as int]));
        }
    }
    assert(s@.take(s@.len() as int) =~= s@);
    blank
}

/// The views of a list of strings, in order.
pub open spec fn texts(v: Seq<String>) -> Seq<Seq<char>> {
    v.map_values(|s: String| s@)
}

/// The pieces that `sep` cuts `s` into, empty ones included: one more piece
/// than `s` holds separators.
pub open spec fn pieces(s: Seq<char>, sep: char) -> Seq<Seq<char>>
    decreases s.len(),
{
    if s.len() == 0 {
        seq![Seq::<char>::empty()]
    } else {
        let before = pieces(s.drop_last(), sep);
        if s.last() == sep {
            before.push(Seq::<char>::empty())
        } else {
            before.drop_last().push(before.last().push(s.last()))
        }
    }
}

/// `ps` without its empty members.
pub open spec fn non_empty(ps: Seq<Seq<char>>) -> Seq<Seq<char>>
    decreases ps.len(),
{
    if ps.len() == 0 {
        Seq::<Seq<char>>::empty()
    } else if ps.last().len() == 0 {
        non_empty(ps.drop_last())
    } else {
        non_empty(ps.drop_last()).push(ps.last())
    }
}

/// The non-empty pieces between the separators of `s`.
pub open spec fn segments(s: Seq<char>, sep: char) -> Seq<Seq<char>> {
    non_empty(pieces(s, sep))
}

/// Cutting a text always yields at least one piece.
pub proof fn lemma_pieces_len(s: Seq<char>, sep: char)
    ensures
        pieces(s, sep).len() >= 1,
    decreases s.len(),
{
    if s.len() > 0 {
        lemma_pieces_len(s.drop_last(), sep);
    }
}

/// Every segment is non-empty and free of the separator.
pub proof fn lemma_segments_clean(s: Seq<char>, sep: char)
    ensures
        forall|k: int|
            0 <= k < segments(s, sep).len() ==> (#[trigger] segments(s, sep)[k]).len() > 0
                && !segments(s, sep)[k].contains(sep),
{
    lemma_pieces_clean(s, sep);
    lemma_non_empty_members(pieces(s, sep));
}

proof fn lemma_pieces_clean(s: Seq<char>, sep: char)
    ensures
        forall|k: int| 0 <= k < pieces(s, sep).len() ==> !(#[trigger] pieces(s, sep)[k]).contains(sep),
    decreases s.len(),
{
    if s.len() > 0 {
        lemma_pieces_clean(s.drop_last(), sep);
        lemma_pieces_len(s.drop_last(), sep);
    }
}

proof fn lemma_non_empty_members(ps: Seq<Seq<char>>)
    ensures
        forall|k: int|
            0 <= k < non_empty(ps).len() ==> (#[trigger] non_empty(ps)[k]).len() > 0 && ps.contains(
                non_empty(ps)[k],
            ),
    decreases ps.len(),
{
    if ps.len() > 0 {
        lemma_non_empty_members(ps.drop_last());
        assert forall|k: int| 0 <= k < non_empty(ps).len() implies (#[trigger] non_empty(ps)[k]).len()
            > 0 && ps.contains(non_empty(ps)[k]) by {
            if k < non_empty(ps.drop_last()).len() {
                let earlier = non_empty(ps.drop_last())[k];
                assert(ps[ps.drop_last().index_of(earlier)] == earlier);
            } else {
                assert(ps[ps.len() - 1] == ps.last());
            }
        }
    }
}

/// Splits `s` at every `sep` and keeps the non-empty parts, in order.
pub fn split_segments(s: &str, sep: char) -> (out: Vec<String>)
    ensures
        texts(out@) == segments(s@, sep),
{
    let n = s.unicode_len();
    let mut out: Vec<String> = Vec::new();
    let mut start: usize = 0;
    let mut i: usize = 0;
    for c in it: s.chars()
        invariant
            it.seq() == s@,
            n == s@.len(),
            i == it.index(),
            start <= i <= n,
            pieces(s@.take(i as int), sep).len() >= 1,
            pieces(s@.take(i as int), sep).last() == s@.subrange(start as int, i as int),
            texts(out@) == non_empty(pieces(s@.take(i as int), sep).drop_last()),
    {
        let ghost before = pieces(s@.take(i as int), sep);
        proof {
            assert(s@.take(i + 1).drop_last() =~= s@.take(i as int));
            lemma_pieces_len(s@.take(i + 1), sep);
        }
        if c == sep {
            proof {
                assert(before.push(Seq::<char>::empty()).drop_last() =~= before);
            }
            if start < i {
                out.push(s.substring_char(start, i).to_owned());
            }
            start = i + 1;
        } else {
            proof {
                let grown = before.last().push(c);
                assert(before.drop_last().push(grown).drop_last() =~= before.drop_last());
            }
        }
        i = i + 1;
    }
    proof {
        assert(s@.take(n as int) =~= s@);
    }
    if start < i {
        out.push(s.substring_char(start, i).to_owned());
    }
    out
}

} // verus!
