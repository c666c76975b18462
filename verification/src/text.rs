//! Splitting text at a separator.
use vstd::prelude::*;
use vstd::string::*;

verus! {

/// `sep` stands in `s` at index `i`.
pub open spec fn occurs_at(s: Seq<char>, sep: Seq<char>, i: int) -> bool {
    &&& 0 <= i
    &&& i + sep.len() <= s.len()
    &&& s.subrange(i, i + sep.len()) == sep
}

/// The leftmost place where `sep` stands in `s` is `i`.
pub open spec fn occurs_first_at(s: Seq<char>, sep: Seq<char>, i: int) -> bool {
    &&& occurs_at(s, sep, i)
    &&& forall|j: int| 0 <= j < i ==> !#[trigger] occurs_at(s, sep, j)
}

/// The pieces of `s` between the occurrences of `sep`, which are taken from the
/// left and do not overlap. There is always at least one piece.
pub open spec fn pieces(s: Seq<char>, sep: Seq<char>) -> Seq<Seq<char>>
    decreases s.len(),
{
    if sep.len() > 0 && exists|i: int| occurs_first_at(s, sep, i) {
        let i = choose|i: int| occurs_first_at(s, sep, i);
        seq![s.take(i)] + pieces(s.skip(i + sep.len()), sep)
    } else {
        seq![s]
    }
}

/// `parts` written one after the other with `sep` between neighbours.
pub open spec fn joined(parts: Seq<Seq<char>>, sep: Seq<char>) -> Seq<char>
    decreases parts.len(),
{
    if parts.len() == 0 {
        Seq::empty()
    } else if parts.len() == 1 {
        parts[0]
    } else {
        parts[0] + sep + joined(parts.drop_first(), sep)
    }
}

/// The characters of `s`.
pub(crate) fn chars_of(s: &str) -> (chars: Vec<char>)
    ensures
        chars@ == s@,
{
    let mut chars: Vec<char> = Vec::new();
    for c in iter: s.chars()
        invariant
            iter.seq() == s@,
            chars@ == s@.take(iter.index()),
    {
        chars.push(c);
    }
    chars
}

fn matches_at(chars: &Vec<char>, sep: &Vec<char>, i: usize) -> (r: bool)
    requires
        i <= chars@.len(),
    ensures
        r == occurs_at(chars@, sep@, i as int),
{
    if sep.len() > chars.len() - i {
        return false;
    }
    let mut k: usize = 0;
    while k < sep.len()
        invariant
            k <= sep@.len(),
            i + sep.len() <= chars.len() <= usize::MAX,
            forall|j: int| 0 <= j < k ==> chars@[i + j] == sep@[j],
        decreases sep@.len() - k,
    {
        if chars[i + k] != sep[k] {
            return false;
        }
        k += 1;
    }
    assert(chars@.subrange(i as int, i + sep@.len()) =~= sep@);
    true
}

/// What stands in a suffix stands in the whole text, further right.
proof fn lemma_occurs_in_suffix(s: Seq<char>, sep: Seq<char>, start: int, i: int)
    requires
        0 <= start <= s.len(),
        0 <= i,
    ensures
        occurs_at(s.skip(start), sep, i) == occurs_at(s, sep, start + i),
{
    if start + i + sep.len() <= s.len() {
        assert(s.skip(start).subrange(i, i + sep.len()) =~= s.subrange(
            start + i,
            start + i + sep.len(),
        ));
    }
}

proof fn lemma_first_is_unique(s: Seq<char>, sep: Seq<char>, i: int)
    requires
        occurs_first_at(s, sep, i),
        sep.len() > 0,
    ensures
        pieces(s, sep) == seq![s.take(i)] + pieces(s.skip(i + sep.len()), sep),
{
    let k = choose|k: int| occurs_first_at(s, sep, k);
    assert(!(k < i) && !(i < k));
}

/// The pieces of `s` around `sep`, from left to right.
pub fn split(s: &str, sep: &str) -> (parts: Vec<String>)
    requires
        sep@.len() > 0,
    ensures
        parts.deep_view() == pieces(s@, sep@),
{
    let chars = chars_of(s);
    let sep_chars = chars_of(sep);
    let mut parts: Vec<String> = Vec::new();
    let mut start: usize = 0;
    let mut i: usize = 0;
    assert(s@.skip(0) =~= s@);
    while i < chars.len()
        invariant
            chars@ == s@,
            sep_chars@ == sep@,
            sep@.len() > 0,
            start <= i <= s@.len(),
            parts.deep_view() + pieces(s@.skip(start as int), sep@) == pieces(s@, sep@),
            forall|j: int| start <= j < i ==> !#[trigger] occurs_at(s@, sep@, j),
        decreases s@.len() - i,
    {
        if matches_at(&chars, &sep_chars, i) {
            let piece = s.substring_char(start, i).to_owned();
            proof {
                let rest = s@.skip(start as int);
                let at = i - start;
                lemma_occurs_in_suffix(s@, sep@, start as int, at);
                assert forall|j: int| 0 <= j < at implies !#[trigger] occurs_at(rest, sep@, j) by {
                    lemma_occurs_in_suffix(s@, sep@, start as int, j);
                }
                lemma_first_is_unique(rest, sep@, at);
                assert(rest.take(at) =~= s@.subrange(start as int, i as int));
                assert(rest.skip(at + sep@.len()) =~= s@.skip(i + sep@.len()));
            }
            parts.push(piece);
            i += sep_chars.len();
            start = i;
        } else {
            i += 1;
        }
    }
    let last = s.substring_char(start, chars.len()).to_owned();
    proof {
        let rest = s@.skip(start as int);
        assert forall|j: int| !occurs_first_at(rest, sep@, j) by {
            if occurs_at(rest, sep@, j) {
                lemma_occurs_in_suffix(s@, sep@, start as int, j);
            }
        }
    }
    parts.push(last);
    parts
}

/// Writing the pieces of a text one after the other, with the separator between
/// them, gives the text back.
pub proof fn law_pieces_join_to_the_text(s: Seq<char>, sep: Seq<char>)
    ensures
        joined(pieces(s, sep), sep) == s,
        pieces(s, sep).len() > 0,
    decreases s.len(),
{
    if sep.len() > 0 && exists|i: int| occurs_first_at(s, sep, i) {
        let i = choose|i: int| occurs_first_at(s, sep, i);
        let rest = s.skip(i + sep.len());
        law_pieces_join_to_the_text(rest, sep);
        let parts = pieces(s, sep);
        assert(parts.drop_first() =~= pieces(rest, sep));
    }
}

/// No piece holds the separator.
pub proof fn law_pieces_are_free_of_the_separator(s: Seq<char>, sep: Seq<char>, k: int, i: int)
    requires
        sep.len() > 0,
        0 <= k < pieces(s, sep).len(),
    ensures
        !occurs_at(pieces(s, sep)[k], sep, i),
    decreases s.len(),
{
    if exists|n: int| occurs_first_at(s, sep, n) {
        let n = choose|n: int| occurs_first_at(s, sep, n);
        let rest = s.skip(n + sep.len());
        if k == 0 {
            let head = s.take(n);
            if occurs_at(head, sep, i) {
                assert(head.subrange(i, i + sep.len()) =~= s.subrange(i, i + sep.len()));
                assert(occurs_at(s, sep, i));
            }
        } else {
            law_pieces_are_free_of_the_separator(rest, sep, k - 1, i);
        }
    } else if occurs_at(s, sep, i) {
        lemma_some_first(s, sep, i);
    }
}

/// The end of `sep` is never its start: two occurrences do not overlap.
pub open spec fn is_unbordered(sep: Seq<char>) -> bool {
    forall|k: int| 0 < k < sep.len() ==> #[trigger] sep.skip(k) != sep.take(sep.len() - k)
}

/// Two texts with a separator between them have the pieces of the one and then those of the
/// other, where the separator cannot overlap itself.
pub proof fn law_pieces_of_two_texts(a: Seq<char>, sep: Seq<char>, b: Seq<char>)
    requires
        sep.len() > 0,
        is_unbordered(sep),
    ensures
        pieces(a + sep + b, sep) == pieces(a, sep) + pieces(b, sep),
    decreases a.len(),
{
    let all = a + sep + b;
    let m = sep.len() as int;
    assert(occurs_at(all, sep, a.len() as int)) by {
        assert(all.subrange(a.len() as int, a.len() + m) =~= sep);
    }
    assert forall|i: int| 0 <= i < a.len() implies occurs_at(a, sep, i) == #[trigger] occurs_at(
        all,
        sep,
        i,
    ) by {
        if i + m <= a.len() {
            assert(a.subrange(i, i + m) =~= all.subrange(i, i + m));
        } else if occurs_at(all, sep, i) {
            let k = a.len() - i;
            assert(sep.skip(k) =~= sep.take(m - k)) by {
                assert forall|j: int| 0 <= j < m - k implies sep.skip(k)[j] == sep.take(m - k)[j] by {
                    assert(all.subrange(i, i + m)[k + j] == all[a.len() + j]);
                }
            }
        }
    }
    if exists|i: int| occurs_first_at(a, sep, i) {
        let i = choose|i: int| occurs_first_at(a, sep, i);
        assert(occurs_first_at(all, sep, i));
        lemma_first_is_unique(all, sep, i);
        law_pieces_of_two_texts(a.skip(i + m), sep, b);
        assert(all.skip(i + m) =~= a.skip(i + m) + sep + b);
        assert(all.take(i) =~= a.take(i));
        assert(seq![a.take(i)] + (pieces(a.skip(i + m), sep) + pieces(b, sep)) =~= pieces(a, sep)
            + pieces(b, sep));
    } else {
        assert forall|i: int| 0 <= i < a.len() implies !#[trigger] occurs_at(all, sep, i) by {
            if occurs_at(a, sep, i) {
                lemma_some_first(a, sep, i);
            }
        }
        assert(occurs_first_at(all, sep, a.len() as int));
        lemma_first_is_unique(all, sep, a.len() as int);
        assert(all.take(a.len() as int) =~= a);
        assert(all.skip(a.len() + m) =~= b);
    }
}

/// A text that does not hold the separator is its only piece.
pub proof fn law_plain_text_is_one_piece(s: Seq<char>, sep: Seq<char>)
    requires
        forall|i: int| 0 <= i && i + sep.len() <= s.len() ==> #[trigger] s.subrange(
            i,
            i + sep.len(),
        ) != sep,
    ensures
        pieces(s, sep) == seq![s],
{
}

/// Around the first occurrence of the separator the pieces are what stands before it, and
/// then the pieces of what follows it.
pub proof fn law_first_piece_ends_at_the_separator(s: Seq<char>, sep: Seq<char>, i: int)
    requires
        0 < sep.len(),
        0 <= i,
        i + sep.len() <= s.len(),
        s.subrange(i, i + sep.len()) == sep,
        forall|j: int| 0 <= j < i ==> #[trigger] s.subrange(j, j + sep.len()) != sep,
    ensures
        pieces(s, sep) == seq![s.take(i)] + pieces(s.skip(i + sep.len()), sep),
{
    assert(occurs_first_at(s, sep, i));
    lemma_first_is_unique(s, sep, i);
}

/// Where the separator is one character, it cannot overlap itself.
pub(crate) proof fn lemma_pieces_of_two_texts(a: Seq<char>, c: char, b: Seq<char>)
    ensures
        pieces(a + seq![c] + b, seq![c]) == pieces(a, seq![c]) + pieces(b, seq![c]),
{
    law_pieces_of_two_texts(a, seq![c], b);
}

/// A text without the separator is its only piece.
pub(crate) proof fn lemma_plain_text_is_one_piece(s: Seq<char>, c: char)
    requires
        !s.contains(c),
    ensures
        pieces(s, seq![c]) == seq![s],
{
    assert forall|i: int| !occurs_first_at(s, seq![c], i) by {
        if occurs_at(s, seq![c], i) {
            assert(s.subrange(i, i + 1)[0] == c);
        }
    }
}

/// A separator that occurs has a leftmost occurrence.
proof fn lemma_some_first(s: Seq<char>, sep: Seq<char>, i: int)
    requires
        occurs_at(s, sep, i),
    ensures
        exists|n: int| occurs_first_at(s, sep, n),
    decreases i,
{
    if exists|j: int| 0 <= j < i && #[trigger] occurs_at(s, sep, j) {
        let j = choose|j: int| 0 <= j < i && #[trigger] occurs_at(s, sep, j);
        lemma_some_first(s, sep, j);
    } else {
        assert(occurs_first_at(s, sep, i));
    }
}

/// Each piece stands somewhere in the text.
pub(crate) proof fn lemma_piece_is_part(s: Seq<char>, sep: Seq<char>, k: int)
    requires
        0 <= k < pieces(s, sep).len(),
    ensures
        exists|start: int|
            0 <= start && start + pieces(s, sep)[k].len() <= s.len() && #[trigger] s.subrange(
                start,
                start + pieces(s, sep)[k].len(),
            ) == pieces(s, sep)[k],
    decreases s.len(),
{
    let piece = pieces(s, sep)[k];
    if sep.len() > 0 && exists|i: int| occurs_first_at(s, sep, i) {
        let i = choose|i: int| occurs_first_at(s, sep, i);
        let rest = s.skip(i + sep.len());
        if k == 0 {
            assert(s.subrange(0, 0int + piece.len()) =~= piece);
        } else {
            lemma_piece_is_part(rest, sep, k - 1);
            let start = choose|start: int|
                0 <= start && start + piece.len() <= rest.len() && #[trigger] rest.subrange(
                    start,
                    start + piece.len(),
                ) == piece;
            let at = i + sep.len() + start;
            assert(s.subrange(at, at + piece.len()) =~= rest.subrange(start, start + piece.len()));
        }
    } else {
        assert(s.subrange(0, 0int + piece.len()) =~= piece);
    }
}

} // verus!
