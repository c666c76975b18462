//! Which texts are read as URLs.
//!
//! A URL is read by an outside function that counts in 32 bits. Texts on which it could count
//! too far are told apart before they come to it.
use vstd::prelude::*;
use vstd::string::*;
use iron::Url;
use crate::text::{
    chars_of, lemma_piece_is_part, lemma_pieces_of_two_texts, lemma_plain_text_is_one_piece, pieces,
    split,
};

verus! {

/// How many characters a host may have whatever they are. Each stands for at most 18 when it
/// is written out, and a number made of the position and the value of a character has to
/// stay below the limit of 32 bits.
pub const MAX_HOST_CHARS: usize = 214;

/// A character that is skipped in front of a host.
pub open spec fn is_skipped(c: char) -> bool {
    c == '\t' || c == '\n' || c == '\r' || c == '\\'
}

/// Nothing but characters that are skipped in front of a host.
pub open spec fn is_blank(piece: Seq<char>) -> bool {
    forall|i: int| 0 <= i < piece.len() ==> is_skipped(#[trigger] piece[i])
}

/// A character that stands for itself in a host.
pub open spec fn is_plain(c: char) -> bool {
    c as u32 <= 127 && c != '%'
}

/// A host in this piece of a text can be counted: it is short, or each of its characters
/// stands for itself.
pub open spec fn host_fits(piece: Seq<char>) -> bool {
    ||| piece.len() <= MAX_HOST_CHARS
    ||| {
        &&& piece.len() <= i32::MAX
        &&& forall|i: int| 0 <= i < piece.len() ==> is_plain(#[trigger] piece[i])
    }
}

/// The host of a URL may lie in the piece at `k`: what stands before it, but for the piece
/// with the scheme, is blank.
pub open spec fn may_hold_host(parts: Seq<Seq<char>>, k: int) -> bool {
    &&& 0 <= k < parts.len()
    &&& forall|j: int| 0 < j < k ==> is_blank(#[trigger] parts[j])
}

/// Wherever the host of the URL in `text` lies, it can be counted, and so can the text.
pub open spec fn hosts_fit(text: Seq<char>) -> bool {
    let parts = pieces(text, seq!['/']);
    &&& text.len() <= u32::MAX
    &&& forall|k: int| #[trigger] may_hold_host(parts, k) ==> host_fits(parts[k])
}

/// How `iron::Url::parse` writes out the URL that it reads in a text, if it reads one.
pub uninterp spec fn parsed_url(text: Seq<char>) -> Option<Seq<char>>;

/// Calls `iron::Url::parse` and writes the URL out. What comes back depends on the
/// text alone. Where a host cannot be counted the call may panic: the Punycode encoder below
/// it adds to a 32 bit number without a check, as do the counters of the URL parser.
#[verifier::external_body]
pub(crate) fn parse_url(text: &str) -> (url: Option<String>)
    requires
        hosts_fit(text@),
    ensures
        url.deep_view() == parsed_url(text@),
{
    match Url::parse(text) {
        Ok(url) => Some(url.to_string()),
        Err(_) => None,
    }
}

fn blank(piece: &str) -> (r: bool)
    ensures
        r == is_blank(piece@),
{
    let chars = chars_of(piece);
    for i in 0..chars.len()
        invariant
            chars@ == piece@,
            forall|j: int| 0 <= j < i ==> is_skipped(#[trigger] piece@[j]),
    {
        let c = chars[i];
        if c != '\t' && c != '\n' && c != '\r' && c != '\\' {
            assert(!is_skipped(piece@[i as int]));
            return false;
        }
    }
    true
}

fn plain(piece: &str) -> (r: bool)
    ensures
        r == (forall|i: int| 0 <= i < piece@.len() ==> is_plain(#[trigger] piece@[i])),
{
    let chars = chars_of(piece);
    for i in 0..chars.len()
        invariant
            chars@ == piece@,
            forall|j: int| 0 <= j < i ==> is_plain(#[trigger] piece@[j]),
    {
        let c = chars[i];
        if c as u32 > 127 || c == '%' {
            assert(!is_plain(piece@[i as int]));
            return false;
        }
    }
    true
}

/// Whether a host in this piece of a text can be counted.
fn countable(piece: &str) -> (r: bool)
    ensures
        r == host_fits(piece@),
{
    let len: usize = piece.unicode_len();
    len <= MAX_HOST_CHARS || (len <= 2147483647 && plain(piece))
}

/// Whether the host of the URL in `text`, and `text` itself, can be counted.
pub fn url_is_countable(text: &str) -> (r: bool)
    ensures
        r == hosts_fit(text@),
{
    if text.unicode_len() as u64 > 4294967295 {
        return false;
    }
    proof {
        reveal_strlit("/");
        assert("/"@ =~= seq!['/']);
    }
    let parts = split(text, "/");
    let ghost all = pieces(text@, seq!['/']);
    for k in 0..parts.len()
        invariant
            text@.len() <= u32::MAX,
            all == pieces(text@, seq!['/']),
            parts.deep_view() == all,
            forall|j: int| 0 < j < k ==> is_blank(#[trigger] all[j]),
            forall|j: int| 0 <= j < k && #[trigger] may_hold_host(all, j) ==> host_fits(all[j]),
    {
        assert(may_hold_host(all, k as int));
        assert(parts@[k as int]@ == all[k as int]);
        if !countable(parts[k].as_str()) {
            return false;
        }
        if k > 0 && !blank(parts[k].as_str()) {
            return true;
        }
    }
    true
}

/// What is put below a URL that can be counted can be counted, if it is a short component.
proof fn lemma_component_fits(text: Seq<char>, component: Seq<char>)
    requires
        hosts_fit(text),
        text.len() + 1 + component.len() <= u32::MAX,
        component.len() <= MAX_HOST_CHARS,
        !component.contains('/'),
    ensures
        hosts_fit(text + seq!['/'] + component),
{
    let parts = pieces(text, seq!['/']);
    let more = pieces(text + seq!['/'] + component, seq!['/']);
    lemma_pieces_of_two_texts(text, '/', component);
    lemma_plain_text_is_one_piece(component, '/');
    assert(more =~= parts.push(component));
    assert forall|k: int| #[trigger] may_hold_host(more, k) implies host_fits(more[k]) by {
        if k < parts.len() {
            assert forall|j: int| 0 < j < k implies is_blank(#[trigger] parts[j]) by {
                assert(is_blank(more[j]));
            }
            assert(may_hold_host(parts, k));
        }
    }
}

/// Where a URL can be counted, so can what lies two short components below it.
pub proof fn law_places_fit_where_the_url_does(url: Seq<char>, id: Seq<char>, name: Seq<char>)
    requires
        hosts_fit(url),
        url.len() + 1 + id.len() + 1 + name.len() <= u32::MAX,
        id.len() <= MAX_HOST_CHARS,
        name.len() <= MAX_HOST_CHARS,
        !id.contains('/'),
        !name.contains('/'),
    ensures
        hosts_fit(url + seq!['/'] + id + seq!['/'] + name),
{
    lemma_component_fits(url, id);
    lemma_component_fits(url + seq!['/'] + id, name);
}

/// Every text of at most 214 characters can be counted.
pub proof fn law_short_texts_fit(text: Seq<char>)
    requires
        text.len() <= 214,
    ensures
        hosts_fit(text),
{
    let parts = pieces(text, seq!['/']);
    assert forall|k: int| #[trigger] may_hold_host(parts, k) implies host_fits(parts[k]) by {
        lemma_piece_is_part(text, seq!['/'], k);
    }
}

/// Every text that is not beyond the limits of the counters, and holds nothing but ASCII
/// characters other than `%`, can be counted.
pub proof fn law_plain_texts_fit(text: Seq<char>)
    requires
        text.len() <= i32::MAX,
        forall|i: int| 0 <= i < text.len() ==> (#[trigger] text[i]) as u32 <= 127 && text[i] != '%',
    ensures
        hosts_fit(text),
{
    let parts = pieces(text, seq!['/']);
    assert forall|k: int| #[trigger] may_hold_host(parts, k) implies host_fits(parts[k]) by {
        lemma_piece_is_part(text, seq!['/'], k);
        let start = choose|start: int|
            0 <= start && start + parts[k].len() <= text.len() && #[trigger] text.subrange(
                start,
                start + parts[k].len(),
            ) == parts[k];
        assert forall|i: int| 0 <= i < parts[k].len() implies is_plain(#[trigger] parts[k][i]) by {
            assert(text.subrange(start, start + parts[k].len())[i] == text[start + i]);
        }
    }
}

/// The pieces of a text with a scheme, a gap and a host in front of the rest.
proof fn lemma_pieces_of_url(scheme: Seq<char>, gap: Seq<char>, host: Seq<char>, below: Seq<char>)
    requires
        !scheme.contains('/'),
        !gap.contains('/'),
        !host.contains('/'),
    ensures
        pieces(
            scheme + seq!['/'] + (gap + seq!['/'] + (host + seq!['/'] + below)),
            seq!['/'],
        ) == seq![scheme, gap, host] + pieces(below, seq!['/']),
{
    let tail = host + seq!['/'] + below;
    lemma_plain_text_is_one_piece(scheme, '/');
    lemma_plain_text_is_one_piece(gap, '/');
    lemma_plain_text_is_one_piece(host, '/');
    lemma_pieces_of_two_texts(host, '/', below);
    lemma_pieces_of_two_texts(gap, '/', tail);
    lemma_pieces_of_two_texts(scheme, '/', gap + seq!['/'] + tail);
}

/// A host behind a scheme and two slashes, with nothing that counts between them, cannot be
/// counted when it has more than 214 characters and one of them is not ASCII or is `%`. Nor
/// can one that stands where the scheme does.
pub proof fn law_long_hosts_fit_only_when_plain(
    scheme: Seq<char>,
    gap: Seq<char>,
    host: Seq<char>,
    below: Seq<char>,
    i: int,
)
    requires
        !scheme.contains('/'),
        !host.contains('/'),
        forall|k: int|
            0 <= k < gap.len() ==> (#[trigger] gap[k]) == '\t' || gap[k] == '\n' || gap[k] == '\r'
                || gap[k] == '\\',
        host.len() > 214,
        0 <= i < host.len(),
        host[i] as u32 > 127 || host[i] == '%',
    ensures
        !hosts_fit(scheme + seq!['/'] + (gap + seq!['/'] + (host + seq!['/'] + below))),
        !hosts_fit(host + seq!['/'] + below),
{
    lemma_pieces_of_url(scheme, gap, host, below);
    let all = scheme + seq!['/'] + (gap + seq!['/'] + (host + seq!['/'] + below));
    let parts = pieces(all, seq!['/']);
    assert(parts[1] == gap && parts[2] == host);
    assert(may_hold_host(parts, 2));
    assert(!is_plain(host[i]));
    lemma_plain_text_is_one_piece(host, '/');
    lemma_pieces_of_two_texts(host, '/', below);
    let parts = pieces(host + seq!['/'] + below, seq!['/']);
    assert(parts[0] == host);
    assert(may_hold_host(parts, 0));
}

/// Behind a scheme and a host that are short, whatever comes below the host can be counted,
/// as long as the text as a whole can.
pub proof fn law_what_lies_below_a_host_fits(
    scheme: Seq<char>,
    host: Seq<char>,
    below: Seq<char>,
    i: int,
)
    requires
        !scheme.contains('/'),
        !host.contains('/'),
        scheme.len() <= 214,
        host.len() <= 214,
        0 <= i < host.len(),
        host[i] != '\t' && host[i] != '\n' && host[i] != '\r' && host[i] != '\\',
        scheme.len() + host.len() + below.len() + 3 <= u32::MAX,
    ensures
        hosts_fit(scheme + seq!['/'] + (Seq::empty() + seq!['/'] + (host + seq!['/'] + below))),
{
    let none = Seq::<char>::empty();
    lemma_pieces_of_url(scheme, none, host, below);
    let all = scheme + seq!['/'] + (none + seq!['/'] + (host + seq!['/'] + below));
    let parts = pieces(all, seq!['/']);
    assert(parts[0] == scheme && parts[1] == none && parts[2] == host);
    assert(!is_skipped(host[i]));
    assert forall|k: int| #[trigger] may_hold_host(parts, k) implies host_fits(parts[k]) by {
        if k > 2 {
            assert(is_blank(parts[2]));
        }
    }
}

} // verus!
