//! File names as uploaders send them, and the short names kept for them.
//!
//! A name is read as a path with `/` between its components: empty components and
//! components `.` do not count, and a path that ends in `..` names no file.
use vstd::prelude::*;
use vstd::string::*;
use crate::text::{
    chars_of, law_pieces_are_free_of_the_separator, lemma_pieces_of_two_texts,
    lemma_plain_text_is_one_piece, pieces, split,
};

verus! {

/// How many characters of a name are kept in front of its extension.
pub const MAX_BASE_CHARS: usize = 45;

/// How many characters of an extension are kept.
pub const MAX_EXTENSION_CHARS: usize = 10;

/// How many characters a kept name has at most: both parts and the `.` between them.
pub const MAX_NAME_CHARS: usize = 56;

/// A component that stands for something other than the place it is read from.
pub open spec fn counts(component: Seq<char>) -> bool {
    component.len() != 0 && component != seq!['.']
}

/// The components of `path` that count.
pub open spec fn components(path: Seq<char>) -> Seq<Seq<char>> {
    pieces(path, seq!['/']).filter(|c: Seq<char>| counts(c))
}

/// The file that `path` names, without the directories in front of it.
pub open spec fn file_name_of(path: Seq<char>) -> Option<Seq<char>> {
    let parts = components(path);
    if parts.len() == 0 || parts.last() == seq!['.', '.'] {
        None
    } else {
        Some(parts.last())
    }
}

/// The index of the last `.` in `name`, or -1.
pub open spec fn last_dot(name: Seq<char>) -> int
    decreases name.len(),
{
    if name.len() == 0 {
        -1
    } else if name.last() == '.' {
        name.len() - 1
    } else {
        last_dot(name.drop_last())
    }
}

/// The part of a file name before its extension. A leading `.` starts no extension.
pub open spec fn stem_of(name: Seq<char>) -> Seq<char> {
    if last_dot(name) > 0 {
        name.take(last_dot(name))
    } else {
        name
    }
}

/// The part of a file name after its last `.`, unless that is where the name starts.
pub open spec fn extension_of(name: Seq<char>) -> Option<Seq<char>> {
    if last_dot(name) > 0 {
        Some(name.skip(last_dot(name) + 1))
    } else {
        None
    }
}

/// The extension of the file that `path` names.
pub open spec fn path_extension_of(path: Seq<char>) -> Option<Seq<char>> {
    match file_name_of(path) {
        Some(name) => extension_of(name),
        None => None,
    }
}

/// At most the first `n` characters of `s`.
pub open spec fn cut(s: Seq<char>, n: nat) -> Seq<char> {
    if s.len() <= n {
        s
    } else {
        s.take(n as int)
    }
}

/// The name kept for a file that was sent under the name `path`.
pub open spec fn short_name_of(path: Seq<char>) -> Option<Seq<char>> {
    match file_name_of(path) {
        None => None,
        Some(name) => {
            let base = cut(stem_of(name), MAX_BASE_CHARS as nat);
            Some(
                match extension_of(name) {
                    Some(ext) => base + seq!['.'] + cut(ext, MAX_EXTENSION_CHARS as nat),
                    None => base,
                },
            )
        },
    }
}

/// The file that `path` names, without the directories in front of it.
pub fn file_name(path: &str) -> (name: Option<String>)
    ensures
        name.deep_view() == file_name_of(path@),
{
    proof {
        reveal_strlit("/");
        reveal_strlit(".");
        reveal_strlit("..");
        assert("/"@ =~= seq!['/']);
    }
    let mut parts = split(path, "/");
    let here = ".".to_owned();
    let up = "..".to_owned();
    let ghost all = parts.deep_view();
    let ghost keep = |c: Seq<char>| counts(c);
    assert(all.take(all.len() as int) =~= all);
    while parts.len() > 0
        invariant
            here@ == seq!['.'],
            up@ == seq!['.', '.'],
            keep == (|c: Seq<char>| counts(c)),
            all.filter(keep) == components(path@),
            parts@.len() <= all.len(),
            parts.deep_view() == all.take(parts@.len() as int),
            all.take(parts@.len() as int).filter(keep) == all.filter(keep),
        decreases parts@.len(),
    {
        let ghost n = parts@.len() as int;
        let ghost seen = all.take(n);
        assert(seen.drop_last() =~= all.take(n - 1));
        match parts.pop() {
            Some(last) => {
                proof {
                    reveal(Seq::filter);
                }
                if !last.as_str().is_empty() && last != here {
                    return if last == up {
                        None
                    } else {
                        Some(last)
                    };
                }
            },
            None => {},
        }
    }
    None
}

fn dot_before(chars: &Vec<char>) -> (d: Option<usize>)
    ensures
        d matches Some(d) ==> d == last_dot(chars@),
        d is None ==> last_dot(chars@) == -1,
        d matches Some(d) ==> d < chars@.len(),
{
    let mut n: usize = chars.len();
    assert(chars@.take(n as int) =~= chars@);
    while n > 0
        invariant
            n <= chars@.len(),
            last_dot(chars@.take(n as int)) == last_dot(chars@),
        decreases n,
    {
        assert(chars@.take(n as int).drop_last() =~= chars@.take(n - 1));
        n -= 1;
        if chars[n] == '.' {
            return Some(n);
        }
    }
    None
}

/// A file name, parted at its extension.
fn parted(name: &str) -> (r: (String, Option<String>))
    ensures
        r.0@ == stem_of(name@),
        r.1.deep_view() == extension_of(name@),
{
    let chars = chars_of(name);
    let end: usize = chars.len();
    match dot_before(&chars) {
        Some(d) if d > 0 => {
            let stem = name.substring_char(0, d).to_owned();
            let ext = name.substring_char(d + 1, end).to_owned();
            (stem, Some(ext))
        },
        _ => (name.to_owned(), None),
    }
}

fn shortened(s: &str, n: usize) -> (r: String)
    ensures
        r@ == cut(s@, n as nat),
{
    if s.unicode_len() <= n {
        s.to_owned()
    } else {
        s.substring_char(0, n).to_owned()
    }
}

/// The extension of the file that `path` names.
pub fn path_extension(path: &str) -> (ext: Option<String>)
    ensures
        ext.deep_view() == path_extension_of(path@),
{
    match file_name(path) {
        Some(name) => parted(name.as_str()).1,
        None => None,
    }
}

/// The name kept for a file that was sent under the name `path`: its base and its
/// extension, each cut to its limit. There is none where `path` names no file.
pub fn short_name(path: &str) -> (name: Option<String>)
    ensures
        name.deep_view() == short_name_of(path@),
{
    match file_name(path) {
        Some(name) => {
            let (stem, ext) = parted(name.as_str());
            let mut short = shortened(stem.as_str(), MAX_BASE_CHARS);
            match ext {
                Some(ext) => {
                    proof {
                        reveal_strlit(".");
                    }
                    short.append(".");
                    short.append(shortened(ext.as_str(), MAX_EXTENSION_CHARS).as_str());
                },
                None => {},
            }
            Some(short)
        },
        None => None,
    }
}

proof fn lemma_last_dot(name: Seq<char>)
    ensures
        -1 <= last_dot(name) < name.len(),
    decreases name.len(),
{
    if name.len() != 0 && name.last() != '.' {
        lemma_last_dot(name.drop_last());
    }
}

/// Filtering adds nothing.
proof fn lemma_kept_part_is_a_piece(parts: Seq<Seq<char>>, keep: spec_fn(Seq<char>) -> bool, i: int)
    requires
        0 <= i < parts.filter(keep).len(),
    ensures
        exists|k: int| 0 <= k < parts.len() && parts[k] == parts.filter(keep)[i],
    decreases parts.len(),
{
    reveal(Seq::filter);
    let before = parts.drop_last();
    if i < before.filter(keep).len() {
        lemma_kept_part_is_a_piece(before, keep, i);
        let k = choose|k: int| 0 <= k < before.len() && before[k] == before.filter(keep)[i];
        assert(parts[k] == parts.filter(keep)[i]);
    }
}

/// What a path names is not empty and holds no `/`.
proof fn lemma_file_name_is_a_component(path: Seq<char>)
    requires
        file_name_of(path) is Some,
    ensures
        file_name_of(path)->0.len() > 0,
        !file_name_of(path)->0.contains('/'),
{
    let all = pieces(path, seq!['/']);
    let keep = |c: Seq<char>| counts(c);
    let last = all.filter(keep).len() - 1;
    let name = all.filter(keep)[last];
    all.lemma_filter_pred(keep, last);
    lemma_kept_part_is_a_piece(all, keep, last);
    let k = choose|k: int| 0 <= k < all.len() && all[k] == name;
    assert forall|i: int| 0 <= i < name.len() implies name[i] != '/' by {
        law_pieces_are_free_of_the_separator(path, seq!['/'], k, i);
        if name[i] == '/' {
            assert(name.subrange(i, i + 1) =~= seq!['/']);
        }
    }
}

/// A kept name is never empty, never longer than the two limits and the `.` between
/// them allow, and never holds a `/`.
pub proof fn law_short_names_are_short_and_plain(path: Seq<char>)
    requires
        short_name_of(path) is Some,
    ensures
        0 < short_name_of(path)->0.len() <= MAX_NAME_CHARS,
        !short_name_of(path)->0.contains('/'),
{
    let name = file_name_of(path)->0;
    lemma_file_name_is_a_component(path);
    lemma_last_dot(name);
}

/// A text without `/` is one component, and names itself if it counts and is not `..`.
proof fn lemma_plain_text_names_itself(text: Seq<char>)
    requires
        !text.contains('/'),
        counts(text),
        text != seq!['.', '.'],
    ensures
        file_name_of(text) == Some(text),
{
    lemma_plain_text_is_one_piece(text, '/');
    reveal(Seq::filter);
}

/// Past the last `.` no `.` stands.
proof fn lemma_no_dot_after_the_last(name: Seq<char>, i: int)
    requires
        last_dot(name) < i < name.len(),
    ensures
        name[i] != '.',
    decreases name.len(),
{
    lemma_last_dot(name);
    if name.last() != '.' && i < name.len() - 1 {
        lemma_no_dot_after_the_last(name.drop_last(), i);
    }
}

/// The last `.` is where a `.` stands and none follows.
proof fn lemma_last_dot_is(name: Seq<char>, d: int)
    requires
        -1 <= d < name.len(),
        d >= 0 ==> name[d] == '.',
        forall|i: int| d < i < name.len() ==> name[i] != '.',
    ensures
        last_dot(name) == d,
    decreases name.len(),
{
    if name.len() != 0 && d < name.len() - 1 {
        lemma_last_dot_is(name.drop_last(), d);
    }
}

/// Where the last `.` is said to stand, one stands.
proof fn lemma_last_dot_is_a_dot(name: Seq<char>)
    requires
        last_dot(name) >= 0,
    ensures
        name[last_dot(name)] == '.',
    decreases name.len(),
{
    if name.last() != '.' {
        lemma_last_dot(name.drop_last());
        lemma_last_dot_is_a_dot(name.drop_last());
    }
}

/// A kept name has the extension of the name that was sent, cut to its limit, and has
/// none where that had none.
pub proof fn law_short_names_keep_the_extension(path: Seq<char>)
    requires
        short_name_of(path) is Some,
    ensures
        path_extension_of(short_name_of(path)->0) == (match path_extension_of(path) {
            Some(ext) => Some(cut(ext, MAX_EXTENSION_CHARS as nat)),
            None => None,
        }),
{
    let name = file_name_of(path)->0;
    let short = short_name_of(path)->0;
    let dot = last_dot(name);
    lemma_file_name_is_a_component(path);
    lemma_last_dot(name);
    let base = cut(stem_of(name), MAX_BASE_CHARS as nat);
    if dot > 0 {
        lemma_last_dot_is_a_dot(name);
        if short == seq!['.', '.'] {
            assert(name =~= seq!['.', '.']);
        }
        lemma_plain_text_names_itself(short);
        assert forall|i: int| base.len() < i < short.len() implies short[i] != '.' by {
            lemma_no_dot_after_the_last(name, dot + i - base.len());
        }
        lemma_last_dot_is(short, base.len() as int);
    } else {
        assert forall|i: int| dot < i < name.len() implies name[i] != '.' by {
            lemma_no_dot_after_the_last(name, i);
        }
        if dot == 0 {
            lemma_last_dot_is_a_dot(name);
        }
        lemma_plain_text_names_itself(short);
        lemma_last_dot_is(short, dot);
    }
}

/// The file that a path names is decided by what stands behind its last `/`: an empty
/// component and `.` change nothing, `..` names no file, and anything else is the name.
pub proof fn law_last_component_decides_the_name(dir: Seq<char>, last: Seq<char>)
    requires
        !last.contains('/'),
    ensures
        last.len() == 0 || last == seq!['.'] ==> {
            &&& file_name_of(last) is None
            &&& file_name_of(dir + seq!['/'] + last) == file_name_of(dir)
        },
        last == seq!['.', '.'] ==> {
            &&& file_name_of(last) is None
            &&& file_name_of(dir + seq!['/'] + last) is None
        },
        last.len() > 0 && last != seq!['.'] && last != seq!['.', '.'] ==> {
            &&& file_name_of(last) == Some(last)
            &&& file_name_of(dir + seq!['/'] + last) == Some(last)
        },
{
    let keep = |c: Seq<char>| counts(c);
    let front = pieces(dir, seq!['/']);
    lemma_plain_text_is_one_piece(last, '/');
    lemma_pieces_of_two_texts(dir, '/', last);
    reveal(Seq::filter);
    let all = front + seq![last];
    assert(all.drop_last() =~= front);
    assert(seq![last].drop_last() =~= Seq::empty());
    assert(all.filter(keep) == if counts(last) {
        front.filter(keep).push(last)
    } else {
        front.filter(keep)
    });
    assert(seq![last].filter(keep) =~= if counts(last) {
        seq![last]
    } else {
        Seq::empty()
    });
}

/// A name is parted at its last `.`: of what stands before it the first 45 characters are
/// kept, and of what stands behind it, its extension, the first 10.
pub proof fn law_short_names_are_cut_in_both_parts(path: Seq<char>, base: Seq<char>, ext: Seq<char>)
    requires
        file_name_of(path) == Some(base + seq!['.'] + ext),
        base.len() > 0,
        !ext.contains('.'),
    ensures
        short_name_of(path) == Some(
            (if base.len() <= 45 {
                base
            } else {
                base.take(45)
            }) + seq!['.'] + (if ext.len() <= 10 {
                ext
            } else {
                ext.take(10)
            }),
        ),
        path_extension_of(path) == Some(ext),
{
    let name = base + seq!['.'] + ext;
    let dot = base.len() as int;
    assert forall|i: int| dot < i < name.len() implies name[i] != '.' by {
        assert(name[i] == ext[i - dot - 1]);
    }
    lemma_last_dot_is(name, dot);
    assert(name.take(dot) =~= base);
    assert(name.skip(dot + 1) =~= ext);
}

/// Of a name without an extension, where at most its first character is a `.`, the first 45
/// characters are kept.
pub proof fn law_short_names_without_extension(path: Seq<char>, name: Seq<char>)
    requires
        file_name_of(path) == Some(name),
        forall|i: int| 0 < i < name.len() ==> (#[trigger] name[i]) != '.',
    ensures
        short_name_of(path) == Some(
            if name.len() <= 45 {
                name
            } else {
                name.take(45)
            },
        ),
        path_extension_of(path) is None,
{
    if name.len() > 0 && name[0] == '.' {
        lemma_last_dot_is(name, 0);
    } else {
        lemma_last_dot_is(name, -1);
    }
}

/// A path that names no file has neither a short name nor an extension, and every other path
/// has a short name.
pub proof fn law_only_names_of_files_are_kept(path: Seq<char>)
    ensures
        short_name_of(path) is None <==> file_name_of(path) is None,
        file_name_of(path) is None ==> path_extension_of(path) is None,
{
}

} // verus!
