//! Paths as texts with `/` between their components, read as POSIX reads
//! them: a `/` more between two components or at the end does not count,
//! nor does a `.` but at the beginning.

use crate::model::text_view;
use crate::text::{chars_of, lemma_first_index_of, same_text, split, split_chars, string_of, views};
use vstd::prelude::*;
use vstd::slice::slice_subrange;

verus! {

/// Whether a path starts at the root.
pub open spec fn is_absolute(path: Seq<char>) -> bool {
    path.len() > 0 && path[0] == '/'
}

/// Whether a piece between two separators is kept as a component: empty
/// pieces and `.` are not.
pub open spec fn is_named_piece(piece: Seq<char>) -> bool {
    piece.len() > 0 && piece != seq!['.']
}

/// The kept pieces among `pieces`, in order.
pub open spec fn named_pieces(pieces: Seq<Seq<char>>) -> Seq<Seq<char>> {
    pieces.filter(|p: Seq<char>| is_named_piece(p))
}

/// The components of a path: `/` first if the path is absolute, `.` first if
/// it is relative and begins with a `.` piece, then every piece that is
/// neither empty nor `.`.
pub open spec fn components(path: Seq<char>) -> Seq<Seq<char>> {
    let pieces = split(path, '/');
    if is_absolute(path) {
        seq![seq!['/']] + named_pieces(pieces)
    } else if pieces[0] == seq!['.'] {
        seq![seq!['.']] + named_pieces(pieces)
    } else {
        named_pieces(pieces)
    }
}

/// Whether two paths have the same components.
pub open spec fn same_path(a: Seq<char>, b: Seq<char>) -> bool {
    components(a) == components(b)
}

/// Whether the components of `path` begin with those of `base`.
pub open spec fn path_starts_with(path: Seq<char>, base: Seq<char>) -> bool {
    components(base).is_prefix_of(components(path))
}

/// `base` extended by `name`: `name` alone where it is absolute or `base` is
/// empty, else the two with exactly one `/` between them.
pub open spec fn joined(base: Seq<char>, name: Seq<char>) -> Seq<char> {
    if is_absolute(name) || base.len() == 0 {
        name
    } else if base.last() == '/' {
        base + name
    } else {
        base + seq!['/'] + name
    }
}

/// The position of the last `c` in `s`, or -1 if there is none.
pub open spec fn last_index_of(s: Seq<char>, c: char) -> int
    decreases s.len(),
{
    if s.len() == 0 {
        -1
    } else if s.last() == c {
        s.len() - 1
    } else {
        last_index_of(s.drop_last(), c)
    }
}

/// Whether a component names a file or a directory: the root, `.` and
/// `..` do not.
pub open spec fn is_name(component: Seq<char>) -> bool {
    component != seq!['/'] && component != seq!['.'] && component != seq!['.', '.']
}

/// The file name of a path: its last component, where that is a name. A
/// `/` at the end of the path does not count; the root, the empty path and
/// a path that ends in `..` have no file name.
pub open spec fn file_name(path: Seq<char>) -> Option<Seq<char>> {
    let parts = components(path);
    if parts.len() > 0 && is_name(parts.last()) {
        Some(parts.last())
    } else {
        None
    }
}

/// The stem of a file name: the whole name where it holds no `.` or only a
/// leading one, else what stands before its last `.`.
pub open spec fn stem_of_name(name: Seq<char>) -> Seq<char> {
    let dot = last_index_of(name, '.');
    if dot <= 0 {
        name
    } else {
        name.take(dot)
    }
}

/// The stem of the file that a path names, where it names one.
pub open spec fn file_stem(path: Seq<char>) -> Option<Seq<char>> {
    match file_name(path) {
        Some(name) => Some(stem_of_name(name)),
        None => None,
    }
}

/// `last_index_of` is the greatest position that holds `c`.
pub proof fn lemma_last_index_of(s: Seq<char>, c: char)
    ensures
        -1 <= last_index_of(s, c) < s.len(),
        forall|k: int| last_index_of(s, c) < k < s.len() ==> s[k] != c,
        last_index_of(s, c) >= 0 ==> s[last_index_of(s, c)] == c,
    decreases s.len(),
{
    if s.len() > 0 && s.last() != c {
        lemma_last_index_of(s.drop_last(), c);
        assert forall|k: int| last_index_of(s, c) < k < s.len() implies s[k] != c by {
            if k < s.len() - 1 {
                assert(s.drop_last()[k] == s[k]);
            }
        }
        if last_index_of(s, c) >= 0 {
            assert(s.drop_last()[last_index_of(s, c)] == s[last_index_of(s, c)]);
        }
    }
}

/// A position after which no `c` stands, and which holds `c` or is -1, is
/// `last_index_of`.
pub proof fn lemma_last_index_of_is(s: Seq<char>, c: char, at: int)
    requires
        -1 <= at < s.len(),
        forall|k: int| at < k < s.len() ==> s[k] != c,
        at >= 0 ==> s[at] == c,
    ensures
        last_index_of(s, c) == at,
{
    lemma_last_index_of(s, c);
    let l = last_index_of(s, c);
    if l > at {
        assert(s[l] != c);
    }
}

/// Extends `base` by `name`, as `joined` says.
pub fn join_path(base: &str, name: &str) -> (path: String)
    ensures
        path@ == joined(base@, name@),
{
    let b = chars_of(base);
    let n = chars_of(name);
    if (n.len() > 0 && n[0] == '/') || b.len() == 0 {
        return name.to_owned();
    }
    let mut path = base.to_owned();
    if b[b.len() - 1] != '/' {
        path.push('/');
    }
    path.append(name);
    path
}

/// The position of the last `c` in `s`, if there is one.
pub fn find_last(s: &[char], c: char) -> (at: Option<usize>)
    ensures
        match at {
            Some(i) => i as int == last_index_of(s@, c),
            None => last_index_of(s@, c) == -1,
        },
{
    let mut i: usize = s.len();
    while i > 0
        invariant
            0 <= i <= s.len(),
            forall|k: int| i <= k < s.len() ==> s@[k] != c,
        decreases i,
    {
        i -= 1;
        if s[i] == c {
            proof {
                lemma_last_index_of_is(s@, c, i as int);
            }
            return Some(i);
        }
    }
    proof {
        lemma_last_index_of_is(s@, c, -1);
    }
    None
}

/// The stem of the file that `path` names, where it names one.
pub fn file_stem_of(path: &str) -> (stem: Option<String>)
    ensures
        text_view(stem) == file_stem(path@),
{
    let parts = path_components(path);
    if parts.len() == 0 {
        return None;
    }
    let last = parts[parts.len() - 1].as_str();
    assert(last@ == components(path@).last()) by {
        assert(views(parts@)[parts.len() - 1] == parts@[parts.len() - 1]@);
    }
    proof {
        reveal_strlit("/");
        reveal_strlit(".");
        reveal_strlit("..");
        assert("/"@ =~= seq!['/']);
        assert("."@ =~= seq!['.']);
        assert(".."@ =~= seq!['.', '.']);
    }
    if same_text(last, "/") || same_text(last, ".") || same_text(last, "..") {
        return None;
    }
    let name = chars_of(last);
    proof {
        lemma_last_index_of(name@, '.');
    }
    match find_last(name.as_slice(), '.') {
        Some(dot) => {
            if dot == 0 {
                Some(string_of(name.as_slice()))
            } else {
                Some(string_of(slice_subrange(name.as_slice(), 0, dot)))
            }
        },
        None => Some(string_of(name.as_slice())),
    }
}

/// The components of `path`.
pub fn path_components(path: &str) -> (parts: Vec<String>)
    ensures
        views(parts@) == components(path@),
{
    let p = chars_of(path);
    let pieces = split_chars(p.as_slice(), '/');
    let mut parts: Vec<String> = Vec::new();
    proof {
        lemma_first_index_of(p@, '/');
        assert(split(p@, '/').len() > 0);
    }
    let ghost lead: Seq<Seq<char>> = Seq::empty();
    if p.len() > 0 && p[0] == '/' {
        parts.push("/".to_owned());
        proof {
            reveal_strlit("/");
            assert("/"@ == seq!['/']);
            lead = seq![seq!['/']];
        }
    } else if same_text(pieces[0].as_str(), ".") {
        parts.push(".".to_owned());
        proof {
            reveal_strlit(".");
            assert("."@ == seq!['.']);
            lead = seq![seq!['.']];
        }
    } else {
        proof {
            reveal_strlit(".");
            assert("."@ == seq!['.']);
        }
    }
    assert(views(parts@) == lead);
    let ghost keep = |q: Seq<char>| is_named_piece(q);
    let mut i: usize = 0;
    while i < pieces.len()
        invariant
            0 <= i <= pieces.len(),
            keep == (|q: Seq<char>| is_named_piece(q)),
            views(parts@) == lead + views(pieces@).take(i as int).filter(keep),
        decreases pieces.len() - i,
    {
        let piece = &pieces[i];
        proof {
            reveal_strlit(".");
            assert("."@ == seq!['.']);
            let done = views(pieces@).take(i as int);
            let next = views(pieces@).take(i + 1);
            assert(next == done.push(piece@));
            assert(next.drop_last() == done);
            reveal(Seq::filter);
        }
        if piece.as_str().unicode_len() > 0 && !same_text(piece.as_str(), ".") {
            let kept = piece.clone();
            proof {
                assert(views(parts@.push(kept)) == views(parts@).push(kept@));
            }
            parts.push(kept);
        }
        i += 1;
    }
    assert(views(pieces@).take(pieces.len() as int) == views(pieces@));
    parts
}

} // verus!
