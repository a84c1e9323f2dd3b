//! How a request path becomes the segments that handlers are matched against.
//!
//! A path that starts with `/` is cut at every `/` that follows. The pieces
//! are then read from left to right: `.` is dropped, `..` takes back the piece
//! kept last (and does nothing where none is kept), every other piece is kept
//! as it is, the empty piece between two slashes included. A path that does
//! not start with `/` has no segments.
use crate::text::{str_eq, views};
use vstd::prelude::*;

verus! {

/// The segment `.`, which stands for the directory it is found in.
pub open spec fn dot() -> Seq<char> {
    seq!['.']
}

/// The segment `..`, which stands for the parent directory.
pub open spec fn dot_dot() -> Seq<char> {
    seq!['.', '.']
}

/// The pieces of `s` between its slashes, in order. There is always at least
/// one piece, and the last one is what follows the last slash.
pub open spec fn split_slash(s: Seq<char>) -> Seq<Seq<char>>
    decreases s.len(),
{
    if s.len() == 0 {
        seq![Seq::<char>::empty()]
    } else {
        let before = split_slash(s.drop_last());
        if s.last() == '/' {
            before.push(Seq::<char>::empty())
        } else {
            before.drop_last().push(before.last().push(s.last()))
        }
    }
}

/// What is kept of `kept` once the piece `piece` has been read after it.
pub open spec fn step(kept: Seq<Seq<char>>, piece: Seq<char>) -> Seq<Seq<char>> {
    if piece == dot_dot() {
        if kept.len() > 0 {
            kept.drop_last()
        } else {
            kept
        }
    } else if piece == dot() {
        kept
    } else {
        kept.push(piece)
    }
}

/// The segments that are kept of the pieces `raw`, read from left to right.
pub open spec fn resolve_dots(raw: Seq<Seq<char>>) -> Seq<Seq<char>>
    decreases raw.len(),
{
    if raw.len() == 0 {
        Seq::<Seq<char>>::empty()
    } else {
        step(resolve_dots(raw.drop_last()), raw.last())
    }
}

/// The segments of the path `path`.
pub open spec fn path_segments(path: Seq<char>) -> Seq<Seq<char>> {
    if path.len() > 0 && path[0] == '/' {
        resolve_dots(split_slash(path.skip(1)))
    } else {
        Seq::<Seq<char>>::empty()
    }
}

/// `pieces` joined by single slashes.
pub open spec fn join_slash(pieces: Seq<Seq<char>>) -> Seq<char>
    decreases pieces.len(),
{
    if pieces.len() == 0 {
        Seq::<char>::empty()
    } else if pieces.len() == 1 {
        pieces[0]
    } else {
        join_slash(pieces.drop_last()).push('/') + pieces.last()
    }
}

/// Cutting at the slashes loses nothing and leaves no slash behind: there is
/// at least one piece, the pieces joined by slashes are the string again, and
/// no piece holds a slash.
pub proof fn lemma_split_slash(s: Seq<char>)
    ensures
        split_slash(s).len() >= 1,
        join_slash(split_slash(s)) == s,
        forall|i: int, j: int|
            0 <= i < split_slash(s).len() && 0 <= j < split_slash(s)[i].len()
                ==> split_slash(s)[i][j] != '/',
    decreases s.len(),
{
    if s.len() > 0 {
        let before = split_slash(s.drop_last());
        lemma_split_slash(s.drop_last());
        if s.last() == '/' {
            assert(before.push(Seq::<char>::empty()).drop_last() == before);
        } else {
            let now = before.drop_last().push(before.last().push(s.last()));
            if before.len() > 1 {
                assert(now.drop_last() == before.drop_last());
                assert(join_slash(now) == join_slash(before).push(s.last()));
            }
        }
    }
}

/// What is kept never holds `.` or `..`, and is never longer than what was
/// read: a path cannot name anything above its root.
pub proof fn lemma_resolve_dots(raw: Seq<Seq<char>>)
    ensures
        resolve_dots(raw).len() <= raw.len(),
        forall|i: int|
            0 <= i < resolve_dots(raw).len() ==> resolve_dots(raw)[i] != dot()
                && resolve_dots(raw)[i] != dot_dot(),
        forall|i: int|
            0 <= i < resolve_dots(raw).len() ==> raw.contains(#[trigger] resolve_dots(raw)[i]),
    decreases raw.len(),
{
    if raw.len() > 0 {
        let init = raw.drop_last();
        lemma_resolve_dots(init);
        let kept = resolve_dots(init);
        let now = resolve_dots(raw);
        assert forall|i: int| 0 <= i < now.len() implies raw.contains(#[trigger] now[i]) by {
            if i < kept.len() {
                let k = choose|k: int| 0 <= k < init.len() && init[k] == kept[i];
                assert(raw[k] == now[i]);
            } else {
                assert(raw[raw.len() - 1] == now[i]);
            }
        }
    }
}

/// The segments of a path hold no `.`, no `..` and no slash.
pub proof fn lemma_path_segments_are_plain(path: Seq<char>)
    ensures
        forall|i: int|
            0 <= i < path_segments(path).len() ==> {
                &&& path_segments(path)[i] != dot()
                &&& path_segments(path)[i] != dot_dot()
                &&& !(#[trigger] path_segments(path)[i]).contains('/')
            },
{
    if path.len() > 0 && path[0] == '/' {
        let raw = split_slash(path.skip(1));
        lemma_split_slash(path.skip(1));
        lemma_resolve_dots(raw);
        let segs = path_segments(path);
        assert forall|i: int| 0 <= i < segs.len() implies !(#[trigger] segs[i]).contains('/') by {
            let k = choose|k: int| 0 <= k < raw.len() && raw[k] == segs[i];
            assert(forall|j: int| 0 <= j < raw[k].len() ==> raw[k][j] != '/');
        }
    }
}

/// Reads the piece `piece` after the segments kept so far.
fn absorb(kept: &mut Vec<String>, piece: &str)
    ensures
        views(final(kept)@) == step(views(old(kept)@), piece@),
{
    proof {
        reveal_strlit("..");
        reveal_strlit(".");
    }
    if str_eq(piece, "..") {
        assert(".."@ =~= dot_dot());
        if kept.len() > 0 {
            kept.pop();
        }
    } else if str_eq(piece, ".") {
        assert("."@ =~= dot());
    } else {
        assert(".."@ =~= dot_dot());
        assert("."@ =~= dot());
        kept.push(piece.to_owned());
    }
}

/// The segments of the path `path`, as owned strings.
pub fn collect_path_segs(path: &str) -> (segs: Vec<String>)
    ensures
        views(segs@) == path_segments(path@),
{
    let mut kept: Vec<String> = Vec::new();
    let n = path.unicode_len();
    if n == 0 || path.get_char(0) != '/' {
        return kept;
    }
    let ghost s = path@;
    let mut start: usize = 1;
    let mut i: usize = 0;
    for c in it: path.chars()
        invariant
            it.seq() == s,
            s == path@,
            n == s.len(),
            s.len() > 0 && s[0] == '/',
            i == it.index(),
            i <= n,
            1 <= start <= n + 1,
            i >= 1 ==> start <= i,
            i >= 1 ==> split_slash(s.subrange(1, i as int)).last() == s.subrange(
                start as int,
                i as int,
            ),
            i >= 1 ==> views(kept@) == resolve_dots(
                split_slash(s.subrange(1, i as int)).drop_last(),
            ),
            i == 0 ==> start == 1 && kept@.len() == 0,
    {
        if i >= 1 {
            let ghost seen = s.subrange(1, i as int);
            let ghost next = s.subrange(1, i as int + 1);
            assert(next.drop_last() == seen);
            if c == '/' {
                let piece = path.substring_char(start, i);
                absorb(&mut kept, piece);
                start = i + 1;
                assert(split_slash(next).drop_last() == split_slash(seen));
                assert(split_slash(seen).drop_last().push(split_slash(seen).last())
                    == split_slash(seen)) by {
                    lemma_split_slash(seen);
                }
            } else {
                assert(split_slash(next).drop_last() == split_slash(seen).drop_last()) by {
                    lemma_split_slash(seen);
                }
            }
        }
        i = i + 1;
    }
    let piece = path.substring_char(start, n);
    absorb(&mut kept, piece);
    proof {
        let whole = s.subrange(1, n as int);
        lemma_split_slash(whole);
    }
    kept
}

} // verus!
