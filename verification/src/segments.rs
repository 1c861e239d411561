//! The segments of a URL path: the pieces between its slashes that are not
//! empty.

use crate::text::texts;
use vstd::prelude::*;
use vstd::std_specs::iter::IteratorSpec;
use vstd::string::StrSliceExecFns;

verus! {

/// The length of the longest prefix of `s` that holds no slash.
pub open spec fn run_len(s: Seq<char>) -> nat
    decreases s.len(),
{
    if s.len() == 0 || s[0] == '/' {
        0
    } else {
        1 + run_len(s.skip(1))
    }
}

/// The non-empty pieces that the slashes of `s` part, from left to right.
pub open spec fn segments_of(s: Seq<char>) -> Seq<Seq<char>>
    decreases s.len(),
{
    if s.len() == 0 {
        Seq::empty()
    } else if s[0] == '/' {
        segments_of(s.skip(1))
    } else {
        let n = run_len(s) as int;
        proof {
            lemma_run_len_bounds(s);
        }
        seq![s.take(n)] + segments_of(s.skip(n))
    }
}

/// Whether `piece` can be a segment: it is not empty and holds no slash.
pub open spec fn is_segment(piece: Seq<char>) -> bool {
    piece.len() > 0 && forall|k: int| 0 <= k < piece.len() ==> piece[k] != '/'
}

/// The path that lists `parts`, with a slash before each.
pub open spec fn path_of(parts: Seq<Seq<char>>) -> Seq<char>
    decreases parts.len(),
{
    if parts.len() == 0 {
        Seq::empty()
    } else {
        seq!['/'] + parts[0] + path_of(parts.skip(1))
    }
}

/// Splits `path` at its slashes and keeps the pieces that are not empty.
pub fn path_segments(path: &str) -> (parts: Vec<String>)
    ensures
        texts(parts@) == segments_of(path@),
{
    let n = path.unicode_len();
    let mut parts: Vec<String> = Vec::new();
    let mut start: usize = 0;
    let mut i: usize = 0;
    let mut rest = path.chars();
    assert(path@.skip(0) == path@);
    loop
        invariant
            start <= i <= n,
            n == path@.len(),
            rest.remaining() == path@.skip(i as int),
            forall|k: int| start <= k < i ==> path@[k] != '/',
            texts(parts@) + segments_of(path@.skip(start as int)) == segments_of(path@),
        ensures
            i == n,
        decreases n - i,
    {
        let c = match rest.next() {
            Some(c) => c,
            None => {
                break ;
            },
        };
        if c == '/' {
            if start < i {
                let piece = path.substring_char(start, i).to_owned();
                proof {
                    lemma_segments_take_run(path@, start as int, i as int);
                }
                parts.push(piece);
            }
            proof {
                lemma_segments_skip_slash(path@, i as int);
            }
            start = i + 1;
        }
        i = i + 1;
    }
    if start < i {
        let piece = path.substring_char(start, i).to_owned();
        proof {
            lemma_segments_take_run(path@, start as int, i as int);
        }
        parts.push(piece);
    }
    parts
}

/// Every piece that splitting gives is a segment.
pub proof fn lemma_segments_are_segments(s: Seq<char>)
    ensures
        forall|i: int| 0 <= i < segments_of(s).len() ==> is_segment(#[trigger] segments_of(s)[i]),
    decreases s.len(),
{
    if s.len() == 0 {
    } else if s[0] == '/' {
        lemma_segments_are_segments(s.skip(1));
        assert(segments_of(s) == segments_of(s.skip(1)));
    } else {
        let n = run_len(s) as int;
        lemma_run_len_bounds(s);
        lemma_segments_are_segments(s.skip(n));
        assert forall|i: int| 0 <= i < segments_of(s).len() implies is_segment(
            #[trigger] segments_of(s)[i],
        ) by {
            if i > 0 {
                assert(segments_of(s)[i] == segments_of(s.skip(n))[i - 1]);
            }
        }
    }
}

/// Splitting undoes listing: the path that lists segments splits into these
/// segments again.
pub proof fn lemma_segments_of_path(parts: Seq<Seq<char>>)
    requires
        forall|i: int| 0 <= i < parts.len() ==> is_segment(#[trigger] parts[i]),
    ensures
        segments_of(path_of(parts)) == parts,
    decreases parts.len(),
{
    if parts.len() > 0 {
        let first = parts[0];
        let rest = parts.skip(1);
        // What follows the leading slash: the first segment, then the path of the rest.
        let tail = first + path_of(rest);
        assert(path_of(parts).skip(1) =~= tail);
        assert forall|i: int| 0 <= i < rest.len() implies is_segment(#[trigger] rest[i]) by {
            assert(rest[i] == parts[i + 1]);
        }
        lemma_segments_of_path(rest);
        assert forall|k: int| 0 <= k < first.len() implies tail[k] != '/' by {
            assert(tail[k] == first[k]);
        }
        assert(first.len() < tail.len() ==> tail[first.len() as int] == '/') by {
            if rest.len() > 0 {
                assert(tail[first.len() as int] == path_of(rest)[0]);
            }
        }
        lemma_run_len_is(tail, first.len() as int);
        assert(tail.take(first.len() as int) =~= first);
        assert(tail.skip(first.len() as int) =~= path_of(rest));
        assert(segments_of(tail) == seq![first] + segments_of(path_of(rest)));
    }
}

/// A run is no longer than the text it starts, and holds no slash.
pub proof fn lemma_run_len_bounds(s: Seq<char>)
    ensures
        run_len(s) <= s.len(),
        s.len() > 0 && s[0] != '/' ==> run_len(s) >= 1,
        forall|k: int| 0 <= k < run_len(s) ==> s[k] != '/',
        run_len(s) < s.len() ==> s[run_len(s) as int] == '/',
    decreases s.len(),
{
    if s.len() == 0 || s[0] == '/' {
    } else {
        let t = s.skip(1);
        lemma_run_len_bounds(t);
        assert forall|k: int| 0 <= k < run_len(s) implies s[k] != '/' by {
            if k > 0 {
                assert(s[k] == t[k - 1]);
            }
        }
    }
}

/// A slash-free stretch that ends at a slash, or at the end, is the whole run.
proof fn lemma_run_len_is(s: Seq<char>, m: int)
    requires
        0 <= m <= s.len(),
        forall|k: int| 0 <= k < m ==> s[k] != '/',
        m < s.len() ==> s[m] == '/',
    ensures
        run_len(s) == m,
{
    lemma_run_len_bounds(s);
}

/// Leading slashes part nothing.
proof fn lemma_segments_skip_slash(s: Seq<char>, from: int)
    requires
        0 <= from < s.len(),
        s[from] == '/',
    ensures
        segments_of(s.skip(from)) == segments_of(s.skip(from + 1)),
{
    assert(s.skip(from).skip(1) == s.skip(from + 1));
}

/// A slash-free stretch from `from` to `to`, closed by a slash or by the end,
/// is the first piece of what begins at `from`.
proof fn lemma_segments_take_run(s: Seq<char>, from: int, to: int)
    requires
        0 <= from < to <= s.len(),
        forall|k: int| from <= k < to ==> s[k] != '/',
        to < s.len() ==> s[to] == '/',
    ensures
        segments_of(s.skip(from)) == seq![s.subrange(from, to)] + segments_of(s.skip(to)),
{
    let t = s.skip(from);
    lemma_run_len_is(t, to - from);
    assert(t.take(to - from) == s.subrange(from, to));
    assert(t.skip(to - from) == s.skip(to));
}

} // verus!
