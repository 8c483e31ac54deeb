//! Path-as-text primitives used by the resolvers: absoluteness, joining a
//! relative suffix onto a base directory, and splitting a colon-delimited
//! search-path string.
//!
//! Paths are handled purely as character sequences; nothing here touches the
//! filesystem.

use vstd::prelude::*;
use vstd::string::*;

verus! {

/// A path is absolute when it is non-empty and starts at the root.
pub open spec fn is_absolute_path(s: Seq<char>) -> bool {
    s.len() > 0 && s[0] == '/'
}

/// The result of joining `relative` onto `base`: an absolute `relative`
/// replaces `base`; otherwise the two are joined with exactly one separator
/// between them.
pub open spec fn join_spec(base: Seq<char>, relative: Seq<char>) -> Seq<char> {
    if is_absolute_path(relative) {
        relative
    } else if base.len() == 0 {
        relative
    } else if base[base.len() - 1] == '/' {
        base + relative
    } else {
        base + seq!['/'] + relative
    }
}

/// The segments of `s` delimited by `sep`, in order, each taken verbatim:
/// empty segments are kept, and a string without the separator is a single
/// segment. The result always has at least one segment.
pub open spec fn split_sep(s: Seq<char>, sep: char) -> Seq<Seq<char>>
    decreases s.len(),
{
    if s.len() == 0 {
        seq![Seq::<char>::empty()]
    } else if s[0] == sep {
        seq![Seq::<char>::empty()] + split_sep(s.subrange(1, s.len() as int), sep)
    } else {
        let rest = split_sep(s.subrange(1, s.len() as int), sep);
        seq![seq![s[0]] + rest[0]] + rest.subrange(1, rest.len() as int)
    }
}

/// The views of a sequence of owned strings.
pub open spec fn seq_views(v: Seq<String>) -> Seq<Seq<char>> {
    v.map_values(|t: String| t@)
}

/// Splitting never yields an empty list of segments.
pub proof fn lemma_split_sep_len(s: Seq<char>, sep: char)
    ensures
        split_sep(s, sep).len() >= 1,
    decreases s.len(),
{
    if s.len() == 0 {
    } else {
        lemma_split_sep_len(s.subrange(1, s.len() as int), sep);
    }
}

/// A string free of the separator splits into exactly itself.
pub proof fn lemma_split_sep_no_sep(s: Seq<char>, sep: char)
    requires
        forall|i: int| 0 <= i < s.len() ==> s[i] != sep,
    ensures
        split_sep(s, sep) == seq![s],
    decreases s.len(),
{
    if s.len() == 0 {
        assert(s =~= Seq::<char>::empty());
        assert(split_sep(s, sep) =~~= seq![s]);
    } else {
        let tail = s.subrange(1, s.len() as int);
        assert(forall|i: int| 0 <= i < tail.len() ==> tail[i] != sep);
        lemma_split_sep_no_sep(tail, sep);
        lemma_split_sep_len(tail, sep);
        assert(seq![s[0]] + tail =~= s);
        assert(split_sep(s, sep) =~~= seq![s]);
    }
}

/// When the first separator of `s` stands at index `i`, the first segment is
/// everything before it and the remaining segments are the split of
/// everything after it.
pub proof fn lemma_split_sep_first(s: Seq<char>, sep: char, i: int)
    requires
        0 <= i < s.len(),
        s[i] == sep,
        forall|j: int| 0 <= j < i ==> s[j] != sep,
    ensures
        split_sep(s, sep) == seq![s.subrange(0, i)] + split_sep(
            s.subrange(i + 1, s.len() as int),
            sep,
        ),
    decreases i,
{
    if i == 0 {
        assert(s.subrange(0, 0) =~= Seq::<char>::empty());
        assert(split_sep(s, sep) =~~= seq![s.subrange(0, i)] + split_sep(
            s.subrange(i + 1, s.len() as int),
            sep,
        ));
    } else {
        let tail = s.subrange(1, s.len() as int);
        assert(tail[i - 1] == sep);
        assert(forall|j: int| 0 <= j < i - 1 ==> tail[j] != sep);
        lemma_split_sep_first(tail, sep, i - 1);
        let after = tail.subrange(i, tail.len() as int);
        let rest = split_sep(tail, sep);
        assert(rest == seq![tail.subrange(0, i - 1)] + split_sep(after, sep));
        lemma_split_sep_len(after, sep);
        assert(rest[0] == tail.subrange(0, i - 1));
        assert(seq![s[0]] + tail.subrange(0, i - 1) =~= s.subrange(0, i));
        assert(rest.subrange(1, rest.len() as int) =~= split_sep(after, sep));
        assert(after =~= s.subrange(i + 1, s.len() as int));
        assert(split_sep(s, sep) =~~= seq![s.subrange(0, i)] + split_sep(
            s.subrange(i + 1, s.len() as int),
            sep,
        ));
    }
}

/// Whether `path` is an absolute path: non-empty and rooted at `/`.
pub fn is_absolute(path: &str) -> (r: bool)
    ensures
        r == is_absolute_path(path@),
{
    if path.is_empty() {
        false
    } else {
        path.get_char(0) == '/'
    }
}

/// Join `relative` onto `base` with exactly one separator between them, as
/// [`join_spec`] describes.
pub fn join_path(base: &str, relative: &str) -> (r: String)
    ensures
        r@ == join_spec(base@, relative@),
{
    if is_absolute(relative) {
        relative.to_owned()
    } else {
        let n = base.unicode_len();
        if n == 0 {
            relative.to_owned()
        } else if base.get_char(n - 1) == '/' {
            let mut out = base.to_owned();
            out.append(relative);
            out
        } else {
            let mut out = base.to_owned();
            proof {
                reveal_strlit("/");
            }
            out.append("/");
            out.append(relative);
            proof {
                assert("/"@ =~= seq!['/']);
                assert(out@ =~= base@ + seq!['/'] + relative@);
            }
            out
        }
    }
}

/// Split `s` on `:`, the path-list separator, keeping every segment verbatim
/// in order, as [`split_sep`] describes.
pub fn split_path_list(s: &str) -> (r: Vec<String>)
    ensures
        seq_views(r@) == split_sep(s@, ':'),
        r@.len() >= 1,
{
    let n = s.unicode_len();
    let mut r: Vec<String> = Vec::new();
    let mut seg_start: usize = 0;
    let mut i: usize = 0;
    proof {
        assert(s@.subrange(0, n as int) =~= s@);
        assert(seq_views(r@) + split_sep(s@, ':') =~= split_sep(s@, ':'));
    }
    while i < n
        invariant
            n == s@.len(),
            seg_start <= i <= n,
            forall|j: int| seg_start <= j < i ==> s@[j] != ':',
            split_sep(s@, ':') == seq_views(r@) + split_sep(
                s@.subrange(seg_start as int, n as int),
                ':',
            ),
        decreases n - i,
    {
        if s.get_char(i) == ':' {
            let seg = s.substring_char(seg_start, i);
            proof {
                let remaining = s@.subrange(seg_start as int, n as int);
                let k = i - seg_start;
                assert(remaining[k as int] == ':');
                assert(forall|j: int| 0 <= j < k ==> remaining[j] != ':');
                lemma_split_sep_first(remaining, ':', k as int);
                assert(remaining.subrange(0, k as int) =~= s@.subrange(
                    seg_start as int,
                    i as int,
                ));
                assert(remaining.subrange(k + 1, remaining.len() as int) =~= s@.subrange(
                    i + 1,
                    n as int,
                ));
            }
            let ghost old_r = r@;
            r.push(seg.to_owned());
            proof {
                assert(seq_views(r@) =~= seq_views(old_r).push(s@.subrange(
                    seg_start as int,
                    i as int,
                )));
                assert(seq_views(r@) + split_sep(s@.subrange(i + 1, n as int), ':') =~= seq_views(
                    old_r,
                ) + (seq![s@.subrange(seg_start as int, i as int)] + split_sep(
                    s@.subrange(i + 1, n as int),
                    ':',
                )));
            }
            seg_start = i + 1;
        }
        i += 1;
    }
    let last = s.substring_char(seg_start, n);
    proof {
        let remaining = s@.subrange(seg_start as int, n as int);
        lemma_split_sep_no_sep(remaining, ':');
    }
    let ghost old_r = r@;
    r.push(last.to_owned());
    proof {
        assert(seq_views(r@) =~= seq_views(old_r).push(s@.subrange(seg_start as int, n as int)));
        assert(seq_views(old_r).push(s@.subrange(seg_start as int, n as int)) =~= seq_views(old_r)
            + seq![s@.subrange(seg_start as int, n as int)]);
    }
    r
}

} // verus!
