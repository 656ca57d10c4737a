use vstd::prelude::*;

use crate::text::{
    extend_chars, extend_range, find_from, find_from_exec, is_ascii_digit, is_run_len,
    lemma_run_len_unique, run_len,
};

verus! {

/// Separator between a URL's scheme and its host.
pub open spec fn scheme_separator() -> Seq<char> {
    seq![':', '/', '/']
}

/// Splits a URL into its `scheme://host/` prefix (with the slash that ends the host) and the path
/// after it. A URL without a scheme is all path; one with no slash after the host is all prefix.
pub open spec fn spec_split_host_and_path(url: Seq<char>) -> (Seq<char>, Seq<char>) {
    match find_from(url, scheme_separator(), 0) {
        None => (Seq::empty(), url),
        Some(i) => match find_from(url, seq!['/'], i + 3) {
            None => (url, Seq::empty()),
            Some(j) => (url.take(j + 1), url.skip(j + 1)),
        },
    }
}

/// Splits a URL into its host prefix and its path.
pub fn split_host_and_path(url: &Vec<char>) -> (r: (Vec<char>, Vec<char>))
    ensures
        (r.0@, r.1@) == spec_split_host_and_path(url@),
{
    let sep = vec![':', '/', '/'];
    assert(sep@ == scheme_separator());
    let slash = vec!['/'];
    assert(slash@ == seq!['/']);
    match find_from_exec(url, &sep, 0) {
        None => (Vec::new(), url.clone()),
        Some(i) => {
            match find_from_exec(url, &slash, i + 3) {
                None => (url.clone(), Vec::new()),
                Some(j) => {
                    let mut host: Vec<char> = Vec::new();
                    extend_range(&mut host, url, 0, j + 1);
                    let mut path: Vec<char> = Vec::new();
                    extend_range(&mut path, url, j + 1, url.len());
                    assert(url@.subrange(0, j + 1) == url@.take(j + 1));
                    assert(url@.subrange(j + 1, url.len() as int) == url@.skip(j + 1));
                    (host, path)
                },
            }
        },
    }
}

/// The character neither starts a query nor a fragment.
pub open spec fn not_query_or_fragment(c: char) -> bool {
    c != '?' && c != '#'
}

/// The URL path with its query and fragment removed.
pub open spec fn spec_strip_query_and_fragment(s: Seq<char>) -> Seq<char> {
    s.take(run_len(s, |c: char| not_query_or_fragment(c)))
}

/// Removes the query and fragment from a path.
pub fn strip_query_and_fragment(s: &Vec<char>) -> (r: Vec<char>)
    ensures
        r@ == spec_strip_query_and_fragment(s@),
{
    let mut k: usize = 0;
    while k < s.len() && s[k] != '?' && s[k] != '#'
        invariant
            k <= s.len(),
            forall|j: int| 0 <= j < k ==> not_query_or_fragment(#[trigger] s@[j]),
        decreases s.len() - k,
    {
        k = k + 1;
    }
    proof {
        let p = |c: char| not_query_or_fragment(c);
        assert(is_run_len(s@, k as int, p));
        lemma_run_len_unique(s@, k as int, p);
    }
    let mut r: Vec<char> = Vec::new();
    extend_range(&mut r, s, 0, k);
    assert(s@.subrange(0, k as int) == s@.take(k as int));
    r
}

/// The non-empty pieces of `s` between slashes, from position `i` on, given the piece `cur`
/// being read and the pieces `acc` already complete.
pub open spec fn segments_from(s: Seq<char>, i: int, cur: Seq<char>, acc: Seq<Seq<char>>) -> Seq<
    Seq<char>,
>
    decreases s.len() - i,
{
    if i < 0 || i >= s.len() {
        if cur.len() > 0 {
            acc.push(cur)
        } else {
            acc
        }
    } else if s[i] == '/' {
        segments_from(
            s,
            i + 1,
            Seq::empty(),
            if cur.len() > 0 {
                acc.push(cur)
            } else {
                acc
            },
        )
    } else {
        segments_from(s, i + 1, cur.push(s[i]), acc)
    }
}

/// The non-empty pieces of a path between slashes (`split('/')` without the empty pieces).
pub open spec fn path_segments(s: Seq<char>) -> Seq<Seq<char>> {
    segments_from(s, 0, Seq::empty(), Seq::empty())
}

/// The character sequences held by a vector of character vectors.
pub open spec fn views(v: Seq<Vec<char>>) -> Seq<Seq<char>> {
    Seq::new(v.len(), |i: int| v[i]@)
}

/// Splits a path on slashes and drops the empty pieces.
pub fn split_path_segments(s: &Vec<char>) -> (r: Vec<Vec<char>>)
    ensures
        views(r@) == path_segments(s@),
{
    let mut acc: Vec<Vec<char>> = Vec::new();
    let mut cur: Vec<char> = Vec::new();
    let mut i: usize = 0;
    assert(views(acc@) =~= Seq::<Seq<char>>::empty());
    assert(cur@ =~= Seq::<char>::empty());
    while i < s.len()
        invariant
            i <= s.len(),
            segments_from(s@, i as int, cur@, views(acc@)) == path_segments(s@),
        decreases s.len() - i,
    {
        if s[i] == '/' {
            if cur.len() > 0 {
                let ghost before = views(acc@);
                acc.push(cur);
                assert(views(acc@) =~= before.push(cur@));
            }
            cur = Vec::new();
        } else {
            cur.push(s[i]);
        }
        i = i + 1;
    }
    if cur.len() > 0 {
        let ghost before = views(acc@);
        acc.push(cur);
        assert(views(acc@) =~= before.push(cur@));
    }
    acc
}

/// Pieces joined with a slash between each two (`join("/")`).
pub open spec fn join_slash(segs: Seq<Seq<char>>) -> Seq<char>
    decreases segs.len(),
{
    if segs.len() == 0 {
        Seq::empty()
    } else if segs.len() == 1 {
        segs[0]
    } else {
        join_slash(segs.drop_last()) + seq!['/'] + segs.last()
    }
}

/// Joins the first `n` pieces with slashes.
pub fn join_slash_prefix(segs: &Vec<Vec<char>>, n: usize) -> (r: Vec<char>)
    requires
        n <= segs.len(),
    ensures
        r@ == join_slash(views(segs@).take(n as int)),
{
    let mut r: Vec<char> = Vec::new();
    let mut k: usize = 0;
    assert(views(segs@).take(0) =~= Seq::<Seq<char>>::empty());
    while k < n
        invariant
            k <= n <= segs.len(),
            r@ == join_slash(views(segs@).take(k as int)),
        decreases n - k,
    {
        if k > 0 {
            r.push('/');
        }
        extend_chars(&mut r, &segs[k]);
        assert(views(segs@).take(k + 1).drop_last() =~= views(segs@).take(k as int));
        assert(views(segs@).take(k + 1).last() == segs[k as int]@);
        k = k + 1;
    }
    r
}

/// A version piece of a path: `v` followed by one or more ASCII digits.
pub open spec fn spec_is_version_segment(s: Seq<char>) -> bool {
    &&& s.len() >= 2
    &&& s[0] == 'v'
    &&& forall|j: int| 1 <= j < s.len() ==> is_ascii_digit(#[trigger] s[j])
}

/// Whether a path piece names an API version, such as `v1` or `v2`.
pub fn is_version_segment(s: &Vec<char>) -> (r: bool)
    ensures
        r == spec_is_version_segment(s@),
{
    if s.len() < 2 || s[0] != 'v' {
        return false;
    }
    let mut j: usize = 1;
    while j < s.len()
        invariant
            1 <= j <= s.len(),
            forall|k: int| 1 <= k < j ==> is_ascii_digit(#[trigger] s@[k]),
        decreases s.len() - j,
    {
        if !('0' <= s[j] && s[j] <= '9') {
            assert(!is_ascii_digit(s@[j as int]));
            return false;
        }
        j = j + 1;
    }
    true
}

} // verus!
