use vstd::prelude::*;

use crate::text::{
    chars_to_string, extend_chars, extend_range, find_from, find_from_exec, lemma_find_from,
    str_to_chars,
};

verus! {

/// Unicode alphabetic-or-numeric property of a character, as `char::is_alphanumeric` reports it.
pub uninterp spec fn char_is_alphanumeric(c: char) -> bool;

/// `char::is_alphanumeric`: whether the character is Unicode alphabetic or numeric. Among
/// ASCII characters these are exactly the letters and the digits.
#[verifier::external_body]
fn is_alphanumeric(c: char) -> (r: bool)
    ensures
        r == char_is_alphanumeric(c),
        (c as u32) < 128 ==> (r <==> ascii_alphanumeric(c)),
{
    c.is_alphanumeric()
}

/// An ASCII letter or digit.
pub open spec fn ascii_alphanumeric(c: char) -> bool {
    (0x41 <= (c as u32) <= 0x5A) || (0x61 <= (c as u32) <= 0x7A) || (0x30 <= (c as u32) <= 0x39)
}

/// Whether a character is alphanumeric: for ASCII characters, a letter or a digit; for any
/// other, as `char::is_alphanumeric` reports it.
pub open spec fn alnum_char(c: char) -> bool {
    if (c as u32) < 128 {
        ascii_alphanumeric(c)
    } else {
        char_is_alphanumeric(c)
    }
}

/// `k` is the length of the longest prefix of `s` made of alphanumeric characters.
pub open spec fn is_alnum_prefix_len(s: Seq<char>, k: int) -> bool {
    &&& 0 <= k <= s.len()
    &&& forall|j: int| 0 <= j < k ==> alnum_char(#[trigger] s[j])
    &&& (k == s.len() || !alnum_char(s[k]))
}

/// Length of the longest alphanumeric prefix of `s`.
pub open spec fn alnum_prefix_len(s: Seq<char>) -> int {
    choose|k: int| is_alnum_prefix_len(s, k)
}

/// The marker that introduces an SDK secret key.
pub open spec fn secret_marker() -> Seq<char> {
    seq!['s', 'e', 'c', 'r', 'e', 't', '-']
}

/// The mask written after the kept part of a key.
pub open spec fn mask() -> Seq<char> {
    seq!['*', '*', '*', '*', '*']
}

/// A segment that followed a marker, with its key (its leading alphanumeric characters) cut
/// to its first five characters and followed by the mask.
pub open spec fn mask_part(part: Seq<char>) -> Seq<char> {
    let k = alnum_prefix_len(part);
    let kept = if k > 5 {
        5
    } else {
        k
    };
    part.take(kept) + mask() + part.skip(k)
}

/// Output for one segment of the input split on the marker; segments after the first get the
/// marker back and their key masked.
pub open spec fn emit_part(part: Seq<char>, first: bool) -> Seq<char> {
    if first {
        part
    } else {
        secret_marker() + mask_part(part)
    }
}

/// Sanitised output for the input from position `start` on, where `first` tells whether the
/// segment starting there is the one before any marker.
pub open spec fn sanitize_from(s: Seq<char>, start: int, first: bool) -> Seq<char>
    decreases s.len() + 1 - start,
{
    if start < 0 || start > s.len() {
        Seq::empty()
    } else {
        match find_from(s, secret_marker(), start) {
            None => emit_part(s.subrange(start, s.len() as int), first),
            Some(i) => {
                if i < start || i + 7 > s.len() {
                    Seq::empty()
                } else {
                    emit_part(s.subrange(start, i), first) + sanitize_from(s, i + 7, false)
                }
            },
        }
    }
}

/// The input with each key after `secret-` cut to its first five characters followed by
/// `*****`.
pub open spec fn spec_sanitize_secret_key(s: Seq<char>) -> Seq<char> {
    sanitize_from(s, 0, true)
}

/// Length of the longest alphanumeric prefix of `s`.
fn alnum_prefix_len_exec(s: &Vec<char>) -> (k: usize)
    ensures
        k == alnum_prefix_len(s@),
        is_alnum_prefix_len(s@, k as int),
{
    let mut k: usize = 0;
    while k < s.len() && is_alphanumeric(s[k])
        invariant
            k <= s.len(),
            forall|j: int| 0 <= j < k ==> alnum_char(#[trigger] s@[j]),
        decreases s.len() - k,
    {
        k = k + 1;
    }
    proof {
        let c = alnum_prefix_len(s@);
        assert(is_alnum_prefix_len(s@, k as int));
        assert(is_alnum_prefix_len(s@, c));
        if c < k {
            assert(alnum_char(s@[c]));
        } else if c > k {
            assert(alnum_char(s@[k as int]));
        }
    }
    k
}

/// Masks the key at the start of a segment that followed a marker.
fn mask_part_exec(part: &Vec<char>) -> (r: Vec<char>)
    ensures
        r@ == mask_part(part@),
{
    let k = alnum_prefix_len_exec(part);
    let kept = if k > 5 {
        5
    } else {
        k
    };
    let mut out: Vec<char> = Vec::new();
    extend_range(&mut out, part, 0, kept);
    let stars = vec!['*', '*', '*', '*', '*'];
    extend_chars(&mut out, &stars);
    extend_range(&mut out, part, k, part.len());
    assert(part@.subrange(0, kept as int) == part@.take(kept as int));
    assert(part@.subrange(k as int, part.len() as int) == part@.skip(k as int));
    out
}

/// Sanitises SDK keys embedded in a string: every key that follows `secret-` keeps its first
/// five characters and the rest of it is replaced by `*****`; everything else is copied.
/// Use this for any log output that may include URLs or messages containing SDK keys.
pub fn sanitize_secret_key(input: &str) -> (r: String)
    ensures
        r@ == spec_sanitize_secret_key(input@),
{
    let chars = str_to_chars(input);
    let marker = vec!['s', 'e', 'c', 'r', 'e', 't', '-'];
    assert(marker@ == secret_marker());
    let mut out: Vec<char> = Vec::new();
    let mut start: usize = 0;
    let mut first = true;
    loop
        invariant
            start <= chars.len(),
            chars@ == input@,
            marker@ == secret_marker(),
            out@ + sanitize_from(chars@, start as int, first) == sanitize_from(chars@, 0, true),
        decreases chars.len() + 1 - start,
    {
        let next = find_from_exec(&chars, &marker, start);
        proof {
            lemma_find_from(chars@, marker@, start as int);
        }
        let end = match next {
            Some(i) => i,
            None => chars.len(),
        };
        let mut part: Vec<char> = Vec::new();
        extend_range(&mut part, &chars, start, end);
        let ghost prev = out@;
        if first {
            extend_chars(&mut out, &part);
        } else {
            extend_chars(&mut out, &marker);
            let masked = mask_part_exec(&part);
            extend_chars(&mut out, &masked);
            assert(out@ == prev + (secret_marker() + mask_part(part@)));
        }
        assert(out@ == prev + emit_part(part@, first));
        match next {
            None => {
                assert(out@ == sanitize_from(chars@, 0, true));
                return chars_to_string(&out);
            },
            Some(i) => {
                start = i + 7;
                first = false;
            },
        }
    }
}

} // verus!
