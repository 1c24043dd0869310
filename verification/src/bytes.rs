//! Byte-level helpers: searching, UTF-8 decoding and base64.
use vstd::prelude::*;
use vstd::utf8::{decode_utf8, valid_utf8};
use base64::Engine;

use crate::text::occurs_at;

verus! {

broadcast use vstd::string::group_string_axioms;

// ---------------------------------------------------------------------------
// Searching
// ---------------------------------------------------------------------------

/// Start positions of the non-overlapping occurrences of `n` in `h` from
/// position `i` on, scanning left to right and resuming after each match.
pub open spec fn matches_from(h: Seq<u8>, n: Seq<u8>, i: int) -> Seq<int>
    decreases h.len() - i,
{
    if n.len() == 0 || i < 0 || i + n.len() > h.len() {
        seq![]
    } else if occurs_at(h, n, i) {
        seq![i] + matches_from(h, n, i + n.len())
    } else {
        matches_from(h, n, i + 1)
    }
}

/// Every start index of `n` within `h` (empty when `n` is empty or longer
/// than `h`).
pub open spec fn find_all_spec(h: Seq<u8>, n: Seq<u8>) -> Seq<int> {
    matches_from(h, n, 0)
}

/// The first position `>= i` at which `n` occurs in `h`.
pub open spec fn first_from(h: Seq<u8>, n: Seq<u8>, i: int) -> Option<int>
    decreases h.len() + 1 - i,
{
    if i < 0 || i + n.len() > h.len() {
        None
    } else if occurs_at(h, n, i) {
        Some(i)
    } else {
        first_from(h, n, i + 1)
    }
}

/// The leftmost occurrence of `n` in `h`.
pub open spec fn first_occurrence(h: Seq<u8>, n: Seq<u8>) -> Option<int> {
    first_from(h, n, 0)
}

pub open spec fn as_ints(s: Seq<usize>) -> Seq<int> {
    s.map_values(|x: usize| x as int)
}

/// Whether `n` occurs in `h` at position `i`.
pub fn bytes_at(h: &[u8], n: &[u8], i: usize) -> (b: bool)
    ensures
        b == occurs_at(h@, n@, i as int),
{
    if i > h.len() || n.len() > h.len() - i {
        return false;
    }
    let mut k: usize = 0;
    while k < n.len()
        invariant
            i + n.len() <= h.len(),
            0 <= k <= n@.len(),
            forall|m: int| 0 <= m < k ==> h@[i + m] == n@[m],
        decreases n.len() - k,
    {
        if h[i + k] != n[k] {
            assert(h@.subrange(i as int, i + n@.len())[k as int] != n@[k as int]);
            return false;
        }
        k = k + 1;
    }
    assert(h@.subrange(i as int, i + n@.len()) =~= n@);
    true
}

/// Every start index of `needle` within `haystack`, as the multipart reader
/// needs them: non-overlapping, left to right.
pub fn find_all(haystack: &[u8], needle: &[u8]) -> (r: Vec<usize>)
    ensures
        as_ints(r@) == find_all_spec(haystack@, needle@),
{
    let mut r: Vec<usize> = Vec::new();
    if needle.len() == 0 || haystack.len() < needle.len() {
        assert(as_ints(r@) =~= seq![]);
        return r;
    }
    let mut i: usize = 0;
    assert(as_ints(r@) =~= seq![]);
    while needle.len() <= haystack.len() - i
        invariant
            0 < needle@.len() <= haystack@.len(),
            0 <= i <= haystack@.len(),
            as_ints(r@) + matches_from(haystack@, needle@, i as int) == find_all_spec(
                haystack@,
                needle@,
            ),
        decreases haystack.len() - i,
    {
        let ghost before = as_ints(r@);
        if bytes_at(haystack, needle, i) {
            r.push(i);
            assert(as_ints(r@) =~= before.push(i as int));
            assert(before + (seq![i as int] + matches_from(haystack@, needle@, i + needle@.len()))
                =~= before.push(i as int) + matches_from(haystack@, needle@, i + needle@.len()));
            i = i + needle.len();
        } else {
            i = i + 1;
        }
    }
    assert(matches_from(haystack@, needle@, i as int) =~= seq![]);
    assert(as_ints(r@) + seq![] =~= as_ints(r@));
    r
}

/// The first position `>= from` at which `needle` occurs in `haystack`.
pub fn find_from(haystack: &[u8], needle: &[u8], from: usize) -> (r: Option<usize>)
    requires
        from <= haystack@.len(),
    ensures
        r matches Some(i) ==> first_from(haystack@, needle@, from as int) == Some(i as int),
        r is None ==> first_from(haystack@, needle@, from as int) is None,
{
    let mut i = from;
    while i < haystack.len() && needle.len() <= haystack.len() - i
        invariant
            from <= i <= haystack@.len(),
            first_from(haystack@, needle@, from as int) == first_from(haystack@, needle@, i as int),
        decreases haystack.len() - i,
    {
        if bytes_at(haystack, needle, i) {
            return Some(i);
        }
        i = i + 1;
    }
    if needle.len() <= haystack.len() - i {
        // only reachable with an empty needle at the end of the haystack
        assert(haystack@.subrange(i as int, i as int) =~= needle@);
        return Some(i);
    }
    None
}

/// The leftmost occurrence of `needle` in `haystack`.
pub fn find_first(haystack: &[u8], needle: &[u8]) -> (r: Option<usize>)
    ensures
        r matches Some(i) ==> first_occurrence(haystack@, needle@) == Some(i as int),
        r is None ==> first_occurrence(haystack@, needle@) is None,
{
    find_from(haystack, needle, 0)
}

/// Copies `v[from..to]` into a new vector.
pub fn copy_range(v: &[u8], from: usize, to: usize) -> (r: Vec<u8>)
    requires
        from <= to <= v@.len(),
    ensures
        r@ == v@.subrange(from as int, to as int),
{
    let mut r: Vec<u8> = Vec::new();
    let mut i = from;
    while i < to
        invariant
            from <= i <= to <= v@.len(),
            r@ == v@.subrange(from as int, i as int),
        decreases to - i,
    {
        r.push(v[i]);
        assert(v@.subrange(from as int, i + 1) =~= v@.subrange(from as int, i as int).push(v@[i as int]));
        i = i + 1;
    }
    r
}

/// Appends `src` to `dst`.
pub fn extend_bytes(dst: &mut Vec<u8>, src: &[u8])
    ensures
        final(dst)@ == old(dst)@ + src@,
{
    let mut i: usize = 0;
    while i < src.len()
        invariant
            0 <= i <= src@.len(),
            dst@ == old(dst)@ + src@.subrange(0, i as int),
        decreases src.len() - i,
    {
        dst.push(src[i]);
        assert(src@.subrange(0, i + 1) =~= src@.subrange(0, i as int).push(src@[i as int]));
        i = i + 1;
    }
    assert(src@.subrange(0, src@.len() as int) =~= src@);
}

// ---------------------------------------------------------------------------
// UTF-8
// ---------------------------------------------------------------------------

/// `std::str::from_utf8`: succeeds exactly on well-formed UTF-8 and yields
/// the decoded characters.
#[verifier::external_body]
pub(crate) fn utf8_decode(b: &[u8]) -> (r: Option<String>)
    ensures
        r is Some <==> valid_utf8(b@),
        r matches Some(s) ==> s@ == decode_utf8(b@),
{
    match std::str::from_utf8(b) {
        Ok(s) => Some(s.to_string()),
        Err(_) => None,
    }
}

/// What `String::from_utf8_lossy` makes of a byte sequence: the decoded text,
/// with each ill-formed subsequence replaced by U+FFFD.
pub uninterp spec fn utf8_lossy(b: Seq<u8>) -> Seq<char>;

/// The text of a byte sequence: its decoding when it is well-formed UTF-8,
/// the lossy decoding otherwise.
pub open spec fn lossy_text(b: Seq<u8>) -> Seq<char> {
    if valid_utf8(b) {
        decode_utf8(b)
    } else {
        utf8_lossy(b)
    }
}

/// `String::from_utf8_lossy`. The contract names the result and states the
/// documented fact that well-formed input decodes unchanged; how ill-formed
/// input is replaced is left unstated.
#[verifier::external_body]
pub(crate) fn utf8_lossy_decode(b: &[u8]) -> (r: String)
    ensures
        r@ == utf8_lossy(b@),
        valid_utf8(b@) ==> r@ == decode_utf8(b@),
        r@ == lossy_text(b@),
{
    String::from_utf8_lossy(b).into_owned()
}

// ---------------------------------------------------------------------------
// Base64
// ---------------------------------------------------------------------------

/// The standard-alphabet, padded base64 encoding of `data`.
pub uninterp spec fn base64_encoding(data: Seq<u8>) -> Seq<char>;

/// What the standard-alphabet, padded base64 decoder makes of `text`:
/// `None` when it rejects the input.
pub uninterp spec fn base64_decoding(text: Seq<char>) -> Option<Seq<u8>>;

/// What the URL-safe, unpadded base64 decoder makes of `text`: `None` when it
/// rejects the input.
pub uninterp spec fn base64url_decoding(text: Seq<char>) -> Option<Seq<u8>>;

/// `base64::engine::general_purpose::STANDARD.encode`: the result is named,
/// not described.
#[verifier::external_body]
pub(crate) fn base64_encode(data: &[u8]) -> (r: String)
    ensures
        r@ == base64_encoding(data@),
{
    base64::engine::general_purpose::STANDARD.encode(data)
}

/// `base64::engine::general_purpose::STANDARD.decode`: the result, or its
/// rejection, is named, not described.
#[verifier::external_body]
pub(crate) fn base64_decode(text: &str) -> (r: Option<Vec<u8>>)
    ensures
        r is Some <==> base64_decoding(text@) is Some,
        r matches Some(v) ==> v@ == base64_decoding(text@)->0,
{
    base64::engine::general_purpose::STANDARD.decode(text).ok()
}

/// `base64::engine::general_purpose::URL_SAFE_NO_PAD.decode`: the result, or
/// its rejection, is named, not described.
#[verifier::external_body]
pub(crate) fn base64url_decode(text: &str) -> (r: Option<Vec<u8>>)
    ensures
        r is Some <==> base64url_decoding(text@) is Some,
        r matches Some(v) ==> v@ == base64url_decoding(text@)->0,
{
    base64::engine::general_purpose::URL_SAFE_NO_PAD.decode(text).ok()
}

} // verus!

verus! {

/// A match found by `first_from` is an occurrence at or after `i`.
pub proof fn lemma_first_from_occurs(h: Seq<u8>, n: Seq<u8>, i: int)
    ensures
        first_from(h, n, i) matches Some(j) ==> i <= j && occurs_at(h, n, j),
    decreases h.len() + 1 - i,
{
    if !(i < 0 || i + n.len() > h.len()) && !occurs_at(h, n, i) {
        lemma_first_from_occurs(h, n, i + 1);
    }
}

/// The bytes `\r\n`.
pub open spec fn crlf() -> Seq<u8> {
    seq![13u8, 10u8]
}

/// The bytes `\n`.
pub open spec fn lf() -> Seq<u8> {
    seq![10u8]
}

/// Bytes from a fixed list.
pub fn bytes_of(a: u8, b: u8, c: u8, d: u8, n: usize) -> (v: Vec<u8>)
    requires
        n <= 4,
    ensures
        v@ == seq![a, b, c, d].take(n as int),
{
    let mut v: Vec<u8> = Vec::new();
    if n >= 1 {
        v.push(a);
    }
    if n >= 2 {
        v.push(b);
    }
    if n >= 3 {
        v.push(c);
    }
    if n >= 4 {
        v.push(d);
    }
    assert(v@ =~= seq![a, b, c, d].take(n as int));
    v
}

} // verus!

verus! {

/// The matches found from `i` on lie at or after `i` and fit inside `h`.
pub proof fn lemma_matches_in_range(h: Seq<u8>, n: Seq<u8>, i: int)
    ensures
        forall|k: int|
            0 <= k < matches_from(h, n, i).len() ==> i <= #[trigger] matches_from(h, n, i)[k]
                && matches_from(h, n, i)[k] + n.len() <= h.len(),
    decreases h.len() - i,
{
    if n.len() == 0 || i < 0 || i + n.len() > h.len() {
    } else if occurs_at(h, n, i) {
        lemma_matches_in_range(h, n, i + n.len());
        let m = matches_from(h, n, i);
        let rest = matches_from(h, n, i + n.len());
        assert forall|k: int| 0 <= k < m.len() implies i <= #[trigger] m[k] && m[k] + n.len()
            <= h.len() by {
            if k > 0 {
                assert(m[k] == rest[k - 1]);
            }
        }
    } else {
        lemma_matches_in_range(h, n, i + 1);
        let m = matches_from(h, n, i);
        let rest = matches_from(h, n, i + 1);
        assert(m == rest);
        assert forall|k: int| 0 <= k < m.len() implies i <= #[trigger] m[k] && m[k] + n.len()
            <= h.len() by {
            assert(m[k] == rest[k]);
        }
    }
}

} // verus!
