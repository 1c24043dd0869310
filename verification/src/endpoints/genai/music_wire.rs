//! The wire formats of the detailed music endpoints: the `multipart/mixed`
//! response of the detailed compose endpoint and the server-sent events of
//! the detailed stream.
use vstd::prelude::*;

use vstd::utf8::{decode_utf8, encode_utf8, valid_utf8};

use crate::bytes::{
    as_ints, bytes_of, copy_range, crlf, find_all, find_all_spec, find_first, first_occurrence, lemma_first_from_occurs, base64_decode, base64_decoding, utf8_decode, lemma_matches_in_range, extend_bytes, lf, lossy_text, utf8_lossy_decode,
};
use crate::error::{invalid_input, Error};
use crate::json::{field_string, field_value, get_string, get_value, json_object_entries, json_string_value, parse_object, string_value};
use crate::shared::copy_chars;
use crate::text::{
    string_views,
    owned,
    append_str, ascii_lower, chars_at, concat2, ends_with, push_char, next_byte, str_eq, string_of,  chars_of, contains_chars, contains_seq, first_index,
    lemma_first_index, lemma_first_index_bounds, next_char, opt_view, starts_with, string_from, to_ascii_lowercase,
    trim, trim_char, trim_char_bounds, trim_range,
};

verus! {

broadcast use vstd::string::group_string_axioms;

// ---------------------------------------------------------------------------
// Content type
// ---------------------------------------------------------------------------

/// What one `;`-separated parameter of a content type says of the boundary:
/// after trimming, `boundary=` or `boundary =` followed by the value, which is
/// trimmed and stripped of surrounding double quotes.
pub open spec fn param_boundary(p: Seq<char>) -> Option<Seq<char>> {
    let t = trim(p);
    if starts_with(t, "boundary="@) {
        Some(trim_char(trim(t.skip("boundary="@.len() as int)), '"'))
    } else if starts_with(t, "boundary ="@) {
        Some(trim_char(trim(t.skip("boundary ="@.len() as int)), '"'))
    } else {
        None
    }
}

/// The boundary given by the first `;`-separated parameter of `s` that
/// gives one.
pub open spec fn boundary_in(s: Seq<char>) -> Option<Seq<char>>
    decreases s.len(),
{
    proof {
        lemma_first_index_bounds(s, ';');
    }
    match first_index(s, ';') {
        None => param_boundary(s),
        Some(i) => match param_boundary(s.take(i)) {
            Some(b) => Some(b),
            None => boundary_in(s.skip(i + 1)),
        },
    }
}

/// The boundary of a `multipart/*` content type; `None` when the content
/// type is not multipart (compared case-insensitively) or names no boundary.
pub open spec fn multipart_boundary_spec(content_type: Seq<char>) -> Option<Seq<char>> {
    if contains_seq(ascii_lower(content_type), "multipart/"@) {
        boundary_in(content_type)
    } else {
        None
    }
}

/// What the parameter `v[from..to]` says of the boundary.
fn param_boundary_at(v: &[char], from: usize, to: usize) -> (r: Option<String>)
    requires
        from <= to <= v@.len(),
    ensures
        opt_view(r) == param_boundary(v@.subrange(from as int, to as int)),
{
    let ghost s = v@.subrange(from as int, to as int);
    let (a, b) = trim_range(v, from, to);
    let ghost t = v@.subrange(a as int, b as int);
    let p1 = chars_of("boundary=");
    let p2 = chars_of("boundary =");
    let at1 = p1.len() <= b - a && chars_at(v, p1.as_slice(), a);
    proof {
        if p1@.len() <= t.len() {
            assert(t.subrange(0, p1@.len() as int) =~= v@.subrange(a as int, a + p1@.len()));
        }
    }
    assert(at1 == starts_with(t, "boundary="@));
    if at1 {
        let (c, d) = trim_range(v, a + p1.len(), b);
        assert(t.skip(p1@.len() as int) =~= v@.subrange(a + p1@.len(), b as int));
        let (e, f) = trim_char_bounds(v, c, d, '"');
        return Some(string_from(v, e, f));
    }
    let at2 = p2.len() <= b - a && chars_at(v, p2.as_slice(), a);
    proof {
        if p2@.len() <= t.len() {
            assert(t.subrange(0, p2@.len() as int) =~= v@.subrange(a as int, a + p2@.len()));
        }
    }
    assert(at2 == starts_with(t, "boundary ="@));
    if at2 {
        let (c, d) = trim_range(v, a + p2.len(), b);
        assert(t.skip(p2@.len() as int) =~= v@.subrange(a + p2@.len(), b as int));
        let (e, f) = trim_char_bounds(v, c, d, '"');
        return Some(string_from(v, e, f));
    }
    None
}

/// Extracts the boundary token from a `multipart/*` content-type header.
pub fn multipart_boundary(content_type: &str) -> (r: Option<String>)
    ensures
        opt_view(r) == multipart_boundary_spec(content_type@),
{
    let v = chars_of(content_type);
    let lower = to_ascii_lowercase(v.as_slice());
    let m = chars_of("multipart/");
    if !contains_chars(lower.as_slice(), m.as_slice()) {
        return None;
    }
    let mut start: usize = 0;
    assert(v@.subrange(0, v@.len() as int) =~= v@);
    loop
        invariant
            0 <= start <= v@.len(),
            v@ == content_type@,
            multipart_boundary_spec(content_type@) == boundary_in(v@),
            boundary_in(v@) == boundary_in(v@.subrange(start as int, v@.len() as int)),
        decreases v@.len() - start,
    {
        let end = next_char(v.as_slice(), ';', start, v.len());
        let seg = param_boundary_at(v.as_slice(), start, end);
        let ghost s = v@.subrange(start as int, v@.len() as int);
        if end == v.len() {
            return seg;
        }
        assert(s.take(end - start) =~= v@.subrange(start as int, end as int));
        if seg.is_some() {
            return seg;
        }
        assert(s.skip(end - start + 1) =~= v@.subrange(end + 1, v@.len() as int));
        start = end + 1;
    }
}

// ---------------------------------------------------------------------------
// Multipart body
// ---------------------------------------------------------------------------

/// One part of a `multipart/mixed` body: its headers, in the order they were
/// written, with lowercase names, and its body.
#[derive(Clone, Debug)]
pub struct MultipartPart {
    pub headers: Vec<(String, String)>,
    pub body: Vec<u8>,
}

/// Header names and values as character sequences.
pub open spec fn headers_view(hs: Seq<(String, String)>) -> Seq<(Seq<char>, Seq<char>)> {
    hs.map_values(|h: (String, String)| (h.0@, h.1@))
}

/// The headers and body of a part.
pub open spec fn part_view(p: MultipartPart) -> (Seq<(Seq<char>, Seq<char>)>, Seq<u8>) {
    (headers_view(p.headers@), p.body@)
}

/// The header a line declares: the text before its first `:`, trimmed and
/// lowercased, and the text after it, trimmed. A line without `:` declares
/// none.
pub open spec fn header_line(l: Seq<char>) -> Seq<(Seq<char>, Seq<char>)> {
    match first_index(l, ':') {
        Some(k) => seq![(ascii_lower(trim(l.take(k))), trim(l.skip(k + 1)))],
        None => seq![],
    }
}

/// A header line is split at its first colon: `name: value`, with no colon
/// in the name, declares the header named by the trimmed, lowercased name,
/// whose value is the rest of the line trimmed, colons included.
pub proof fn lemma_header_line_split(name: Seq<char>, value: Seq<char>)
    requires
        !name.contains(':'),
    ensures
        header_line(name + seq![':'] + value) == seq![(ascii_lower(trim(name)), trim(value))],
{
    let l = name + seq![':'] + value;
    assert forall|k: int| 0 <= k < name.len() implies l[k] != ':' by {
        assert(l[k] == name[k]);
    }
    lemma_first_index(l, ':', name.len() as int);
    assert(l.take(name.len() as int) =~= name);
    assert(l.skip(name.len() as int + 1) =~= value);
}

/// The headers declared by the lines of a header block. Lines end at `\n`; a
/// `\r` before it is whitespace and is trimmed away with the value, so CRLF
/// and LF line ends read alike.
pub open spec fn header_lines(t: Seq<char>) -> Seq<(Seq<char>, Seq<char>)>
    decreases t.len(),
{
    proof {
        lemma_first_index_bounds(t, '\n');
    }
    match first_index(t, '\n') {
        None => header_line(t),
        Some(i) => header_line(t.take(i)) + header_lines(t.skip(i + 1)),
    }
}

/// The value of the last header named `key`: a later header of the same name
/// replaces an earlier one.
pub open spec fn last_value(hs: Seq<(Seq<char>, Seq<char>)>, key: Seq<char>) -> Option<Seq<char>>
    decreases hs.len(),
{
    if hs.len() == 0 {
        None
    } else if hs.last().0 == key {
        Some(hs.last().1)
    } else {
        last_value(hs.drop_last(), key)
    }
}

/// A header added after the others is the one read for its name, and leaves
/// every other name reading as before; a name no header has reads as absent.
pub proof fn lemma_last_value_latest_wins(hs: Seq<(Seq<char>, Seq<char>)>, key: Seq<char>, other: Seq<char>, v: Seq<char>)
    ensures
        last_value(hs.push((key, v)), key) == Some(v),
        other != key ==> last_value(hs.push((key, v)), other) == last_value(hs, other),
        (forall|i: int| 0 <= i < hs.len() ==> #[trigger] hs[i].0 != other) ==> last_value(hs, other) is None,
    decreases hs.len(),
{
    assert(hs.push((key, v)).drop_last() =~= hs);
    if hs.len() > 0 {
        lemma_last_value_latest_wins(hs.drop_last(), key, other, v);
        if forall|i: int| 0 <= i < hs.len() ==> #[trigger] hs[i].0 != other {
            assert(hs[hs.len() - 1].0 != other);
            assert forall|i: int| 0 <= i < hs.drop_last().len() implies #[trigger] hs.drop_last()[i].0 != other by {
                assert(hs.drop_last()[i] == hs[i]);
            }
        }
    }
}

/// The delimiter line that opens each part: `--` and the boundary.
pub open spec fn delimiter(boundary: Seq<char>) -> Seq<u8> {
    seq![45u8, 45u8] + encode_utf8(boundary)
}

/// A segment between two delimiters, cut into its header block and its body.
/// The line break after the delimiter is dropped; a segment that starts with
/// `--` closes the body and is no part. The line break before the next
/// delimiter is dropped. The header block ends at the first blank line
/// (`\r\n\r\n`, else `\n\n`); a segment without one is no part.
pub open spec fn split_segment(seg: Seq<u8>) -> Option<(Seq<u8>, Seq<u8>)> {
    let opened = if starts_with(seg, crlf()) {
        Some(seg.skip(2))
    } else if starts_with(seg, lf()) {
        Some(seg.skip(1))
    } else if starts_with(seg, seq![45u8, 45u8]) {
        None
    } else {
        Some(seg)
    };
    match opened {
        None => None,
        Some(s) => {
            let t = if ends_with(s, crlf()) {
                s.take(s.len() - 2)
            } else if ends_with(s, lf()) {
                s.take(s.len() - 1)
            } else {
                s
            };
            match first_occurrence(t, crlf() + crlf()) {
                Some(i) => Some((t.take(i), t.skip(i + 4))),
                None => match first_occurrence(t, lf() + lf()) {
                    Some(i) => Some((t.take(i), t.skip(i + 2))),
                    None => None,
                },
            }
        },
    }
}

/// The header blocks and bodies of the segments between consecutive
/// delimiter positions `pos`, for a delimiter of length `dlen`.
pub open spec fn parts_from(body: Seq<u8>, pos: Seq<int>, dlen: int) -> Seq<(Seq<u8>, Seq<u8>)>
    decreases pos.len(),
{
    if pos.len() < 2 {
        seq![]
    } else {
        let rest = parts_from(body, pos.drop_first(), dlen);
        let start = pos[0] + dlen;
        if start > pos[1] {
            rest
        } else {
            match split_segment(body.subrange(start, pos[1])) {
                Some(p) => seq![p] + rest,
                None => rest,
            }
        }
    }
}

/// A part read from its header block and body.
pub open spec fn part_from_pieces(p: (Seq<u8>, Seq<u8>)) -> (Seq<(Seq<char>, Seq<char>)>, Seq<u8>) {
    (header_lines(lossy_text(p.0)), p.1)
}

/// The parts of a `multipart/mixed` body with the given boundary.
pub open spec fn multipart_spec(boundary: Seq<char>, body: Seq<u8>) -> Seq<
    (Seq<(Seq<char>, Seq<char>)>, Seq<u8>),
> {
    let d = delimiter(boundary);
    parts_from(body, find_all_spec(body, d), d.len() as int).map_values(
        |p: (Seq<u8>, Seq<u8>)| part_from_pieces(p),
    )
}

impl MultipartPart {
    /// The value of the header `name` (a lowercase name); the last one wins.
    pub fn header(&self, name: &str) -> (r: Option<String>)
        ensures
            opt_view(r) == last_value(headers_view(self.headers@), name@),
    {
        let mut j = self.headers.len();
        let ghost hs = headers_view(self.headers@);
        assert(hs.subrange(0, hs.len() as int) =~= hs);
        while j > 0
            invariant
                0 <= j <= self.headers@.len(),
                hs == headers_view(self.headers@),
                last_value(hs, name@) == last_value(hs.subrange(0, j as int), name@),
            decreases j,
        {
            let (k, v) = &self.headers[j - 1];
            assert(hs.subrange(0, j as int).last() == (k@, v@));
            if str_eq(k.as_str(), name) {
                return Some(v.clone());
            }
            assert(hs.subrange(0, j as int).drop_last() =~= hs.subrange(0, j - 1));
            j = j - 1;
        }
        None
    }
}

/// The header declared by the line `v[from..to]`.
fn header_at(v: &[char], from: usize, to: usize) -> (r: Option<(String, String)>)
    requires
        from <= to <= v@.len(),
    ensures
        header_line(v@.subrange(from as int, to as int)) == (match r {
            Some(h) => seq![(h.0@, h.1@)],
            None => seq![],
        }),
{
    let ghost l = v@.subrange(from as int, to as int);
    let k = next_char(v, ':', from, to);
    if k == to {
        return None;
    }
    assert(l.take(k - from) =~= v@.subrange(from as int, k as int));
    assert(l.skip(k - from + 1) =~= v@.subrange(k + 1, to as int));
    let (a, b) = trim_range(v, from, k);
    let name_chars = copy_chars(v, a, b);
    let lowered = to_ascii_lowercase(name_chars.as_slice());
    let name = string_of(lowered.as_slice());
    let (c, d) = trim_range(v, k + 1, to);
    let value = string_from(v, c, d);
    Some((name, value))
}

/// Parses the header block of a part into lowercase-named headers, in order.
pub fn parse_headers(bytes: &[u8]) -> (r: Vec<(String, String)>)
    ensures
        headers_view(r@) == header_lines(lossy_text(bytes@)),
{
    let text = utf8_lossy_decode(bytes);
    let v = chars_of(text.as_str());
    let mut r: Vec<(String, String)> = Vec::new();
    let mut start: usize = 0;
    assert(v@.subrange(0, v@.len() as int) =~= v@);
    loop
        invariant
            0 <= start <= v@.len(),
            v@ == lossy_text(bytes@),
            headers_view(r@) + header_lines(v@.subrange(start as int, v@.len() as int))
                == header_lines(v@),
        decreases v@.len() - start,
    {
        let ghost t = v@.subrange(start as int, v@.len() as int);
        let end = next_char(v.as_slice(), '\n', start, v.len());
        let h = header_at(v.as_slice(), start, end);
        let ghost before = r@;
        match h {
            Some(p) => {
                r.push(p);
                assert(headers_view(r@) =~= headers_view(before) + seq![(p.0@, p.1@)]);
            },
            None => {},
        }
        if end == v.len() {
            assert(t =~= v@.subrange(start as int, end as int));
            assert(headers_view(r@) + seq![] =~= headers_view(r@));
            return r;
        }
        assert(t.take(end - start) =~= v@.subrange(start as int, end as int));
        assert(t.skip(end - start + 1) =~= v@.subrange(end + 1, v@.len() as int));
        assert(headers_view(r@) + header_lines(v@.subrange(end + 1, v@.len() as int))
            =~= headers_view(before) + header_lines(t));
        start = end + 1;
    }
}

/// Cuts one segment into its header block and body, as `split_segment` says.
fn split_segment_bytes(seg: &[u8]) -> (r: Option<(Vec<u8>, Vec<u8>)>)
    ensures
        match r {
            Some(p) => split_segment(seg@) == Some((p.0@, p.1@)),
            None => split_segment(seg@) is None,
        },
{
    let n = seg.len();
    proof {
        if n >= 2 {
            assert(seg@.subrange(0, 2)[0] == seg@[0]);
            assert(seg@.subrange(0, 2)[1] == seg@[1]);
            if seg@[0] == 13 && seg@[1] == 10 {
                assert(seg@.subrange(0, 2) =~= crlf());
            }
            if seg@[0] == 45 && seg@[1] == 45 {
                assert(seg@.subrange(0, 2) =~= seq![45u8, 45u8]);
            }
        }
        if n >= 1 {
            assert(seg@.subrange(0, 1)[0] == seg@[0]);
            if seg@[0] == 10 {
                assert(seg@.subrange(0, 1) =~= lf());
            }
        }
    }
    let lo: usize = if n >= 2 && seg[0] == 13 && seg[1] == 10 {
        2
    } else if n >= 1 && seg[0] == 10 {
        1
    } else if n >= 2 && seg[0] == 45 && seg[1] == 45 {
        return None;
    } else {
        0
    };
    let s = copy_range(seg, lo, n);
    assert(s@ =~= seg@.skip(lo as int));
    assert(lo == 0 ==> s@ =~= seg@);
    let ghost opened: Option<Seq<u8>> = if starts_with(seg@, crlf()) {
        Some(seg@.skip(2))
    } else if starts_with(seg@, lf()) {
        Some(seg@.skip(1))
    } else if starts_with(seg@, seq![45u8, 45u8]) {
        None
    } else {
        Some(seg@)
    };
    assert(opened == Some(s@));
    let m = s.len();
    proof {
        if m >= 2 {
            assert(s@.subrange(m - 2, m as int)[0] == s@[m - 2]);
            assert(s@.subrange(m - 2, m as int)[1] == s@[m - 1]);
            if s@[m - 2] == 13 && s@[m - 1] == 10 {
                assert(s@.subrange(m - 2, m as int) =~= crlf());
            }
        }
        if m >= 1 {
            assert(s@.subrange(m - 1, m as int)[0] == s@[m - 1]);
            if s@[m - 1] == 10 {
                assert(s@.subrange(m - 1, m as int) =~= lf());
            }
        }
    }
    let hi: usize = if m >= 2 && s[m - 2] == 13 && s[m - 1] == 10 {
        m - 2
    } else if m >= 1 && s[m - 1] == 10 {
        m - 1
    } else {
        m
    };
    let t = copy_range(s.as_slice(), 0, hi);
    let ghost tt = if ends_with(s@, crlf()) {
        s@.take(m - 2)
    } else if ends_with(s@, lf()) {
        s@.take(m - 1)
    } else {
        s@
    };
    assert(t@ =~= tt);
    let sep4 = bytes_of(13, 10, 13, 10, 4);
    assert(sep4@ =~= crlf() + crlf());
    match find_first(t.as_slice(), sep4.as_slice()) {
        Some(i) => {
            proof {
                lemma_first_from_occurs(t@, sep4@, 0);
            }
            let head = copy_range(t.as_slice(), 0, i);
            let rest = copy_range(t.as_slice(), i + 4, t.len());
            assert(head@ =~= t@.take(i as int));
            assert(rest@ =~= t@.skip(i + 4));
            return Some((head, rest));
        },
        None => {},
    }
    let sep2 = bytes_of(10, 10, 0, 0, 2);
    assert(sep2@ =~= lf() + lf());
    match find_first(t.as_slice(), sep2.as_slice()) {
        Some(i) => {
            proof {
                lemma_first_from_occurs(t@, sep2@, 0);
            }
            let head = copy_range(t.as_slice(), 0, i);
            let rest = copy_range(t.as_slice(), i + 2, t.len());
            assert(head@ =~= t@.take(i as int));
            assert(rest@ =~= t@.skip(i + 2));
            Some((head, rest))
        },
        None => None,
    }
}

/// Parses a `multipart/mixed` body into its parts.
pub fn parse_multipart(boundary: &str, body: &[u8]) -> (r: Vec<MultipartPart>)
    ensures
        r@.map_values(|p: MultipartPart| part_view(p)) == multipart_spec(boundary@, body@),
{
    let mut delim: Vec<u8> = Vec::new();
    delim.push(45);
    delim.push(45);
    extend_bytes(&mut delim, boundary.as_bytes());
    assert(delim@ =~= delimiter(boundary@));
    let positions = find_all(body, delim.as_slice());
    let ghost pos = as_ints(positions@);
    proof {
        lemma_matches_in_range(body@, delim@, 0);
    }
    let dlen = delim.len();
    let mut parts: Vec<MultipartPart> = Vec::new();
    let ghost mut done: Seq<(Seq<u8>, Seq<u8>)> = seq![];
    let mut i: usize = 0;
    assert(pos.skip(0) =~= pos);
    while positions.len() - i >= 2
        invariant
            pos == find_all_spec(body@, delim@),
            pos == as_ints(positions@),
            dlen == delim@.len(),
            0 <= i <= positions@.len(),
            forall|k: int| 0 <= k < pos.len() ==> 0 <= #[trigger] pos[k] && pos[k] + dlen <= body@.len(),
            done + parts_from(body@, pos.skip(i as int), dlen as int) == parts_from(
                body@,
                pos,
                dlen as int,
            ),
            parts@.map_values(|p: MultipartPart| part_view(p)) == done.map_values(
                |p: (Seq<u8>, Seq<u8>)| part_from_pieces(p),
            ),
        decreases positions@.len() - i,
    {
        let ghost q = pos.skip(i as int);
        assert(q[0] == pos[i as int] && q[1] == pos[i + 1]);
        assert(q.drop_first() =~= pos.skip(i + 1));
        assert(pos[i as int] == positions@[i as int] as int);
        assert(pos[i + 1] == positions@[i + 1] as int);
        assert(pos[i as int] + dlen <= body@.len());
        assert(pos[i + 1] + dlen <= body@.len());
        let blen = body.len();
        assert(positions@[i as int] + dlen <= blen);
        let start = positions[i] + dlen;
        let end = positions[i + 1];
        if start <= end {
            let seg = copy_range(body, start, end);
            match split_segment_bytes(seg.as_slice()) {
                Some((h, b)) => {
                    let headers = parse_headers(h.as_slice());
                    let ghost old_parts = parts@;
                    let ghost piece = (h@, b@);
                    parts.push(MultipartPart { headers, body: b });
                    proof {
                        assert(parts@.map_values(|p: MultipartPart| part_view(p)) =~= old_parts.map_values(
                            |p: MultipartPart| part_view(p),
                        ).push(part_from_pieces(piece)));
                        assert(done.push(piece).map_values(|p: (Seq<u8>, Seq<u8>)| part_from_pieces(p))
                            =~= done.map_values(|p: (Seq<u8>, Seq<u8>)| part_from_pieces(p)).push(
                            part_from_pieces(piece),
                        ));
                        assert(done + (seq![piece] + parts_from(body@, pos.skip(i + 1), dlen as int))
                            =~= done.push(piece) + parts_from(body@, pos.skip(i + 1), dlen as int));
                        done = done.push(piece);
                    }
                },
                None => {},
            }
        }
        i = i + 1;
    }
    assert(parts_from(body@, pos.skip(i as int), dlen as int) =~= seq![]);
    assert(done + seq![] =~= done);
    parts
}

// ---------------------------------------------------------------------------
// The detailed compose response
// ---------------------------------------------------------------------------

/// How a part of the detailed compose response is used, by its content type.
#[derive(Clone, Copy, Debug, PartialEq, Eq, Structural)]
pub enum DetailedPartKind {
    /// A JSON document with the composition plan, metadata and timestamps.
    Metadata,
    /// The generated audio.
    Audio,
    /// Anything else, which is skipped.
    Ignored,
}

/// JSON parts carry the metadata; `audio/*` and octet-stream parts carry the
/// audio.
pub open spec fn part_kind(content_type: Seq<char>) -> DetailedPartKind {
    if contains_seq(content_type, "application/json"@) {
        DetailedPartKind::Metadata
    } else if starts_with(content_type, "audio/"@) || contains_seq(content_type, "octet-stream"@) {
        DetailedPartKind::Audio
    } else {
        DetailedPartKind::Ignored
    }
}

/// The content type of a part; empty when it declares none.
pub open spec fn content_type_of(hs: Seq<(Seq<char>, Seq<char>)>) -> Seq<char> {
    match last_value(hs, "content-type"@) {
        Some(v) => v,
        None => seq![],
    }
}

/// The bodies of the metadata parts, in order.
pub open spec fn metadata_bodies(ps: Seq<(Seq<(Seq<char>, Seq<char>)>, Seq<u8>)>) -> Seq<Seq<u8>>
    decreases ps.len(),
{
    if ps.len() == 0 {
        seq![]
    } else if part_kind(content_type_of(ps.last().0)) == DetailedPartKind::Metadata {
        metadata_bodies(ps.drop_last()).push(ps.last().1)
    } else {
        metadata_bodies(ps.drop_last())
    }
}

/// The body of the last audio part; empty when there is none.
pub open spec fn last_audio(ps: Seq<(Seq<(Seq<char>, Seq<char>)>, Seq<u8>)>) -> Seq<u8>
    decreases ps.len(),
{
    if ps.len() == 0 {
        seq![]
    } else if part_kind(content_type_of(ps.last().0)) == DetailedPartKind::Audio {
        ps.last().1
    } else {
        last_audio(ps.drop_last())
    }
}

/// The kind of a part with the given content type.
pub fn classify_part(content_type: &str) -> (k: DetailedPartKind)
    ensures
        k == part_kind(content_type@),
{
    let v = chars_of(content_type);
    let json = chars_of("application/json");
    if contains_chars(v.as_slice(), json.as_slice()) {
        return DetailedPartKind::Metadata;
    }
    let audio = chars_of("audio/");
    let starts = audio.len() <= v.len() && chars_at(v.as_slice(), audio.as_slice(), 0);
    proof {
        if audio@.len() <= v@.len() {
            assert(v@.subrange(0, audio@.len() as int) =~= v@.subrange(0, 0 + audio@.len() as int));
        }
    }
    assert(starts == starts_with(content_type@, "audio/"@));
    let octet = chars_of("octet-stream");
    if starts || contains_chars(v.as_slice(), octet.as_slice()) {
        DetailedPartKind::Audio
    } else {
        DetailedPartKind::Ignored
    }
}

/// The pieces of a detailed compose response that the client decodes: the
/// bodies of its JSON parts, in order, and the audio.
#[derive(Clone, Debug)]
pub struct DetailedMusicParts {
    pub metadata: Vec<Vec<u8>>,
    pub audio: Vec<u8>,
}

pub open spec fn bodies_view(v: Seq<Vec<u8>>) -> Seq<Seq<u8>> {
    v.map_values(|b: Vec<u8>| b@)
}

/// What the detailed compose endpoint answers, read from its content type
/// and body.
pub open spec fn detailed_parts_spec(content_type: Option<Seq<char>>, body: Seq<u8>) -> Result<
    (Seq<Seq<u8>>, Seq<u8>),
    Seq<char>,
> {
    match content_type {
        None => Err("detailed music response is missing a content-type header"@),
        Some(ct) => match multipart_boundary_spec(ct) {
            None => Err("detailed music response is not multipart: "@ + ct),
            Some(b) => {
                let ps = multipart_spec(b, body);
                Ok((metadata_bodies(ps), last_audio(ps)))
            },
        },
    }
}

/// Splits the body of a detailed compose response into its metadata
/// documents and its audio. A missing content type, or one that is not
/// multipart, is an `InvalidInput` error.
pub fn split_detailed_music_body(content_type: Option<&str>, body: &[u8]) -> (r: Result<
    DetailedMusicParts,
    Error,
>)
    ensures
        match detailed_parts_spec(
            match content_type {
                Some(c) => Some(c@),
                None => None,
            },
            body@,
        ) {
            Ok((m, a)) => r matches Ok(p) && bodies_view(p.metadata@) == m && p.audio@ == a,
            Err(msg) => r matches Err(Error::InvalidInput(e)) && e@ == msg,
        },
{
    let ct = match content_type {
        None => {
            return Err(invalid_input("detailed music response is missing a content-type header"));
        },
        Some(c) => c,
    };
    let boundary = match multipart_boundary(ct) {
        None => {
            return Err(Error::InvalidInput(concat2("detailed music response is not multipart: ", ct)));
        },
        Some(b) => b,
    };
    let parts = parse_multipart(boundary.as_str(), body);
    let ghost ps = parts@.map_values(|p: MultipartPart| part_view(p));
    let mut metadata: Vec<Vec<u8>> = Vec::new();
    let mut audio: Vec<u8> = Vec::new();
    let mut i: usize = 0;
    while i < parts.len()
        invariant
            0 <= i <= parts@.len(),
            ps == parts@.map_values(|p: MultipartPart| part_view(p)),
            bodies_view(metadata@) == metadata_bodies(ps.subrange(0, i as int)),
            audio@ == last_audio(ps.subrange(0, i as int)),
        decreases parts.len() - i,
    {
        let part = &parts[i];
        let ghost pre = ps.subrange(0, i as int);
        assert(ps.subrange(0, i + 1).drop_last() =~= pre);
        assert(ps.subrange(0, i + 1).last() == part_view(*part));
        let ct_value = match part.header("content-type") {
            Some(v) => v,
            None => String::new(),
        };
        assert(ct_value@ == content_type_of(part_view(*part).0));
        let kind = classify_part(ct_value.as_str());
        if kind == DetailedPartKind::Metadata {
            let ghost before = metadata@;
            metadata.push(part.body.clone());
            assert(bodies_view(metadata@) =~= bodies_view(before).push(part.body@));
        } else if kind == DetailedPartKind::Audio {
            audio = part.body.clone();
        }
        i = i + 1;
    }
    assert(ps.subrange(0, parts@.len() as int) =~= ps);
    Ok(DetailedMusicParts { metadata, audio })
}

// ---------------------------------------------------------------------------
// Server-sent events of the detailed stream
// ---------------------------------------------------------------------------

/// A line without one trailing `\r`.
pub open spec fn strip_cr(line: Seq<u8>) -> Seq<u8> {
    if line.len() > 0 && line.last() == 13u8 {
        line.drop_last()
    } else {
        line
    }
}

/// The value of a `data:` line: what follows the colon, less one leading
/// space.
pub open spec fn data_value(l: Seq<char>) -> Seq<char> {
    let d = l.skip("data:"@.len() as int);
    if d.len() > 0 && d[0] == ' ' {
        d.drop_first()
    } else {
        d
    }
}

/// The event text after one more data value: values are joined by `\n`.
pub open spec fn append_data(acc: Seq<char>, x: Seq<char>) -> Seq<char> {
    if acc.len() > 0 {
        acc.push('\n') + x
    } else {
        x
    }
}

/// What one line does to the event being collected: `None` when it is not
/// UTF-8; otherwise whether it ends the event (a blank line) and the event
/// text after it. Data lines add their value; other lines change nothing.
pub open spec fn sse_line(line: Seq<u8>, acc: Seq<char>) -> Option<(bool, Seq<char>)> {
    let b = strip_cr(line);
    if !valid_utf8(b) {
        None
    } else {
        let l = decode_utf8(b);
        if l.len() == 0 {
            Some((true, acc))
        } else if starts_with(l, "data:"@) {
            Some((false, append_data(acc, data_value(l))))
        } else {
            Some((false, acc))
        }
    }
}

/// Feeds one line (without its `\n`) to the event being collected. Returns
/// whether the line ends the event; a line that is not UTF-8 is an error and
/// leaves the event as it was.
pub fn collect_sse_line(line: &[u8], event_data: &mut String) -> (r: Result<bool, Error>)
    ensures
        match sse_line(line@, old(event_data)@) {
            None => r matches Err(Error::Utf8Error) && final(event_data)@ == old(event_data)@,
            Some((end, acc)) => r == Ok::<bool, Error>(end) && final(event_data)@ == acc,
        },
{
    let n = line.len();
    let m: usize = if n > 0 && line[n - 1] == 13 {
        n - 1
    } else {
        n
    };
    let b = copy_range(line, 0, m);
    assert(b@ =~= strip_cr(line@));
    let text = match utf8_decode(b.as_slice()) {
        None => {
            return Err(Error::Utf8Error);
        },
        Some(t) => t,
    };
    let v = chars_of(text.as_str());
    if v.len() == 0 {
        return Ok(true);
    }
    let prefix = chars_of("data:");
    let is_data = prefix.len() <= v.len() && chars_at(v.as_slice(), prefix.as_slice(), 0);
    proof {
        if prefix@.len() <= v@.len() {
            assert(v@.subrange(0, prefix@.len() as int) =~= v@.subrange(0, 0 + prefix@.len() as int));
        }
    }
    assert(is_data == starts_with(v@, "data:"@));
    if is_data {
        let mut from = prefix.len();
        if from < v.len() && v[from] == ' ' {
            from = from + 1;
        }
        assert(v@.subrange(from as int, v@.len() as int) =~= data_value(v@));
        let value = string_from(v.as_slice(), from, v.len());
        if !event_data.as_str().is_empty() {
            push_char(event_data, '\n');
        }
        append_str(event_data, value.as_str());
    }
    Ok(false)
}

/// One line of the event stream, read less one trailing carriage return: a
/// blank line ends the event; a line `data: x`, or `data:x` where `x` does
/// not start with a space, adds `x` to the event, after a newline when the
/// event already holds data; any other line leaves the event as it was. A
/// carriage return added at the end of a line that has none changes nothing.
pub proof fn lemma_sse_line_fields(line: Seq<u8>, acc: Seq<char>, x: Seq<char>)
    requires
        valid_utf8(strip_cr(line)),
    ensures
        ({
            let l = decode_utf8(strip_cr(line));
            let added = if acc.len() > 0 { acc + seq!['\n'] + x } else { x };
            &&& l.len() == 0 ==> sse_line(line, acc) == Some((true, acc))
            &&& l == "data: "@ + x ==> sse_line(line, acc) == Some((false, added))
            &&& (l == "data:"@ + x && (x.len() == 0 || x[0] != ' ')) ==> sse_line(line, acc) == Some((false, added))
            &&& (l.len() > 0 && !(l.len() >= 5 && l.take(5) == "data:"@)) ==> sse_line(line, acc) == Some((false, acc))
        }),
        (line.len() == 0 || line.last() != 13u8) ==> sse_line(line.push(13u8), acc) == sse_line(line, acc),
{
    reveal_strlit("data: ");
    reveal_strlit("data:");
    assert("data:"@.len() == 5);
    assert("data: "@.len() == 6);
    let l = decode_utf8(strip_cr(line));
    if l == "data: "@ + x {
        assert(l.subrange(0, 5) =~= "data:"@);
        assert(l.skip(5) =~= seq![' '] + x);
        assert((seq![' '] + x).drop_first() =~= x);
    }
    if l == "data:"@ + x {
        assert(l.subrange(0, 5) =~= "data:"@);
        assert(l.skip(5) =~= x);
    }
    if l.len() > 0 && !(l.len() >= 5 && l.take(5) == "data:"@) {
        if 5 <= l.len() {
            assert(l.subrange(0, 5) =~= l.take(5));
        }
    }
    assert(line.push(13u8).drop_last() =~= line);
    assert(acc.len() > 0 ==> acc.push('\n') + x =~= acc + seq!['\n'] + x);
}

/// What scanning the buffered bytes for the next complete event gives:
/// `None` on a line that is not UTF-8, `Some(None)` when the buffer holds no
/// further complete event, `Some(Some(text))` for an event; with the bytes
/// left in the buffer and the event text collected so far.
pub open spec fn sse_scan(buf: Seq<u8>, acc: Seq<char>) -> (
    Option<Option<Seq<char>>>,
    Seq<u8>,
    Seq<char>,
)
    decreases buf.len(),
{
    proof {
        lemma_first_index_bounds(buf, 10u8);
    }
    match first_index(buf, 10u8) {
        None => (Some(None), buf, acc),
        Some(i) => {
            let rest = buf.skip(i + 1);
            match sse_line(buf.take(i), acc) {
                None => (None, rest, acc),
                Some((end, acc2)) => if end && acc2.len() > 0 {
                    (Some(Some(acc2)), rest, seq![])
                } else {
                    sse_scan(rest, acc2)
                },
            }
        },
    }
}

/// What is left at the end of the stream: an unterminated last line is fed
/// as a line, and a non-empty event text is the last event.
pub open spec fn sse_finish(buf: Seq<u8>, acc: Seq<char>) -> Option<Option<Seq<char>>> {
    let last = if buf.len() > 0 {
        match sse_line(buf, acc) {
            None => None,
            Some((_, a)) => Some(a),
        }
    } else {
        Some(acc)
    };
    match last {
        None => None,
        Some(a) => if a.len() > 0 {
            Some(Some(a))
        } else {
            Some(None)
        },
    }
}

/// Reassembles the server-sent events of the detailed music stream from the
/// chunks in which the bytes arrive.
#[derive(Clone, Debug)]
pub struct SseDecoder {
    /// Bytes received after the last complete line.
    pub buffer: Vec<u8>,
    /// The text of the event being collected.
    pub event_data: String,
}

impl SseDecoder {
    pub fn new() -> (d: Self)
        ensures
            d.buffer@ == Seq::<u8>::empty(),
            d.event_data@ == Seq::<char>::empty(),
    {
        SseDecoder { buffer: Vec::new(), event_data: String::new() }
    }

    /// Appends a chunk of the response body.
    pub fn push_chunk(&mut self, chunk: &[u8])
        ensures
            final(self).buffer@ == old(self).buffer@ + chunk@,
            final(self).event_data@ == old(self).event_data@,
    {
        extend_bytes(&mut self.buffer, chunk);
    }

    /// The next complete event in the buffered bytes, if any.
    pub fn next_event(&mut self) -> (r: Result<Option<String>, Error>)
        ensures
            ({
                let (out, buf, acc) = sse_scan(old(self).buffer@, old(self).event_data@);
                &&& final(self).buffer@ == buf
                &&& final(self).event_data@ == acc
                &&& match out {
                    None => r matches Err(Error::Utf8Error),
                    Some(e) => r matches Ok(o) && opt_view(o) == e,
                }
            }),
    {
        loop
            invariant
                sse_scan(self.buffer@, self.event_data@) == sse_scan(
                    old(self).buffer@,
                    old(self).event_data@,
                ),
            decreases self.buffer@.len(),
        {
            let len = self.buffer.len();
            let nl = next_byte(self.buffer.as_slice(), 10, 0, len);
            assert(self.buffer@.subrange(0, len as int) =~= self.buffer@);
            if nl == len {
                return Ok(None);
            }
            let line = copy_range(self.buffer.as_slice(), 0, nl);
            let rest = copy_range(self.buffer.as_slice(), nl + 1, len);
            assert(line@ =~= self.buffer@.take(nl as int));
            assert(rest@ =~= self.buffer@.skip(nl + 1));
            self.buffer = rest;
            let end = collect_sse_line(line.as_slice(), &mut self.event_data)?;
            if end && !self.event_data.as_str().is_empty() {
                let event = self.event_data.clone();
                self.event_data = String::new();
                return Ok(Some(event));
            }
        }
    }

    /// Appends a chunk and takes every event it completes, in order. A
    /// refused line ends the taking with `Error::Utf8Error`; the events
    /// before it are still returned.
    pub fn feed(&mut self, chunk: &[u8]) -> (r: (Vec<String>, Option<Error>))
        ensures
            ({
                let (es, ok, rest, acc) = sse_drain(old(self).buffer@ + chunk@, old(self).event_data@);
                &&& string_views(r.0@) == es
                &&& (r.1 is None <==> ok)
                &&& (r.1 matches Some(e) ==> e == Error::Utf8Error)
                &&& final(self).buffer@ == rest
                &&& final(self).event_data@ == acc
            }),
    {
        self.push_chunk(chunk);
        let ghost start = (self.buffer@, self.event_data@);
        let mut out: Vec<String> = Vec::new();
        loop
            invariant
                start.0 == old(self).buffer@ + chunk@,
                start.1 == old(self).event_data@,
                ({
                    let d0 = sse_drain(start.0, start.1);
                    let d = sse_drain(self.buffer@, self.event_data@);
                    d0 == (string_views(out@) + d.0, d.1, d.2, d.3)
                }),
            decreases self.buffer@.len(),
        {
            let ghost before = (self.buffer@, self.event_data@);
            proof {
                lemma_sse_scan_shrinks(before.0, before.1);
            }
            match self.next_event() {
                Ok(Some(e)) => {
                    let ghost outb = out@;
                    out.push(e);
                    proof {
                        let d = sse_drain(self.buffer@, self.event_data@);
                        assert(string_views(out@) =~= string_views(outb).push(e@));
                        assert(string_views(outb) + (seq![e@] + d.0) =~= string_views(out@) + d.0);
                    }
                },
                Ok(None) => {
                    proof {
                        assert(string_views(out@) + Seq::<Seq<char>>::empty() =~= string_views(out@));
                    }
                    return (out, None);
                },
                Err(_) => {
                    proof {
                        assert(string_views(out@) + Seq::<Seq<char>>::empty() =~= string_views(out@));
                    }
                    return (out, Some(Error::Utf8Error));
                },
            }
        }
    }

    /// Ends the stream: feeds the unterminated last line and returns the last
    /// event, if one was being collected.
    pub fn finish(self) -> (r: Result<Option<String>, Error>)
        ensures
            match sse_finish(self.buffer@, self.event_data@) {
                None => r matches Err(Error::Utf8Error),
                Some(e) => r matches Ok(o) && opt_view(o) == e,
            },
    {
        let mut data = self.event_data;
        if self.buffer.len() > 0 {
            collect_sse_line(self.buffer.as_slice(), &mut data)?;
        }
        if data.as_str().is_empty() {
            Ok(None)
        } else {
            Ok(Some(data))
        }
    }
}

/// The events of the detailed music stream, by their `event` name.
#[derive(Clone, Copy, Debug, PartialEq, Eq, Structural)]
pub enum DetailedMusicEventKind {
    CompositionPlan,
    SongMetadata,
    AudioChunk,
    WordTimestamps,
    Completion,
    /// An event this crate does not model; its name and data are kept.
    Unknown,
}

pub open spec fn event_kind(name: Seq<char>) -> DetailedMusicEventKind {
    if name == "composition_plan"@ {
        DetailedMusicEventKind::CompositionPlan
    } else if name == "song_metadata"@ {
        DetailedMusicEventKind::SongMetadata
    } else if name == "audio_chunk"@ {
        DetailedMusicEventKind::AudioChunk
    } else if name == "word_timestamps"@ {
        DetailedMusicEventKind::WordTimestamps
    } else if name == "completion"@ {
        DetailedMusicEventKind::Completion
    } else {
        DetailedMusicEventKind::Unknown
    }
}

impl DetailedMusicEventKind {
    /// The kind of the event named `name`.
    pub fn from_name(name: &str) -> (k: Self)
        ensures
            k == event_kind(name@),
    {
        if str_eq(name, "composition_plan") {
            DetailedMusicEventKind::CompositionPlan
        } else if str_eq(name, "song_metadata") {
            DetailedMusicEventKind::SongMetadata
        } else if str_eq(name, "audio_chunk") {
            DetailedMusicEventKind::AudioChunk
        } else if str_eq(name, "word_timestamps") {
            DetailedMusicEventKind::WordTimestamps
        } else if str_eq(name, "completion") {
            DetailedMusicEventKind::Completion
        } else {
            DetailedMusicEventKind::Unknown
        }
    }
}

/// Decodes the data of an `audio_chunk` event, which must be a base64 string
/// (`data` is `None` when it is some other JSON value).
pub fn decode_audio_chunk(data: Option<&str>) -> (r: Result<Vec<u8>, Error>)
    ensures
        match data {
            None => r matches Err(Error::InvalidInput(m))
                && m@ == "music audio_chunk event data must be a base64 string"@,
            Some(t) => match base64_decoding(t@) {
                Some(bytes) => r matches Ok(v) && v@ == bytes,
                None => r matches Err(Error::Base64DecodeError),
            },
        },
{
    match data {
        None => Err(invalid_input("music audio_chunk event data must be a base64 string")),
        Some(t) => match base64_decode(t) {
            Some(v) => Ok(v),
            None => Err(Error::Base64DecodeError),
        },
    }
}

/// How the bytes are cut into chunks does not matter to the events of the
/// detailed stream. Bytes that arrive later never change an event, or an
/// error, that the buffered bytes already produce: they only wait behind the
/// rest of the buffer. When the buffered bytes complete no event, scanning
/// them with more bytes behind is scanning what they leave with those bytes.
pub proof fn lemma_sse_scan_chunking(buf: Seq<u8>, more: Seq<u8>, acc: Seq<char>)
    ensures
        ({
            let (out, rest, acc2) = sse_scan(buf, acc);
            if out == Some(None::<Seq<char>>) {
                sse_scan(buf + more, acc) == sse_scan(rest + more, acc2)
            } else {
                sse_scan(buf + more, acc) == (out, rest + more, acc2)
            }
        }),
    decreases buf.len(),
{
    lemma_first_index_bounds(buf, 10u8);
    match first_index(buf, 10u8) {
        None => {},
        Some(i) => {
            let all = buf + more;
            assert forall|k: int| 0 <= k < i implies all[k] != 10u8 by {
                assert(all[k] == buf[k]);
            }
            assert(all[i] == buf[i]);
            lemma_first_index(all, 10u8, i);
            assert(all.take(i) =~= buf.take(i));
            assert(all.skip(i + 1) =~= buf.skip(i + 1) + more);
            match sse_line(buf.take(i), acc) {
                None => {},
                Some((end, acc2)) => {
                    if !(end && acc2.len() > 0) {
                        lemma_sse_scan_chunking(buf.skip(i + 1), more, acc2);
                    }
                },
            }
        },
    }
}

/// The rest that a scan leaves is never longer than what it scanned, and is
/// shorter when it found an event.
pub proof fn lemma_sse_scan_shrinks(buf: Seq<u8>, acc: Seq<char>)
    ensures
        sse_scan(buf, acc).1.len() <= buf.len(),
        sse_scan(buf, acc).0 matches Some(Some(_)) ==> sse_scan(buf, acc).1.len() < buf.len(),
    decreases buf.len(),
{
    lemma_first_index_bounds(buf, 10u8);
    match first_index(buf, 10u8) {
        None => {},
        Some(i) => {
            match sse_line(buf.take(i), acc) {
                None => {},
                Some((end, acc2)) => {
                    if !(end && acc2.len() > 0) {
                        lemma_sse_scan_shrinks(buf.skip(i + 1), acc2);
                    }
                },
            }
        },
    }
}

/// Scanning until no complete event is left: the events found in order,
/// whether no line was refused, and the bytes and event text left.
pub open spec fn sse_drain(buf: Seq<u8>, acc: Seq<char>) -> (Seq<Seq<char>>, bool, Seq<u8>, Seq<char>)
    decreases buf.len(),
{
    let (out, rest, acc2) = sse_scan(buf, acc);
    match out {
        None => (seq![], false, rest, acc2),
        Some(None) => (seq![], true, rest, acc2),
        Some(Some(e)) => if rest.len() < buf.len() {
            let (es, ok, r2, a2) = sse_drain(rest, acc2);
            (seq![e] + es, ok, r2, a2)
        } else {
            (seq![e], true, rest, acc2)
        },
    }
}

/// The events of a stream delivered in `chunks`, from the state `buf` and
/// `acc`: after each chunk every complete event is taken, and at the end
/// what is left is finished. The flag is false when a line was refused;
/// the events before it are kept.
pub open spec fn sse_stream(chunks: Seq<Seq<u8>>, buf: Seq<u8>, acc: Seq<char>) -> (Seq<Seq<char>>, bool)
    decreases chunks.len(),
{
    if chunks.len() == 0 {
        match sse_finish(buf, acc) {
            None => (seq![], false),
            Some(None) => (seq![], true),
            Some(Some(e)) => (seq![e], true),
        }
    } else {
        let (es, ok, b2, a2) = sse_drain(buf + chunks[0], acc);
        if !ok {
            (es, false)
        } else {
            let (rest, ok2) = sse_stream(chunks.skip(1), b2, a2);
            (es + rest, ok2)
        }
    }
}

/// The bytes of all the chunks, in order.
pub open spec fn concat_chunks(chunks: Seq<Seq<u8>>) -> Seq<u8>
    decreases chunks.len(),
{
    if chunks.len() == 0 {
        seq![]
    } else {
        chunks[0] + concat_chunks(chunks.skip(1))
    }
}

/// Draining bytes with more behind them finds the events the first bytes
/// give, then those of what they leave with the more; a refused line stays
/// refused, with the more waiting behind.
pub proof fn lemma_sse_drain_append(b: Seq<u8>, m: Seq<u8>, a: Seq<char>)
    ensures
        ({
            let (es, ok, r, a2) = sse_drain(b, a);
            if ok {
                let (es2, ok2, r2, a3) = sse_drain(r + m, a2);
                sse_drain(b + m, a) == (es + es2, ok2, r2, a3)
            } else {
                sse_drain(b + m, a) == (es, false, r + m, a2)
            }
        }),
    decreases b.len(),
{
    let (out, rest, acc2) = sse_scan(b, a);
    lemma_sse_scan_chunking(b, m, a);
    lemma_sse_scan_shrinks(b, a);
    lemma_sse_scan_shrinks(b + m, a);
    match out {
        None => {},
        Some(None) => {
            let d = sse_drain(rest + m, acc2);
            lemma_sse_scan_shrinks(rest + m, acc2);
            assert(sse_drain(b + m, a) == d);
            assert(seq![] + d.0 =~= d.0);
        },
        Some(Some(e)) => {
            lemma_sse_drain_append(rest, m, acc2);
            let (es1, ok1, r1, a1) = sse_drain(rest, acc2);
            if ok1 {
                let (es2, ok2, r2, a3) = sse_drain(r1 + m, a1);
                assert(seq![e] + (es1 + es2) =~= (seq![e] + es1) + es2);
            }
        },
    }
}

/// Two adjacent chunks delivered as one give the same events, and the same
/// refusal, as delivered apart.
pub proof fn lemma_sse_stream_merge(x: Seq<u8>, y: Seq<u8>, cs: Seq<Seq<u8>>, buf: Seq<u8>, acc: Seq<char>)
    ensures
        sse_stream(seq![x, y] + cs, buf, acc) == sse_stream(seq![x + y] + cs, buf, acc),
{
    let apart = seq![x, y] + cs;
    let merged = seq![x + y] + cs;
    assert(apart[0] == x);
    assert(apart.skip(1) =~= seq![y] + cs);
    assert((seq![y] + cs)[0] == y);
    assert((seq![y] + cs).skip(1) =~= cs);
    assert(merged[0] == x + y);
    assert(merged.skip(1) =~= cs);
    assert(buf + (x + y) =~= (buf + x) + y);
    lemma_sse_drain_append(buf + x, y, acc);
    let (es1, ok1, r1, a1) = sse_drain(buf + x, acc);
    let tail = seq![y] + cs;
    let inner = sse_stream(tail, r1, a1);
    if ok1 {
        assert(sse_stream(apart, buf, acc) == (es1 + inner.0, inner.1));
        let (es2, ok2, r2, a2) = sse_drain(r1 + y, a1);
        assert(sse_drain(buf + (x + y), acc) == (es1 + es2, ok2, r2, a2));
        if ok2 {
            let (rest, ok3) = sse_stream(cs, r2, a2);
            assert(inner == (es2 + rest, ok3));
            assert(sse_stream(merged, buf, acc) == ((es1 + es2) + rest, ok3));
            assert(es1 + (es2 + rest) =~= (es1 + es2) + rest);
        } else {
            assert(inner == (es2, false));
            assert(sse_stream(merged, buf, acc) == (es1 + es2, false));
        }
    } else {
        assert(sse_stream(apart, buf, acc) == (es1, false));
        assert(sse_drain(buf + (x + y), acc) == (es1, false, r1 + y, a1));
        assert(sse_stream(merged, buf, acc) == (es1, false));
    }
}

/// How the bytes of a stream are cut into chunks does not matter: the events
/// read, and whether a line is refused, are those of all the bytes delivered
/// at once.
pub proof fn lemma_sse_stream_chunking(chunks: Seq<Seq<u8>>, buf: Seq<u8>, acc: Seq<char>)
    requires
        chunks.len() >= 1,
    ensures
        sse_stream(chunks, buf, acc) == sse_stream(seq![concat_chunks(chunks)], buf, acc),
    decreases chunks.len(),
{
    if chunks.len() == 1 {
        assert(chunks.skip(1) =~= Seq::<Seq<u8>>::empty());
        assert(concat_chunks(chunks.skip(1)) == Seq::<u8>::empty());
        assert(concat_chunks(chunks) == chunks[0] + concat_chunks(chunks.skip(1)));
        assert(concat_chunks(chunks) =~= chunks[0]);
        assert(chunks =~= seq![chunks[0]]);
    } else {
        let c0 = chunks[0];
        let c1 = chunks[1];
        let rest = chunks.skip(2);
        assert(chunks =~= seq![c0, c1] + rest);
        lemma_sse_stream_merge(c0, c1, rest, buf, acc);
        let merged = seq![c0 + c1] + rest;
        lemma_sse_stream_chunking(merged, buf, acc);
        assert(merged.skip(1) =~= rest);
        assert(concat_chunks(merged) == (c0 + c1) + concat_chunks(rest));
        assert(chunks.skip(1)[0] == c1);
        assert(chunks.skip(1).skip(1) =~= rest);
        assert(concat_chunks(chunks.skip(1)) == c1 + concat_chunks(rest));
        assert(concat_chunks(chunks) == c0 + concat_chunks(chunks.skip(1)));
        assert(concat_chunks(merged) =~= concat_chunks(chunks));
    }
}

/// From the start of a stream, how its bytes are cut into chunks, none
/// included, does not matter: the events read, and whether a line is
/// refused, are those of all the bytes delivered at once.
pub proof fn lemma_sse_stream_chunking_from_start(chunks: Seq<Seq<u8>>)
    ensures
        sse_stream(chunks, seq![], seq![]) == sse_stream(seq![concat_chunks(chunks)], seq![], seq![]),
{
    if chunks.len() >= 1 {
        lemma_sse_stream_chunking(chunks, seq![], seq![]);
    } else {
        let empty: Seq<u8> = seq![];
        let one = seq![concat_chunks(chunks)];
        assert(concat_chunks(chunks) == empty);
        assert(one[0] == empty);
        assert(empty + one[0] =~= empty);
        assert(first_index(empty, 10u8) is None);
        assert(sse_scan(empty, seq![]) == (Some(None::<Seq<char>>), empty, Seq::<char>::empty()));
        assert(sse_drain(empty, seq![]) == (Seq::<Seq<char>>::empty(), true, empty, Seq::<char>::empty()));
        assert(one.skip(1) =~= Seq::<Seq<u8>>::empty());
        assert(sse_stream(one.skip(1), empty, seq![]) == (Seq::<Seq<char>>::empty(), true));
        assert(Seq::<Seq<char>>::empty() + Seq::<Seq<char>>::empty() =~= Seq::<Seq<char>>::empty());
    }
}

/// What reading a server-sent event payload as JSON gives: its `event`
/// name, which must be a string, its `data`, which must be present, as JSON
/// text, and the data itself when it is a JSON string; or the reason it
/// could not be read.
pub open spec fn json_event_envelope(payload: Seq<char>) -> Result<
    (Seq<char>, Seq<char>, Option<Seq<char>>),
    Seq<char>,
> {
    match json_object_entries(payload) {
        Err(m) => Err(m),
        Ok(None) => Err("expected a JSON object"@),
        Ok(Some(es)) => match field_string(es, "event"@) {
            Err(m) => Err(m),
            Ok(event) => match field_value(es, "data"@) {
                Err(m) => Err(m),
                Ok(data) => Ok((event, data, json_string_value(data))),
            },
        },
    }
}

/// An event payload's `event` name and `data`.
fn event_envelope(payload: &str) -> (r: Result<(String, String, Option<String>), String>)
    ensures
        match (r, json_event_envelope(payload@)) {
            (Ok(a), Ok(b)) => a.0@ == b.0 && a.1@ == b.1 && opt_view(a.2) == b.2,
            (Err(m), Err(n)) => m@ == n,
            _ => false,
        },
{
    let es = match parse_object(payload) {
        Err(m) => return Err(m),
        Ok(None) => return Err(owned("expected a JSON object")),
        Ok(Some(es)) => es,
    };
    let event = get_string(&es, "event")?;
    let data = get_value(&es, "data")?;
    let text = string_value(data.as_str());
    Ok((event, data, text))
}

/// An event of the detailed music stream. JSON data is kept as its text.
#[derive(Clone, Debug)]
pub enum DetailedMusicStreamEvent {
    /// The composition plan selected by the service.
    CompositionPlan(String),
    /// Metadata describing the song.
    SongMetadata(String),
    /// A decoded chunk of audio.
    AudioChunk(Vec<u8>),
    /// Word timing data.
    WordTimestamps(String),
    /// The final payload.
    Completion(String),
    /// An event this crate does not model, with its name and data.
    Unknown { event: String, data: String },
}

/// The event a payload describes, as parse_detailed_music_event reads it.
pub open spec fn event_matches(
    r: Result<DetailedMusicStreamEvent, Error>,
    payload: Seq<char>,
) -> bool {
    match json_event_envelope(payload) {
        Err(m) => r matches Err(Error::JsonError(e)) && e@ == m,
        Ok((name, data, text)) => match event_kind(name) {
            DetailedMusicEventKind::CompositionPlan => r matches Ok(DetailedMusicStreamEvent::CompositionPlan(d)) && d@ == data,
            DetailedMusicEventKind::SongMetadata => r matches Ok(DetailedMusicStreamEvent::SongMetadata(d)) && d@ == data,
            DetailedMusicEventKind::WordTimestamps => r matches Ok(DetailedMusicStreamEvent::WordTimestamps(d)) && d@ == data,
            DetailedMusicEventKind::Completion => r matches Ok(DetailedMusicStreamEvent::Completion(d)) && d@ == data,
            DetailedMusicEventKind::Unknown => r matches Ok(DetailedMusicStreamEvent::Unknown { event: e, data: d }) && e@ == name && d@ == data,
            DetailedMusicEventKind::AudioChunk => match text {
                None => r matches Err(Error::InvalidInput(m))
                    && m@ == "music audio_chunk event data must be a base64 string"@,
                Some(t) => match base64_decoding(t) {
                    Some(bytes) => r matches Ok(DetailedMusicStreamEvent::AudioChunk(v)) && v@ == bytes,
                    None => r matches Err(Error::Base64DecodeError),
                },
            },
        },
    }
}

/// Reads one event of the detailed music stream from its payload.
pub fn parse_detailed_music_event(payload: &str) -> (r: Result<DetailedMusicStreamEvent, Error>)
    ensures
        event_matches(r, payload@),
{
    let (event, data, text) = match event_envelope(payload) {
        Ok(e) => e,
        Err(m) => return Err(Error::JsonError(m)),
    };
    match DetailedMusicEventKind::from_name(event.as_str()) {
        DetailedMusicEventKind::CompositionPlan => Ok(DetailedMusicStreamEvent::CompositionPlan(data)),
        DetailedMusicEventKind::SongMetadata => Ok(DetailedMusicStreamEvent::SongMetadata(data)),
        DetailedMusicEventKind::WordTimestamps => Ok(DetailedMusicStreamEvent::WordTimestamps(data)),
        DetailedMusicEventKind::Completion => Ok(DetailedMusicStreamEvent::Completion(data)),
        DetailedMusicEventKind::Unknown => Ok(DetailedMusicStreamEvent::Unknown { event, data }),
        DetailedMusicEventKind::AudioChunk => {
            let t = match &text {
                Some(t) => Some(t.as_str()),
                None => None,
            };
            match decode_audio_chunk(t) {
                Ok(v) => Ok(DetailedMusicStreamEvent::AudioChunk(v)),
                Err(e) => Err(e),
            }
        },
    }
}

/// Each event name the detailed stream models is read as its own event,
/// never as an unknown one: `composition_plan`, `song_metadata`,
/// `word_timestamps` and `completion` carry the payload's data, and
/// `audio_chunk` is decoded audio or an error. An event is read as unknown
/// only when its name is none of the five, and then it keeps that name and
/// its data.
pub proof fn lemma_detailed_event_names(payload: Seq<char>, r: Result<DetailedMusicStreamEvent, Error>)
    requires
        event_matches(r, payload),
    ensures
        match json_event_envelope(payload) {
            Err(_) => r is Err,
            Ok((name, data, _)) => {
                &&& name == "composition_plan"@ ==> (r matches Ok(DetailedMusicStreamEvent::CompositionPlan(d)) && d@ == data)
                &&& name == "song_metadata"@ ==> (r matches Ok(DetailedMusicStreamEvent::SongMetadata(d)) && d@ == data)
                &&& name == "word_timestamps"@ ==> (r matches Ok(DetailedMusicStreamEvent::WordTimestamps(d)) && d@ == data)
                &&& name == "completion"@ ==> (r matches Ok(DetailedMusicStreamEvent::Completion(d)) && d@ == data)
                &&& name == "audio_chunk"@ ==> (r matches Ok(DetailedMusicStreamEvent::AudioChunk(_)) || r is Err)
                &&& (r matches Ok(DetailedMusicStreamEvent::Unknown { .. })) <==> (
                    name != "composition_plan"@ && name != "song_metadata"@ && name != "audio_chunk"@
                    && name != "word_timestamps"@ && name != "completion"@)
                &&& r matches Ok(DetailedMusicStreamEvent::Unknown { event: e, data: d }) ==> e@ == name && d@ == data
            },
        },
{
    reveal_strlit("composition_plan");
    reveal_strlit("song_metadata");
    reveal_strlit("audio_chunk");
    reveal_strlit("word_timestamps");
    reveal_strlit("completion");
    assert("composition_plan"@.len() == 16);
    assert("song_metadata"@.len() == 13);
    assert("audio_chunk"@.len() == 11);
    assert("word_timestamps"@.len() == 15);
    assert("completion"@.len() == 10);
    assert("song_metadata"@[0] != "completion"@[0]);
    assert("audio_chunk"@[0] != "completion"@[0]);
    assert("word_timestamps"@[0] != "completion"@[0]);
    assert("composition_plan"@[4] != "completion"@[4]);
}

} // verus!
