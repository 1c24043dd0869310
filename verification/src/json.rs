//! Reading JSON documents. `serde_json` parses: it gives an object's entries
//! (each value written back as compact JSON text), a value's string or
//! number, an array's items, and writes a string as a JSON string. Which
//! fields a message needs, of which type, and the errors when they are
//! missing, are decided here.
use vstd::prelude::*;

use crate::text::{append_str, concat2, owned, str_eq, str_views};

verus! {

broadcast use vstd::string::group_string_axioms;

/// What `serde_json` makes of a document: its entries, each key with its
/// value as compact JSON text, in the order of the parsed map, when the
/// document is an object; `None` when it is another value; or the parser's
/// message.
pub uninterp spec fn json_object_entries(text: Seq<char>) -> Result<
    Option<Seq<(Seq<char>, Seq<char>)>>,
    Seq<char>,
>;

/// The string a JSON value holds, when it is a string.
pub uninterp spec fn json_string_value(text: Seq<char>) -> Option<Seq<char>>;

/// The number a JSON value holds, when it is an integer that fits in `u64`.
pub uninterp spec fn json_u64_value(text: Seq<char>) -> Option<u64>;

/// Whether a JSON value is `null`.
pub uninterp spec fn json_is_null(text: Seq<char>) -> bool;

/// The items of a JSON array, each as compact JSON text.
pub uninterp spec fn json_array_items(text: Seq<char>) -> Option<Seq<Seq<char>>>;

/// A lowercase hexadecimal digit.
pub open spec fn hex_digit(n: int) -> char {
    if n < 10 {
        (48 + n) as char
    } else {
        (87 + n) as char
    }
}

/// How one character is written inside a JSON string: the quote and the
/// backslash behind a backslash, the five control characters with short
/// escapes as `\b`, `\t`, `\n`, `\f`, `\r`, the other control characters as
/// `\u00` and two lowercase hexadecimal digits, every other character as
/// itself.
pub open spec fn escape_char(c: char) -> Seq<char> {
    if c == '"' {
        seq!['\\', '"']
    } else if c == '\\' {
        seq!['\\', '\\']
    } else if c == '\u{8}' {
        seq!['\\', 'b']
    } else if c == '\t' {
        seq!['\\', 't']
    } else if c == '\n' {
        seq!['\\', 'n']
    } else if c == '\u{c}' {
        seq!['\\', 'f']
    } else if c == '\r' {
        seq!['\\', 'r']
    } else if (c as u32) < 32 {
        seq!['\\', 'u', '0', '0', hex_digit((c as int) / 16), hex_digit((c as int) % 16)]
    } else {
        seq![c]
    }
}

/// The characters of a string, each escaped.
pub open spec fn escaped(s: Seq<char>) -> Seq<char>
    decreases s.len(),
{
    if s.len() == 0 {
        seq![]
    } else {
        escaped(s.drop_last()) + escape_char(s.last())
    }
}

/// A string written as a JSON string: its escaped characters between
/// double quotes.
pub open spec fn json_quoted(s: Seq<char>) -> Seq<char> {
    seq!['"'] + escaped(s) + seq!['"']
}

/// The entries of a vector of key and value texts.
pub open spec fn entries_view(v: Seq<(String, String)>) -> Seq<(Seq<char>, Seq<char>)> {
    v.map_values(|e: (String, String)| (e.0@, e.1@))
}

/// `serde_json::from_str::<Value>`: the entries of an object, `None` for
/// another value, or the error's message. The result is named.
#[verifier::external_body]
pub(crate) fn parse_object(text: &str) -> (r: Result<Option<Vec<(String, String)>>, String>)
    ensures
        match (r, json_object_entries(text@)) {
            (Ok(Some(v)), Ok(Some(e))) => entries_view(v@) == e,
            (Ok(None), Ok(None)) => true,
            (Err(m), Err(n)) => m@ == n,
            _ => false,
        },
{
    match serde_json::from_str::<serde_json::Value>(text) {
        Ok(serde_json::Value::Object(map)) => Ok(Some(map.into_iter().map(|(k, v)| (k, v.to_string())).collect())),
        Ok(_) => Ok(None),
        Err(e) => Err(e.to_string()),
    }
}

/// `serde_json::from_str::<Value>` and `Value::as_str`.
#[verifier::external_body]
pub(crate) fn string_value(text: &str) -> (r: Option<String>)
    ensures
        match (r, json_string_value(text@)) {
            (Some(s), Some(t)) => s@ == t,
            (None, None) => true,
            _ => false,
        },
{
    match serde_json::from_str::<serde_json::Value>(text) {
        Ok(serde_json::Value::String(s)) => Some(s),
        _ => None,
    }
}

/// `serde_json::from_str::<Value>` and `Value::as_u64`.
#[verifier::external_body]
pub(crate) fn u64_value(text: &str) -> (r: Option<u64>)
    ensures
        r == json_u64_value(text@),
{
    match serde_json::from_str::<serde_json::Value>(text) {
        Ok(v) => v.as_u64(),
        Err(_) => None,
    }
}

/// `serde_json::from_str::<Value>` and `Value::is_null`.
#[verifier::external_body]
pub(crate) fn is_null(text: &str) -> (r: bool)
    ensures
        r == json_is_null(text@),
{
    match serde_json::from_str::<serde_json::Value>(text) {
        Ok(v) => v.is_null(),
        Err(_) => false,
    }
}

/// `serde_json::from_str::<Value>`: the items of an array.
#[verifier::external_body]
pub(crate) fn array_items(text: &str) -> (r: Option<Vec<String>>)
    ensures
        match (r, json_array_items(text@)) {
            (Some(v), Some(t)) => v@.map_values(|s: String| s@) == t,
            (None, None) => true,
            _ => false,
        },
{
    match serde_json::from_str::<serde_json::Value>(text) {
        Ok(serde_json::Value::Array(items)) => Some(items.iter().map(|i| i.to_string()).collect()),
        _ => None,
    }
}

/// `serde_json::to_string` of a string, which cannot fail: the compact
/// writer puts the escaped string between quotes.
#[verifier::external_body]
pub(crate) fn quoted(s: &str) -> (r: String)
    ensures
        r@ == json_quoted(s@),
{
    serde_json::to_string(s).expect("a string always serializes")
}

// ---------------------------------------------------------------------------
// Fields
// ---------------------------------------------------------------------------

/// The value of the first entry named `key`.
pub open spec fn entry_value(es: Seq<(Seq<char>, Seq<char>)>, key: Seq<char>) -> Option<Seq<char>>
    decreases es.len(),
{
    if es.len() == 0 {
        None
    } else if es[0].0 == key {
        Some(es[0].1)
    } else {
        entry_value(es.skip(1), key)
    }
}

/// The error for a missing field.
pub open spec fn missing_field(key: Seq<char>) -> Seq<char> {
    "missing field `"@ + key + "`"@
}

/// The error for a field of the wrong type.
pub open spec fn invalid_field(key: Seq<char>) -> Seq<char> {
    "invalid type for field `"@ + key + "`"@
}

/// A field that must be present, with any value.
pub open spec fn field_value(es: Seq<(Seq<char>, Seq<char>)>, key: Seq<char>) -> Result<Seq<char>, Seq<char>> {
    match entry_value(es, key) {
        Some(v) => Ok(v),
        None => Err(missing_field(key)),
    }
}

/// A field that must be a string.
pub open spec fn field_string(es: Seq<(Seq<char>, Seq<char>)>, key: Seq<char>) -> Result<Seq<char>, Seq<char>> {
    match entry_value(es, key) {
        None => Err(missing_field(key)),
        Some(v) => match json_string_value(v) {
            Some(s) => Ok(s),
            None => Err(invalid_field(key)),
        },
    }
}

/// A field that must be a `u64`.
pub open spec fn field_u64(es: Seq<(Seq<char>, Seq<char>)>, key: Seq<char>) -> Result<u64, Seq<char>> {
    match entry_value(es, key) {
        None => Err(missing_field(key)),
        Some(v) => match json_u64_value(v) {
            Some(n) => Ok(n),
            None => Err(invalid_field(key)),
        },
    }
}

/// A field that may be missing or `null`, and is otherwise a string.
pub open spec fn field_opt_string(es: Seq<(Seq<char>, Seq<char>)>, key: Seq<char>) -> Result<Option<Seq<char>>, Seq<char>> {
    match entry_value(es, key) {
        None => Ok(None),
        Some(v) => if json_is_null(v) {
            Ok(None)
        } else {
            match json_string_value(v) {
                Some(s) => Ok(Some(s)),
                None => Err(invalid_field(key)),
            }
        },
    }
}

/// A field that may be missing or `null`, and is otherwise a `u64`.
pub open spec fn field_opt_u64(es: Seq<(Seq<char>, Seq<char>)>, key: Seq<char>) -> Result<Option<u64>, Seq<char>> {
    match entry_value(es, key) {
        None => Ok(None),
        Some(v) => if json_is_null(v) {
            Ok(None)
        } else {
            match json_u64_value(v) {
                Some(n) => Ok(Some(n)),
                None => Err(invalid_field(key)),
            }
        },
    }
}

proof fn lemma_entry_value_skip(es: Seq<(Seq<char>, Seq<char>)>, key: Seq<char>, i: int)
    requires
        0 <= i < es.len(),
        es[i].0 != key,
    ensures
        entry_value(es.skip(i), key) == entry_value(es.skip(i + 1), key),
{
    assert(es.skip(i).skip(1) =~= es.skip(i + 1));
}

/// The value of the first entry named `key`.
pub fn find_entry(es: &Vec<(String, String)>, key: &str) -> (r: Option<String>)
    ensures
        match (r, entry_value(entries_view(es@), key@)) {
            (Some(s), Some(t)) => s@ == t,
            (None, None) => true,
            _ => false,
        },
{
    let ghost v = entries_view(es@);
    let mut i: usize = 0;
    assert(v.skip(0) =~= v);
    while i < es.len()
        invariant
            0 <= i <= es@.len(),
            v == entries_view(es@),
            entry_value(v, key@) == entry_value(v.skip(i as int), key@),
        decreases es.len() - i,
    {
        if str_eq(es[i].0.as_str(), key) {
            assert(v.skip(i as int)[0] == v[i as int]);
            return Some(es[i].1.clone());
        }
        proof {
            lemma_entry_value_skip(v, key@, i as int);
        }
        i = i + 1;
    }
    None
}

fn error_text(head: &str, key: &str) -> (r: String)
    ensures
        r@ == head@ + key@ + "`"@,
{
    let mut s = concat2(head, key);
    append_str(&mut s, "`");
    s
}

/// The error for a missing field.
pub fn missing_field_text(key: &str) -> (r: String)
    ensures
        r@ == missing_field(key@),
{
    error_text("missing field `", key)
}

/// The error for a field of the wrong type.
pub fn invalid_field_text(key: &str) -> (r: String)
    ensures
        r@ == invalid_field(key@),
{
    error_text("invalid type for field `", key)
}

/// A field that must be present, with any value.
pub fn get_value(es: &Vec<(String, String)>, key: &str) -> (r: Result<String, String>)
    ensures
        match (r, field_value(entries_view(es@), key@)) {
            (Ok(s), Ok(t)) => s@ == t,
            (Err(m), Err(n)) => m@ == n,
            _ => false,
        },
{
    match find_entry(es, key) {
        Some(v) => Ok(v),
        None => Err(error_text("missing field `", key)),
    }
}

/// A field that must be a string.
pub fn get_string(es: &Vec<(String, String)>, key: &str) -> (r: Result<String, String>)
    ensures
        match (r, field_string(entries_view(es@), key@)) {
            (Ok(s), Ok(t)) => s@ == t,
            (Err(m), Err(n)) => m@ == n,
            _ => false,
        },
{
    match find_entry(es, key) {
        None => Err(error_text("missing field `", key)),
        Some(v) => match string_value(v.as_str()) {
            Some(s) => Ok(s),
            None => Err(error_text("invalid type for field `", key)),
        },
    }
}

/// A field that must be a `u64`.
pub fn get_u64(es: &Vec<(String, String)>, key: &str) -> (r: Result<u64, String>)
    ensures
        match (r, field_u64(entries_view(es@), key@)) {
            (Ok(s), Ok(t)) => s == t,
            (Err(m), Err(n)) => m@ == n,
            _ => false,
        },
{
    match find_entry(es, key) {
        None => Err(error_text("missing field `", key)),
        Some(v) => match u64_value(v.as_str()) {
            Some(n) => Ok(n),
            None => Err(error_text("invalid type for field `", key)),
        },
    }
}

/// A field that may be missing or `null`, and is otherwise a string.
pub fn get_opt_string(es: &Vec<(String, String)>, key: &str) -> (r: Result<Option<String>, String>)
    ensures
        match (r, field_opt_string(entries_view(es@), key@)) {
            (Ok(Some(s)), Ok(Some(t))) => s@ == t,
            (Ok(None), Ok(None)) => true,
            (Err(m), Err(n)) => m@ == n,
            _ => false,
        },
{
    match find_entry(es, key) {
        None => Ok(None),
        Some(v) => if is_null(v.as_str()) {
            Ok(None)
        } else {
            match string_value(v.as_str()) {
                Some(s) => Ok(Some(s)),
                None => Err(error_text("invalid type for field `", key)),
            }
        },
    }
}

/// A field that may be missing or `null`, and is otherwise a `u64`.
pub fn get_opt_u64(es: &Vec<(String, String)>, key: &str) -> (r: Result<Option<u64>, String>)
    ensures
        match (r, field_opt_u64(entries_view(es@), key@)) {
            (Ok(a), Ok(b)) => a == b,
            (Err(m), Err(n)) => m@ == n,
            _ => false,
        },
{
    match find_entry(es, key) {
        None => Ok(None),
        Some(v) => if is_null(v.as_str()) {
            Ok(None)
        } else {
            match u64_value(v.as_str()) {
                Some(n) => Ok(Some(n)),
                None => Err(error_text("invalid type for field `", key)),
            }
        },
    }
}

// ---------------------------------------------------------------------------
// The rest of an object
// ---------------------------------------------------------------------------

/// The entries whose keys are not among `keys`, in order.
pub open spec fn drop_keys(es: Seq<(Seq<char>, Seq<char>)>, keys: Seq<Seq<char>>) -> Seq<(Seq<char>, Seq<char>)>
    decreases es.len(),
{
    if es.len() == 0 {
        seq![]
    } else {
        let rest = drop_keys(es.drop_last(), keys);
        if keys.contains(es.last().0) {
            rest
        } else {
            rest.push(es.last())
        }
    }
}

/// One entry written as JSON: the quoted key, a colon and the value.
pub open spec fn entry_text(e: (Seq<char>, Seq<char>)) -> Seq<char> {
    json_quoted(e.0) + ":"@ + e.1
}

/// The entries written as JSON, separated by commas.
pub open spec fn entries_text(es: Seq<(Seq<char>, Seq<char>)>) -> Seq<char>
    decreases es.len(),
{
    if es.len() == 0 {
        seq![]
    } else if es.len() == 1 {
        entry_text(es[0])
    } else {
        entries_text(es.drop_last()) + ","@ + entry_text(es.last())
    }
}

/// The entries written as a compact JSON object.
pub open spec fn object_text(es: Seq<(Seq<char>, Seq<char>)>) -> Seq<char> {
    "{"@ + entries_text(es) + "}"@
}

/// The JSON object of the entries whose keys are not among `keys`: the
/// rest of a message once the fields the library reads are taken out.
pub open spec fn rest_text(es: Seq<(Seq<char>, Seq<char>)>, keys: Seq<Seq<char>>) -> Seq<char> {
    object_text(drop_keys(es, keys))
}

fn is_among(k: &str, keys: &[&str]) -> (b: bool)
    ensures
        b == str_views(keys@).contains(k@),
{
    let mut i: usize = 0;
    while i < keys.len()
        invariant
            0 <= i <= keys@.len(),
            forall|j: int| 0 <= j < i ==> str_views(keys@)[j] != k@,
        decreases keys.len() - i,
    {
        if str_eq(keys[i], k) {
            assert(str_views(keys@)[i as int] == k@);
            return true;
        }
        i = i + 1;
    }
    assert forall|j: int| 0 <= j < str_views(keys@).len() implies str_views(keys@)[j] != k@ by {}
    false
}

/// The entries whose keys are not among `keys`.
pub fn without_keys(es: &Vec<(String, String)>, keys: &[&str]) -> (r: Vec<(String, String)>)
    ensures
        entries_view(r@) == drop_keys(entries_view(es@), str_views(keys@)),
{
    let ghost v = entries_view(es@);
    let ghost ks = str_views(keys@);
    let mut out: Vec<(String, String)> = Vec::new();
    let mut i: usize = 0;
    assert(v.take(0) =~= seq![]);
    while i < es.len()
        invariant
            0 <= i <= es@.len(),
            v == entries_view(es@),
            ks == str_views(keys@),
            entries_view(out@) == drop_keys(v.take(i as int), ks),
        decreases es.len() - i,
    {
        assert(v.take(i + 1).drop_last() =~= v.take(i as int));
        assert(v.take(i + 1).last() == v[i as int]);
        if !is_among(es[i].0.as_str(), keys) {
            let ghost before = out@;
            out.push((es[i].0.clone(), es[i].1.clone()));
            assert(entries_view(out@) =~= entries_view(before).push(v[i as int]));
        }
        i = i + 1;
    }
    assert(v.take(es@.len() as int) =~= v);
    out
}

/// The entries written as a compact JSON object.
pub fn object_of(es: &Vec<(String, String)>) -> (r: String)
    ensures
        r@ == object_text(entries_view(es@)),
{
    let ghost v = entries_view(es@);
    let mut s = owned("{");
    let mut i: usize = 0;
    assert(v.take(0) =~= seq![]);
    while i < es.len()
        invariant
            0 <= i <= es@.len(),
            v == entries_view(es@),
            s@ == "{"@ + entries_text(v.take(i as int)),
        decreases es.len() - i,
    {
        assert(v.take(i + 1).drop_last() =~= v.take(i as int));
        assert(v.take(i + 1).last() == v[i as int]);
        if i > 0 {
            append_str(&mut s, ",");
        }
        let k = quoted(es[i].0.as_str());
        append_str(&mut s, k.as_str());
        append_str(&mut s, ":");
        append_str(&mut s, es[i].1.as_str());
        proof {
            if i == 0 {
                assert(v.take(1)[0] == v[0]);
            }
        }
        i = i + 1;
    }
    assert(v.take(es@.len() as int) =~= v);
    append_str(&mut s, "}");
    s
}

/// The rest of an object once the fields named by `keys` are taken out.
pub fn rest_of(es: &Vec<(String, String)>, keys: &[&str]) -> (r: String)
    ensures
        r@ == rest_text(entries_view(es@), str_views(keys@)),
{
    let rest = without_keys(es, keys);
    object_of(&rest)
}

/// The rest of an object without the field `a`.
pub fn rest_without1(es: &Vec<(String, String)>, a: &str) -> (r: String)
    ensures
        r@ == rest_text(entries_view(es@), seq![a@]),
{
    let mut ks: Vec<&str> = Vec::new();
    ks.push(a);
    assert(str_views(ks@) =~= seq![a@]);
    rest_of(es, ks.as_slice())
}

/// The rest of an object without the fields `a` and `b`.
pub fn rest_without2(es: &Vec<(String, String)>, a: &str, b: &str) -> (r: String)
    ensures
        r@ == rest_text(entries_view(es@), seq![a@, b@]),
{
    let mut ks: Vec<&str> = Vec::new();
    ks.push(a);
    ks.push(b);
    assert(str_views(ks@) =~= seq![a@, b@]);
    rest_of(es, ks.as_slice())
}

/// The rest of an object without the fields `a`, `b` and `c`.
pub fn rest_without3(es: &Vec<(String, String)>, a: &str, b: &str, c: &str) -> (r: String)
    ensures
        r@ == rest_text(entries_view(es@), seq![a@, b@, c@]),
{
    let mut ks: Vec<&str> = Vec::new();
    ks.push(a);
    ks.push(b);
    ks.push(c);
    assert(str_views(ks@) =~= seq![a@, b@, c@]);
    rest_of(es, ks.as_slice())
}

/// The entries of a JSON object given as text.
pub open spec fn object_entries(text: Seq<char>) -> Result<Seq<(Seq<char>, Seq<char>)>, Seq<char>> {
    match json_object_entries(text) {
        Err(m) => Err(m),
        Ok(None) => Err("expected a JSON object"@),
        Ok(Some(es)) => Ok(es),
    }
}

/// The entries of a JSON object given as text.
pub fn parse_entries(text: &str) -> (r: Result<Vec<(String, String)>, String>)
    ensures
        match (r, object_entries(text@)) {
            (Ok(v), Ok(e)) => entries_view(v@) == e,
            (Err(m), Err(n)) => m@ == n,
            _ => false,
        },
{
    match parse_object(text) {
        Err(m) => Err(m),
        Ok(None) => Err(owned("expected a JSON object")),
        Ok(Some(es)) => Ok(es),
    }
}

} // verus!
