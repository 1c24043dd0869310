//! Helpers around the endpoints: cutting a stream of text into the chunks
//! that the text-to-speech WebSocket reads best.
use vstd::prelude::*;

use crate::text::{append_str, chars_of, concat2, push_char, string_from};

verus! {

broadcast use vstd::string::group_string_axioms;

/// The characters after which a chunk may end: punctuation, brackets, dashes
/// and the space.
pub open spec fn is_splitter(c: char) -> bool {
    c == '.' || c == ',' || c == '?' || c == '!' || c == ';' || c == ':' || c == '\u{2014}' || c
        == '-' || c == '(' || c == ')' || c == '[' || c == ']' || c == '{' || c == '}' || c == ' '
}

pub open spec fn ends_with_splitter(s: Seq<char>) -> bool {
    s.len() > 0 && is_splitter(s.last())
}

pub open spec fn starts_with_splitter(s: Seq<char>) -> bool {
    s.len() > 0 && is_splitter(s[0])
}

/// The characters that split the text are exactly the full stop, comma,
/// question and exclamation marks, semicolon, colon, em dash, hyphen, the
/// round, square and curly brackets, and the space. So buffered text is sent
/// when it ends with one of them, and a piece that starts with one of them
/// sends the buffered text with it.
pub proof fn lemma_splitter_set(c: char, buf: Seq<char>, text: Seq<char>)
    ensures
        is_splitter(c) <==> (c == '.' || c == ',' || c == '?' || c == '!' || c == ';' || c == ':'
            || c == '\u{2014}' || c == '-' || c == '(' || c == ')' || c == '[' || c == ']' || c == '{'
            || c == '}' || c == ' '),
        ends_with_splitter(buf) <==> (buf.len() > 0 && (buf.last() == '.' || buf.last() == ','
            || buf.last() == '?' || buf.last() == '!' || buf.last() == ';' || buf.last() == ':'
            || buf.last() == '\u{2014}' || buf.last() == '-' || buf.last() == '(' || buf.last() == ')'
            || buf.last() == '[' || buf.last() == ']' || buf.last() == '{' || buf.last() == '}'
            || buf.last() == ' ')),
        starts_with_splitter(text) <==> (text.len() > 0 && (text[0] == '.' || text[0] == ','
            || text[0] == '?' || text[0] == '!' || text[0] == ';' || text[0] == ':'
            || text[0] == '\u{2014}' || text[0] == '-' || text[0] == '(' || text[0] == ')'
            || text[0] == '[' || text[0] == ']' || text[0] == '{' || text[0] == '}' || text[0] == ' ')),
{
}

fn splitter(c: char) -> (b: bool)
    ensures
        b == is_splitter(c),
{
    c == '.' || c == ',' || c == '?' || c == '!' || c == ';' || c == ':' || c == '\u{2014}' || c
        == '-' || c == '(' || c == ')' || c == '[' || c == ']' || c == '{' || c == '}' || c == ' '
}

/// Joins streamed text into chunks that end at a splitter.
#[derive(Clone, Debug)]
pub struct TextChunker {
    /// The text not yet sent.
    pub buf: String,
}

impl TextChunker {
    pub fn new() -> (r: Self)
        ensures
            r.buf@ == Seq::<char>::empty(),
    {
        TextChunker { buf: String::new() }
    }

    /// Takes the next piece of text. When the buffered text ends at a
    /// splitter it is sent, with a space, and the piece is buffered; when the
    /// piece starts with a splitter, the buffered text is sent with that
    /// splitter and a space, and the rest of the piece is buffered;
    /// otherwise the piece is added to the buffer. A piece that starts with
    /// an em dash after text that does not end at a splitter is not accepted,
    /// since the dash is more than one byte long.
    pub fn push(&mut self, text: &str) -> (r: Option<String>)
        requires
            !(!ends_with_splitter(old(self).buf@) && starts_with_splitter(text@) && text@[0]
                == '\u{2014}'),
        ensures
            ends_with_splitter(old(self).buf@) ==> (r matches Some(o) && o@ == old(self).buf@
                + " "@ && final(self).buf@ == text@),
            !ends_with_splitter(old(self).buf@) && starts_with_splitter(text@) ==> (r matches Some(
                o,
            ) && o@ == old(self).buf@.push(text@[0]).push(' ') && final(self).buf@ == text@.skip(1)),
            !ends_with_splitter(old(self).buf@) && !starts_with_splitter(text@) ==> r is None
                && final(self).buf@ == old(self).buf@ + text@,
    {
        let b = chars_of(self.buf.as_str());
        let ends = b.len() > 0 && splitter(b[b.len() - 1]);
        if ends {
            let out = concat2(self.buf.as_str(), " ");
            self.buf = string_from(chars_of(text).as_slice(), 0, chars_of(text).len());
            proof {
                assert(text@.subrange(0, text@.len() as int) =~= text@);
            }
            return Some(out);
        }
        let t = chars_of(text);
        if t.len() > 0 && splitter(t[0]) {
            let mut out = self.buf.clone();
            push_char(&mut out, t[0]);
            push_char(&mut out, ' ');
            self.buf = string_from(t.as_slice(), 1, t.len());
            return Some(out);
        }
        append_str(&mut self.buf, text);
        None
    }

    /// The text left at the end of the stream, if any.
    pub fn finish(self) -> (r: Option<String>)
        ensures
            self.buf@.len() > 0 ==> (r matches Some(s) && s@ == self.buf@),
            self.buf@.len() == 0 ==> r is None,
    {
        if self.buf.as_str().is_empty() {
            None
        } else {
            Some(self.buf)
        }
    }
}

} // verus!
