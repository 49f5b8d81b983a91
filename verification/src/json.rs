//! JSON rendering of a [`CheckerOutput`] for the client.
//!
//! The client depends on the exact shape of the response, so the convention
//! is fixed here: the output is an object with the three fields `io_error`
//! (a string, or `null` when no infrastructure error occurred),
//! `meet_messages` and `entries_messages` (always arrays, never `null`; a
//! message is rendered as its text). Strings are escaped the way common
//! JSON emitters do: quote and backslash get two-character escapes, the
//! named control characters get theirs, every other control character
//! becomes `\u00XX`, and everything else stands for itself.

use vstd::prelude::*;
use crate::checker::CheckerOutput;
use crate::checker::Message;

verus! {

/// The lower-case hexadecimal digit for a value below sixteen.
pub open spec fn hex_digit(n: int) -> char {
    if n == 0 { '0' }
    else if n == 1 { '1' }
    else if n == 2 { '2' }
    else if n == 3 { '3' }
    else if n == 4 { '4' }
    else if n == 5 { '5' }
    else if n == 6 { '6' }
    else if n == 7 { '7' }
    else if n == 8 { '8' }
    else if n == 9 { '9' }
    else if n == 10 { 'a' }
    else if n == 11 { 'b' }
    else if n == 12 { 'c' }
    else if n == 13 { 'd' }
    else if n == 14 { 'e' }
    else { 'f' }
}

/// How one character is written inside a JSON string.
pub open spec fn escaped_char(c: char) -> Seq<char> {
    if c == '"' { seq!['\\', '"'] }
    else if c == '\\' { seq!['\\', '\\'] }
    else if c == '\u{8}' { seq!['\\', 'b'] }
    else if c == '\u{c}' { seq!['\\', 'f'] }
    else if c == '\n' { seq!['\\', 'n'] }
    else if c == '\r' { seq!['\\', 'r'] }
    else if c == '\t' { seq!['\\', 't'] }
    else if (c as u32) < 0x20 {
        seq!['\\', 'u', '0', '0', hex_digit((c as u32) as int / 16), hex_digit((c as u32) as int % 16)]
    }
    else { seq![c] }
}

/// How a whole character sequence is written inside a JSON string.
pub open spec fn escaped(s: Seq<char>) -> Seq<char>
    decreases s.len(),
{
    if s.len() == 0 {
        Seq::<char>::empty()
    } else {
        escaped_char(s[0]) + escaped(s.skip(1))
    }
}

/// A JSON string literal: the escaped text between quotes.
pub open spec fn json_string(s: Seq<char>) -> Seq<char> {
    "\""@ + escaped(s) + "\""@
}

/// The comma-separated items of a message array, without the brackets.
pub open spec fn messages_json_items(ms: Seq<Message>) -> Seq<char>
    decreases ms.len(),
{
    if ms.len() == 0 {
        Seq::<char>::empty()
    } else if ms.len() == 1 {
        json_string(ms[0].text@)
    } else {
        messages_json_items(ms.drop_last()) + ","@ + json_string(ms.last().text@)
    }
}

/// A message list as a JSON array of strings. An empty list is `[]`,
/// never `null`.
pub open spec fn messages_json(ms: Seq<Message>) -> Seq<char> {
    "["@ + messages_json_items(ms) + "]"@
}

/// The `io_error` field: the error text as a JSON string, or `null`.
pub open spec fn io_error_json(e: Option<String>) -> Seq<char> {
    match e {
        Option::None => "null"@,
        Option::Some(err) => json_string(err@),
    }
}

/// The whole response object.
pub open spec fn output_json(out: CheckerOutput) -> Seq<char> {
    "{\"io_error\":"@ + io_error_json(out.io_error)
        + ",\"meet_messages\":"@ + messages_json(out.meet_messages@)
        + ",\"entries_messages\":"@ + messages_json(out.entries_messages@)
        + "}"@
}

/// Escaping distributes over appending one character at the end.
proof fn lemma_escaped_push(s: Seq<char>, c: char)
    ensures
        escaped(s.push(c)) == escaped(s) + escaped_char(c),
    decreases s.len(),
{
    let p = s.push(c);
    assert(p.len() == s.len() + 1);
    if s.len() == 0 {
        assert(p[0] == c);
        assert(p.skip(1) =~= Seq::<char>::empty());
        assert(escaped(p) == escaped_char(c) + escaped(Seq::<char>::empty()));
        assert(escaped(p) =~= escaped(s) + escaped_char(c));
    } else {
        assert(p[0] == s[0]);
        assert(p.skip(1) =~= s.skip(1).push(c));
        lemma_escaped_push(s.skip(1), c);
        assert(escaped(p) == escaped_char(s[0]) + (escaped(s.skip(1)) + escaped_char(c)));
        assert(escaped(p) =~= escaped(s) + escaped_char(c));
    }
}

/// The lower-case hexadecimal digit for a value below sixteen, as a string.
fn hex_digit_str(n: u8) -> (r: &'static str)
    requires
        n < 16,
    ensures
        r@ == seq![hex_digit(n as int)],
{
    proof {
        reveal_strlit("0");
        reveal_strlit("1");
        reveal_strlit("2");
        reveal_strlit("3");
        reveal_strlit("4");
        reveal_strlit("5");
        reveal_strlit("6");
        reveal_strlit("7");
        reveal_strlit("8");
        reveal_strlit("9");
        reveal_strlit("a");
        reveal_strlit("b");
        reveal_strlit("c");
        reveal_strlit("d");
        reveal_strlit("e");
        reveal_strlit("f");
    }
    let r: &'static str = if n == 0 { "0" }
    else if n == 1 { "1" }
    else if n == 2 { "2" }
    else if n == 3 { "3" }
    else if n == 4 { "4" }
    else if n == 5 { "5" }
    else if n == 6 { "6" }
    else if n == 7 { "7" }
    else if n == 8 { "8" }
    else if n == 9 { "9" }
    else if n == 10 { "a" }
    else if n == 11 { "b" }
    else if n == 12 { "c" }
    else if n == 13 { "d" }
    else if n == 14 { "e" }
    else { "f" };
    proof {
        assert(r@ =~= seq![hex_digit(n as int)]);
    }
    r
}

/// Appends the escaped form of `s` to `out`.
fn append_escaped(out: &mut String, s: &str)
    ensures
        final(out)@ == old(out)@ + escaped(s@),
{
    let ghost orig: Seq<char> = out@;
    let len: usize = s.unicode_len();
    let mut i: usize = 0;
    while i < len
        invariant
            len == s@.len(),
            i <= len,
            out@ == orig + escaped(s@.take(i as int)),
        decreases len - i,
    {
        let c = s.get_char(i);
        proof {
            lemma_escaped_push(s@.take(i as int), c);
            assert(s@.take(i as int).push(c) =~= s@.take(i as int + 1));
        }
        if c == '"' {
            out.append("\\\"");
            proof {
                reveal_strlit("\\\"");
                assert("\\\""@ =~= escaped_char(c));
            }
        } else if c == '\\' {
            out.append("\\\\");
            proof {
                reveal_strlit("\\\\");
                assert("\\\\"@ =~= escaped_char(c));
            }
        } else if c == '\u{8}' {
            out.append("\\b");
            proof {
                reveal_strlit("\\b");
                assert("\\b"@ =~= escaped_char(c));
            }
        } else if c == '\u{c}' {
            out.append("\\f");
            proof {
                reveal_strlit("\\f");
                assert("\\f"@ =~= escaped_char(c));
            }
        } else if c == '\n' {
            out.append("\\n");
            proof {
                reveal_strlit("\\n");
                assert("\\n"@ =~= escaped_char(c));
            }
        } else if c == '\r' {
            out.append("\\r");
            proof {
                reveal_strlit("\\r");
                assert("\\r"@ =~= escaped_char(c));
            }
        } else if c == '\t' {
            out.append("\\t");
            proof {
                reveal_strlit("\\t");
                assert("\\t"@ =~= escaped_char(c));
            }
        } else if (c as u32) < 0x20 {
            let v: u32 = c as u32;
            out.append("\\u00");
            out.append(hex_digit_str((v / 16) as u8));
            out.append(hex_digit_str((v % 16) as u8));
            proof {
                reveal_strlit("\\u00");
                assert("\\u00"@ + seq![hex_digit(v as int / 16)] + seq![hex_digit(v as int % 16)]
                    =~= escaped_char(c));
            }
        } else {
            let piece = s.substring_char(i, i + 1);
            proof {
                assert(piece@ =~= seq![s@[i as int]]);
                assert(piece@ =~= escaped_char(c));
            }
            out.append(piece);
        }
        i = i + 1;
    }
    proof {
        assert(s@.take(len as int) =~= s@);
    }
}

/// Appends `s` as a JSON string literal to `out`.
fn append_json_string(out: &mut String, s: &str)
    ensures
        final(out)@ == old(out)@ + json_string(s@),
{
    out.append("\"");
    append_escaped(out, s);
    out.append("\"");
    proof {
        assert(final(out)@ =~= old(out)@ + json_string(s@));
    }
}

/// Appends a message list as a JSON array of strings to `out`.
fn append_messages(out: &mut String, ms: &Vec<Message>)
    ensures
        final(out)@ == old(out)@ + messages_json(ms@),
{
    let ghost orig: Seq<char> = out@;
    out.append("[");
    let mut i: usize = 0;
    while i < ms.len()
        invariant
            i <= ms@.len(),
            out@ == orig + "["@ + messages_json_items(ms@.take(i as int)),
        decreases ms@.len() - i,
    {
        if i > 0 {
            out.append(",");
        }
        append_json_string(out, ms[i].text.as_str());
        proof {
            assert(ms@.take(i as int + 1).drop_last() =~= ms@.take(i as int));
            assert(ms@.take(i as int + 1).last() == ms@[i as int]);
            assert(out@ =~= orig + "["@ + messages_json_items(ms@.take(i as int + 1)));
        }
        i = i + 1;
    }
    out.append("]");
    proof {
        assert(ms@.take(ms@.len() as int) =~= ms@);
        assert(final(out)@ =~= old(out)@ + messages_json(ms@));
    }
}

impl CheckerOutput {
    /// Renders the output as the JSON object the client expects. The shape
    /// is total: a default output renders with `io_error` as `null` and both
    /// message lists as empty arrays.
    pub fn to_json(&self) -> (r: String)
        ensures
            r@ == output_json(*self),
    {
        let mut out = String::new();
        out.append("{\"io_error\":");
        match &self.io_error {
            Option::None => out.append("null"),
            Option::Some(err) => append_json_string(&mut out, err.as_str()),
        }
        out.append(",\"meet_messages\":");
        append_messages(&mut out, &self.meet_messages);
        out.append(",\"entries_messages\":");
        append_messages(&mut out, &self.entries_messages);
        out.append("}");
        proof {
            assert(out@ =~= output_json(*self));
        }
        out
    }
}

} // verus!
