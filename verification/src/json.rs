//! Framing of a session description as a JSON object.
//!
//! The control plane hands a worker the session description as the JSON text
//! `{"sdp":<string>,"type":<string>}`.  This module owns that frame: the
//! escaping rule for the two member strings — a backslash escape for the
//! quote, the backslash and the common control characters, a `\u00`-escape
//! for the remaining control characters, every other character verbatim —
//! and the exact layout of the object.

use vstd::prelude::*;

use crate::text;

verus! {

/// The lowercase hexadecimal digit character for a value below sixteen.
pub open spec fn spec_hex_char(n: int) -> char {
    if n == 0 {
        '0'
    } else if n == 1 {
        '1'
    } else if n == 2 {
        '2'
    } else if n == 3 {
        '3'
    } else if n == 4 {
        '4'
    } else if n == 5 {
        '5'
    } else if n == 6 {
        '6'
    } else if n == 7 {
        '7'
    } else if n == 8 {
        '8'
    } else if n == 9 {
        '9'
    } else if n == 10 {
        'a'
    } else if n == 11 {
        'b'
    } else if n == 12 {
        'c'
    } else if n == 13 {
        'd'
    } else if n == 14 {
        'e'
    } else {
        'f'
    }
}

/// How one character appears inside a JSON string: a two-character backslash
/// escape for the quote, the backslash, and the usual control shorthands; a
/// six-character `\u00`-escape for every other control character; the
/// character itself otherwise.
pub open spec fn spec_escape_char(c: char) -> Seq<char> {
    if c == '"' {
        "\\\""@
    } else if c == '\\' {
        "\\\\"@
    } else if c == '\n' {
        "\\n"@
    } else if c == '\r' {
        "\\r"@
    } else if c == '\t' {
        "\\t"@
    } else if c == '\u{8}' {
        "\\b"@
    } else if c == '\u{c}' {
        "\\f"@
    } else if (c as u32) < 0x20 {
        "\\u00"@ + seq![spec_hex_char(c as u32 as int / 16), spec_hex_char(c as u32 as int % 16)]
    } else {
        seq![c]
    }
}

/// The body of a JSON string: every character escaped in order.
pub open spec fn spec_escape(s: Seq<char>) -> Seq<char>
    decreases s.len(),
{
    if s.len() == 0 {
        Seq::empty()
    } else {
        spec_escape_char(s[0]) + spec_escape(s.subrange(1, s.len() as int))
    }
}

/// The JSON object `{"sdp":<sdp>,"type":<sdp_type>}` with both member
/// strings escaped.
pub open spec fn spec_offer_json(sdp: Seq<char>, sdp_type: Seq<char>) -> Seq<char> {
    "{\"sdp\":\""@ + spec_escape(sdp) + "\",\"type\":\""@ + spec_escape(sdp_type) + "\"}"@
}

/// Escaping distributes over appending one character.
proof fn lemma_escape_push(s: Seq<char>, c: char)
    ensures
        spec_escape(s.push(c)) == spec_escape(s) + spec_escape_char(c),
    decreases s.len(),
{
    if s.len() == 0 {
        let sc = s.push(c);
        assert(sc.len() == 1);
        assert(sc[0] == c);
        assert(sc.subrange(1, sc.len() as int) =~= Seq::<char>::empty());
        assert(spec_escape(sc.subrange(1, sc.len() as int)) == Seq::<char>::empty());
        assert(spec_escape(sc) == spec_escape_char(c) + Seq::<char>::empty());
        assert(spec_escape(s) == Seq::<char>::empty());
        assert(spec_escape(sc) =~= spec_escape(s) + spec_escape_char(c));
    } else {
        let t = s.subrange(1, s.len() as int);
        assert(s.push(c)[0] == s[0]);
        assert(s.push(c).subrange(1, s.push(c).len() as int) =~= t.push(c));
        lemma_escape_push(t, c);
        assert(spec_escape(s.push(c)) =~= spec_escape(s) + spec_escape_char(c));
    }
}

/// The lowercase hexadecimal digit for `n`.
fn hex_char(n: u32) -> (c: char)
    requires
        n < 16,
    ensures
        c == spec_hex_char(n as int),
{
    if n == 0 {
        '0'
    } else if n == 1 {
        '1'
    } else if n == 2 {
        '2'
    } else if n == 3 {
        '3'
    } else if n == 4 {
        '4'
    } else if n == 5 {
        '5'
    } else if n == 6 {
        '6'
    } else if n == 7 {
        '7'
    } else if n == 8 {
        '8'
    } else if n == 9 {
        '9'
    } else if n == 10 {
        'a'
    } else if n == 11 {
        'b'
    } else if n == 12 {
        'c'
    } else if n == 13 {
        'd'
    } else if n == 14 {
        'e'
    } else {
        'f'
    }
}

/// Appends the escaped form of one character.
fn append_escaped_char(out: &mut String, c: char)
    ensures
        final(out)@ == old(out)@ + spec_escape_char(c),
{
    if c == '"' {
        out.append("\\\"");
    } else if c == '\\' {
        out.append("\\\\");
    } else if c == '\n' {
        out.append("\\n");
    } else if c == '\r' {
        out.append("\\r");
    } else if c == '\t' {
        out.append("\\t");
    } else if c == '\u{8}' {
        out.append("\\b");
    } else if c == '\u{c}' {
        out.append("\\f");
    } else if (c as u32) < 0x20 {
        let cu = c as u32;
        out.append("\\u00");
        text::push_char(out, hex_char(cu / 16));
        text::push_char(out, hex_char(cu % 16));
        proof {
            assert(out@ =~= old(out)@ + spec_escape_char(c));
        }
    } else {
        text::push_char(out, c);
        proof {
            assert(out@ =~= old(out)@ + spec_escape_char(c));
        }
    }
}

/// Appends the escaped body of `s`.
fn append_escaped(out: &mut String, s: &str)
    ensures
        final(out)@ == old(out)@ + spec_escape(s@),
{
    let n = s.unicode_len();
    let mut i: usize = 0;
    while i < n
        invariant
            i <= n,
            n == s@.len(),
            out@ =~= old(out)@ + spec_escape(s@.subrange(0, i as int)),
        decreases n - i,
    {
        let c = s.get_char(i);
        append_escaped_char(out, c);
        proof {
            assert(s@.subrange(0, i + 1) =~= s@.subrange(0, i as int).push(c));
            lemma_escape_push(s@.subrange(0, i as int), c);
            assert(out@ =~= old(out)@ + spec_escape(s@.subrange(0, i + 1)));
        }
        i = i + 1;
    }
    proof {
        assert(s@.subrange(0, n as int) =~= s@);
        assert(out@ =~= old(out)@ + spec_escape(s@));
    }
}

/// Frames a session description and its type as the JSON object
/// `{"sdp":...,"type":...}`.
pub fn encode_offer_json(sdp: &str, sdp_type: &str) -> (r: String)
    ensures
        r@ == spec_offer_json(sdp@, sdp_type@),
{
    let mut out = String::from_str("{\"sdp\":\"");
    append_escaped(&mut out, sdp);
    out.append("\",\"type\":\"");
    append_escaped(&mut out, sdp_type);
    out.append("\"}");
    out
}

} // verus!
