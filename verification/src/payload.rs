//! The JSON payload announcing that a datasource finished embedding: an
//! object with the single field `datasourceId` holding the identifier.

use vstd::prelude::*;
use crate::digits::digit_char;
use crate::digits::push_char;

verus! {

/// The character for a single hexadecimal digit, lower case.
pub open spec fn hex_char(d: nat) -> char
    recommends
        d < 16,
{
    if d < 10 {
        digit_char(d)
    } else if d == 10 {
        'a'
    } else if d == 11 {
        'b'
    } else if d == 12 {
        'c'
    } else if d == 13 {
        'd'
    } else if d == 14 {
        'e'
    } else {
        'f'
    }
}

/// Whether a character may stand in a JSON string literal as it is, without
/// an escape: everything but the quote, the backslash and the control
/// characters.
pub open spec fn is_plain_json_char(c: char) -> bool {
    c != '"' && c != '\\' && (c as u32) >= 0x20
}

/// How one character is written inside a JSON string literal: the
/// two-character escapes of the JSON grammar, a `\u00XX` escape for the
/// remaining control characters, and the character itself otherwise.
pub open spec fn json_escape_char(c: char) -> Seq<char> {
    if c == '"' {
        seq!['\\', '"']
    } else if c == '\\' {
        seq!['\\', '\\']
    } else if c == '\u{8}' {
        seq!['\\', 'b']
    } else if c == '\t' {
        seq!['\\', 't']
    } else if c == '\n' {
        seq!['\\', 'n']
    } else if c == '\u{c}' {
        seq!['\\', 'f']
    } else if c == '\r' {
        seq!['\\', 'r']
    } else if (c as u32) < 0x20 {
        seq!['\\', 'u', '0', '0', hex_char((c as u32 / 16) as nat), hex_char((c as u32 % 16) as nat)]
    } else {
        seq![c]
    }
}

/// A string written as the contents of a JSON string literal, character by
/// character.
pub open spec fn json_escape(s: Seq<char>) -> Seq<char>
    decreases s.len(),
{
    if s.len() == 0 {
        Seq::empty()
    } else {
        json_escape(s.drop_last()) + json_escape_char(s.last())
    }
}

fn hex_to_char(d: u32) -> (c: char)
    requires
        d < 16,
    ensures
        c == hex_char(d as nat),
{
    if d == 0 {
        '0'
    } else if d == 1 {
        '1'
    } else if d == 2 {
        '2'
    } else if d == 3 {
        '3'
    } else if d == 4 {
        '4'
    } else if d == 5 {
        '5'
    } else if d == 6 {
        '6'
    } else if d == 7 {
        '7'
    } else if d == 8 {
        '8'
    } else if d == 9 {
        '9'
    } else if d == 10 {
        'a'
    } else if d == 11 {
        'b'
    } else if d == 12 {
        'c'
    } else if d == 13 {
        'd'
    } else if d == 14 {
        'e'
    } else {
        'f'
    }
}

fn push_escaped(s: &mut String, c: char)
    ensures
        final(s)@ == old(s)@ + json_escape_char(c),
{
    if c == '"' {
        push_char(s, '\\');
        push_char(s, '"');
        assert(final(s)@ =~= old(s)@ + json_escape_char(c));
    } else if c == '\\' {
        push_char(s, '\\');
        push_char(s, '\\');
        assert(final(s)@ =~= old(s)@ + json_escape_char(c));
    } else if c == '\u{8}' {
        push_char(s, '\\');
        push_char(s, 'b');
        assert(final(s)@ =~= old(s)@ + json_escape_char(c));
    } else if c == '\t' {
        push_char(s, '\\');
        push_char(s, 't');
        assert(final(s)@ =~= old(s)@ + json_escape_char(c));
    } else if c == '\n' {
        push_char(s, '\\');
        push_char(s, 'n');
        assert(final(s)@ =~= old(s)@ + json_escape_char(c));
    } else if c == '\u{c}' {
        push_char(s, '\\');
        push_char(s, 'f');
        assert(final(s)@ =~= old(s)@ + json_escape_char(c));
    } else if c == '\r' {
        push_char(s, '\\');
        push_char(s, 'r');
        assert(final(s)@ =~= old(s)@ + json_escape_char(c));
    } else if (c as u32) < 0x20 {
        let code = c as u32;
        push_char(s, '\\');
        push_char(s, 'u');
        push_char(s, '0');
        push_char(s, '0');
        push_char(s, hex_to_char(code / 16));
        push_char(s, hex_to_char(code % 16));
        assert(final(s)@ =~= old(s)@ + json_escape_char(c));
    } else {
        push_char(s, c);
        assert(final(s)@ =~= old(s)@ + json_escape_char(c));
    }
}

/// Writes a string as the contents of a JSON string literal.
pub fn json_escape_string(s: &str) -> (r: String)
    ensures
        r@ == json_escape(s@),
{
    let n = s.unicode_len();
    let mut out = String::new();
    let mut i: usize = 0;
    while i < n
        invariant
            n == s@.len(),
            i <= n,
            out@ == json_escape(s@.subrange(0, i as int)),
        decreases n - i,
    {
        let c = s.get_char(i);
        push_escaped(&mut out, c);
        i = i + 1;
        proof {
            let prefix = s@.subrange(0, i as int);
            assert(prefix.drop_last() =~= s@.subrange(0, i - 1));
            assert(prefix.last() == c);
        }
    }
    proof {
        assert(s@.subrange(0, n as int) =~= s@);
    }
    out
}

/// The serialized notification payload for a datasource identifier.
pub open spec fn embed_ready_body_spec(id: Seq<char>) -> Seq<char> {
    "{\"datasourceId\": \""@ + json_escape(id) + "\"}"@
}

/// Serializes the notification payload: a JSON object whose single field
/// `datasourceId` holds the given identifier.
pub fn embed_ready_body(datasource_id: &str) -> (r: String)
    ensures
        r@ == embed_ready_body_spec(datasource_id@),
{
    let mut r = String::from_str("{\"datasourceId\": \"");
    let escaped = json_escape_string(datasource_id);
    r.append(escaped.as_str());
    r.append("\"}");
    proof {
        assert(r@ =~= embed_ready_body_spec(datasource_id@));
    }
    r
}

/// Whether every character of a string may stand in a JSON string literal
/// unescaped.
pub open spec fn all_plain(s: Seq<char>) -> bool {
    forall|i: int| 0 <= i < s.len() ==> is_plain_json_char(#[trigger] s[i])
}

/// A string of plain characters passes through the JSON escape unchanged.
pub proof fn lemma_escape_plain_identity(s: Seq<char>)
    requires
        all_plain(s),
    ensures
        json_escape(s) == s,
    decreases s.len(),
{
    if s.len() == 0 {
        assert(json_escape(s) =~= s);
    } else {
        assert(all_plain(s.drop_last())) by {
            assert(forall|i: int|
                0 <= i < s.drop_last().len() ==> s.drop_last()[i] == #[trigger] s[i]);
        }
        lemma_escape_plain_identity(s.drop_last());
        assert(is_plain_json_char(s[s.len() - 1]));
        assert(json_escape_char(s.last()) =~= seq![s.last()]);
        assert(json_escape(s) =~= s);
    }
}

/// For an identifier of plain characters the payload is exactly the object
/// with the one field `datasourceId` holding the identifier itself, and
/// nothing besides.
pub proof fn lemma_body_is_exact(id: Seq<char>)
    requires
        all_plain(id),
    ensures
        embed_ready_body_spec(id) == "{\"datasourceId\": \""@ + id + "\"}"@,
{
    lemma_escape_plain_identity(id);
}

/// Payloads for different identifiers differ: each call's body is scoped to
/// its own identifier.
pub proof fn lemma_distinct_ids_distinct_bodies(id1: Seq<char>, id2: Seq<char>)
    requires
        all_plain(id1),
        all_plain(id2),
        id1 != id2,
    ensures
        embed_ready_body_spec(id1) != embed_ready_body_spec(id2),
{
    lemma_body_is_exact(id1);
    lemma_body_is_exact(id2);
    let prefix = "{\"datasourceId\": \""@;
    let suffix = "\"}"@;
    let body1 = embed_ready_body_spec(id1);
    let body2 = embed_ready_body_spec(id2);
    if id1.len() != id2.len() {
        assert(body1.len() != body2.len());
    } else {
        assert(!(id1 =~= id2));
        let k = choose|k: int| 0 <= k < id1.len() && id1[k] != id2[k];
        assert(body1[prefix.len() + k] == id1[k]);
        assert(body2[prefix.len() + k] == id2[k]);
        assert(body1 != body2);
    }
}

} // verus!
