//! The JSON lines the multiplexer writes to the programs it talks to.

use vstd::prelude::*;

verus! {

/// The lowercase hexadecimal digit of `d` (below 16).
pub open spec fn hex_digit(d: nat) -> char {
    if d < 10 {
        (('0' as nat) + d) as char
    } else {
        (('a' as nat) + d - 10) as char
    }
}

/// How JSON writes character `c` inside a string: the quote and the backslash behind a
/// backslash; backspace, tab, line feed, form feed and carriage return as `\b`, `\t`, `\n`,
/// `\f`, `\r`; any other control character below U+0020 as `\u00` and two lowercase hex
/// digits; everything else as itself.
pub open spec fn json_char(c: char) -> Seq<char> {
    let n = c as u32;
    if c == '"' {
        seq!['\\', '"']
    } else if c == '\\' {
        seq!['\\', '\\']
    } else if n == 0x08 {
        seq!['\\', 'b']
    } else if n == 0x09 {
        seq!['\\', 't']
    } else if n == 0x0a {
        seq!['\\', 'n']
    } else if n == 0x0c {
        seq!['\\', 'f']
    } else if n == 0x0d {
        seq!['\\', 'r']
    } else if n < 0x20 {
        seq!['\\', 'u', '0', '0', hex_digit((n / 16) as nat), hex_digit((n % 16) as nat)]
    } else {
        seq![c]
    }
}

/// The characters of `s`, each written as JSON writes it inside a string.
pub open spec fn json_escaped(s: Seq<char>) -> Seq<char>
    decreases s.len(),
{
    if s.len() == 0 {
        Seq::empty()
    } else {
        json_escaped(s.drop_last()) + json_char(s.last())
    }
}

/// `s` written as a JSON string literal: between two quotes, each character escaped as
/// [`json_char`] says.
pub open spec fn json_string(s: Seq<char>) -> Seq<char> {
    seq!['"'] + json_escaped(s) + seq!['"']
}

/// `s` holds no character JSON escapes: no quote, no backslash, no control character.
pub open spec fn plain_json_text(s: Seq<char>) -> bool {
    forall|i: int| 0 <= i < s.len() ==> #[trigger] s[i] != '"' && s[i] != '\\' && (s[i] as u32) >= 0x20
}

proof fn lemma_plain_text_escapes_to_itself(s: Seq<char>)
    requires
        plain_json_text(s),
    ensures
        json_escaped(s) == s,
    decreases s.len(),
{
    if s.len() > 0 {
        let rest = s.drop_last();
        assert(plain_json_text(rest)) by {
            assert forall|i: int| 0 <= i < rest.len() implies #[trigger] rest[i] != '"' && rest[i] != '\\'
                && (rest[i] as u32) >= 0x20 by {
                assert(rest[i] == s[i]);
            }
        }
        lemma_plain_text_escapes_to_itself(rest);
        let c = s[s.len() - 1];
        assert(c != '"' && c != '\\' && (c as u32) >= 0x20);
        assert(json_char(c) == seq![c]);
        assert(json_escaped(s) =~= s);
    }
}

/// Text without a character JSON escapes comes back between two quotes unchanged.
pub proof fn lemma_plain_text_is_quoted_as_is(s: Seq<char>)
    requires
        plain_json_text(s),
    ensures
        json_string(s) == seq!['"'] + s + seq!['"'],
{
    lemma_plain_text_escapes_to_itself(s);
}

/// `serde_json::to_string` on a string slice: the quoted, escaped JSON literal. Serializing a
/// string into memory cannot fail; serde_json escapes the quote, the backslash and every
/// character below U+0020 (the five with short forms by them, the rest as `\u00` and two
/// lowercase hex digits), and writes everything else as it is.
#[verifier::external_body]
pub(crate) fn json_quote(s: &str) -> (r: String)
    ensures
        r@ == json_string(s@),
{
    match serde_json::to_string(s) {
        Ok(text) => text,
        Err(_) => String::new(),
    }
}

/// The line asking a publisher to bring row `id` on screen: `{"activate":<id>}` and a newline.
pub open spec fn activation_line(id: Seq<char>) -> Seq<char> {
    "{\"activate\":"@ + json_string(id) + "}\n"@
}

/// The line asking a publisher to bring row (or slot) `id` on screen.
pub fn activation_request(id: &str) -> (r: String)
    ensures
        r@ == activation_line(id@),
{
    let mut line = String::from_str("{\"activate\":");
    let quoted = json_quote(id);
    line.append(quoted.as_str());
    line.append("}\n");
    line
}

} // verus!
