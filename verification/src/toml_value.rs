//! TOML literals for `codex -c key=value` overrides, written as JSON strings
//! (a JSON string is also a valid TOML basic string).
use vstd::prelude::*;

use crate::text::{digit_char, is_plain, join};

verus! {

/// The lower-case hexadecimal digit for `d < 16`.
pub open spec fn hex_char(d: nat) -> char {
    if d < 10 {
        digit_char(d)
    } else {
        ((d - 10 + 97) as u32) as char
    }
}

/// How `serde_json` writes one character inside a string literal: `"` and `\`
/// and the control characters below U+0020 are escaped, everything else is kept.
pub open spec fn json_escape(c: char) -> Seq<char> {
    let u = c as u32;
    if c == '"' {
        seq!['\\', '"']
    } else if c == '\\' {
        seq!['\\', '\\']
    } else if u == 0x08 {
        seq!['\\', 'b']
    } else if u == 0x09 {
        seq!['\\', 't']
    } else if u == 0x0a {
        seq!['\\', 'n']
    } else if u == 0x0c {
        seq!['\\', 'f']
    } else if u == 0x0d {
        seq!['\\', 'r']
    } else if u < 0x20 {
        seq!['\\', 'u', '0', '0', hex_char((u / 16) as nat), hex_char((u % 16) as nat)]
    } else {
        seq![c]
    }
}

/// The escaped characters of `s`, in order.
pub open spec fn json_escape_all(s: Seq<char>) -> Seq<char>
    decreases s.len(),
{
    if s.len() == 0 {
        Seq::empty()
    } else {
        json_escape_all(s.drop_last()) + json_escape(s.last())
    }
}

/// The JSON string literal of `s`.
pub open spec fn json_string(s: Seq<char>) -> Seq<char> {
    seq!['"'] + json_escape_all(s) + seq!['"']
}

/// The compact JSON array of string literals of `items`.
pub open spec fn json_string_array(items: Seq<Seq<char>>) -> Seq<char> {
    seq!['['] + join(items.map_values(|s: Seq<char>| json_string(s)), seq![',']) + seq![']']
}

/// Calls `serde_json::to_string` on a string slice. `serde_json` writes the
/// characters between double quotes and escapes them as `json_escape` states
/// (its `format_escaped_str`); serializing a `str` cannot fail.
#[verifier::external_body]
pub fn string(value: &str) -> (r: String)
    ensures
        r@ == json_string(value@),
{
    serde_json::to_string(value).expect("serializing a string cannot fail")
}

/// Calls `serde_json::to_string` on a slice of string slices: the compact
/// formatter writes `[`, the elements separated by `,`, and `]`.
#[verifier::external_body]
pub fn string_array(values: &[&str]) -> (r: String)
    ensures
        r@ == json_string_array(values@.map_values(|s: &str| s@)),
{
    serde_json::to_string(values).expect("serializing string array cannot fail")
}

/// A string of plain characters is written as itself between double quotes.
pub proof fn lemma_json_string_plain(s: Seq<char>)
    requires
        is_plain(s),
    ensures
        json_string(s) == seq!['"'] + s + seq!['"'],
    decreases s.len(),
{
    lemma_json_escape_all_plain(s);
}

proof fn lemma_json_escape_all_plain(s: Seq<char>)
    requires
        is_plain(s),
    ensures
        json_escape_all(s) == s,
    decreases s.len(),
{
    if s.len() > 0 {
        let p = s.drop_last();
        assert(is_plain(p)) by {
            assert forall|i: int| 0 <= i < p.len() implies #[trigger] crate::text::is_plain_char(p[i]) by {
                assert(p[i] == s[i]);
            }
        }
        lemma_json_escape_all_plain(p);
        let c = s.last();
        assert(crate::text::is_plain_char(s[s.len() - 1]));
        assert(json_escape(c) == seq![c]);
        assert(p.push(c) == s);
        assert(p + seq![c] == s);
    }
}

} // verus!
