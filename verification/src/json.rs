//! A JSON document as the library reads and writes it.  Numbers keep what
//! the logic reads of them (unsigned or negative integers); fractions are
//! kept only as such.  Objects hold their members as `serde_json` gives
//! them back, which is sorted by key.
use vstd::prelude::*;
use vstd::string::StrSliceExecFns;

use crate::text::{decimal, push_char, push_decimal, push_str, str_equals};

verus! {

#[derive(Debug, Clone, Copy, PartialEq, Eq)]
pub enum JsonNumber {
    Unsigned(u64),
    Negative(i64),
    Fractional,
}

#[derive(Debug)]
pub enum JsonValue {
    Null,
    Bool(bool),
    Number(JsonNumber),
    Text(String),
    Array(Vec<JsonValue>),
    Object(Vec<(String, JsonValue)>),
}

/// The value of the first member named `key`.
pub open spec fn member(members: Seq<(String, JsonValue)>, key: Seq<char>) -> Option<JsonValue>
    decreases members.len(),
{
    if members.len() == 0 {
        None
    } else if members[0].0@ == key {
        Some(members[0].1)
    } else {
        member(members.drop_first(), key)
    }
}

impl JsonValue {
    /// `value.get(key)`: the member of an object, `None` for anything else.
    pub open spec fn spec_get(self, key: Seq<char>) -> Option<JsonValue> {
        match self {
            JsonValue::Object(members) => member(members@, key),
            _ => None,
        }
    }

    pub open spec fn spec_as_str(self) -> Option<Seq<char>> {
        match self {
            JsonValue::Text(s) => Some(s@),
            _ => None,
        }
    }

    pub open spec fn spec_as_u64(self) -> Option<u64> {
        match self {
            JsonValue::Number(JsonNumber::Unsigned(v)) => Some(v),
            _ => None,
        }
    }

    pub open spec fn spec_as_i64(self) -> Option<i64> {
        match self {
            JsonValue::Number(JsonNumber::Unsigned(v)) => if v <= i64::MAX as u64 {
                Some(v as i64)
            } else {
                None
            },
            JsonValue::Number(JsonNumber::Negative(v)) => Some(v),
            _ => None,
        }
    }

    pub open spec fn spec_as_bool(self) -> Option<bool> {
        match self {
            JsonValue::Bool(b) => Some(b),
            _ => None,
        }
    }

    pub fn get(&self, key: &str) -> (r: Option<&JsonValue>)
        ensures
            match self.spec_get(key@) {
                Some(v) => r is Some && *r->Some_0 == v,
                None => r is None,
            },
    {
        match self {
            JsonValue::Object(members) => {
                let mut i: usize = 0;
                assert(members@.skip(0) =~= members@);
                while i < members.len()
                    invariant
                        self.spec_get(key@) == member(members@, key@),
                        i <= members@.len(),
                        member(members@, key@) == member(members@.skip(i as int), key@),
                    decreases members.len() - i,
                {
                    assert(members@.skip(i as int).drop_first() =~= members@.skip(i + 1));
                    assert(members@.skip(i as int)[0] == members@[i as int]);
                    if str_equals(members[i].0.as_str(), key) {
                        assert(members@[i as int].0@ == key@);
                        return Some(&members[i].1);
                    }
                    i += 1;
                }
                None
            },
            _ => None,
        }
    }

    pub fn as_str(&self) -> (r: Option<&str>)
        ensures
            match self.spec_as_str() {
                Some(s) => r is Some && r->Some_0@ == s,
                None => r is None,
            },
    {
        match self {
            JsonValue::Text(s) => Some(s.as_str()),
            _ => None,
        }
    }

    pub fn as_u64(&self) -> (r: Option<u64>)
        ensures
            r == self.spec_as_u64(),
    {
        match self {
            JsonValue::Number(JsonNumber::Unsigned(v)) => Some(*v),
            _ => None,
        }
    }

    pub fn as_i64(&self) -> (r: Option<i64>)
        ensures
            r == self.spec_as_i64(),
    {
        match self {
            JsonValue::Number(JsonNumber::Unsigned(v)) => if *v <= 9223372036854775807u64 {
                Some(*v as i64)
            } else {
                None
            },
            JsonValue::Number(JsonNumber::Negative(v)) => Some(*v),
            _ => None,
        }
    }

    pub fn as_bool(&self) -> (r: Option<bool>)
        ensures
            r == self.spec_as_bool(),
    {
        match self {
            JsonValue::Bool(b) => Some(*b),
            _ => None,
        }
    }
}

/// The escaped form of one character inside a JSON string, as serde_json writes it.
pub open spec fn escape_char(c: char) -> Seq<char> {
    if c == '"' {
        seq!['\\', '"']
    } else if c == '\\' {
        seq!['\\', '\\']
    } else if c == '\n' {
        seq!['\\', 'n']
    } else if c == '\r' {
        seq!['\\', 'r']
    } else if c == '\t' {
        seq!['\\', 't']
    } else if c == '\u{8}' {
        seq!['\\', 'b']
    } else if c == '\u{c}' {
        seq!['\\', 'f']
    } else if (c as u32) < 0x20 {
        seq!['\\', 'u', '0', '0', crate::text::hex_digit((c as u32 / 16) as nat), crate::text::hex_digit(
            (c as u32 % 16) as nat,
        )].map_values(|x: char| crate::text::lower_hex(x))
    } else {
        seq![c]
    }
}

pub open spec fn escape_chars(s: Seq<char>) -> Seq<char>
    decreases s.len(),
{
    if s.len() == 0 {
        Seq::empty()
    } else {
        escape_chars(s.drop_last()) + escape_char(s.last())
    }
}

/// A JSON string literal for `s`, as `serde_json::to_string` writes one:
/// in quotes, with `"`, `\\` and the control characters escaped (the short
/// escapes where JSON has them, `\u00xx` with lower-case hex otherwise).
/// That is the whole of the behaviour, so the writer below is proved against
/// this statement rather than called through a wrapper.
pub open spec fn quoted(s: Seq<char>) -> Seq<char> {
    seq!['"'] + escape_chars(s) + seq!['"']
}

fn push_escaped_char(out: &mut String, c: char)
    ensures
        final(out)@ == old(out)@ + escape_char(c),
{
    if c == '"' {
        push_char(out, '\\');
        push_char(out, '"');
    } else if c == '\\' {
        push_char(out, '\\');
        push_char(out, '\\');
    } else if c == '\n' {
        push_char(out, '\\');
        push_char(out, 'n');
    } else if c == '\r' {
        push_char(out, '\\');
        push_char(out, 'r');
    } else if c == '\t' {
        push_char(out, '\\');
        push_char(out, 't');
    } else if c == '\u{8}' {
        push_char(out, '\\');
        push_char(out, 'b');
    } else if c == '\u{c}' {
        push_char(out, '\\');
        push_char(out, 'f');
    } else if (c as u32) < 0x20 {
        let v = c as u32;
        push_char(out, '\\');
        push_char(out, 'u');
        push_char(out, '0');
        push_char(out, '0');
        push_char(out, lower_hex_char((v / 16) as u8));
        push_char(out, lower_hex_char((v % 16) as u8));
        assert(seq!['\\', 'u', '0', '0', crate::text::hex_digit((v / 16) as nat), crate::text::hex_digit(
            (v % 16) as nat,
        )].map_values(|x: char| crate::text::lower_hex(x)) =~= seq!['\\', 'u', '0', '0', crate::text::lower_hex(crate::text::hex_digit((v / 16) as nat)), crate::text::lower_hex(crate::text::hex_digit((v % 16) as nat))]);
    } else {
        push_char(out, c);
    }
}

fn lower_hex_char(d: u8) -> (c: char)
    requires
        d < 16,
    ensures
        c == crate::text::lower_hex(crate::text::hex_digit(d as nat)),
{
    if d < 10 {
        ((48 + d) as u32) as u8 as char
    } else {
        ((87 + d) as u32) as u8 as char
    }
}

/// Appends `s` as a JSON string literal.
pub fn push_quoted(out: &mut String, s: &str)
    ensures
        final(out)@ == old(out)@ + quoted(s@),
{
    push_char(out, '"');
    let n = s.unicode_len();
    let ghost start = out@;
    let mut i: usize = 0;
    while i < n
        invariant
            n == s@.len(),
            i <= n,
            out@ == start + escape_chars(s@.take(i as int)),
        decreases n - i,
    {
        let c = s.get_char(i);
        assert(s@.take(i + 1).drop_last() =~= s@.take(i as int));
        push_escaped_char(out, c);
        assert(out@ =~= start + escape_chars(s@.take(i + 1)));
        i += 1;
    }
    assert(s@.take(n as int) =~= s@);
    push_char(out, '"');
}

#[verifier::external_type_specification]
#[verifier::external_body]
pub struct ExJsonDocument(serde_json::Value);

#[verifier::external_type_specification]
#[verifier::external_body]
pub struct ExJsonNumber(serde_json::Number);

/// The document `serde_json` reads from a text, when the text is JSON.
pub uninterp spec fn json_document(text: Seq<char>) -> Option<JsonValue>;

/// The message `serde_json` gives for a text that is not JSON.
pub uninterp spec fn json_error_text(text: Seq<char>) -> Seq<char>;

/// A `serde_json` number in the library's form: an unsigned or a negative
/// integer, or a fraction.
#[verifier::external_body]
fn number_of(number: &serde_json::Number) -> JsonNumber {
    match (number.as_u64(), number.as_i64()) {
        (Some(unsigned), _) => JsonNumber::Unsigned(unsigned),
        (None, Some(negative)) => JsonNumber::Negative(negative),
        (None, None) => JsonNumber::Fractional,
    }
}

/// A `serde_json` value in the library's form, variant for variant.
#[verifier::external_body]
fn document_of(value: &serde_json::Value) -> JsonValue {
    match value {
        serde_json::Value::Null => JsonValue::Null,
        serde_json::Value::Bool(flag) => JsonValue::Bool(*flag),
        serde_json::Value::Number(number) => JsonValue::Number(number_of(number)),
        serde_json::Value::String(text) => JsonValue::Text(text.clone()),
        serde_json::Value::Array(items) => JsonValue::Array(items.iter().map(document_of).collect()),
        serde_json::Value::Object(members) => JsonValue::Object(
            members.iter().map(|(key, member)| (key.clone(), document_of(member))).collect(),
        ),
    }
}

/// `serde_json::from_str::<serde_json::Value>`: the document a text holds,
/// or `serde_json`'s description of why it is not JSON.  Both are named:
/// they depend on the text alone.
#[verifier::external_body]
pub(crate) fn parse_json_text(text: &str) -> (r: Result<JsonValue, String>)
    ensures
        match json_document(text@) {
            Some(document) => r == Ok::<JsonValue, String>(document),
            None => r is Err && r->Err_0@ == json_error_text(text@),
        },
{
    match serde_json::from_str::<serde_json::Value>(text) {
        Ok(value) => Ok(document_of(&value)),
        Err(error) => Err(error.to_string()),
    }
}

/// Reads a JSON text: its document, or why it is not JSON.
pub fn read_json(text: &str) -> (r: Result<JsonValue, String>)
    ensures
        match json_document(text@) {
            Some(document) => r == Ok::<JsonValue, String>(document),
            None => r is Err && r->Err_0@ == json_error_text(text@),
        },
{
    parse_json_text(text)
}

} // verus!
