//! Problem documents: the shape in which a failed command is reported
//! (type slug, title, exit status, detail, extensions and causes).
use vstd::prelude::*;

verus! {

/// A lowercase hexadecimal digit.
pub open spec fn hex_digit(d: int) -> char {
    if d < 10 {
        (48 + d) as char
    } else {
        (87 + d) as char
    }
}

/// How a character stands inside a JSON string: a quote, a backslash and
/// the controls below U+0020 are escaped (the five with a short form as
/// `\b`, `\t`, `\n`, `\f`, `\r`, the others as `\u00XX` in lowercase
/// hexadecimal); every other character stands for itself.
pub open spec fn json_escape_char(c: char) -> Seq<char> {
    if c == '"' {
        seq!['\\', '"']
    } else if c == '\\' {
        seq!['\\', '\\']
    } else if c == '\u{08}' {
        seq!['\\', 'b']
    } else if c == '\t' {
        seq!['\\', 't']
    } else if c == '\n' {
        seq!['\\', 'n']
    } else if c == '\u{0C}' {
        seq!['\\', 'f']
    } else if c == '\r' {
        seq!['\\', 'r']
    } else if (c as u32) < 0x20 {
        seq!['\\', 'u', '0', '0', hex_digit((c as int) / 16), hex_digit((c as int) % 16)]
    } else {
        seq![c]
    }
}

/// The escaped contents of a JSON string.
pub open spec fn json_escaped(s: Seq<char>) -> Seq<char>
    decreases s.len(),
{
    if s.len() == 0 {
        seq![]
    } else {
        json_escaped(s.drop_last()) + json_escape_char(s.last())
    }
}

/// The JSON string literal of a text: its escaped contents in quotes.
pub open spec fn json_string_text(s: Seq<char>) -> Seq<char> {
    seq!['"'] + json_escaped(s) + seq!['"']
}

/// Wraps `serde_json::to_string` on a string slice, which writes it quoted,
/// escaping quotes, backslashes and the control characters below U+0020 by
/// the table of `serde_json`'s serializer (writing to memory does not fail).
#[verifier::external_body]
pub(crate) fn json_string(s: &str) -> (r: String)
    ensures
        r@ == json_string_text(s@),
{
    match serde_json::to_string(s) {
        Ok(t) => t,
        Err(_) => String::new(),
    }
}

/// What reading a text as a JSON object gives: its members, each as the
/// key and the compact JSON text of the value, or nothing when the text is
/// not a JSON object.
pub uninterp spec fn json_object_parsed(raw: Seq<char>) -> Option<Seq<(Seq<char>, Seq<char>)>>;

/// The texts of a list of extension members.
pub open spec fn members_view(v: Seq<(String, String)>) -> Seq<(Seq<char>, Seq<char>)> {
    v.map_values(|m: (String, String)| (m.0@, m.1@))
}

/// Wraps `serde_json::from_str` into a JSON object map; each member's value
/// is handed back as its compact JSON text. The result depends on the text
/// alone.
#[verifier::external_body]
pub(crate) fn parse_json_object(raw: &str) -> (r: Option<Vec<(String, String)>>)
    ensures
        match json_object_parsed(raw@) {
            Some(m) => (r matches Some(v) && members_view(v@) == m),
            None => r is None,
        },
{
    match serde_json::from_str::<serde_json::Map<String, serde_json::Value>>(raw) {
        Ok(m) => Some(m.into_iter().map(|(k, v)| (k, v.to_string())).collect()),
        Err(_) => None,
    }
}

/// A failure as the command line reports it. Each extension member is a
/// key and the JSON text of its value.
#[derive(Debug, Clone)]
pub struct ProblemDetail {
    pub problem_type: String,
    pub title: String,
    pub status: u16,
    pub detail: String,
    pub extensions: Vec<(String, String)>,
    pub causes: Vec<String>,
}

/// The value of the first member named `key`, if any.
pub open spec fn member_value(m: Seq<(Seq<char>, Seq<char>)>, key: Seq<char>) -> Option<Seq<char>>
    decreases m.len(),
{
    if m.len() == 0 {
        None
    } else if m[0].0 == key {
        Some(m[0].1)
    } else {
        member_value(m.drop_first(), key)
    }
}

/// The one-line summary: the title, followed by the detail when there is
/// one.
pub open spec fn summary_text(title: Seq<char>, detail: Seq<char>) -> Seq<char> {
    if detail.len() == 0 {
        title
    } else {
        title + ": "@ + detail
    }
}

impl ProblemDetail {
    /// The title, and the detail after a colon when there is one.
    pub fn human_summary(&self) -> (r: String)
        ensures
            r@ == summary_text(self.title@, self.detail@),
    {
        if self.detail.unicode_len() == 0 {
            self.title.clone()
        } else {
            let mut s = self.title.clone();
            s.append(": ");
            s.append(self.detail.as_str());
            s
        }
    }

    /// The process exit code: the status, capped at 255.
    pub fn exit_code(&self) -> (r: i32)
        ensures
            r == if self.status <= 255 { self.status as int } else { 255 },
    {
        if self.status <= 255 {
            self.status as i32
        } else {
            255
        }
    }

    /// The JSON text of the extension member named `key`, if there is one.
    pub fn extension(&self, key: &str) -> (r: Option<String>)
        ensures
            match member_value(members_view(self.extensions@), key@) {
                Some(v) => (r matches Some(s) && s@ == v),
                None => r is None,
            },
    {
        let ghost m = members_view(self.extensions@);
        let mut i: usize = 0;
        assert(m.skip(0) =~= m);
        while i < self.extensions.len()
            invariant
                i <= self.extensions@.len(),
                m == members_view(self.extensions@),
                member_value(m, key@) == member_value(m.skip(i as int), key@),
            decreases self.extensions@.len() - i,
        {
            assert(m.skip(i as int).drop_first() =~= m.skip(i as int + 1));
            if crate::text::str_eq(self.extensions[i].0.as_str(), key) {
                return Some(self.extensions[i].1.clone());
            }
            i = i + 1;
        }
        assert(m.skip(i as int) =~= Seq::<(Seq<char>, Seq<char>)>::empty());
        None
    }
}

} // verus!
