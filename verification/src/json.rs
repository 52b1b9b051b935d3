use vstd::prelude::*;

verus! {

/// Lower-case hexadecimal digit of `d`, for `d` from 0 to 15.
pub open spec fn hex_digit(d: int) -> char {
    if d < 10 {
        (d + 48) as char
    } else {
        (d + 87) as char
    }
}

/// How `serde_json` writes one character inside a string: the double quote and the
/// backslash behind a backslash; backspace, tab, line feed, form feed and carriage return
/// as `\b`, `\t`, `\n`, `\f`, `\r`; the other characters below U+0020 as `\u00` and
/// two lower-case hexadecimal digits; every other character as it is.
pub open spec fn json_escape_char(c: char) -> Seq<char> {
    if c == '"' {
        seq!['\\', '"']
    } else if c == '\\' {
        seq!['\\', '\\']
    } else if c == '\u{8}' {
        seq!['\\', 'b']
    } else if c == '\t' {
        seq!['\\', 't']
    } else if c == '\n' {
        seq!['\\', 'n']
    } else if c == '\u{c}' {
        seq!['\\', 'f']
    } else if c == '\r' {
        seq!['\\', 'r']
    } else if (c as int) < 0x20 {
        seq!['\\', 'u', '0', '0', hex_digit((c as int) / 16), hex_digit((c as int) % 16)]
    } else {
        seq![c]
    }
}

/// The characters of a string as `serde_json` writes them inside a JSON string.
pub open spec fn json_escape(s: Seq<char>) -> Seq<char>
    decreases s.len(),
{
    if s.len() == 0 {
        Seq::empty()
    } else {
        json_escape(s.drop_last()) + json_escape_char(s.last())
    }
}

/// The JSON text that `serde_json` writes for a string: the escaped string between
/// double quotes.
pub open spec fn json_quoted(s: Seq<char>) -> Seq<char> {
    seq!['"'] + json_escape(s) + seq!['"']
}

/// Calls `serde_json::to_string` on a string slice. The call cannot fail for a string
/// (serde_json writes into a vector, which never refuses bytes); the contract claims that
/// it writes the string as `json_quoted` states: between double quotes, with the escapes
/// of its escape table (`format_escaped_str` and `write_char_escape` in `ser.rs`).
#[verifier::external_body]
pub(crate) fn json_string(s: &str) -> (r: String)
    ensures
        r@ == json_quoted(s@),
{
    serde_json::to_string(s).unwrap_or_default()
}

/// Appends the JSON text of `value` to `out`.
pub(crate) fn push_quoted(out: &mut String, value: &str)
    ensures
        final(out)@ == old(out)@ + json_quoted(value@),
{
    let q = json_string(value);
    out.append(q.as_str());
}

/// Appends the JSON member `"key":value`, preceded by a comma unless it opens the object.
pub(crate) fn push_member(out: &mut String, lead: &str, value: &str)
    ensures
        final(out)@ == old(out)@ + lead@ + json_quoted(value@),
{
    out.append(lead);
    push_quoted(out, value);
}

/// JSON text of a page as the pages collection receives it.
pub open spec fn page_json(
    uuid: Seq<char>,
    signature: Seq<char>,
    title: Seq<char>,
    page_id: Seq<char>,
    last_modification_date: Seq<char>,
    creation_date: Seq<char>,
) -> Seq<char> {
    "{\"uuid\":"@ + json_quoted(uuid) + ",\"signature\":"@ + json_quoted(signature)
        + ",\"metadata\":{\"pageTitle\":"@ + json_quoted(title) + ",\"pageId\":"@ + json_quoted(
        page_id,
    ) + ",\"lastModificationDate\":"@ + json_quoted(last_modification_date)
        + ",\"creationDate\":"@ + json_quoted(creation_date) + "}}"@
}

/// JSON text of a visibility change.
pub open spec fn page_option_json(visibility: Seq<char>) -> Seq<char> {
    "{\"visibility\":"@ + json_quoted(visibility) + "}"@
}

/// JSON text of one contact; the name is left out when there is none.
pub open spec fn contact_json(email: Seq<char>, name: Option<Seq<char>>, permission: Seq<char>) -> Seq<char> {
    "{\"email\":"@ + json_quoted(email) + match name {
        Some(n) => ",\"name\":"@ + json_quoted(n),
        None => Seq::empty(),
    } + ",\"permission\":"@ + json_quoted(permission) + "}"@
}

/// JSON texts of `items` separated by commas.
pub open spec fn join_commas(items: Seq<Seq<char>>) -> Seq<char>
    decreases items.len(),
{
    if items.len() == 0 {
        Seq::empty()
    } else if items.len() == 1 {
        items[0]
    } else {
        join_commas(items.drop_last()) + ","@ + items.last()
    }
}

/// JSON text of a list of contacts with an optional message; the message is left out
/// when there is none.
pub open spec fn contact_payload_json(message: Option<Seq<char>>, contacts: Seq<Seq<char>>) -> Seq<char> {
    "{"@ + match message {
        Some(m) => "\"message\":"@ + json_quoted(m) + ","@,
        None => Seq::empty(),
    } + "\"contacts\":["@ + join_commas(contacts) + "]}"@
}

} // verus!
