//! The selection as the data directory keeps it: a JSON object with the chat that
//! is open.
use vstd::prelude::*;

use crate::wire::opt;

verus! {

/// The text under a name in a JSON object; none when the body is no such object,
/// the name is not in it, or something else than a text stands under it.
pub uninterp spec fn json_text(body: Seq<char>, name: Seq<char>) -> Option<Seq<char>>;

/// The JSON object that holds a text, or null, under a name and nothing else.
pub uninterp spec fn json_object(name: Seq<char>, text: Option<Seq<char>>) -> Seq<char>;

/// Whether the JSON text of that many characters fits in memory while it is
/// written: an escaped character takes up to six bytes, and memory is taken in
/// advance.
pub open spec fn fits_json(chars: nat) -> bool {
    12 * chars + 24 <= isize::MAX
}

/// How many characters an optional text has.
pub open spec fn opt_len(text: Option<Seq<char>>) -> nat {
    match text {
        Some(t) => t.len(),
        None => 0,
    }
}

/// `serde_json::from_str` to a `serde_json::Value`, then `Value::get` and
/// `Value::as_str`: the result depends on the body and the name alone. Why there
/// is no text is left out.
#[verifier::external_body]
fn text_in_json(body: &str, name: &str) -> (r: Option<String>)
    ensures
        opt(r) == json_text(body@, name@),
{
    let value: serde_json::Value = serde_json::from_str(body).ok()?;
    value.get(name)?.as_str().map(str::to_string)
}

/// `serde_json::Map::insert` into an empty map, and the text of the
/// `serde_json::Value` made of it: the result depends on the name and the text
/// alone, and reading it gives the text back.
#[verifier::external_body]
fn json_of_text(name: &str, text: &Option<String>) -> (s: String)
    requires
        fits_json(name@.len() + opt_len(opt(*text))),
    ensures
        s@ == json_object(name@, opt(*text)),
        json_text(s@, name@) == opt(*text),
{
    let mut object = serde_json::Map::new();
    object.insert(name.to_string(), serde_json::Value::from(text.clone()));
    serde_json::Value::Object(object).to_string()
}

/// The chat that a body says was open.
pub fn saved_chat(body: &str) -> (r: Option<String>)
    ensures
        opt(r) == json_text(body@, "selected_chat"@),
{
    text_in_json(body, "selected_chat")
}

/// The body that remembers the chat that is open. Reading it gives the chat back.
pub fn selection_body(selected: &Option<String>) -> (s: String)
    requires
        fits_json(13 + opt_len(opt(*selected))),
    ensures
        s@ == json_object("selected_chat"@, opt(*selected)),
        json_text(s@, "selected_chat"@) == opt(*selected),
{
    proof {
        reveal_strlit("selected_chat");
        assert("selected_chat"@.len() == 13);
    }
    json_of_text("selected_chat", selected)
}

}
