//! The computable side of the OpenAI text-generation client: building the
//! request body and reading the response body. The HTTP transport itself
//! lives outside the library and hands bodies in as plain values.

use vstd::prelude::*;
use crate::errors::generate_text_error::GenerateTextError;
use crate::generate_text::GenerateTextResponse;
use crate::json_value::{get_member, member_lookup, JSONValue};

verus! {

/// The request body of a text-generation call.
#[derive(Debug)]
pub struct OpenAiRequest {
    pub model: String,
    pub input: String,
}

impl OpenAiRequest {
    /// The request as a JSON object with its two members.
    pub fn to_json(&self) -> (r: JSONValue)
        ensures
            r.deep_view() == crate::json_value::JSONValueView::JSONObject(
                seq![
                    crate::json_value::JSONMemberView {
                        key: "model"@,
                        value: crate::json_value::JSONValueView::String(self.model@),
                    },
                    crate::json_value::JSONMemberView {
                        key: "input"@,
                        value: crate::json_value::JSONValueView::String(self.input@),
                    },
                ],
            ),
    {
        let mut entries: Vec<(String, JSONValue)> = Vec::new();
        entries.push(("model".to_owned(), JSONValue::String(self.model.clone())));
        entries.push(("input".to_owned(), JSONValue::String(self.input.clone())));
        let r = JSONValue::JSONObject(entries);
        proof {
            let m = r.deep_view()->JSONObject_0;
            assert(m.len() == 2);
            assert(entries@.len() == 2);
            assert(entries@[0].0@ == "model"@);
            assert(entries@[0].1.deep_view() == crate::json_value::JSONValueView::String(
                self.model@,
            ));
            assert(m[0].key == entries@[0].0@);
            assert(m[0].value == entries@[0].1.deep_view());
            assert(m[0] == (crate::json_value::JSONMemberView {
                key: "model"@,
                value: crate::json_value::JSONValueView::String(self.model@),
            }));
            assert(entries@[1].0@ == "input"@);
            assert(entries@[1].1.deep_view() == crate::json_value::JSONValueView::String(
                self.input@,
            ));
            assert(m[1] == (crate::json_value::JSONMemberView {
                key: "input"@,
                value: crate::json_value::JSONValueView::String(self.input@),
            }));
            assert(m =~= seq![
                crate::json_value::JSONMemberView {
                    key: "model"@,
                    value: crate::json_value::JSONValueView::String(self.model@),
                },
                crate::json_value::JSONMemberView {
                    key: "input"@,
                    value: crate::json_value::JSONValueView::String(self.input@),
                },
            ]);
        }
        r
    }
}

/// The error message inside an error response body: the string under
/// `error.message`, or "unknown error" where that path holds none.
pub open spec fn error_message_of(body: JSONValue) -> Seq<char> {
    match member_lookup(body, "error"@) {
        Some(error) => match member_lookup(error, "message"@) {
            Some(JSONValue::String(s)) => s@,
            _ => "unknown error"@,
        },
        _ => "unknown error"@,
    }
}

/// The text under a content part's `text` member, if it is a string.
pub open spec fn content_part_text(part: JSONValue) -> Seq<char> {
    match member_lookup(part, "text"@) {
        Some(JSONValue::String(s)) => s@,
        _ => Seq::empty(),
    }
}

/// The concatenated texts of one output item's `content` array.
pub open spec fn output_item_text(item: JSONValue) -> Seq<char> {
    match member_lookup(item, "content"@) {
        Some(JSONValue::JSONArray(parts)) => content_parts_text(parts, 0),
        _ => Seq::empty(),
    }
}

/// The concatenated texts of the content parts from index `i` on.
pub open spec fn content_parts_text(parts: Vec<JSONValue>, i: int) -> Seq<char>
    decreases parts.len() - i,
{
    if i < 0 || i >= parts.len() {
        Seq::empty()
    } else {
        content_part_text(parts[i]) + content_parts_text(parts, i + 1)
    }
}

/// The concatenated texts of the output items from index `i` on.
pub open spec fn output_items_text(items: Vec<JSONValue>, i: int) -> Seq<char>
    decreases items.len() - i,
{
    if i < 0 || i >= items.len() {
        Seq::empty()
    } else {
        output_item_text(items[i]) + output_items_text(items, i + 1)
    }
}

/// The generated text inside a success response body: the concatenated
/// `text` members of every content part of every item under
/// `output.output`; empty where that path holds no array.
pub open spec fn output_text_of(body: JSONValue) -> Seq<char> {
    match member_lookup(body, "output"@) {
        Some(outer) => match member_lookup(outer, "output"@) {
            Some(JSONValue::JSONArray(items)) => output_items_text(items, 0),
            _ => Seq::empty(),
        },
        _ => Seq::empty(),
    }
}

/// Appends the concatenated texts of one output item's content parts.
#[verifier::loop_isolation(false)]
fn append_output_item_text(out: &mut String, item: &JSONValue)
    ensures
        final(out)@ == old(out)@ + output_item_text(*item),
{
    let parts = match get_member(item, &"content".to_owned()) {
        Some(JSONValue::JSONArray(parts)) => parts,
        _ => {
            return ;
        },
    };
    let ghost entry = out@;
    let mut i: usize = 0;
    while i < parts.len()
        invariant
            i <= parts.len(),
            entry + content_parts_text(*parts, 0) == out@ + content_parts_text(*parts, i as int),
        decreases parts.len() - i,
    {
        let ghost before = out@;
        match get_member(&parts[i], &"text".to_owned()) {
            Some(JSONValue::String(s)) => {
                out.append(s.as_str());
            },
            _ => {},
        }
        proof {
            assert(before + (content_part_text(parts@[i as int]) + content_parts_text(
                *parts,
                i as int + 1,
            )) =~= out@ + content_parts_text(*parts, i as int + 1));
        }
        i = i + 1;
    }
    proof {
        assert(content_parts_text(*parts, parts@.len() as int) =~= Seq::<char>::empty());
        assert(out@ =~= entry + output_item_text(*item));
    }
}

/// Extracts the generated text from a success response body.
#[verifier::loop_isolation(false)]
pub fn extract_output_text(body: &JSONValue) -> (r: String)
    ensures
        r@ == output_text_of(*body),
{
    let outer = match get_member(body, &"output".to_owned()) {
        Some(outer) => outer,
        None => {
            return String::new();
        },
    };
    let items = match get_member(outer, &"output".to_owned()) {
        Some(JSONValue::JSONArray(items)) => items,
        _ => {
            return String::new();
        },
    };
    let mut out = String::new();
    let mut i: usize = 0;
    while i < items.len()
        invariant
            i <= items.len(),
            output_items_text(*items, 0) == out@ + output_items_text(*items, i as int),
        decreases items.len() - i,
    {
        let ghost before = out@;
        append_output_item_text(&mut out, &items[i]);
        proof {
            assert(before + (output_item_text(items@[i as int]) + output_items_text(
                *items,
                i as int + 1,
            )) =~= out@ + output_items_text(*items, i as int + 1));
        }
        i = i + 1;
    }
    proof {
        assert(output_items_text(*items, items@.len() as int) =~= Seq::<char>::empty());
        assert(out@ =~= output_text_of(*body));
    }
    out
}

/// Extracts the error message from an error response body.
pub fn extract_error_message(body: &JSONValue) -> (r: String)
    ensures
        r@ == error_message_of(*body),
{
    match get_member(body, &"error".to_owned()) {
        Some(error) => match get_member(error, &"message".to_owned()) {
            Some(JSONValue::String(s)) => s.clone(),
            _ => "unknown error".to_owned(),
        },
        None => "unknown error".to_owned(),
    }
}

/// Whether an HTTP status code reports success.
pub open spec fn is_success_status(code: u16) -> bool {
    200 <= code < 300
}

/// Turns a text-generation response body into the generated text, or into
/// the API's error. A status outside the success range yields the error
/// under `error.message` (or "unknown error"); a success status yields the
/// concatenated output text, empty when the body carries none.
pub fn parse_generate_text_response(status_code: u16, body: &JSONValue) -> (r: Result<
    GenerateTextResponse,
    GenerateTextError,
>)
    ensures
        is_success_status(status_code) ==> match r {
            Ok(resp) => resp.text@ == output_text_of(*body),
            Err(_) => false,
        },
        !is_success_status(status_code) ==> match r {
            Ok(_) => false,
            Err(e) => e matches GenerateTextError::Api { status_code: c, message } && c
                == status_code && message@ == error_message_of(*body),
        },
{
    if 200 <= status_code && status_code < 300 {
        let text = extract_output_text(body);
        Ok(GenerateTextResponse { text })
    } else {
        let message = extract_error_message(body);
        Err(GenerateTextError::Api { status_code, message })
    }
}

} // verus!
