//! The crate's JSON boundary: the payload of a wire event is parsed by
//! serde_json into a `Value`, and verified code walks that value through
//! its accessors to extract the plain fields the parser state machine
//! consumes. The `Value` itself is opaque to verification; everything
//! downstream of the extracted fields is verified exactly.

use vstd::prelude::*;

use crate::items::ContentItem;
use crate::items::ResponseItem;
use crate::items::Role;
use crate::sse::CompletedInfo;
use crate::sse::ErrorPayload;
use crate::sse::ResponseCompletedUsage;
use crate::sse::SseFields;
use crate::sse::SseKind;
use crate::items::TokenUsage;
use crate::text::str_eq;

verus! {

/// Declares serde_json's JSON value so signatures can carry it; the
/// value stays opaque to verification.
#[verifier::external_type_specification]
#[verifier::external_body]
pub struct ExValue(serde_json::Value);

/// Relies on serde_json::from_slice::<Value>: parses one JSON document
/// from bytes, or nothing when the bytes are not valid JSON.
#[verifier::external_body]
fn json_parse(data: &Vec<u8>) -> (r: Option<serde_json::Value>) {
    serde_json::from_slice(data.as_slice()).ok()
}

/// Relies on serde_json::Value::get: indexes into an object or array.
pub assume_specification<'a, I: serde_json::value::Index>[ serde_json::Value::get::<I> ](
    v: &'a serde_json::Value,
    index: I,
) -> Option<&'a serde_json::Value>;

/// Relies on serde_json::Value::as_str: the string a value holds, if
/// it is one.
pub assume_specification<'a>[ serde_json::Value::as_str ](v: &'a serde_json::Value) -> Option<
    &'a str,
>;

/// Relies on serde_json::Value::as_i64: the integer a value holds, if
/// it is one that fits.
pub assume_specification[ serde_json::Value::as_i64 ](v: &serde_json::Value) -> Option<i64>;

/// Relies on serde_json::Value::is_null: whether the value is null.
pub assume_specification[ serde_json::Value::is_null ](v: &serde_json::Value) -> bool;

/// Relies on serde_json::Value::as_array: the elements a value holds,
/// if it is an array.
pub assume_specification<'a>[ serde_json::Value::as_array ](v: &'a serde_json::Value) -> Option<
    &'a Vec<serde_json::Value>,
>;

/// The wire kind a `type` field denotes; every unlisted kind is `Other`.
pub open spec fn spec_kind_of(s: Seq<char>) -> SseKind {
    if s == "response.created"@ {
        SseKind::Created
    } else if s == "response.output_item.added"@ {
        SseKind::OutputItemAdded
    } else if s == "response.output_item.done"@ {
        SseKind::OutputItemDone
    } else if s == "response.output_text.delta"@ {
        SseKind::OutputTextDelta
    } else if s == "response.reasoning_summary_text.delta"@ {
        SseKind::ReasoningSummaryTextDelta
    } else if s == "response.reasoning_summary_part.added"@ {
        SseKind::ReasoningSummaryPartAdded
    } else if s == "response.reasoning_text.delta"@ {
        SseKind::ReasoningTextDelta
    } else if s == "response.failed"@ {
        SseKind::Failed
    } else if s == "response.completed"@ {
        SseKind::Completed
    } else {
        SseKind::Other
    }
}

/// Classifies a `type` field.
pub fn parse_kind(s: &str) -> (r: SseKind)
    ensures
        r == spec_kind_of(s@),
{
    if str_eq(s, "response.created") {
        SseKind::Created
    } else if str_eq(s, "response.output_item.added") {
        SseKind::OutputItemAdded
    } else if str_eq(s, "response.output_item.done") {
        SseKind::OutputItemDone
    } else if str_eq(s, "response.output_text.delta") {
        SseKind::OutputTextDelta
    } else if str_eq(s, "response.reasoning_summary_text.delta") {
        SseKind::ReasoningSummaryTextDelta
    } else if str_eq(s, "response.reasoning_summary_part.added") {
        SseKind::ReasoningSummaryPartAdded
    } else if str_eq(s, "response.reasoning_text.delta") {
        SseKind::ReasoningTextDelta
    } else if str_eq(s, "response.failed") {
        SseKind::Failed
    } else if str_eq(s, "response.completed") {
        SseKind::Completed
    } else {
        SseKind::Other
    }
}

/// Reads a string field of an object.
fn get_string(v: &serde_json::Value, key: &str) -> Option<String> {
    match v.get(key) {
        Some(field) => match field.as_str() {
            Some(s) => Some(s.to_owned()),
            None => None,
        },
        None => None,
    }
}

/// Reads an integer field of an object.
fn get_i64(v: &serde_json::Value, key: &str) -> Option<i64> {
    match v.get(key) {
        Some(field) => field.as_i64(),
        None => None,
    }
}

/// Reads the role of a message: unknown roles read as system.
fn parse_role(v: &serde_json::Value) -> Role {
    match get_string(v, "role") {
        Some(role) => {
            if str_eq(role.as_str(), "assistant") {
                Role::Assistant
            } else if str_eq(role.as_str(), "user") {
                Role::User
            } else {
                Role::System
            }
        },
        None => Role::System,
    }
}

/// Reads the content chunks of a message item.
fn parse_content(v: &serde_json::Value) -> Vec<ContentItem> {
    let mut content: Vec<ContentItem> = Vec::new();
    let arr = match v.get("content") {
        Some(field) => field.as_array(),
        None => None,
    };
    match arr {
        Some(items) => {
            let mut i: usize = 0;
            while i < items.len()
                decreases items.len() - i,
            {
                let chunk = &items[i];
                match get_string(chunk, "type") {
                    Some(t) => {
                        if str_eq(t.as_str(), "output_text") {
                            match get_string(chunk, "text") {
                                Some(text) => content.push(ContentItem::OutputText { text }),
                                None => {},
                            }
                        } else if str_eq(t.as_str(), "input_text") {
                            match get_string(chunk, "text") {
                                Some(text) => content.push(ContentItem::InputText { text }),
                                None => {},
                            }
                        } else if str_eq(t.as_str(), "input_image") {
                            match get_string(chunk, "image_url") {
                                Some(image_url) => content.push(
                                    ContentItem::InputImage { image_url },
                                ),
                                None => {},
                            }
                        }
                    },
                    None => {},
                }
                i = i + 1;
            }
            content
        },
        None => content,
    }
}

/// Reads a list of text entries of the given chunk kinds, as reasoning
/// summaries and raw contents carry them.
fn parse_text_entries(v: &serde_json::Value, key: &str) -> Vec<String> {
    let mut out: Vec<String> = Vec::new();
    let arr = match v.get(key) {
        Some(field) => field.as_array(),
        None => None,
    };
    match arr {
        Some(items) => {
            let mut i: usize = 0;
            while i < items.len()
                decreases items.len() - i,
            {
                match get_string(&items[i], "text") {
                    Some(text) => out.push(text),
                    None => {},
                }
                i = i + 1;
            }
            out
        },
        None => out,
    }
}

/// Reads the command words of a local shell action.
fn parse_command(v: &serde_json::Value) -> Vec<String> {
    let mut out: Vec<String> = Vec::new();
    let arr = match v.get("command") {
        Some(field) => field.as_array(),
        None => None,
    };
    match arr {
        Some(items) => {
            let mut i: usize = 0;
            while i < items.len()
                decreases items.len() - i,
            {
                match items[i].as_str() {
                    Some(word) => out.push(word.to_owned()),
                    None => {},
                }
                i = i + 1;
            }
            out
        },
        None => out,
    }
}

/// Parses one response item from its wire object; items of unknown shape
/// parse to nothing and are skipped upstream.
pub fn parse_response_item(v: &serde_json::Value) -> Option<ResponseItem> {
    let t = match get_string(v, "type") {
        Some(t) => t,
        None => {
            return None;
        },
    };
    if str_eq(t.as_str(), "message") {
        Some(ResponseItem::Message {
            id: get_string(v, "id"),
            role: parse_role(v),
            content: parse_content(v),
        })
    } else if str_eq(t.as_str(), "reasoning") {
        Some(ResponseItem::Reasoning {
            id: get_string(v, "id"),
            summary: parse_text_entries(v, "summary"),
            content: parse_text_entries(v, "content"),
        })
    } else if str_eq(t.as_str(), "web_search_call") {
        let query = match v.get("action") {
            Some(action) => match get_string(action, "query") {
                Some(q) => q,
                None => String::new(),
            },
            None => String::new(),
        };
        Some(ResponseItem::WebSearchCall { id: get_string(v, "id"), query })
    } else if str_eq(t.as_str(), "function_call") {
        let name = get_string(v, "name");
        let arguments = get_string(v, "arguments");
        let call_id = get_string(v, "call_id");
        match (name, arguments, call_id) {
            (Some(name), Some(arguments), Some(call_id)) => Some(
                ResponseItem::FunctionCall { name, arguments, call_id },
            ),
            _ => None,
        }
    } else if str_eq(t.as_str(), "custom_tool_call") {
        let name = get_string(v, "name");
        let input = get_string(v, "input");
        let call_id = get_string(v, "call_id");
        match (name, input, call_id) {
            (Some(name), Some(input), Some(call_id)) => Some(
                ResponseItem::CustomToolCall { name, input, call_id },
            ),
            _ => None,
        }
    } else if str_eq(t.as_str(), "local_shell_call") {
        let command = match v.get("action") {
            Some(action) => parse_command(action),
            None => Vec::new(),
        };
        Some(ResponseItem::LocalShellCall {
            id: get_string(v, "id"),
            call_id: get_string(v, "call_id"),
            command,
        })
    } else if str_eq(t.as_str(), "function_call_output") {
        let call_id = get_string(v, "call_id");
        let output = get_string(v, "output");
        match (call_id, output) {
            (Some(call_id), Some(content)) => Some(ResponseItem::FunctionCallOutput {
                call_id,
                output: crate::items::FunctionCallOutputPayload { content, success: None },
            }),
            _ => None,
        }
    } else if str_eq(t.as_str(), "custom_tool_call_output") {
        let call_id = get_string(v, "call_id");
        let output = get_string(v, "output");
        match (call_id, output) {
            (Some(call_id), Some(output)) => Some(
                ResponseItem::CustomToolCallOutput { call_id, output },
            ),
            _ => None,
        }
    } else {
        None
    }
}

/// Reads the token usage of a completed response.
fn parse_usage(v: &serde_json::Value) -> Option<TokenUsage> {
    let usage = match v.get("usage") {
        Some(u) => u,
        None => {
            return None;
        },
    };
    if usage.is_null() {
        return None;
    }
    let input_tokens = get_i64(usage, "input_tokens");
    let output_tokens = get_i64(usage, "output_tokens");
    let total_tokens = get_i64(usage, "total_tokens");
    match (input_tokens, output_tokens, total_tokens) {
        (Some(input_tokens), Some(output_tokens), Some(total_tokens)) => {
            let cached_input_tokens = match usage.get("input_tokens_details") {
                Some(d) => get_i64(d, "cached_tokens"),
                None => None,
            };
            let reasoning_output_tokens = match usage.get("output_tokens_details") {
                Some(d) => get_i64(d, "reasoning_tokens"),
                None => None,
            };
            Some(
                TokenUsage::from_wire(
                    &ResponseCompletedUsage {
                        input_tokens,
                        cached_input_tokens,
                        output_tokens,
                        reasoning_output_tokens,
                        total_tokens,
                    },
                ),
            )
        },
        _ => None,
    }
}

/// Extracts the plain fields of one wire event from its JSON payload, or
/// nothing when the payload is not a JSON object with a `type` field.
pub fn parse_sse_fields(data: &Vec<u8>) -> Option<SseFields> {
    let v = match json_parse(data) {
        Some(v) => v,
        None => {
            return None;
        },
    };
    let kind_str = match get_string(&v, "type") {
        Some(k) => k,
        None => {
            return None;
        },
    };
    let kind = parse_kind(kind_str.as_str());
    let response = v.get("response");
    let has_response = response.is_some();
    let completed = match response {
        Some(resp) => match get_string(resp, "id") {
            Some(response_id) => Some(CompletedInfo { response_id, usage: parse_usage(resp) }),
            None => None,
        },
        None => None,
    };
    let error = match response {
        Some(resp) => match resp.get("error") {
            Some(err) => {
                if err.is_null() {
                    None
                } else {
                    Some(ErrorPayload {
                        code: get_string(err, "code"),
                        message: get_string(err, "message"),
                    })
                }
            },
            None => None,
        },
        None => None,
    };
    let item = match v.get("item") {
        Some(item_val) => parse_response_item(item_val),
        None => None,
    };
    Some(SseFields {
        kind,
        item,
        delta: get_string(&v, "delta"),
        summary_index: get_i64(&v, "summary_index"),
        content_index: get_i64(&v, "content_index"),
        has_response,
        completed,
        error,
    })
}

} // verus!
