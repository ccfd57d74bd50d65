//! What is made of the items a model streams back: the text of its answers,
//! where generated images are saved, and what happens after each finished item.
use vstd::prelude::*;
use crate::models::{
    same_payload, ContentItem, FunctionCallOutputBody, FunctionCallOutputPayload, ResponseInputItem,
    ResponseItem,
};
use crate::text::{all_ws, is_blank, string_push, trim};
use crate::util::{resolve_path, spec_join_relative};

verus! {

/// The directory, under the Codex home, that holds generated images.
pub const GENERATED_IMAGE_ARTIFACTS_DIR: &'static str = "generated_images";

/// The name used for a part of an image's path that sanitizes to nothing.
pub const GENERATED_IMAGE_FALLBACK_NAME: &'static str = "generated_image";

/// Whether a character is kept as it is in a file name part.
pub open spec fn kept_in_name(c: char) -> bool {
    ('a' <= c <= 'z') || ('A' <= c <= 'Z') || ('0' <= c <= '9') || c == '-' || c == '_'
}

/// A text made safe as a file name: every character other than ASCII
/// letters, digits, `-` and `_` becomes `_`; an empty text becomes the
/// fallback name.
pub open spec fn sanitized(s: Seq<char>) -> Seq<char> {
    if s.len() == 0 {
        GENERATED_IMAGE_FALLBACK_NAME@
    } else {
        s.map_values(|c: char| if kept_in_name(c) { c } else { '_' })
    }
}

/// A text made safe as a file name.
pub fn sanitize_file_name_part(value: &str) -> (r: String)
    ensures
        r@ == sanitized(value@),
        r@.len() > 0,
        !crate::util::spec_is_absolute(r@),
{
    let chars = crate::text::chars_of(value);
    if chars.len() == 0 {
        let r = String::from_str(GENERATED_IMAGE_FALLBACK_NAME);
        proof {
            reveal_strlit("generated_image");
        }
        return r;
    }
    let mut r = String::new();
    let mut i: usize = 0;
    while i < chars.len()
        invariant
            i <= chars.len(),
            chars@ == value@,
            r@ == chars@.take(i as int).map_values(|c: char| if kept_in_name(c) { c } else { '_' }),
        decreases chars.len() - i,
    {
        let c = chars[i];
        let keep = ('a' <= c && c <= 'z') || ('A' <= c && c <= 'Z') || ('0' <= c && c <= '9') || c
            == '-' || c == '_';
        if keep {
            string_push(&mut r, c);
        } else {
            string_push(&mut r, '_');
        }
        proof {
            assert(chars@.take(i + 1).map_values(|c: char| if kept_in_name(c) { c } else { '_' })
                =~= chars@.take(i as int).map_values(|c: char| if kept_in_name(c) { c } else { '_' }).push(
                if kept_in_name(c) { c } else { '_' },
            ));
        }
        i = i + 1;
    }
    proof {
        assert(chars@.take(chars@.len() as int) =~= chars@);
    }
    r
}

/// Sanitizing a name that was already sanitized leaves it as it is.
pub proof fn law_sanitize_idempotent(s: Seq<char>)
    ensures
        sanitized(sanitized(s)) == sanitized(s),
{
    let t = sanitized(s);
    if s.len() == 0 {
        reveal_strlit("generated_image");
        assert forall|i: int| 0 <= i < t.len() implies kept_in_name(#[trigger] t[i]) by {}
    }
    assert(t.len() > 0);
    assert(t.map_values(|c: char| if kept_in_name(c) { c } else { '_' }) =~= t);
}

/// Where the image a call generated is saved:
/// `<home>/generated_images/<session>/<call>.png`, each part sanitized.
pub open spec fn artifact_path(home: Seq<char>, session_id: Seq<char>, call_id: Seq<char>) -> Seq<char> {
    spec_join_relative(
        spec_join_relative(spec_join_relative(home, GENERATED_IMAGE_ARTIFACTS_DIR@), sanitized(session_id)),
        sanitized(call_id) + ".png"@,
    )
}

/// Where the image a call generated is saved.
pub fn image_generation_artifact_path(codex_home: &str, session_id: &str, call_id: &str) -> (r: String)
    ensures
        r@ == artifact_path(codex_home@, session_id@, call_id@),
{
    proof {
        reveal_strlit("generated_images");
    }
    let dir = resolve_path(codex_home, GENERATED_IMAGE_ARTIFACTS_DIR);
    let session = sanitize_file_name_part(session_id);
    let session_dir = resolve_path(dir.as_str(), session.as_str());
    let mut file = sanitize_file_name_part(call_id);
    let ghost name = file@;
    file.append(".png");
    proof {
        assert(file@[0] == name[0]);
    }
    resolve_path(session_dir.as_str(), file.as_str())
}

/// The output text parts of a message, written one after the other.
pub open spec fn output_text_of(content: Seq<ContentItem>) -> Seq<char>
    decreases content.len(),
{
    if content.len() == 0 {
        Seq::empty()
    } else {
        output_text_of(content.drop_last()) + match content.last() {
            ContentItem::OutputText { text } => text@,
            _ => Seq::empty(),
        }
    }
}

/// Assistant text as it is shown: no markup is hidden from it in any mode.
pub fn strip_hidden_assistant_markup(text: &str, _plan_mode: bool) -> (r: String)
    ensures
        r@ == text@,
{
    String::from_str(text)
}

/// The text of an assistant message: its output text parts together.
pub open spec fn assistant_text(item: ResponseItem) -> Option<Seq<char>> {
    match item {
        ResponseItem::Message { role, content, .. } => if role@ == "assistant"@ {
            Some(output_text_of(content@))
        } else {
            None
        },
        _ => None,
    }
}

/// The text of an assistant message.
pub fn raw_assistant_output_text_from_item(item: &ResponseItem) -> (r: Option<String>)
    ensures
        match assistant_text(*item) {
            Some(t) => r matches Some(s) && s@ == t,
            None => r is None,
        },
{
    match item {
        ResponseItem::Message { role, content, .. } => {
            if !crate::text::str_eq(role.as_str(), "assistant") {
                return None;
            }
            let mut combined = String::new();
            let mut i: usize = 0;
            while i < content.len()
                invariant
                    i <= content.len(),
                    combined@ == output_text_of(content@.take(i as int)),
                decreases content.len() - i,
            {
                proof {
                    assert(content@.take(i + 1).drop_last() =~= content@.take(i as int));
                }
                match &content[i] {
                    ContentItem::OutputText { text } => combined.append(text.as_str()),
                    _ => {},
                }
                i = i + 1;
            }
            proof {
                assert(content@.take(content@.len() as int) =~= content@);
            }
            Some(combined)
        },
        _ => None,
    }
}

/// The last message of the assistant, when it says something.
pub open spec fn last_assistant_message(item: ResponseItem) -> Option<Seq<char>> {
    match assistant_text(item) {
        Some(t) => if t.len() == 0 || all_ws(t) {
            None
        } else {
            Some(t)
        },
        None => None,
    }
}

/// The text of an assistant message, when it is not blank.
pub fn last_assistant_message_from_item(item: &ResponseItem) -> (r: Option<String>)
    ensures
        match last_assistant_message(*item) {
            Some(t) => r matches Some(s) && s@ == t,
            None => r is None,
        },
{
    match raw_assistant_output_text_from_item(item) {
        Some(combined) => {
            if combined.unicode_len() == 0 || is_blank(combined.as_str()) {
                None
            } else {
                Some(combined)
            }
        },
        None => None,
    }
}

/// The history item that records a tool's output sent to the model.
pub fn response_input_to_response_item(input: &ResponseInputItem) -> (r: Option<ResponseItem>)
    ensures
        match *input {
            ResponseInputItem::FunctionCallOutput { call_id, output } => r matches Some(
                ResponseItem::FunctionCallOutput { call_id: c, output: o },
            ) && c == call_id && same_payload(o, output),
            _ => r is None,
        },
{
    match input {
        ResponseInputItem::FunctionCallOutput { call_id, output } => Some(
            ResponseItem::FunctionCallOutput { call_id: call_id.clone(), output: output.clone() },
        ),
        _ => None,
    }
}

/// How the router classified a finished output item.
#[derive(Debug, Clone, PartialEq, Eq)]
pub enum ToolCallRouting {
    /// A call of a tool, which is started.
    ToolCall,
    /// Not a tool call: a message, reasoning, or the like.
    NotATool,
    /// A malformed call, answered with this message to the model.
    RespondToModel(String),
    /// A call that cannot go on.
    Fatal(String),
}

/// What follows a finished output item.
#[derive(Debug, Clone, PartialEq, Eq)]
pub struct OutputItemPlan {
    /// Whether the model must be asked again after this turn's items.
    pub needs_follow_up: bool,
    /// Whether a tool call is started.
    pub start_tool_call: bool,
    /// Whether the item is announced as started before it is announced as completed.
    pub emit_started: bool,
    /// The answer recorded for a malformed call.
    pub tool_error_output: Option<ResponseInputItem>,
    /// The last message of the assistant, when the item was one.
    pub last_agent_message: Option<String>,
}

/// Decides what follows a finished output item. `finalized` says whether the
/// item became a turn item, and `last_agent_message` is its text when it was
/// an assistant message; `previously_active` says whether it was announced
/// as started while it streamed.
pub fn plan_output_item(
    routing: ToolCallRouting,
    finalized: bool,
    previously_active: bool,
    last_agent_message: Option<String>,
) -> (r: Result<OutputItemPlan, String>)
    ensures
        match routing {
            ToolCallRouting::ToolCall => r matches Ok(p) && p.needs_follow_up && p.start_tool_call
                && !p.emit_started && p.tool_error_output is None && p.last_agent_message is None,
            ToolCallRouting::NotATool => r matches Ok(p) && !p.needs_follow_up && !p.start_tool_call
                && p.emit_started == (finalized && !previously_active) && p.tool_error_output is None
                && p.last_agent_message == (if finalized {
                last_agent_message
            } else {
                None
            }),
            ToolCallRouting::RespondToModel(m) => r matches Ok(p) && p.needs_follow_up
                && !p.start_tool_call && !p.emit_started && p.last_agent_message is None
                && (p.tool_error_output matches Some(ResponseInputItem::FunctionCallOutput { call_id, output })
                && call_id@.len() == 0 && output.success is None && (output.body matches FunctionCallOutputBody::Text(
                t,
            ) && t == m)),
            ToolCallRouting::Fatal(m) => r == Err::<OutputItemPlan, String>(m),
        },
{
    match routing {
        ToolCallRouting::ToolCall => Ok(
            OutputItemPlan {
                needs_follow_up: true,
                start_tool_call: true,
                emit_started: false,
                tool_error_output: None,
                last_agent_message: None,
            },
        ),
        ToolCallRouting::NotATool => Ok(
            OutputItemPlan {
                needs_follow_up: false,
                start_tool_call: false,
                emit_started: finalized && !previously_active,
                tool_error_output: None,
                last_agent_message: if finalized {
                    last_agent_message
                } else {
                    None
                },
            },
        ),
        ToolCallRouting::RespondToModel(message) => Ok(
            OutputItemPlan {
                needs_follow_up: true,
                start_tool_call: false,
                emit_started: false,
                tool_error_output: Some(
                    ResponseInputItem::FunctionCallOutput {
                        call_id: String::new(),
                        output: FunctionCallOutputPayload {
                            body: FunctionCallOutputBody::Text(message),
                            success: None,
                        },
                    },
                ),
                last_agent_message: None,
            },
        ),
        ToolCallRouting::Fatal(message) => Err(message),
    }
}

/// The last message of the assistant from a finished turn item: its text
/// when it is not blank.
pub fn agent_message_facts(combined: String) -> (r: Option<String>)
    ensures
        all_ws(combined@) ==> r is None,
        !all_ws(combined@) ==> r == Some(combined),
{
    if is_blank(combined.as_str()) {
        None
    } else {
        Some(combined)
    }
}

/// What the standard base64 engine decodes `s` to, or the message of the
/// error it reports.
pub uninterp spec fn base64_standard_decoded(s: Seq<char>) -> Result<Seq<u8>, Seq<char>>;

/// `base64::engine::general_purpose::STANDARD.decode`, with the error written
/// out as its message.
#[verifier::external_body]
fn base64_decode(s: &str) -> (r: Result<Vec<u8>, String>)
    ensures
        match r {
            Ok(b) => base64_standard_decoded(s@) == Ok::<Seq<u8>, Seq<char>>(b@),
            Err(m) => base64_standard_decoded(s@) == Err::<Seq<u8>, Seq<char>>(m@),
        },
{
    base64::Engine::decode(&base64::engine::general_purpose::STANDARD, s.as_bytes()).map_err(
        |e| e.to_string(),
    )
}

/// The bytes of a generated image sent as base64 text, surrounding whitespace
/// ignored; a payload that does not decode is refused with the decoder's message.
pub fn decode_image_generation_result(result: &str) -> (r: Result<Vec<u8>, String>)
    ensures
        match base64_standard_decoded(trim(result@)) {
            Ok(b) => r matches Ok(v) && v@ == b,
            Err(m) => r matches Err(e) && e@ == "invalid image generation payload: "@ + m,
        },
{
    let trimmed = crate::text::trim_str(result);
    match base64_decode(trimmed.as_str()) {
        Ok(bytes) => Ok(bytes),
        Err(message) => {
            let mut e = String::from_str("invalid image generation payload: ");
            e.append(message.as_str());
            Err(e)
        },
    }
}

} // verus!
