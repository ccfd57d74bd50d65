use codex_core::stream_events::decode_image_generation_result;
use codex_core::models::{
    ContentItem, FunctionCallOutputBody, FunctionCallOutputPayload, ResponseInputItem, ResponseItem,
};
use codex_core::stream_events::{
    agent_message_facts, image_generation_artifact_path, last_assistant_message_from_item,
    plan_output_item, raw_assistant_output_text_from_item, response_input_to_response_item,
    sanitize_file_name_part, ToolCallRouting,
};

fn assistant(parts: Vec<&str>) -> ResponseItem {
    ResponseItem::Message {
        id: None,
        role: "assistant".to_string(),
        content: parts
            .into_iter()
            .map(|t| ContentItem::OutputText { text: t.to_string() })
            .collect(),
        phase: None,
    }
}

#[test]
fn file_name_parts_are_sanitized() {
    assert_eq!(sanitize_file_name_part("abc-DEF_123"), "abc-DEF_123");
    assert_eq!(sanitize_file_name_part("a/b c.d"), "a_b_c_d");
    assert_eq!(sanitize_file_name_part(""), "generated_image");
    assert_eq!(sanitize_file_name_part("é"), "_");
}

#[test]
fn artifact_path_layout() {
    assert_eq!(
        image_generation_artifact_path("/home/u/.codex", "sess/1", "call 2"),
        "/home/u/.codex/generated_images/sess_1/call_2.png"
    );
    assert_eq!(
        image_generation_artifact_path("/h/", "", ""),
        "/h/generated_images/generated_image/generated_image.png"
    );
}

#[test]
fn assistant_text_is_joined() {
    let item = assistant(vec!["Hello, ", "world"]);
    assert_eq!(raw_assistant_output_text_from_item(&item), Some("Hello, world".to_string()));
    assert_eq!(last_assistant_message_from_item(&item), Some("Hello, world".to_string()));
    let blank = assistant(vec![" ", "\n"]);
    assert_eq!(raw_assistant_output_text_from_item(&blank), Some(" \n".to_string()));
    assert_eq!(last_assistant_message_from_item(&blank), None);
    assert_eq!(raw_assistant_output_text_from_item(&ResponseItem::Other), None);
}

#[test]
fn tool_outputs_become_history_items() {
    let input = ResponseInputItem::FunctionCallOutput {
        call_id: "c1".to_string(),
        output: FunctionCallOutputPayload {
            body: FunctionCallOutputBody::Text("done".to_string()),
            success: Some(true),
        },
    };
    assert_eq!(
        response_input_to_response_item(&input),
        Some(ResponseItem::FunctionCallOutput {
            call_id: "c1".to_string(),
            output: FunctionCallOutputPayload {
                body: FunctionCallOutputBody::Text("done".to_string()),
                success: Some(true),
            },
        })
    );
    let message = ResponseInputItem::Message {
        role: "user".to_string(),
        content: vec![],
    };
    assert_eq!(response_input_to_response_item(&message), None);
}

#[test]
fn output_item_plans() {
    let call = plan_output_item(ToolCallRouting::ToolCall, false, false, None).unwrap();
    assert!(call.needs_follow_up && call.start_tool_call && !call.emit_started);
    let message = plan_output_item(ToolCallRouting::NotATool, true, false, Some("hi".to_string())).unwrap();
    assert!(!message.needs_follow_up && message.emit_started);
    assert_eq!(message.last_agent_message, Some("hi".to_string()));
    let streamed = plan_output_item(ToolCallRouting::NotATool, true, true, None).unwrap();
    assert!(!streamed.emit_started);
    let unfinished = plan_output_item(ToolCallRouting::NotATool, false, false, Some("x".to_string())).unwrap();
    assert_eq!(unfinished.last_agent_message, None);
    let bad = plan_output_item(ToolCallRouting::RespondToModel("bad args".to_string()), false, false, None).unwrap();
    assert!(bad.needs_follow_up);
    assert_eq!(
        bad.tool_error_output,
        Some(ResponseInputItem::FunctionCallOutput {
            call_id: String::new(),
            output: FunctionCallOutputPayload {
                body: FunctionCallOutputBody::Text("bad args".to_string()),
                success: None,
            },
        })
    );
    assert_eq!(
        plan_output_item(ToolCallRouting::Fatal("boom".to_string()), false, false, None),
        Err("boom".to_string())
    );
}

#[test]
fn agent_message_facts_drop_blank_text() {
    assert_eq!(agent_message_facts("  ".to_string()), None);
    assert_eq!(agent_message_facts("ok".to_string()), Some("ok".to_string()));
}

#[test]
fn image_generation_payloads_decode_from_base64() {
    assert_eq!(decode_image_generation_result("  aGVsbG8=\n"), Ok(b"hello".to_vec()));
    assert_eq!(decode_image_generation_result(""), Ok(vec![]));
    let err = decode_image_generation_result("not base64!").unwrap_err();
    assert!(err.starts_with("invalid image generation payload: "), "{err}");
    assert_ne!(err, "not base64!");
}
