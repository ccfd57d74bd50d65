use codex_core::models::{
    FunctionCallOutputBody, FunctionCallOutputContentItem, FunctionCallOutputPayload,
    ResponseInputItem,
};
use codex_core::tool_specs::{
    create_exec_command_tool, create_view_image_tool, create_write_stdin_tool, JsonSchemaKind,
    ToolSpec,
};
use codex_core::tools::CommandToolOptions;
use codex_core::user_input::ImageDetail;
use codex_core::view_image::{
    PromptImageMode, ViewImageFileError, ViewImageHandler, ViewImageOutput, ViewImageToolOptions,
    VIEW_IMAGE_UNAVAILABLE_MESSAGE, VIEW_IMAGE_UNSUPPORTED_MESSAGE,
};

#[test]
fn exec_command_descriptions_match_retained_upstream_wording() {
    let ToolSpec::Function(tool) = create_exec_command_tool(CommandToolOptions {
        allow_login_shell: true,
    });
    let properties = tool.parameters;

    assert_eq!(
        properties
            .property("workdir")
            .and_then(|schema| schema.description.as_deref()),
        Some("Working directory for the command. Defaults to the turn cwd.")
    );
    assert_eq!(
        properties
            .property("tty")
            .and_then(|schema| schema.description.as_deref()),
        Some("True allocates a PTY for the command; false or omitted uses plain pipes.")
    );
    assert_eq!(
        properties
            .property("yield_time_ms")
            .and_then(|schema| schema.description.as_deref()),
        Some("Wait before yielding output. Defaults to 10000 ms; effective range is 250-30000 ms.")
    );
    assert_eq!(
        properties
            .property("max_output_tokens")
            .and_then(|schema| schema.description.as_deref()),
        Some(
            "Output token budget. Defaults to 10000 tokens; larger requests may be capped by policy."
        )
    );
    assert_eq!(
        properties
            .property("login")
            .and_then(|schema| schema.description.as_deref()),
        Some("True runs the shell with -l/-i semantics; false disables them. Defaults to true.")
    );
}

#[test]
fn write_stdin_descriptions_match_retained_upstream_wording() {
    let ToolSpec::Function(tool) = create_write_stdin_tool();
    let properties = tool.parameters;

    assert_eq!(
        properties
            .property("chars")
            .and_then(|schema| schema.description.as_deref()),
        Some("Bytes to write to stdin. Defaults to empty, which polls without writing.")
    );
    assert_eq!(
        properties
            .property("yield_time_ms")
            .and_then(|schema| schema.description.as_deref()),
        Some(
            "Wait before yielding output. Non-empty writes default to 250 ms and cap at 30000 ms; empty polls wait 5000-300000 ms by default."
        )
    );
    assert_eq!(
        properties
            .property("max_output_tokens")
            .and_then(|schema| schema.description.as_deref()),
        Some(
            "Output token budget. Defaults to 10000 tokens; larger requests may be capped by policy."
        )
    );
}

#[test]
fn view_image_description_uses_visual_inspection_wording() {
    let tool = create_view_image_tool(ViewImageToolOptions {
        can_request_original_image_detail: true,
    });

    match tool {
        ToolSpec::Function(function) => {
            assert_eq!(
                function.description,
                "View a local image file from the filesystem when visual inspection is needed. Use this for images already available on disk."
            );
            let properties = function.parameters;
            assert_eq!(
                properties
                    .property("path")
                    .and_then(|schema| schema.description.as_deref()),
                Some("Local filesystem path to an image file.")
            );
            assert_eq!(
                properties
                    .property("detail")
                    .and_then(|schema| schema.description.as_deref()),
                Some(
                    "Image detail level. Defaults to `high`; use `original` to preserve exact resolution."
                )
            );
        }
    }
}

#[test]
fn exec_command_without_login_shell_has_no_login_parameter() {
    let ToolSpec::Function(tool) = create_exec_command_tool(CommandToolOptions {
        allow_login_shell: false,
    });
    assert_eq!(tool.name, "exec_command");
    assert!(tool.parameters.property("login").is_none());
    let names: Vec<&str> = tool
        .parameters
        .properties
        .iter()
        .map(|(n, _)| n.as_str())
        .collect();
    assert_eq!(
        names,
        vec!["cmd", "max_output_tokens", "shell", "tty", "workdir", "yield_time_ms"]
    );
    assert_eq!(tool.parameters.required, vec!["cmd".to_string()]);
    assert!(!tool.parameters.additional_properties);
}

#[test]
fn view_image_without_original_detail_offers_only_path() {
    let handler = ViewImageHandler::default();
    let ToolSpec::Function(tool) = handler.spec();
    assert_eq!(tool.name, "view_image");
    assert!(tool.parameters.property("detail").is_none());
    assert!(handler.supports_parallel_tool_calls());
    let ToolSpec::Function(with_detail) = create_view_image_tool(ViewImageToolOptions {
        can_request_original_image_detail: true,
    });
    assert_eq!(
        with_detail.parameters.property("detail").map(|s| s.kind.clone()),
        Some(JsonSchemaKind::StringEnum(vec![
            "high".to_string(),
            "original".to_string()
        ]))
    );
}

#[test]
fn view_image_requests() {
    let handler = ViewImageHandler::new(ViewImageToolOptions {
        can_request_original_image_detail: true,
    });
    assert_eq!(
        handler.prepare(false, "a.png", None, Some("/w"), true),
        Err(VIEW_IMAGE_UNSUPPORTED_MESSAGE.to_string())
    );
    assert_eq!(
        handler.prepare(true, "a.png", Some("low"), Some("/w"), true),
        Err("view_image.detail only supports `high` or `original`; omit `detail` for default high resized behavior, got `low`".to_string())
    );
    assert_eq!(
        handler.prepare(true, "a.png", None, None, true),
        Err(VIEW_IMAGE_UNAVAILABLE_MESSAGE.to_string())
    );
    let req = handler
        .prepare(true, "img/a.png", Some("original"), Some("/w"), true)
        .unwrap();
    assert_eq!(req.abs_path, "/w/img/a.png");
    assert_eq!(req.image_mode, PromptImageMode::Original);
    assert_eq!(req.image_detail, ImageDetail::Original);
    let resized = handler
        .prepare(true, "/abs/a.png", Some("original"), Some("/w"), false)
        .unwrap();
    assert_eq!(resized.abs_path, "/abs/a.png");
    assert_eq!(resized.image_mode, PromptImageMode::ResizeToFit);
    assert_eq!(resized.image_detail, ImageDetail::High);
}

#[test]
fn view_image_file_errors_and_output() {
    assert_eq!(
        ViewImageFileError::NotAFile.message("/w/a"),
        "image path `/w/a` is not a file"
    );
    assert_eq!(
        ViewImageFileError::Locate("missing".to_string()).message("/w/a"),
        "unable to locate image at `/w/a`: missing"
    );
    let output = ViewImageOutput {
        image_url: "data:image/png;base64,AA".to_string(),
        image_detail: ImageDetail::High,
    };
    assert_eq!(output.log_preview(), "data:image/png;base64,AA");
    assert_eq!(
        output.to_response_item("call-1"),
        ResponseInputItem::FunctionCallOutput {
            call_id: "call-1".to_string(),
            output: FunctionCallOutputPayload {
                body: FunctionCallOutputBody::ContentItems(vec![
                    FunctionCallOutputContentItem::InputImage {
                        image_url: "data:image/png;base64,AA".to_string(),
                        detail: Some(ImageDetail::High),
                    }
                ]),
                success: Some(true),
            },
        }
    );
}
