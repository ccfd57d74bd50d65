use codex_core::models::{
    ContentItem, FunctionCallOutputBody, FunctionCallOutputContentItem, FunctionCallOutputPayload,
    ResponseInputItem, ResponseItem,
};
use codex_core::web_search::{
    command_action, push_visible_message, retain_tail_from_last_n_user_messages,
    web_run_description, EncryptedSearchOutput, FindOperation, OpenOperation, SearchCommands,
    SearchQuery, WebSearchAction,
};

fn message(role: &str, text: &str) -> ResponseItem {
    ResponseItem::Message {
        id: None,
        role: role.to_string(),
        content: vec![if role == "assistant" {
            ContentItem::OutputText {
                text: text.to_string(),
            }
        } else {
            ContentItem::InputText {
                text: text.to_string(),
            }
        }],
        phase: None,
    }
}

fn no_commands() -> SearchCommands {
    SearchCommands {
        search_query: None,
        image_query: None,
        open: None,
        find: None,
    }
}

fn query(q: &str) -> SearchQuery {
    SearchQuery {
        q: q.to_string(),
        recency: None,
        domains: None,
    }
}

#[test]
fn response_history_keeps_recent_user_tail() {
    let mut items = vec![
        message("user", "old user"),
        message("assistant", "old assistant"),
        message("user", "previous user"),
        message("assistant", "previous assistant"),
        message("user", "current user"),
        message("assistant", "later assistant"),
    ];

    retain_tail_from_last_n_user_messages(&mut items, 2);

    assert_eq!(
        items,
        vec![
            message("user", "previous user"),
            message("assistant", "previous assistant"),
            message("user", "current user"),
        ]
    );
}

#[test]
fn tail_of_history_edge_cases() {
    let mut none = vec![message("assistant", "a")];
    retain_tail_from_last_n_user_messages(&mut none, 2);
    assert!(none.is_empty());
    let mut zero = vec![message("user", "u")];
    retain_tail_from_last_n_user_messages(&mut zero, 0);
    assert!(zero.is_empty());
    let mut few = vec![
        message("assistant", "a"),
        message("user", "u1"),
        message("assistant", "b"),
    ];
    retain_tail_from_last_n_user_messages(&mut few, 5);
    assert_eq!(few, vec![message("user", "u1")]);
}

#[test]
fn emits_encrypted_function_output() {
    let output = EncryptedSearchOutput {
        encrypted_output: "ciphertext".to_string(),
    };

    assert_eq!(
        output.to_response_item("call-1"),
        ResponseInputItem::FunctionCallOutput {
            call_id: "call-1".to_string(),
            output: FunctionCallOutputPayload {
                body: FunctionCallOutputBody::ContentItems(vec![
                    FunctionCallOutputContentItem::EncryptedContent {
                        encrypted_content: "ciphertext".to_string(),
                    },
                ]),
                success: None,
            },
        }
    );
    assert_eq!(output.log_preview(), "[encrypted standalone web search output]");
}

#[test]
fn web_run_description_preserves_direct_standalone_guidance() {
    assert_eq!(
        web_run_description(),
        "Tool for accessing the internet. Use search_query, image_query, open, click, find, screenshot, finance, weather, sports, time, and response_length to retrieve current information. Search settings use direct standalone web access only."
    );
}

#[test]
fn command_action_reports_queries_and_navigation_detail() {
    let cases = [
        (
            SearchCommands {
                image_query: Some(vec![query("waterfalls"), query("mountains")]),
                ..no_commands()
            },
            WebSearchAction::Search {
                query: None,
                queries: Some(vec!["waterfalls".to_string(), "mountains".to_string()]),
            },
        ),
        (
            SearchCommands {
                open: Some(vec![OpenOperation {
                    ref_id: "https://example.com/docs".to_string(),
                }]),
                ..no_commands()
            },
            WebSearchAction::OpenPage {
                url: Some("https://example.com/docs".to_string()),
            },
        ),
        (
            SearchCommands {
                find: Some(vec![FindOperation {
                    ref_id: "https://example.com/docs".to_string(),
                    pattern: "install".to_string(),
                }]),
                ..no_commands()
            },
            WebSearchAction::FindInPage {
                url: Some("https://example.com/docs".to_string()),
                pattern: Some("install".to_string()),
            },
        ),
        (
            SearchCommands {
                find: Some(vec![FindOperation {
                    ref_id: "turn0search0".to_string(),
                    pattern: "install".to_string(),
                }]),
                ..no_commands()
            },
            WebSearchAction::FindInPage {
                url: None,
                pattern: Some("install".to_string()),
            },
        ),
        (
            SearchCommands {
                open: Some(vec![OpenOperation {
                    ref_id: "turn0search0".to_string(),
                }]),
                ..no_commands()
            },
            WebSearchAction::Other,
        ),
    ];

    for (commands, expected) in cases {
        assert_eq!(command_action(&commands), expected);
    }
}

#[test]
fn single_search_query_is_reported_alone() {
    let commands = SearchCommands {
        search_query: Some(vec![query("OpenAI news")]),
        image_query: Some(vec![query("ignored")]),
        ..no_commands()
    };
    assert_eq!(
        command_action(&commands),
        WebSearchAction::Search {
            query: Some("OpenAI news".to_string()),
            queries: None
        }
    );
    assert_eq!(command_action(&no_commands()), WebSearchAction::Other);
}

#[test]
fn visible_messages_keep_user_text_and_assistant_answers() {
    let mut messages = Vec::new();
    push_visible_message(&mut messages, &message("assistant", "answer"));
    push_visible_message(
        &mut messages,
        &ResponseItem::Message {
            id: None,
            role: "user".to_string(),
            content: vec![
                ContentItem::InputText {
                    text: "look".to_string(),
                },
                ContentItem::InputImage {
                    image_url: "data:".to_string(),
                },
            ],
            phase: None,
        },
    );
    push_visible_message(&mut messages, &message("developer", "hidden"));
    push_visible_message(
        &mut messages,
        &message("user", "<environment_context>\n</environment_context>"),
    );
    assert_eq!(messages, vec![message("assistant", "answer"), message("user", "look")]);
}
