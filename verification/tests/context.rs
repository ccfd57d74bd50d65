use codex_core::context::{
    build_text_message, format_subagent_context_line, is_contextual_user_fragment,
    is_user_turn_message, join_with_newlines, AvailableSkillsInstructions, EnvironmentContext,
    EnvironmentContextEnvironment, EnvironmentContextEnvironments, SkillInstructions, TurnAborted,
};
use codex_core::config_types::ReasoningSummary;
use codex_core::models::{ContentItem, ResponseItem};
use codex_core::protocol::TurnContextItem;

fn env(cwd: &str, shell: &str) -> EnvironmentContextEnvironment {
    EnvironmentContextEnvironment {
        cwd: cwd.to_string(),
        shell: shell.to_string(),
    }
}

#[test]
fn detects_environment_context_fragment() {
    assert!(is_contextual_user_fragment(&ContentItem::InputText {
        text: "<environment_context>\n<cwd>/tmp</cwd>\n</environment_context>".to_string(),
    }));
}

#[test]
fn contextual_user_fragment_is_dyn_compatible() {
    let fragment = TurnAborted;

    assert_eq!(fragment.render(), "<turn_aborted />");
}

#[test]
fn ignores_regular_user_text() {
    assert!(!is_contextual_user_fragment(&ContentItem::InputText {
        text: "hello".to_string(),
    }));
}

#[test]
fn recognizes_other_context_fragments() {
    assert!(is_contextual_user_fragment(&ContentItem::InputText {
        text: TurnAborted.render(),
    }));
    assert!(is_contextual_user_fragment(&ContentItem::InputText {
        text: "  <external_selection>text</external_selection>\n".to_string(),
    }));
    assert!(!is_contextual_user_fragment(&ContentItem::OutputText {
        text: "<environment_context></environment_context>".to_string(),
    }));
}

#[test]
fn user_turn_messages_exclude_context() {
    let user = ResponseItem::Message {
        id: None,
        role: "user".to_string(),
        content: vec![ContentItem::InputText {
            text: "fix the bug".to_string(),
        }],
        phase: None,
    };
    let context = ResponseItem::Message {
        id: None,
        role: "user".to_string(),
        content: vec![ContentItem::InputText {
            text: "<environment_context>\n</environment_context>".to_string(),
        }],
        phase: None,
    };
    let developer = ResponseItem::Message {
        id: None,
        role: "developer".to_string(),
        content: vec![ContentItem::InputText {
            text: "fix the bug".to_string(),
        }],
        phase: None,
    };
    assert!(is_user_turn_message(&user));
    assert!(!is_user_turn_message(&context));
    assert!(!is_user_turn_message(&developer));
}

#[test]
fn environment_context_renders_single_environment() {
    let ctx = EnvironmentContext::new(
        vec![env("/repo", "bash")],
        Some("2025-01-02".to_string()),
        Some("UTC".to_string()),
    );
    assert_eq!(
        ctx.render(),
        "<environment_context>\n  <cwd>/repo</cwd>\n  <shell>bash</shell>\n  <current_date>2025-01-02</current_date>\n  <timezone>UTC</timezone>\n</environment_context>"
    );
}

#[test]
fn environment_context_renders_several_environments() {
    let ctx = EnvironmentContext::new(vec![env("/a", "zsh"), env("/b", "bash")], None, None);
    assert_eq!(
        ctx.body(),
        "\n  <environments>\n    <environment>\n      <cwd>/a</cwd>\n      <shell>zsh</shell>\n    </environment>\n    <environment>\n      <cwd>/b</cwd>\n      <shell>bash</shell>\n    </environment>\n  </environments>\n"
    );
}

#[test]
fn environments_from_vec() {
    assert_eq!(
        EnvironmentContextEnvironments::from_vec(vec![]),
        EnvironmentContextEnvironments::Empty
    );
    assert_eq!(
        EnvironmentContextEnvironments::from_vec(vec![env("/a", "sh")]),
        EnvironmentContextEnvironments::Single(env("/a", "sh"))
    );
    assert_eq!(
        EnvironmentContextEnvironments::from_vec(vec![env("/a", "sh"), env("/b", "sh")]),
        EnvironmentContextEnvironments::Multiple(vec![env("/a", "sh"), env("/b", "sh")])
    );
}

#[test]
fn shells_do_not_count_as_changes() {
    let a = EnvironmentContext::new(vec![env("/a", "sh")], None, None);
    let b = EnvironmentContext::new(vec![env("/a", "zsh")], None, None);
    let c = EnvironmentContext::new(vec![env("/c", "sh")], None, None);
    assert!(a.equals_except_shell(&b));
    assert!(!a.equals_except_shell(&c));
}

fn turn_item(cwd: &str) -> TurnContextItem {
    TurnContextItem {
        turn_id: None,
        cwd: cwd.to_string(),
        current_date: Some("d".to_string()),
        timezone: None,
        model: "m".to_string(),
        effort: None,
        summary: ReasoningSummary::Auto,
    }
}

#[test]
fn diff_repeats_directory_only_when_it_changed() {
    let after = EnvironmentContext::new(vec![env("/new", "sh")], Some("d".to_string()), None);
    let diff = EnvironmentContext::diff_from_turn_context_item(&turn_item("/old"), &after);
    assert_eq!(
        diff.environments,
        EnvironmentContextEnvironments::Single(env("/new", "sh"))
    );
    let same = EnvironmentContext::diff_from_turn_context_item(&turn_item("/new"), &after);
    assert_eq!(same.environments, EnvironmentContextEnvironments::Empty);
    assert_eq!(same.current_date, Some("d".to_string()));
}

#[test]
fn context_from_turn_item_resolves_relative_directory() {
    let ctx = EnvironmentContext::from_turn_context_item(&turn_item("work"), "bash".to_string());
    assert_eq!(
        ctx.environments,
        EnvironmentContextEnvironments::Single(env("/work", "bash"))
    );
    let abs = EnvironmentContext::from_turn_context_item(&turn_item("/srv"), "bash".to_string());
    assert_eq!(
        abs.environments,
        EnvironmentContextEnvironments::Single(env("/srv", "bash"))
    );
}

#[test]
fn skill_instructions_render() {
    let skill = SkillInstructions::new(
        "lint".to_string(),
        "/skills/lint/SKILL.md".to_string(),
        "Run the linter.".to_string(),
    );
    assert_eq!(SkillInstructions::role(), "user");
    assert_eq!(
        skill.render(),
        "<skill>\n<name>lint</name>\n<path>/skills/lint/SKILL.md</path>\nRun the linter.\n</skill>"
    );
}

#[test]
fn available_skills_body_lists_roots_then_skills() {
    let skills = AvailableSkillsInstructions::new(
        vec!["root: /a".to_string()],
        vec!["- one".to_string(), "- two".to_string()],
    );
    assert_eq!(AvailableSkillsInstructions::role(), "developer");
    assert_eq!(skills.body(), "\nroot: /a\n- one\n- two\n");
    let empty = AvailableSkillsInstructions::new(vec![], vec![]);
    assert_eq!(empty.body(), "\n\n");
}

#[test]
fn text_messages() {
    assert_eq!(build_text_message("developer", vec![]), None);
    assert_eq!(
        build_text_message("user", vec!["a".to_string(), "b".to_string()]),
        Some(ResponseItem::Message {
            id: None,
            role: "user".to_string(),
            content: vec![
                ContentItem::InputText { text: "a".to_string() },
                ContentItem::InputText { text: "b".to_string() },
            ],
            phase: None,
        })
    );
}

#[test]
fn subagent_context_lines() {
    assert_eq!(format_subagent_context_line("agent-1", Some("scout")), "- agent-1: scout");
    assert_eq!(format_subagent_context_line("agent-1", Some("")), "- agent-1");
    assert_eq!(format_subagent_context_line("agent-1", None), "- agent-1");
}

#[test]
fn lines_join_with_newlines() {
    assert_eq!(join_with_newlines(&vec![]), "");
    assert_eq!(join_with_newlines(&vec!["a".to_string()]), "a");
    assert_eq!(
        join_with_newlines(&vec!["a".to_string(), "b".to_string()]),
        "a\nb"
    );
}
