use codex_core::protocol::{CompactedItem, ThreadId};
use codex_core::rollout::{InitialHistory, ResumedHistory, RolloutEvent, RolloutItem};
use codex_core::session::{
    choose_shell, event_persistence_mode, session_thread_id, unusable_zsh_path_message,
    window_generation, ShellChoice, ThreadEventPersistenceMode,
};

fn compacted() -> RolloutItem {
    RolloutItem::Compacted(CompactedItem { message: "summary".to_string(), replacement_history: None })
}

#[test]
fn extended_history_keeps_all_events() {
    assert_eq!(event_persistence_mode(true), ThreadEventPersistenceMode::Extended);
    assert_eq!(event_persistence_mode(false), ThreadEventPersistenceMode::Limited);
}

#[test]
fn window_generation_counts_resumed_compactions() {
    let id = ThreadId::from_string("00000000-0000-0000-0000-000000000001").expect("valid id");
    let resumed = InitialHistory::Resumed(ResumedHistory {
        conversation_id: id.clone(),
        history: vec![compacted(), RolloutItem::EventMsg(RolloutEvent::Other), compacted()],
        rollout_path: None,
    });
    assert_eq!(window_generation(&resumed), 2);
    assert_eq!(window_generation(&InitialHistory::Forked(vec![compacted()])), 0);
    assert_eq!(window_generation(&InitialHistory::New), 0);
    assert_eq!(session_thread_id(&resumed), id);
    assert_ne!(session_thread_id(&InitialHistory::New), id);
}

#[test]
fn shell_choice_prefers_the_user_then_zsh_fork() {
    assert_eq!(choose_shell(true, true, None), Ok(ShellChoice::UserOverride));
    assert_eq!(choose_shell(false, false, Some("/bin/zsh")), Ok(ShellChoice::Default));
    assert_eq!(
        choose_shell(false, true, Some("/bin/zsh")),
        Ok(ShellChoice::ZshFork("/bin/zsh".to_string()))
    );
    assert_eq!(
        choose_shell(false, true, None),
        Err("zsh fork feature enabled, but `zsh_path` is not configured; set `zsh_path` in config.toml"
            .to_string())
    );
    assert_eq!(
        unusable_zsh_path_message("/nope"),
        "zsh fork feature enabled, but zsh_path `/nope` is not usable; set `zsh_path` to a valid zsh executable"
    );
}
