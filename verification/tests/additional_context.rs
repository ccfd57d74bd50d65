use codex_core::additional_context::{AdditionalContextStore, AdditionalContextValues};
use codex_core::models::{ContentItem, ResponseInputItem};
use codex_core::protocol::{AdditionalContextEntry, AdditionalContextKind};

fn entry(value: &str, kind: AdditionalContextKind) -> AdditionalContextEntry {
    AdditionalContextEntry {
        value: value.to_string(),
        kind,
    }
}

fn input_texts(items: &[ResponseInputItem]) -> Vec<(String, String)> {
    items
        .iter()
        .map(|item| match item {
            ResponseInputItem::Message { role, content, .. } => {
                let text = content
                    .iter()
                    .map(|content| match content {
                        ContentItem::InputText { text } => text.clone(),
                        _ => String::new(),
                    })
                    .collect::<String>();
                (role.clone(), text)
            }
            _ => (String::new(), String::new()),
        })
        .collect()
}

fn values(pairs: Vec<(&str, AdditionalContextEntry)>) -> AdditionalContextValues {
    AdditionalContextValues::from_pairs(
        pairs
            .into_iter()
            .map(|(k, v)| (k.to_string(), v))
            .collect(),
    )
}

#[test]
fn merge_renders_new_context_and_dedupes_unchanged_values() {
    let mut store = AdditionalContextStore::default();
    let values = values(vec![
        (
            "selection",
            entry("selected text", AdditionalContextKind::Untrusted),
        ),
        ("app", entry("state", AdditionalContextKind::Application)),
    ]);

    let first = store.merge(values.clone());
    let second = store.merge(values);

    assert_eq!(
        input_texts(&first),
        vec![
            ("developer".to_string(), "<app>state</app>".to_string()),
            (
                "user".to_string(),
                "<external_selection>selected text</external_selection>".to_string()
            ),
        ]
    );
    assert_eq!(second, Vec::new());
}

#[test]
fn merge_readds_context_after_deletion() {
    let mut store = AdditionalContextStore::default();
    let values = values(vec![(
        "selection",
        entry("selected text", AdditionalContextKind::Untrusted),
    )]);

    assert_eq!(store.merge(values.clone()).len(), 1);
    assert_eq!(store.merge(AdditionalContextValues::new()), Vec::new());

    let readded = store.merge(values);

    assert_eq!(
        input_texts(&readded),
        vec![(
            "user".to_string(),
            "<external_selection>selected text</external_selection>".to_string()
        )]
    );
}

#[test]
fn merge_sends_only_changed_entries() {
    let mut store = AdditionalContextStore::new();
    store.merge(values(vec![
        ("a", entry("1", AdditionalContextKind::Application)),
        ("b", entry("2", AdditionalContextKind::Application)),
    ]));
    let changed = store.merge(values(vec![
        ("a", entry("1", AdditionalContextKind::Application)),
        ("b", entry("3", AdditionalContextKind::Application)),
        ("c", entry("4", AdditionalContextKind::Untrusted)),
    ]));
    assert_eq!(
        input_texts(&changed),
        vec![
            ("developer".to_string(), "<b>3</b>".to_string()),
            ("user".to_string(), "<external_c>4</external_c>".to_string()),
        ]
    );
}

#[test]
fn a_change_of_kind_is_a_change() {
    let mut store = AdditionalContextStore::new();
    store.merge(values(vec![("k", entry("v", AdditionalContextKind::Application))]));
    let changed = store.merge(values(vec![("k", entry("v", AdditionalContextKind::Untrusted))]));
    assert_eq!(
        input_texts(&changed),
        vec![("user".to_string(), "<external_k>v</external_k>".to_string())]
    );
}

#[test]
fn values_keep_keys_sorted_and_last_insert_wins() {
    let mut v = AdditionalContextValues::new();
    v.insert("zeta".to_string(), entry("1", AdditionalContextKind::Application));
    v.insert("alpha".to_string(), entry("2", AdditionalContextKind::Application));
    v.insert("mid".to_string(), entry("3", AdditionalContextKind::Application));
    v.insert("alpha".to_string(), entry("4", AdditionalContextKind::Untrusted));
    let keys: Vec<&str> = v.entries().iter().map(|(k, _)| k.as_str()).collect();
    assert_eq!(keys, vec!["alpha", "mid", "zeta"]);
    assert_eq!(v.len(), 3);
    assert_eq!(
        v.get("alpha"),
        Some(&entry("4", AdditionalContextKind::Untrusted))
    );
    assert_eq!(v.get("missing"), None);
}
