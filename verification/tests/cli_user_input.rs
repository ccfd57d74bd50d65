use codex_core::cli::{ResumeArgs, ResumeArgsRaw};
use codex_core::user_input::{ByteRange, TextElement};

fn raw(session_id: Option<&str>, last: bool, prompt: Option<&str>) -> ResumeArgsRaw {
    ResumeArgsRaw {
        session_id: session_id.map(str::to_string),
        last,
        all: false,
        images: vec![],
        prompt: prompt.map(str::to_string),
    }
}

#[test]
fn resume_last_takes_positional_as_prompt() {
    let args = ResumeArgs::from(raw(Some("fix it"), true, None));
    assert_eq!(args.session_id, None);
    assert_eq!(args.prompt, Some("fix it".to_string()));
    assert!(args.last);
}

#[test]
fn resume_with_session_id_keeps_both() {
    let args = ResumeArgs::from(raw(Some("abc"), false, Some("go")));
    assert_eq!(args.session_id, Some("abc".to_string()));
    assert_eq!(args.prompt, Some("go".to_string()));
    let both = ResumeArgs::from(raw(Some("abc"), true, Some("go")));
    assert_eq!(both.session_id, Some("abc".to_string()));
    assert_eq!(both.prompt, Some("go".to_string()));
}

#[test]
fn text_element_placeholder_or_slice() {
    let text = "hello @file world";
    let plain = TextElement::new(ByteRange { start: 6, end: 11 }, None);
    assert_eq!(plain.placeholder(text), Some("@file"));
    assert_eq!(plain._placeholder_for_conversion_only(), None);
    let mut named = TextElement::new(ByteRange::from(6..11), Some("[file]".to_string()));
    assert_eq!(named.placeholder(text), Some("[file]"));
    named.set_placeholder(None);
    assert_eq!(named.placeholder(text), Some("@file"));
    let out_of_range = TextElement::new(ByteRange { start: 6, end: 100 }, None);
    assert_eq!(out_of_range.placeholder(text), None);
    let moved = plain.map_range(|r| ByteRange { start: r.start + 1, end: r.end });
    assert_eq!(moved.byte_range, ByteRange { start: 7, end: 11 });
    assert_eq!(moved.placeholder(text), Some("file"));
}
