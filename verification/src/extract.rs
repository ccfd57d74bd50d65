//! How the lines of a rollout update what the store keeps about a thread.
use vstd::prelude::*;
use crate::models::{ContentItem, ResponseItem};
use crate::openai_models::ReasoningEffort;
use crate::protocol::{SessionMetaLine, TurnContextItem};
use crate::rollout::{RolloutEvent, RolloutItem};
use crate::text::{
    chars_of, clone_opt_string, find, find_chars, str_eq, string_from_chars, trim, trim_bounds,
};
use crate::thread_metadata::{opt_view, session_source_to_string, source_text, ThreadMetadata};

verus! {

/// What a metadata record holds, as plain values.
pub struct ThreadMetadataView {
    pub id: Seq<char>,
    pub rollout_path: Seq<char>,
    pub created_at: i64,
    pub updated_at: i64,
    pub source: Seq<char>,
    pub model_provider: Seq<char>,
    pub model: Option<Seq<char>>,
    pub reasoning_effort: Option<ReasoningEffort>,
    pub cwd: Seq<char>,
    pub cli_version: Seq<char>,
    pub title: Seq<char>,
    pub preview: Option<Seq<char>>,
    pub tokens_used: i64,
    pub first_user_message: Option<Seq<char>>,
    pub archived_at: Option<i64>,
    pub git_sha: Option<Seq<char>>,
    pub git_branch: Option<Seq<char>>,
    pub git_origin_url: Option<Seq<char>>,
}

impl View for ThreadMetadata {
    type V = ThreadMetadataView;

    open spec fn view(&self) -> ThreadMetadataView {
        ThreadMetadataView {
            id: self.id.text(),
            rollout_path: self.rollout_path@,
            created_at: self.created_at,
            updated_at: self.updated_at,
            source: self.source@,
            model_provider: self.model_provider@,
            model: opt_view(self.model),
            reasoning_effort: self.reasoning_effort,
            cwd: self.cwd@,
            cli_version: self.cli_version@,
            title: self.title@,
            preview: opt_view(self.preview),
            tokens_used: self.tokens_used,
            first_user_message: opt_view(self.first_user_message),
            archived_at: self.archived_at,
            git_sha: opt_view(self.git_sha),
            git_branch: opt_view(self.git_branch),
            git_origin_url: opt_view(self.git_origin_url),
        }
    }
}

/// The preview of a message that holds only images.
pub const IMAGE_ONLY_USER_MESSAGE_PLACEHOLDER: &'static str = "[Image]";

/// The heading after which a user message states its request.
pub const USER_MESSAGE_BEGIN: &'static str = "## My request for Codex:";

/// The text parts of a message, written one after the other.
pub open spec fn input_text_of(content: Seq<ContentItem>) -> Seq<char>
    decreases content.len(),
{
    if content.len() == 0 {
        Seq::empty()
    } else {
        input_text_of(content.drop_last()) + match content.last() {
            ContentItem::InputText { text } => text@,
            _ => Seq::empty(),
        }
    }
}

/// Whether a message holds an image.
pub open spec fn has_image(content: Seq<ContentItem>) -> bool {
    exists|i: int| 0 <= i < content.len() && #[trigger] content[i] is InputImage
}

/// The request of a user message: what follows the heading when there is
/// one, else the whole text, trimmed.
#[verifier::opaque]
pub open spec fn stripped_title(text: Seq<char>) -> Seq<char> {
    match find(text, USER_MESSAGE_BEGIN@) {
        Some(i) => trim(text.subrange(i + USER_MESSAGE_BEGIN@.len(), text.len() as int)),
        None => trim(text),
    }
}

/// The preview and title a user message gives a thread: its request for
/// both, or a placeholder preview and no title for a message of images only.
pub open spec fn user_preview_and_title(item: ResponseItem) -> Option<(Seq<char>, Seq<char>)> {
    match item {
        ResponseItem::Message { role, content, .. } => if role@ != "user"@ {
            None
        } else {
            let title = stripped_title(input_text_of(content@));
            if title.len() > 0 {
                Some((title, title))
            } else if has_image(content@) {
                Some((IMAGE_ONLY_USER_MESSAGE_PLACEHOLDER@, Seq::empty()))
            } else {
                None
            }
        },
        _ => None,
    }
}

/// The request of a user message's text.
pub fn strip_user_message_prefix(text: &str) -> (r: String)
    ensures
        r@ == stripped_title(text@),
{
    let chars = chars_of(text);
    let begin = chars_of(USER_MESSAGE_BEGIN);
    let found = find_chars(&chars, &begin);
    match found {
        Some(idx) => {
            let n = chars.len();
            assert(crate::text::occurs_at(chars@, begin@, idx as int));
            let start = idx + begin.len();
            let rest = string_from_chars(&chars, start, n);
            let r = crate::text::trim_str(rest.as_str());
            proof {
                lemma_stripped_title_found(text@, idx as int);
            }
            r
        },
        None => {
            proof {
                lemma_stripped_title_missing(text@);
            }
            crate::text::trim_str(text)
        },
    }
}

proof fn lemma_stripped_title_found(text: Seq<char>, idx: int)
    requires
        find(text, USER_MESSAGE_BEGIN@) == Some(idx),
    ensures
        stripped_title(text) == trim(text.subrange(idx + USER_MESSAGE_BEGIN@.len(), text.len() as int)),
{
    reveal(stripped_title);
    reveal(find);
}

proof fn lemma_stripped_title_missing(text: Seq<char>)
    requires
        find(text, USER_MESSAGE_BEGIN@) is None,
    ensures
        stripped_title(text) == trim(text),
{
    reveal(stripped_title);
    reveal(find);
}

/// The preview and title a history item gives a thread, if it is a user
/// message with a request or an image.
pub fn user_response_item_preview_and_title(item: &ResponseItem) -> (r: Option<(String, String)>)
    ensures
        user_preview_and_title(*item) matches Some(p) ==> (r matches Some(q) && q.0@ == p.0 && q.1@
            == p.1),
        user_preview_and_title(*item) is None ==> r is None,
{
    let (role, content) = match item {
        ResponseItem::Message { role, content, .. } => (role, content),
        _ => return None,
    };
    if !str_eq(role.as_str(), "user") {
        return None;
    }
    let mut text = String::new();
    let mut image = false;
    let mut i: usize = 0;
    while i < content.len()
        invariant
            i <= content.len(),
            text@ == input_text_of(content@.take(i as int)),
            image == exists|j: int| 0 <= j < i && #[trigger] content@[j] is InputImage,
        decreases content.len() - i,
    {
        proof {
            assert(content@.take(i + 1).drop_last() =~= content@.take(i as int));
        }
        match &content[i] {
            ContentItem::InputText { text: part } => text.append(part.as_str()),
            ContentItem::InputImage { .. } => {
                image = true;
            },
            ContentItem::OutputText { .. } => {},
        }
        i = i + 1;
    }
    proof {
        assert(content@.take(content@.len() as int) =~= content@);
    }
    let title = strip_user_message_prefix(text.as_str());
    if title.unicode_len() > 0 {
        let preview = title.clone();
        Some((preview, title))
    } else if image {
        Some((String::from_str(IMAGE_ONLY_USER_MESSAGE_PLACEHOLDER), String::new()))
    } else {
        None
    }
}

/// Whether a rollout line can change a thread's metadata.
pub open spec fn affects_metadata(item: RolloutItem) -> bool {
    match item {
        RolloutItem::SessionMeta(_) => true,
        RolloutItem::TurnContext(_) => true,
        RolloutItem::EventMsg(RolloutEvent::TokenCount { .. }) => true,
        RolloutItem::ResponseItem(r) => user_preview_and_title(r) is Some,
        _ => false,
    }
}

/// Whether a rollout line can change a thread's metadata.
pub fn rollout_item_affects_thread_metadata(item: &RolloutItem) -> (r: bool)
    ensures
        r == affects_metadata(*item),
{
    match item {
        RolloutItem::SessionMeta(_) => true,
        RolloutItem::TurnContext(_) => true,
        RolloutItem::EventMsg(RolloutEvent::TokenCount { .. }) => true,
        RolloutItem::ResponseItem(r) => user_response_item_preview_and_title(r).is_some(),
        _ => false,
    }
}

/// The record after the session's metadata line, which applies only to the
/// same thread: its source, and its provider, version, directory and git
/// details where the line has them.
pub open spec fn after_session_meta(v: ThreadMetadataView, line: SessionMetaLine) -> ThreadMetadataView {
    if v.id != line.meta.id.text() {
        v
    } else {
        let v1 = ThreadMetadataView { source: source_text(line.meta.source), ..v };
        let v2 = match line.meta.model_provider {
            Some(p) => ThreadMetadataView { model_provider: p@, ..v1 },
            None => v1,
        };
        let v3 = if line.meta.cli_version@.len() > 0 {
            ThreadMetadataView { cli_version: line.meta.cli_version@, ..v2 }
        } else {
            v2
        };
        let v4 = if line.meta.cwd@.len() > 0 {
            ThreadMetadataView { cwd: line.meta.cwd@, ..v3 }
        } else {
            v3
        };
        match line.git {
            Some(g) => ThreadMetadataView {
                git_sha: match g.commit_hash {
                    Some(sha) => Some(sha.0@),
                    None => None,
                },
                git_branch: opt_view(g.branch),
                git_origin_url: opt_view(g.repository_url),
                ..v4
            },
            None => v4,
        }
    }
}

/// The record after a turn's settings: its directory when none is known,
/// its model and its reasoning effort.
pub open spec fn after_turn_context(v: ThreadMetadataView, t: TurnContextItem) -> ThreadMetadataView {
    ThreadMetadataView {
        cwd: if v.cwd.len() == 0 {
            t.cwd@
        } else {
            v.cwd
        },
        model: Some(t.model@),
        reasoning_effort: t.effort,
        ..v
    }
}

/// The record after an event: a token count sets the tokens used (never
/// below zero).
pub open spec fn after_event(v: ThreadMetadataView, e: RolloutEvent) -> ThreadMetadataView {
    match e {
        RolloutEvent::TokenCount { info: Some(info) } => ThreadMetadataView {
            tokens_used: if info.total_token_usage.total_tokens > 0 {
                info.total_token_usage.total_tokens
            } else {
                0
            },
            ..v
        },
        _ => v,
    }
}

/// The record after a history item: a user message fills the first message
/// and the preview when they are unset, and the title when it is empty.
pub open spec fn after_response_item(v: ThreadMetadataView, item: ResponseItem) -> ThreadMetadataView {
    match user_preview_and_title(item) {
        None => v,
        Some(p) => ThreadMetadataView {
            first_user_message: if v.first_user_message is None {
                Some(p.0)
            } else {
                v.first_user_message
            },
            preview: if v.preview is None {
                Some(p.0)
            } else {
                v.preview
            },
            title: if v.title.len() == 0 && p.1.len() > 0 {
                p.1
            } else {
                v.title
            },
            ..v
        },
    }
}

/// The record after one rollout line; a record left without a provider gets
/// the default one.
pub open spec fn after_rollout_item(v: ThreadMetadataView, item: RolloutItem, default_provider: Seq<char>) -> ThreadMetadataView {
    let w = match item {
        RolloutItem::SessionMeta(line) => after_session_meta(v, line),
        RolloutItem::TurnContext(t) => after_turn_context(v, t),
        RolloutItem::EventMsg(e) => after_event(v, e),
        RolloutItem::ResponseItem(r) => after_response_item(v, r),
        RolloutItem::Compacted(_) => v,
    };
    if w.model_provider.len() == 0 {
        ThreadMetadataView { model_provider: default_provider, ..w }
    } else {
        w
    }
}

fn apply_session_meta_from_item(metadata: &mut ThreadMetadata, meta_line: &SessionMetaLine)
    ensures
        final(metadata)@ == after_session_meta(old(metadata)@, *meta_line),
{
    if !metadata.id.same_as(&meta_line.meta.id) {
        return;
    }
    metadata.source = session_source_to_string(&meta_line.meta.source);
    if let Some(provider) = &meta_line.meta.model_provider {
        metadata.model_provider = provider.clone();
    }
    if meta_line.meta.cli_version.unicode_len() > 0 {
        metadata.cli_version = meta_line.meta.cli_version.clone();
    }
    if meta_line.meta.cwd.unicode_len() > 0 {
        metadata.cwd = meta_line.meta.cwd.clone();
    }
    if let Some(git) = &meta_line.git {
        metadata.git_sha = match &git.commit_hash {
            Some(sha) => Some(sha.0.clone()),
            None => None,
        };
        metadata.git_branch = clone_opt_string(&git.branch);
        metadata.git_origin_url = clone_opt_string(&git.repository_url);
    }
}

fn apply_turn_context(metadata: &mut ThreadMetadata, turn_ctx: &TurnContextItem)
    ensures
        final(metadata)@ == after_turn_context(old(metadata)@, *turn_ctx),
{
    if metadata.cwd.unicode_len() == 0 {
        metadata.cwd = turn_ctx.cwd.clone();
    }
    metadata.model = Some(turn_ctx.model.clone());
    metadata.reasoning_effort = turn_ctx.effort;
}

fn apply_event_msg(metadata: &mut ThreadMetadata, event: &RolloutEvent)
    ensures
        final(metadata)@ == after_event(old(metadata)@, *event),
{
    match event {
        RolloutEvent::TokenCount { info: Some(info) } => {
            let total = info.total_token_usage.total_tokens;
            metadata.tokens_used = if total > 0 {
                total
            } else {
                0
            };
        },
        _ => {},
    }
}

fn apply_response_item(metadata: &mut ThreadMetadata, item: &ResponseItem)
    ensures
        final(metadata)@ == after_response_item(old(metadata)@, *item),
{
    let (preview, title) = match user_response_item_preview_and_title(item) {
        Some(p) => p,
        None => return,
    };
    if metadata.first_user_message.is_none() {
        metadata.first_user_message = Some(preview.clone());
    }
    if metadata.preview.is_none() {
        metadata.preview = Some(preview);
    }
    if metadata.title.unicode_len() == 0 && title.unicode_len() > 0 {
        metadata.title = title;
    }
}

/// Updates a thread's metadata with one line of its rollout.
pub fn apply_rollout_item(metadata: &mut ThreadMetadata, item: &RolloutItem, default_provider: &str)
    ensures
        final(metadata)@ == after_rollout_item(old(metadata)@, *item, default_provider@),
{
    match item {
        RolloutItem::SessionMeta(meta_line) => apply_session_meta_from_item(metadata, meta_line),
        RolloutItem::TurnContext(turn_ctx) => apply_turn_context(metadata, turn_ctx),
        RolloutItem::EventMsg(event) => apply_event_msg(metadata, event),
        RolloutItem::ResponseItem(response) => apply_response_item(metadata, response),
        RolloutItem::Compacted(_) => {},
    }
    if metadata.model_provider.unicode_len() == 0 {
        metadata.model_provider = String::from_str(default_provider);
    }
}

/// A line that cannot change the metadata leaves it as it was, but for a
/// missing provider.
pub proof fn law_unaffecting_item_keeps_metadata(v: ThreadMetadataView, item: RolloutItem, default_provider: Seq<char>)
    requires
        !affects_metadata(item),
        v.model_provider.len() > 0,
    ensures
        after_rollout_item(v, item, default_provider) == v,
{
}

/// The first user message, once known, is never replaced by a later line.
pub proof fn law_first_user_message_is_kept(v: ThreadMetadataView, item: RolloutItem, default_provider: Seq<char>)
    requires
        v.first_user_message is Some,
    ensures
        after_rollout_item(v, item, default_provider).first_user_message == v.first_user_message,
{
}


/// A turn's settings line records that turn's model and reasoning effort,
/// whatever was recorded before, so the latest turn's model is the one shown;
/// the directory is taken from it only when none is known yet.
pub proof fn law_turn_context_sets_model(v: ThreadMetadataView, t: TurnContextItem, default_provider: Seq<char>)
    ensures
        after_rollout_item(v, RolloutItem::TurnContext(t), default_provider).model == Some(t.model@),
        after_rollout_item(v, RolloutItem::TurnContext(t), default_provider).reasoning_effort == t.effort,
        after_rollout_item(v, RolloutItem::TurnContext(t), default_provider).cwd == if v.cwd.len() == 0 {
            t.cwd@
        } else {
            v.cwd
        },
{
}

} // verus!
