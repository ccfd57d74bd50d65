//! The standalone web search tool: what a call's commands amount to, which
//! recent messages go with a search, and what the tool answers.
use vstd::prelude::*;
use crate::context::{is_user_message, is_user_turn_message};
use crate::models::{
    ContentItem, FunctionCallOutputBody, FunctionCallOutputContentItem, FunctionCallOutputPayload,
    ResponseInputItem, ResponseItem,
};
use crate::text::str_eq;

verus! {

/// The namespace of the web tools.
pub const WEB_NAMESPACE: &'static str = "web_run";

/// The name of the search tool in its namespace.
pub const RUN_TOOL_NAME: &'static str = "run";

/// The most tokens of assistant text sent with a search.
pub const ASSISTANT_CONTEXT_TOKEN_LIMIT: usize = 1_000;

/// What the model is told the tool does.
pub const WEB_RUN_DESCRIPTION: &'static str = "Tool for accessing the internet. Use search_query, image_query, open, click, find, screenshot, finance, weather, sports, time, and response_length to retrieve current information. Search settings use direct standalone web access only.";

/// What the model is told the tool does.
pub fn web_run_description() -> (r: String)
    ensures
        r@ == WEB_RUN_DESCRIPTION@,
{
    String::from_str(WEB_RUN_DESCRIPTION)
}

/// One search of a call.
#[derive(Debug, Clone, PartialEq, Eq)]
pub struct SearchQuery {
    pub q: String,
    pub recency: Option<u32>,
    pub domains: Option<Vec<String>>,
}

/// A page to open, by URL or by a reference to an earlier result.
#[derive(Debug, Clone, PartialEq, Eq)]
pub struct OpenOperation {
    pub ref_id: String,
}

/// A pattern to find in a page.
#[derive(Debug, Clone, PartialEq, Eq)]
pub struct FindOperation {
    pub ref_id: String,
    pub pattern: String,
}

/// The commands of a call, as far as the tool's summary of it reads them.
#[derive(Debug, Clone, PartialEq, Eq)]
pub struct SearchCommands {
    pub search_query: Option<Vec<SearchQuery>>,
    pub image_query: Option<Vec<SearchQuery>>,
    pub open: Option<Vec<OpenOperation>>,
    pub find: Option<Vec<FindOperation>>,
}

/// What a call does, as reported to the client.
#[derive(Debug, Clone, PartialEq, Eq)]
pub enum WebSearchAction {
    Search { query: Option<String>, queries: Option<Vec<String>> },
    OpenPage { url: Option<String> },
    FindInPage { url: Option<String>, pattern: Option<String> },
    Other,
}

/// Whether `url::Url::parse` reads `s` as an absolute URL.
pub uninterp spec fn parses_as_url(s: Seq<char>) -> bool;

/// `url::Url::parse`, keeping only whether it succeeded.
#[verifier::external_body]
fn url_parses(s: &str) -> (r: bool)
    ensures
        r == parses_as_url(s@),
{
    url::Url::parse(s).is_ok()
}

/// A reference that is a URL, as it was written; none for a reference to
/// an earlier result.
pub fn literal_url(ref_id: &str) -> (r: Option<String>)
    ensures
        parses_as_url(ref_id@) ==> (r matches Some(u) && u@ == ref_id@),
        !parses_as_url(ref_id@) ==> r is None,
{
    if url_parses(ref_id) {
        Some(String::from_str(ref_id))
    } else {
        None
    }
}

/// The texts of a list of queries.
pub open spec fn query_texts(queries: Seq<SearchQuery>) -> Seq<Seq<char>> {
    queries.map_values(|q: SearchQuery| q.q@)
}

/// Whether an action is a search of exactly the given query texts: one
/// query reported alone, several as a list.
pub open spec fn is_search_of(a: WebSearchAction, texts: Seq<Seq<char>>) -> bool {
    if texts.len() == 1 {
        a matches WebSearchAction::Search { query: Some(q), queries: None } && q@ == texts[0]
    } else {
        a matches WebSearchAction::Search { query: None, queries: Some(qs) } && qs@.len() == texts.len()
            && forall|i: int| 0 <= i < texts.len() ==> (#[trigger] qs@[i])@ == texts[i]
    }
}

/// The search a list of queries amounts to; none for an empty list.
pub fn query_action(queries: &Vec<SearchQuery>) -> (r: Option<WebSearchAction>)
    ensures
        queries@.len() == 0 ==> r is None,
        queries@.len() > 0 ==> (r matches Some(a) && is_search_of(a, query_texts(queries@))),
{
    if queries.len() == 0 {
        return None;
    }
    if queries.len() == 1 {
        return Some(WebSearchAction::Search { query: Some(queries[0].q.clone()), queries: None });
    }
    let mut texts: Vec<String> = Vec::new();
    let mut i: usize = 0;
    while i < queries.len()
        invariant
            i <= queries.len(),
            texts@.len() == i,
            forall|j: int| 0 <= j < i ==> (#[trigger] texts@[j])@ == queries@[j].q@,
        decreases queries.len() - i,
    {
        texts.push(queries[i].q.clone());
        i = i + 1;
    }
    Some(WebSearchAction::Search { query: None, queries: Some(texts) })
}

/// Whether a list is present and not empty.
pub open spec fn non_empty<T>(v: Option<Vec<T>>) -> bool {
    v matches Some(x) && x@.len() > 0
}

/// What a call's commands amount to, taking the first that applies: its web
/// searches, its image searches, opening a page given by URL, finding a
/// pattern in a page; otherwise something else.
pub open spec fn action_kind(c: SearchCommands) -> int {
    if non_empty(c.search_query) {
        0
    } else if non_empty(c.image_query) {
        1
    } else if non_empty(c.open) && parses_as_url(c.open.unwrap()@[0].ref_id@) {
        2
    } else if non_empty(c.find) {
        3
    } else {
        4
    }
}

/// What a call does, as reported to the client.
pub fn command_action(commands: &SearchCommands) -> (r: WebSearchAction)
    ensures
        action_kind(*commands) == 0 ==> is_search_of(r, query_texts(commands.search_query.unwrap()@)),
        action_kind(*commands) == 1 ==> is_search_of(r, query_texts(commands.image_query.unwrap()@)),
        action_kind(*commands) == 2 ==> (r matches WebSearchAction::OpenPage { url: Some(u) } && u@
            == commands.open.unwrap()@[0].ref_id@),
        action_kind(*commands) == 3 ==> ({
            let op = commands.find.unwrap()@[0];
            r matches WebSearchAction::FindInPage { url, pattern: Some(p) } && p@ == op.pattern@ && (
            parses_as_url(op.ref_id@) ==> (url matches Some(u) && u@ == op.ref_id@)) && (
            !parses_as_url(op.ref_id@) ==> url is None)
        }),
        action_kind(*commands) == 4 ==> r == WebSearchAction::Other,
{
    if let Some(queries) = &commands.search_query {
        if let Some(action) = query_action(queries) {
            return action;
        }
    }
    if let Some(queries) = &commands.image_query {
        if let Some(action) = query_action(queries) {
            return action;
        }
    }
    if let Some(operations) = &commands.open {
        if operations.len() > 0 {
            if let Some(url) = literal_url(operations[0].ref_id.as_str()) {
                return WebSearchAction::OpenPage { url: Some(url) };
            }
        }
    }
    if let Some(operations) = &commands.find {
        if operations.len() > 0 {
            return WebSearchAction::FindInPage {
                url: literal_url(operations[0].ref_id.as_str()),
                pattern: Some(operations[0].pattern.clone()),
            };
        }
    }
    WebSearchAction::Other
}

/// Whether a history item is a message of the given role.
pub open spec fn has_role(item: ResponseItem, role: Seq<char>) -> bool {
    item matches ResponseItem::Message { role: r, .. } && r@ == role
}

/// Whether a history item is a message of the user.
pub fn is_user_role_message(item: &ResponseItem) -> (r: bool)
    ensures
        r == has_role(*item, "user"@),
{
    match item {
        ResponseItem::Message { role, .. } => str_eq(role.as_str(), "user"),
        _ => false,
    }
}

/// The indexes of the user messages of `s`, in order.
pub open spec fn user_role_positions(s: Seq<ResponseItem>) -> Seq<int>
    decreases s.len(),
{
    if s.len() == 0 {
        Seq::empty()
    } else {
        let earlier = user_role_positions(s.drop_last());
        if has_role(s.last(), "user"@) {
            earlier.push(s.len() - 1)
        } else {
            earlier
        }
    }
}

proof fn lemma_user_role_positions(s: Seq<ResponseItem>)
    ensures
        forall|k: int|
            0 <= k < user_role_positions(s).len() ==> 0 <= #[trigger] user_role_positions(s)[k]
                < s.len(),
        forall|a: int, b: int|
            0 <= a < b < user_role_positions(s).len() ==> #[trigger] user_role_positions(s)[a]
                < #[trigger] user_role_positions(s)[b],
    decreases s.len(),
{
    if s.len() > 0 {
        let prefix = s.drop_last();
        lemma_user_role_positions(prefix);
        let e = user_role_positions(prefix);
        let p = user_role_positions(s);
        assert forall|k: int| 0 <= k < p.len() implies 0 <= #[trigger] p[k] < s.len() by {
            if k < e.len() {
                assert(p[k] == e[k]);
            }
        }
        assert forall|a: int, b: int| 0 <= a < b < p.len() implies #[trigger] p[a] < #[trigger] p[b] by {
            if b < e.len() {
                assert(p[a] == e[a] && p[b] == e[b]);
            } else {
                assert(p[a] == e[a]);
            }
        }
    }
}

/// The tail of the history that a search sees: from the user's `n`-th
/// message from the end (or the first one when there are fewer) up to the
/// last user message; nothing when `n` is zero or there is no user message.
pub open spec fn retained_tail(s: Seq<ResponseItem>, n: usize) -> Seq<ResponseItem> {
    let p = user_role_positions(s);
    if n == 0 || p.len() == 0 {
        Seq::empty()
    } else {
        let start = if p.len() >= n {
            p[p.len() - n]
        } else {
            p[0]
        };
        s.subrange(start, p.last() + 1)
    }
}

/// Keeps the tail of the history a search sees.
pub fn retain_tail_from_last_n_user_messages(items: &mut Vec<ResponseItem>, user_message_count: usize)
    ensures
        final(items)@ == retained_tail(old(items)@, user_message_count),
{
    let ghost all = items@;
    proof {
        lemma_user_role_positions(all);
    }
    if user_message_count == 0 {
        items.clear();
        return;
    }
    let mut positions: Vec<usize> = Vec::new();
    let mut i: usize = 0;
    while i < items.len()
        invariant
            i <= items.len(),
            items@ == all,
            positions@.len() == user_role_positions(all.take(i as int)).len(),
            forall|k: int|
                0 <= k < positions@.len() ==> positions@[k] as int == #[trigger] user_role_positions(
                    all.take(i as int),
                )[k],
        decreases items.len() - i,
    {
        proof {
            assert(all.take(i + 1).drop_last() =~= all.take(i as int));
            assert(all.take(i + 1).last() == all[i as int]);
        }
        if is_user_role_message(&items[i]) {
            positions.push(i);
        }
        i = i + 1;
    }
    proof {
        assert(all.take(all.len() as int) =~= all);
    }
    if positions.len() == 0 {
        items.clear();
        return;
    }
    let latest_user_idx = positions[positions.len() - 1];
    let earliest = if positions.len() >= user_message_count {
        positions[positions.len() - user_message_count]
    } else {
        positions[0]
    };
    proof {
        let p = user_role_positions(all);
        assert(latest_user_idx as int == p[p.len() - 1]);
        if positions.len() >= user_message_count {
            assert(earliest as int == p[p.len() - user_message_count]);
            if user_message_count > 1 {
                assert(p[p.len() - user_message_count] < p[p.len() - 1]);
            }
        } else {
            assert(earliest as int == p[0]);
            if p.len() > 1 {
                assert(p[0] < p[p.len() - 1]);
            }
        }
        assert(earliest as int <= latest_user_idx);
    }
    items.truncate(latest_user_idx + 1);
    let tail = items.split_off(earliest);
    proof {
        assert(tail@ =~= all.subrange(earliest as int, latest_user_idx + 1));
    }
    *items = tail;
}

/// The messages of the history a search sees: the assistant's messages
/// whole, and the user's own messages with only their text parts.
pub open spec fn visible_message(item: ResponseItem) -> Option<(Seq<char>, Seq<ContentItem>)> {
    match item {
        ResponseItem::Message { role, content, .. } => if role@ == "assistant"@ {
            Some((role@, content@))
        } else if role@ == "user"@ && is_user_message(item) {
            let texts = content@.filter(|c: ContentItem| c is InputText);
            if texts.len() > 0 {
                Some((role@, texts))
            } else {
                None
            }
        } else {
            None
        },
        _ => None,
    }
}

/// Whether `item` is a message with the given role and content.
pub open spec fn is_message_with(item: ResponseItem, role: Seq<char>, content: Seq<ContentItem>) -> bool {
    item matches ResponseItem::Message { role: r, content: c, .. } && r@ == role && c@ == content
}

/// Adds `item` to the messages a search sees, as `visible_message` says.
pub fn push_visible_message(messages: &mut Vec<ResponseItem>, item: &ResponseItem)
    ensures
        match visible_message(*item) {
            Some(v) => final(messages)@.len() == old(messages)@.len() + 1 && final(messages)@.take(
                old(messages)@.len() as int,
            ) == old(messages)@ && is_message_with(final(messages)@.last(), v.0, v.1),
            None => final(messages)@ == old(messages)@,
        },
{
    let ghost before = messages@;
    match item {
        ResponseItem::Message { id, role, content, phase } => {
            let assistant = str_eq(role.as_str(), "assistant");
            let user = !assistant && str_eq(role.as_str(), "user") && is_user_turn_message(item);
            if !assistant && !user {
                return;
            }
            let ghost pred = |c: ContentItem| c is InputText;
            let mut kept: Vec<ContentItem> = Vec::new();
            let mut i: usize = 0;
            while i < content.len()
                invariant
                    i <= content.len(),
                    pred == (|c: ContentItem| c is InputText),
                    assistant ==> kept@ == content@.take(i as int),
                    !assistant ==> kept@ == content@.take(i as int).filter(pred),
                decreases content.len() - i,
            {
                let c = content[i].clone();
                proof {
                    assert(content@.take(i + 1) =~= content@.take(i as int).push(content@[i as int]));
                    content@.take(i as int).lemma_filter_push(content@[i as int], pred);
                }
                if assistant {
                    kept.push(c);
                } else {
                    match c {
                        ContentItem::InputText { .. } => kept.push(c),
                        _ => {},
                    }
                }
                proof {
                    if assistant {
                        assert(kept@ =~= content@.take(i + 1));
                    }
                }
                i = i + 1;
            }
            proof {
                assert(content@.take(content@.len() as int) =~= content@);
            }
            if !assistant && kept.len() == 0 {
                return;
            }
            messages.push(
                ResponseItem::Message {
                    id: crate::text::clone_opt_string(id),
                    role: role.clone(),
                    content: kept,
                    phase: *phase,
                },
            );
            proof {
                assert(messages@.take(before.len() as int) =~= before);
            }
        },
        _ => {},
    }
}

/// Settings handed on to the search service with each request; the library
/// reads none of them.
#[derive(Debug, Clone, PartialEq, Eq, Default)]
pub struct SearchSettings {}

/// The standalone web search tool.
pub struct WebSearchHandler {
    pub settings: SearchSettings,
}

impl WebSearchHandler {
    /// A handler that sends searches with the given settings.
    pub fn new(settings: SearchSettings) -> (r: WebSearchHandler)
        ensures
            r.settings == settings,
    {
        WebSearchHandler { settings }
    }

    /// The tool's namespace and its name in it.
    pub fn tool_name(&self) -> (r: (&'static str, &'static str))
        ensures
            r.0@ == WEB_NAMESPACE@,
            r.1@ == RUN_TOOL_NAME@,
    {
        (WEB_NAMESPACE, RUN_TOOL_NAME)
    }

    /// Searches may run alongside other calls.
    pub fn supports_parallel_tool_calls(&self) -> (r: bool)
        ensures
            r,
    {
        true
    }
}

/// The tool's encrypted answer.
#[derive(Debug, Clone, PartialEq, Eq)]
pub struct EncryptedSearchOutput {
    pub encrypted_output: String,
}

impl EncryptedSearchOutput {
    /// What is logged for the call.
    pub fn log_preview(&self) -> (r: String)
        ensures
            r@ == "[encrypted standalone web search output]"@,
    {
        String::from_str("[encrypted standalone web search output]")
    }

    /// The call succeeded once it has an answer.
    pub fn success_for_logging(&self) -> (r: bool)
        ensures
            r,
    {
        true
    }

    /// The answer to the call: one encrypted part.
    pub fn to_response_item(&self, call_id: &str) -> (r: ResponseInputItem)
        ensures
            r matches ResponseInputItem::FunctionCallOutput { call_id: c, output } && c@ == call_id@
                && output.success is None && (output.body matches FunctionCallOutputBody::ContentItems(
                items,
            ) && items@.len() == 1 && items@[0] == (FunctionCallOutputContentItem::EncryptedContent {
                encrypted_content: self.encrypted_output,
            })),
    {
        let mut items: Vec<FunctionCallOutputContentItem> = Vec::new();
        items.push(
            FunctionCallOutputContentItem::EncryptedContent {
                encrypted_content: self.encrypted_output.clone(),
            },
        );
        ResponseInputItem::FunctionCallOutput {
            call_id: String::from_str(call_id),
            output: FunctionCallOutputPayload {
                body: FunctionCallOutputBody::ContentItems(items),
                success: None,
            },
        }
    }
}

} // verus!
