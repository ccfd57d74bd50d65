//! Context the agent places in the conversation for the model: the
//! environment it works in, skill instructions, and the markers by which such
//! context is told apart from what the user wrote.
use vstd::prelude::*;
use crate::models::{ContentItem, ResponseItem};
use crate::additional_context::fragment_text;
use crate::protocol::{AdditionalContextKind, AgentStatus, TurnContextItem};
use crate::thread_metadata::{json_quoted, json_string};
use crate::text::{
    chars_of, ends_with_chars, has_prefix, has_suffix, lemma_trim_of_unpadded, starts_with_chars,
    str_eq, trim, trim_str,
};
use crate::util::{resolve_path, spec_is_absolute, spec_join_relative};

verus! {

/// Lines joined with a newline between each two.
pub open spec fn join_lines(lines: Seq<Seq<char>>) -> Seq<char>
    decreases lines.len(),
{
    if lines.len() == 0 {
        Seq::empty()
    } else if lines.len() == 1 {
        lines[0]
    } else {
        join_lines(lines.drop_last()) + "\n"@ + lines.last()
    }
}

/// The texts of a list of strings.
pub open spec fn texts(v: Seq<String>) -> Seq<Seq<char>> {
    v.map_values(|s: String| s@)
}

/// The lines of `lines` joined with newlines.
pub fn join_with_newlines(lines: &Vec<String>) -> (r: String)
    ensures
        r@ == join_lines(texts(lines@)),
{
    let mut r = String::new();
    let mut i: usize = 0;
    while i < lines.len()
        invariant
            i <= lines.len(),
            r@ == join_lines(texts(lines@.take(i as int))),
        decreases lines.len() - i,
    {
        proof {
            assert(texts(lines@.take(i + 1)).drop_last() =~= texts(lines@.take(i as int)));
            assert(texts(lines@.take(i + 1)).last() == lines@[i as int]@);
            reveal_strlit("\n");
        }
        if i > 0 {
            r.append("\n");
        }
        r.append(lines[i].as_str());
        proof {
            if i == 0 {
                assert(texts(lines@.take(0)) =~= Seq::<Seq<char>>::empty());
                assert(r@ =~= texts(lines@.take(1))[0]);
            }
        }
        i = i + 1;
    }
    proof {
        assert(lines@.take(lines.len() as int) =~= lines@);
    }
    r
}

/// A fragment of context as it is written: its start marker, its body, its end marker.
pub open spec fn rendered(start: Seq<char>, body: Seq<char>, end: Seq<char>) -> Seq<char> {
    start + body + end
}

/// One environment the turn can work in: a directory and the shell used there.
#[derive(Debug, PartialEq, Eq)]
pub struct EnvironmentContextEnvironment {
    pub cwd: String,
    pub shell: String,
}

impl Clone for EnvironmentContextEnvironment {
    fn clone(&self) -> (r: Self)
        ensures
            r == *self,
    {
        EnvironmentContextEnvironment { cwd: self.cwd.clone(), shell: self.shell.clone() }
    }
}

/// The environments a turn can work in.
#[derive(Debug, Clone, PartialEq, Eq)]
pub enum EnvironmentContextEnvironments {
    Empty,
    Single(EnvironmentContextEnvironment),
    Multiple(Vec<EnvironmentContextEnvironment>),
}

/// Whether `e` describes the environments `v` in order.
pub open spec fn describes(e: EnvironmentContextEnvironments, v: Seq<EnvironmentContextEnvironment>) -> bool {
    match e {
        EnvironmentContextEnvironments::Empty => v.len() == 0,
        EnvironmentContextEnvironments::Single(x) => v.len() == 1 && x == v[0],
        EnvironmentContextEnvironments::Multiple(w) => v.len() >= 2 && w@ == v,
    }
}

/// Whether two lists of environments have the same directories in order.
pub open spec fn same_cwds(a: Seq<EnvironmentContextEnvironment>, b: Seq<EnvironmentContextEnvironment>) -> bool {
    a.len() == b.len() && forall|i: int| 0 <= i < a.len() ==> (#[trigger] a[i]).cwd@ == b[i].cwd@
}

/// Whether two sets of environments differ at most in their shells.
pub open spec fn environments_equal_except_shell(
    a: EnvironmentContextEnvironments,
    b: EnvironmentContextEnvironments,
) -> bool {
    match (a, b) {
        (EnvironmentContextEnvironments::Empty, EnvironmentContextEnvironments::Empty) => true,
        (EnvironmentContextEnvironments::Single(x), EnvironmentContextEnvironments::Single(y)) => x.cwd@
            == y.cwd@,
        (EnvironmentContextEnvironments::Multiple(v), EnvironmentContextEnvironments::Multiple(w)) => same_cwds(v@, w@),
        _ => false,
    }
}

impl EnvironmentContextEnvironments {
    /// The environments of a list: none, one, or several kept in order.
    pub fn from_vec(environments: Vec<EnvironmentContextEnvironment>) -> (r: Self)
        ensures
            describes(r, environments@),
    {
        let ghost orig = environments@;
        let mut environments = environments;
        match environments.pop() {
            None => EnvironmentContextEnvironments::Empty,
            Some(environment) => {
                if environments.len() == 0 {
                    EnvironmentContextEnvironments::Single(environment)
                } else {
                    environments.push(environment);
                    assert(environments@ =~= orig);
                    EnvironmentContextEnvironments::Multiple(environments)
                }
            },
        }
    }

    /// Whether both describe the same directories, whatever their shells.
    pub fn equals_except_shell(&self, other: &Self) -> (r: bool)
        ensures
            r == environments_equal_except_shell(*self, *other),
    {
        match (self, other) {
            (EnvironmentContextEnvironments::Empty, EnvironmentContextEnvironments::Empty) => true,
            (
                EnvironmentContextEnvironments::Single(left),
                EnvironmentContextEnvironments::Single(right),
            ) => str_eq(left.cwd.as_str(), right.cwd.as_str()),
            (
                EnvironmentContextEnvironments::Multiple(left),
                EnvironmentContextEnvironments::Multiple(right),
            ) => {
                if left.len() != right.len() {
                    return false;
                }
                let mut i: usize = 0;
                while i < left.len()
                    invariant
                        i <= left.len(),
                        left.len() == right.len(),
                        environments_equal_except_shell(*self, *other) == same_cwds(left@, right@),
                        forall|j: int| 0 <= j < i ==> (#[trigger] left@[j]).cwd@ == right@[j].cwd@,
                    decreases left.len() - i,
                {
                    if !str_eq(left[i].cwd.as_str(), right[i].cwd.as_str()) {
                        assert(!same_cwds(left@, right@)) by {
                            assert(left@[i as int].cwd@ != right@[i as int].cwd@);
                        }
                        return false;
                    }
                    i = i + 1;
                }
                true
            },
            _ => false,
        }
    }
}

/// The environment context of a turn: where it works, and the date and time
/// zone when known.
#[derive(Debug, Clone, PartialEq, Eq)]
pub struct EnvironmentContext {
    pub environments: EnvironmentContextEnvironments,
    pub current_date: Option<String>,
    pub timezone: Option<String>,
}

/// Whether two optional texts are equal.
pub open spec fn same_opt(a: Option<String>, b: Option<String>) -> bool {
    match (a, b) {
        (None, None) => true,
        (Some(x), Some(y)) => x@ == y@,
        _ => false,
    }
}

fn opt_str_eq(a: &Option<String>, b: &Option<String>) -> (r: bool)
    ensures
        r == same_opt(*a, *b),
{
    match (a, b) {
        (None, None) => true,
        (Some(x), Some(y)) => str_eq(x.as_str(), y.as_str()),
        _ => false,
    }
}

/// The lines of one environment among several.
pub open spec fn environment_block(e: EnvironmentContextEnvironment) -> Seq<Seq<char>> {
    seq![
        "    <environment>"@,
        "      <cwd>"@ + e.cwd@ + "</cwd>"@,
        "      <shell>"@ + e.shell@ + "</shell>"@,
        "    </environment>"@,
    ]
}

/// The lines of several environments, one block each, in order.
pub open spec fn environment_blocks(v: Seq<EnvironmentContextEnvironment>) -> Seq<Seq<char>>
    decreases v.len(),
{
    if v.len() == 0 {
        Seq::empty()
    } else {
        environment_blocks(v.drop_last()) + environment_block(v.last())
    }
}

/// The lines that describe the environments.
pub open spec fn environments_lines(e: EnvironmentContextEnvironments) -> Seq<Seq<char>> {
    match e {
        EnvironmentContextEnvironments::Empty => Seq::empty(),
        EnvironmentContextEnvironments::Single(x) => seq![
            "  <cwd>"@ + x.cwd@ + "</cwd>"@,
            "  <shell>"@ + x.shell@ + "</shell>"@,
        ],
        EnvironmentContextEnvironments::Multiple(v) => seq!["  <environments>"@]
            + environment_blocks(v@) + seq!["  </environments>"@],
    }
}

/// The line of an optional value between two tags, or no line.
pub open spec fn optional_line(open: Seq<char>, close: Seq<char>, value: Option<String>) -> Seq<Seq<char>> {
    match value {
        Some(v) => seq![open + v@ + close],
        None => Seq::empty(),
    }
}

/// All lines of an environment context's body.
pub open spec fn context_lines(c: EnvironmentContext) -> Seq<Seq<char>> {
    environments_lines(c.environments) + optional_line(
        "  <current_date>"@,
        "</current_date>"@,
        c.current_date,
    ) + optional_line("  <timezone>"@, "</timezone>"@, c.timezone)
}

/// The marker that opens an environment context.
pub const ENVIRONMENT_CONTEXT_OPEN_TAG: &'static str = "<environment_context>";

/// The marker that closes an environment context.
pub const ENVIRONMENT_CONTEXT_CLOSE_TAG: &'static str = "</environment_context>";

fn push_line(lines: &mut Vec<String>, parts: &[&str])
    ensures
        final(lines)@.len() == old(lines)@.len() + 1,
        final(lines)@.take(old(lines)@.len() as int) == old(lines)@,
        final(lines)@.last()@ == concat_all(texts_of_strs(parts@)),
{
    let mut s = String::new();
    let mut i: usize = 0;
    while i < parts.len()
        invariant
            i <= parts.len(),
            s@ == concat_all(texts_of_strs(parts@.take(i as int))),
        decreases parts.len() - i,
    {
        s.append(parts[i]);
        proof {
            assert(texts_of_strs(parts@.take(i + 1)).drop_last() =~= texts_of_strs(
                parts@.take(i as int),
            ));
        }
        i = i + 1;
    }
    proof {
        assert(parts@.take(parts.len() as int) =~= parts@);
    }
    lines.push(s);
    proof {
        assert(lines@.take(lines@.len() - 1) =~= old(lines)@);
    }
}

/// The texts of a list of string slices.
pub open spec fn texts_of_strs(v: Seq<&str>) -> Seq<Seq<char>> {
    v.map_values(|s: &str| s@)
}

/// Texts written one after the other.
pub open spec fn concat_all(v: Seq<Seq<char>>) -> Seq<char>
    decreases v.len(),
{
    if v.len() == 0 {
        Seq::empty()
    } else {
        concat_all(v.drop_last()) + v.last()
    }
}

/// What of a context a recorded turn did not already have: a single
/// environment only when its directory moved; several are always kept.
pub open spec fn environment_diff(before: TurnContextItem, after: EnvironmentContext) -> EnvironmentContext {
    EnvironmentContext {
        environments: match after.environments {
            EnvironmentContextEnvironments::Single(x) => if x.cwd@ != before.cwd@ {
                EnvironmentContextEnvironments::Single(x)
            } else {
                EnvironmentContextEnvironments::Empty
            },
            other => other,
        },
        ..after
    }
}

/// Whether two contexts hold the same values, lists compared by their elements.
pub open spec fn same_context(a: EnvironmentContext, b: EnvironmentContext) -> bool {
    &&& match b.environments {
        EnvironmentContextEnvironments::Multiple(v) => a.environments matches EnvironmentContextEnvironments::Multiple(
            w,
        ) && w@ == v@,
        e => a.environments == e,
    }
    &&& a.current_date == b.current_date
    &&& a.timezone == b.timezone
}

impl EnvironmentContext {
    /// The context of a list of environments, a date and a time zone.
    pub fn new(
        environments: Vec<EnvironmentContextEnvironment>,
        current_date: Option<String>,
        timezone: Option<String>,
    ) -> (r: EnvironmentContext)
        ensures
            describes(r.environments, environments@),
            r.current_date == current_date,
            r.timezone == timezone,
    {
        EnvironmentContext {
            environments: EnvironmentContextEnvironments::from_vec(environments),
            current_date,
            timezone,
        }
    }

    /// Whether both contexts agree on everything but the shells.
    pub fn equals_except_shell(&self, other: &EnvironmentContext) -> (r: bool)
        ensures
            r == (environments_equal_except_shell(self.environments, other.environments)
                && same_opt(self.current_date, other.current_date) && same_opt(
                self.timezone,
                other.timezone,
            )),
    {
        self.environments.equals_except_shell(&other.environments) && opt_str_eq(
            &self.current_date,
            &other.current_date,
        ) && opt_str_eq(&self.timezone, &other.timezone)
    }

    /// The context of a recorded turn, working in the turn's directory (taken
    /// from the root when it is relative) with the given shell.
    pub fn from_turn_context_item(turn_context_item: &TurnContextItem, shell: String) -> (r:
        EnvironmentContext)
        ensures
            r.environments matches EnvironmentContextEnvironments::Single(x) && x.shell == shell
                && (spec_is_absolute(turn_context_item.cwd@) ==> x.cwd@
                == turn_context_item.cwd@) && (!spec_is_absolute(turn_context_item.cwd@) ==> x.cwd@
                == spec_join_relative("/"@, turn_context_item.cwd@)),
            r.current_date == turn_context_item.current_date,
            r.timezone == turn_context_item.timezone,
    {
        let cwd = resolve_path("/", turn_context_item.cwd.as_str());
        EnvironmentContext {
            environments: EnvironmentContextEnvironments::Single(
                EnvironmentContextEnvironment { cwd, shell },
            ),
            current_date: turn_context_item.current_date.clone(),
            timezone: turn_context_item.timezone.clone(),
        }
    }

    /// What changed since a recorded turn: a single environment is repeated
    /// only when its directory changed; several are always repeated.
    pub fn diff_from_turn_context_item(before: &TurnContextItem, after: &EnvironmentContext) -> (r:
        EnvironmentContext)
        ensures
            same_context(r, environment_diff(*before, *after)),
    {
        let environments = match &after.environments {
            EnvironmentContextEnvironments::Single(environment) => {
                if !str_eq(before.cwd.as_str(), environment.cwd.as_str()) {
                    EnvironmentContextEnvironments::Single(
                        EnvironmentContextEnvironment {
                            cwd: environment.cwd.clone(),
                            shell: environment.shell.clone(),
                        },
                    )
                } else {
                    EnvironmentContextEnvironments::Empty
                }
            },
            EnvironmentContextEnvironments::Multiple(environments) => {
                let copy = environments.clone();
                assert(copy@ =~= environments@);
                EnvironmentContextEnvironments::Multiple(copy)
            },
            EnvironmentContextEnvironments::Empty => EnvironmentContextEnvironments::Empty,
        };
        EnvironmentContext {
            environments,
            current_date: clone_opt(&after.current_date),
            timezone: clone_opt(&after.timezone),
        }
    }

    /// The lines of the context's body, without the surrounding newlines.
    pub fn body_lines(&self) -> (r: Vec<String>)
        ensures
            texts(r@) == context_lines(*self),
    {
        let mut lines: Vec<String> = Vec::new();
        match &self.environments {
            EnvironmentContextEnvironments::Single(environment) => {
                push_line(&mut lines, &["  <cwd>", environment.cwd.as_str(), "</cwd>"]);
                push_line(&mut lines, &["  <shell>", environment.shell.as_str(), "</shell>"]);
                proof {
                    reveal_with_fuel(concat_all, 4);
                    assert(texts(lines@) =~= environments_lines(self.environments));
                }
            },
            EnvironmentContextEnvironments::Multiple(environments) => {
                push_line(&mut lines, &["  <environments>"]);
                proof {
                    reveal_with_fuel(concat_all, 2);
                    assert(texts(lines@) =~= seq!["  <environments>"@] + environment_blocks(
                        environments@.take(0),
                    ));
                }
                let mut i: usize = 0;
                while i < environments.len()
                    invariant
                        i <= environments.len(),
                        texts(lines@) == seq!["  <environments>"@] + environment_blocks(
                            environments@.take(i as int),
                        ),
                    decreases environments.len() - i,
                {
                    let ghost before = texts(lines@);
                    push_line(&mut lines, &["    <environment>"]);
                    push_line(&mut lines, &["      <cwd>", environments[i].cwd.as_str(), "</cwd>"]);
                    push_line(
                        &mut lines,
                        &["      <shell>", environments[i].shell.as_str(), "</shell>"],
                    );
                    push_line(&mut lines, &["    </environment>"]);
                    proof {
                        reveal_with_fuel(concat_all, 4);
                        assert(environments@.take(i + 1).drop_last() =~= environments@.take(
                            i as int,
                        ));
                        assert(texts(lines@) =~= before + environment_block(environments@[i as int]));
                    }
                    i = i + 1;
                }
                let ghost before = texts(lines@);
                push_line(&mut lines, &["  </environments>"]);
                proof {
                    reveal_with_fuel(concat_all, 2);
                    assert(environments@.take(environments@.len() as int) =~= environments@);
                    assert(texts(lines@) =~= before + seq!["  </environments>"@]);
                }
            },
            EnvironmentContextEnvironments::Empty => {
                proof {
                    assert(texts(lines@) =~= environments_lines(self.environments));
                }
            },
        }
        let ghost env_lines = texts(lines@);
        if let Some(current_date) = &self.current_date {
            push_line(&mut lines, &["  <current_date>", current_date.as_str(), "</current_date>"]);
            proof {
                reveal_with_fuel(concat_all, 4);
            }
        }
        proof {
            assert(texts(lines@) =~= env_lines + optional_line(
                "  <current_date>"@,
                "</current_date>"@,
                self.current_date,
            ));
        }
        let ghost date_lines = texts(lines@);
        if let Some(timezone) = &self.timezone {
            push_line(&mut lines, &["  <timezone>", timezone.as_str(), "</timezone>"]);
            proof {
                reveal_with_fuel(concat_all, 4);
            }
        }
        proof {
            assert(texts(lines@) =~= date_lines + optional_line(
                "  <timezone>"@,
                "</timezone>"@,
                self.timezone,
            ));
        }
        lines
    }

    /// The body of the context: its lines between a leading and a trailing newline.
    pub fn body(&self) -> (r: String)
        ensures
            r@ == "\n"@ + join_lines(context_lines(*self)) + "\n"@,
    {
        let lines = self.body_lines();
        let joined = join_with_newlines(&lines);
        let mut r = String::from_str("\n");
        r.append(joined.as_str());
        r.append("\n");
        r
    }

    /// The context as it is written into the conversation.
    pub fn render(&self) -> (r: String)
        ensures
            r@ == rendered(
                ENVIRONMENT_CONTEXT_OPEN_TAG@,
                "\n"@ + join_lines(context_lines(*self)) + "\n"@,
                ENVIRONMENT_CONTEXT_CLOSE_TAG@,
            ),
    {
        let mut r = String::from_str(ENVIRONMENT_CONTEXT_OPEN_TAG);
        let body = self.body();
        r.append(body.as_str());
        r.append(ENVIRONMENT_CONTEXT_CLOSE_TAG);
        r
    }
}


/// An environment context as it is written into the conversation.
pub open spec fn rendered_context(c: EnvironmentContext) -> Seq<char> {
    rendered(
        ENVIRONMENT_CONTEXT_OPEN_TAG@,
        "\n"@ + join_lines(context_lines(c)) + "\n"@,
        ENVIRONMENT_CONTEXT_CLOSE_TAG@,
    )
}

/// The marker that opens a note that the user interrupted a turn.
pub const TURN_ABORTED_OPEN_TAG: &'static str = "<turn_aborted";

/// The prefix of the tag of context a client supplied without vouching for it.
pub const EXTERNAL_CONTEXT_TAG_PREFIX: &'static str = "<external_";

/// Whether a user-role text is context the agent wrote rather than words of
/// the user: once trimmed, it is an environment context, a note of an
/// interrupted turn, or untrusted context from a client.
pub open spec fn is_contextual_user_text(text: Seq<char>) -> bool {
    let t = trim(text);
    ||| has_prefix(t, ENVIRONMENT_CONTEXT_OPEN_TAG@) && has_suffix(t, ENVIRONMENT_CONTEXT_CLOSE_TAG@)
    ||| has_prefix(t, TURN_ABORTED_OPEN_TAG@) && has_suffix(t, ">"@)
    ||| has_prefix(t, EXTERNAL_CONTEXT_TAG_PREFIX@) && has_suffix(t, ">"@)
}

/// Whether a content item is such context.
pub open spec fn is_contextual_fragment(c: ContentItem) -> bool {
    c matches ContentItem::InputText { text } && is_contextual_user_text(text@)
}

/// Whether a text of a user message is context the agent wrote.
pub fn is_standard_contextual_user_text(text: &str) -> (r: bool)
    ensures
        r == is_contextual_user_text(text@),
{
    let trimmed = trim_str(text);
    let t = chars_of(trimmed.as_str());
    let close = chars_of(">");
    let env = starts_with_chars(&t, &chars_of(ENVIRONMENT_CONTEXT_OPEN_TAG)) && ends_with_chars(
        &t,
        &chars_of(ENVIRONMENT_CONTEXT_CLOSE_TAG),
    );
    let aborted = starts_with_chars(&t, &chars_of(TURN_ABORTED_OPEN_TAG)) && ends_with_chars(
        &t,
        &close,
    );
    let external = starts_with_chars(&t, &chars_of(EXTERNAL_CONTEXT_TAG_PREFIX)) && ends_with_chars(
        &t,
        &close,
    );
    env || aborted || external
}

/// Whether a content item is context the agent wrote into a user message.
pub fn is_contextual_user_fragment(content_item: &ContentItem) -> (r: bool)
    ensures
        r == is_contextual_fragment(*content_item),
{
    match content_item {
        ContentItem::InputText { text } => is_standard_contextual_user_text(text.as_str()),
        _ => false,
    }
}

/// Whether a history item is a message the user wrote: a user-role message
/// none of whose parts is context the agent wrote.
pub open spec fn is_user_message(item: ResponseItem) -> bool {
    item matches ResponseItem::Message { role, content, .. } && role@ == "user"@ && forall|i: int|
        0 <= i < content@.len() ==> !is_contextual_fragment(#[trigger] content@[i])
}

/// Whether a history item is a message the user wrote.
pub fn is_user_turn_message(item: &ResponseItem) -> (r: bool)
    ensures
        r == is_user_message(*item),
{
    match item {
        ResponseItem::Message { role, content, .. } => {
            if !str_eq(role.as_str(), "user") {
                return false;
            }
            let mut i: usize = 0;
            while i < content.len()
                invariant
                    i <= content.len(),
                    is_user_message(*item) == forall|j: int|
                        0 <= j < content@.len() ==> !is_contextual_fragment(#[trigger] content@[j]),
                    forall|j: int| 0 <= j < i ==> !is_contextual_fragment(#[trigger] content@[j]),
                decreases content.len() - i,
            {
                if is_contextual_user_fragment(&content[i]) {
                    assert(is_contextual_fragment(content@[i as int]));
                    return false;
                }
                i = i + 1;
            }
            true
        },
        _ => false,
    }
}

/// A note that the user interrupted the turn.
#[derive(Debug, Clone, Copy, PartialEq, Eq, Structural)]
pub struct TurnAborted;

impl TurnAborted {
    /// The note as it is written into the conversation.
    pub fn render(&self) -> (r: String)
        ensures
            r@ == "<turn_aborted />"@,
    {
        String::from_str("<turn_aborted />")
    }
}

/// A message of the given role with the given texts as its parts.
pub open spec fn is_texts_message(item: ResponseItem, role: Seq<char>, sections: Seq<Seq<char>>) -> bool {
    item matches ResponseItem::Message { id, role: r, content, phase } && id is None && phase is None
        && r@ == role && content@.len() == sections.len() && forall|i: int|
        0 <= i < sections.len() ==> (#[trigger] content@[i] matches ContentItem::InputText { text }
            && text@ == sections[i])
}

/// A message of the given role holding one text part per section; nothing
/// when there are no sections.
pub fn build_text_message(role: &str, text_sections: Vec<String>) -> (r: Option<ResponseItem>)
    ensures
        text_sections@.len() == 0 ==> r is None,
        text_sections@.len() > 0 ==> (r matches Some(item) && is_texts_message(
            item,
            role@,
            texts(text_sections@),
        )),
{
    if text_sections.len() == 0 {
        return None;
    }
    let ghost all = text_sections@;
    let mut content: Vec<ContentItem> = Vec::new();
    for text in it: text_sections
        invariant
            all == it.seq(),
            content@.len() == it.index(),
            forall|i: int|
                0 <= i < content@.len() ==> (#[trigger] content@[i] matches ContentItem::InputText {
                    text,
                } && text@ == all[i]@),
    {
        content.push(ContentItem::InputText { text });
    }
    Some(ResponseItem::Message { id: None, role: String::from_str(role), content, phase: None })
}

/// The line that names a sub-agent: its reference, then its nickname when it has one.
pub fn format_subagent_context_line(agent_reference: &str, agent_nickname: Option<&str>) -> (r: String)
    ensures
        r@ == match agent_nickname {
            Some(n) => if n@.len() > 0 {
                "- "@ + agent_reference@ + ": "@ + n@
            } else {
                "- "@ + agent_reference@
            },
            None => "- "@ + agent_reference@,
        },
{
    let mut r = String::from_str("- ");
    r.append(agent_reference);
    match agent_nickname {
        Some(nickname) => {
            if nickname.unicode_len() > 0 {
                r.append(": ");
                r.append(nickname);
            }
        },
        None => {},
    }
    r
}

/// The name under which a sub-agent status is reported.
pub open spec fn agent_status_name(status: AgentStatus) -> Seq<char> {
    match status {
        AgentStatus::PendingInit => "pending_init"@,
        AgentStatus::Running => "running"@,
        AgentStatus::Interrupted => "interrupted"@,
        AgentStatus::Completed(_) => "completed"@,
        AgentStatus::Errored(_) => "errored"@,
        AgentStatus::Shutdown => "shutdown"@,
        AgentStatus::NotFound => "not_found"@,
    }
}

/// The note that tells the model a sub-agent's status: a JSON object with the
/// agent's reference and the status name, inside a `subagent_notification` tag.
pub fn format_subagent_notification_message(agent_reference: &str, status: &AgentStatus) -> (r: String)
    ensures
        r@ == "<subagent_notification>{\"agent_id\":"@ + json_quoted(agent_reference@)
            + ",\"status\":\""@ + agent_status_name(*status) + "\"}</subagent_notification>"@,
{
    let name = match status {
        AgentStatus::PendingInit => "pending_init",
        AgentStatus::Running => "running",
        AgentStatus::Interrupted => "interrupted",
        AgentStatus::Completed(_) => "completed",
        AgentStatus::Errored(_) => "errored",
        AgentStatus::Shutdown => "shutdown",
        AgentStatus::NotFound => "not_found",
    };
    let mut r = String::from_str("<subagent_notification>{\"agent_id\":");
    let quoted = json_string(agent_reference);
    r.append(quoted.as_str());
    r.append(",\"status\":\"");
    r.append(name);
    r.append("\"}</subagent_notification>");
    r
}

/// The instructions of one skill the user invoked.
#[derive(Debug, Clone, PartialEq, Eq)]
pub struct SkillInstructions {
    pub name: String,
    pub path: String,
    pub contents: String,
}

/// The marker that opens a skill's instructions.
pub const SKILL_OPEN_TAG: &'static str = "<skill>";

/// The marker that closes a skill's instructions.
pub const SKILL_CLOSE_TAG: &'static str = "</skill>";

/// The body of a skill's instructions: its name, its path, then its contents.
pub open spec fn skill_body(s: SkillInstructions) -> Seq<char> {
    "\n<name>"@ + s.name@ + "</name>\n<path>"@ + s.path@ + "</path>\n"@ + s.contents@ + "\n"@
}

impl SkillInstructions {
    /// The instructions of a skill.
    pub fn new(name: String, path: String, contents: String) -> (r: SkillInstructions)
        ensures
            r.name == name,
            r.path == path,
            r.contents == contents,
    {
        SkillInstructions { name, path, contents }
    }

    /// The role of the message that carries them.
    pub fn role() -> (r: &'static str)
        ensures
            r@ == "user"@,
    {
        "user"
    }

    /// The body of the instructions.
    pub fn body(&self) -> (r: String)
        ensures
            r@ == skill_body(*self),
    {
        let mut r = String::from_str("\n<name>");
        r.append(self.name.as_str());
        r.append("</name>\n<path>");
        r.append(self.path.as_str());
        r.append("</path>\n");
        r.append(self.contents.as_str());
        r.append("\n");
        r
    }

    /// The instructions as they are written into the conversation.
    pub fn render(&self) -> (r: String)
        ensures
            r@ == rendered(SKILL_OPEN_TAG@, skill_body(*self), SKILL_CLOSE_TAG@),
    {
        let mut r = String::from_str(SKILL_OPEN_TAG);
        r.append(self.body().as_str());
        r.append(SKILL_CLOSE_TAG);
        r
    }
}

/// The skills available in a session, as lines: where skills are found, then the skills.
#[derive(Debug, Clone, PartialEq, Eq)]
pub struct AvailableSkillsInstructions {
    pub skill_root_lines: Vec<String>,
    pub skill_lines: Vec<String>,
}

impl AvailableSkillsInstructions {
    /// The instructions from their two lists of lines.
    pub fn new(skill_root_lines: Vec<String>, skill_lines: Vec<String>) -> (r: AvailableSkillsInstructions)
        ensures
            r.skill_root_lines == skill_root_lines,
            r.skill_lines == skill_lines,
    {
        AvailableSkillsInstructions { skill_root_lines, skill_lines }
    }

    /// The role of the message that carries them.
    pub fn role() -> (r: &'static str)
        ensures
            r@ == "developer"@,
    {
        "developer"
    }

    /// The body: all lines, roots first, between a leading and a trailing newline.
    pub fn body(&self) -> (r: String)
        ensures
            r@ == "\n"@ + join_lines(texts(self.skill_root_lines@ + self.skill_lines@)) + "\n"@,
    {
        let ghost all = self.skill_root_lines@ + self.skill_lines@;
        let mut lines: Vec<String> = Vec::new();
        let mut i: usize = 0;
        while i < self.skill_root_lines.len()
            invariant
                i <= self.skill_root_lines.len(),
                all == self.skill_root_lines@ + self.skill_lines@,
                lines@.len() == i,
                forall|k: int| 0 <= k < i ==> (#[trigger] lines@[k])@ == all[k]@,
            decreases self.skill_root_lines.len() - i,
        {
            lines.push(self.skill_root_lines[i].clone());
            i = i + 1;
        }
        let mut j: usize = 0;
        while j < self.skill_lines.len()
            invariant
                j <= self.skill_lines.len(),
                i == self.skill_root_lines.len(),
                all == self.skill_root_lines@ + self.skill_lines@,
                lines@.len() == i + j,
                forall|k: int| 0 <= k < i + j ==> (#[trigger] lines@[k])@ == all[k]@,
            decreases self.skill_lines.len() - j,
        {
            lines.push(self.skill_lines[j].clone());
            j = j + 1;
        }
        proof {
            assert(texts(lines@) =~= texts(all));
        }
        let joined = join_with_newlines(&lines);
        let mut r = String::from_str("\n");
        r.append(joined.as_str());
        r.append("\n");
        r
    }
}

fn clone_opt(v: &Option<String>) -> (r: Option<String>)
    ensures
        r == *v,
{
    match v {
        Some(s) => Some(s.clone()),
        None => None,
    }
}

/// The environment context the agent writes is always recognized as context,
/// never as words of the user.
pub proof fn law_rendered_context_is_contextual(c: EnvironmentContext)
    ensures
        is_contextual_user_text(rendered_context(c)),
{
    reveal_strlit("<environment_context>");
    reveal_strlit("</environment_context>");
    let open = ENVIRONMENT_CONTEXT_OPEN_TAG@;
    let close = ENVIRONMENT_CONTEXT_CLOSE_TAG@;
    let body = "\n"@ + join_lines(context_lines(c)) + "\n"@;
    let t = rendered_context(c);
    assert(t == open + body + close);
    assert(t[0] == '<');
    assert(t[t.len() - 1] == '>');
    lemma_trim_of_unpadded(t);
    assert(t.subrange(0, open.len() as int) =~= open);
    assert(t.subrange(t.len() - close.len(), t.len() as int) =~= close);
}

/// The note of an interrupted turn is recognized as context.
pub proof fn law_turn_aborted_is_contextual()
    ensures
        is_contextual_user_text("<turn_aborted />"@),
{
    reveal_strlit("<turn_aborted />");
    reveal_strlit("<turn_aborted");
    reveal_strlit(">");
    let t = "<turn_aborted />"@;
    lemma_trim_of_unpadded(t);
    assert(t.subrange(0, TURN_ABORTED_OPEN_TAG@.len() as int) =~= TURN_ABORTED_OPEN_TAG@);
    assert(t.subrange(t.len() - 1, t.len() as int) =~= ">"@);
}

/// Context a client supplied without vouching for it, which goes into a user
/// message, is recognized as context and not as words of the user.
pub proof fn law_untrusted_context_is_contextual(key: Seq<char>, value: Seq<char>)
    ensures
        is_contextual_user_text(fragment_text(key, value, AdditionalContextKind::Untrusted)),
{
    reveal_strlit("<external_");
    reveal_strlit("external_");
    reveal_strlit("<");
    reveal_strlit(">");
    reveal_strlit("</");
    let tag = "external_"@ + key;
    let t = fragment_text(key, value, AdditionalContextKind::Untrusted);
    assert(t == "<"@ + tag + ">"@ + value + "</"@ + tag + ">"@);
    assert(t[0] == '<');
    assert(t[t.len() - 1] == '>');
    lemma_trim_of_unpadded(t);
    assert(t.subrange(0, EXTERNAL_CONTEXT_TAG_PREFIX@.len() as int) =~= EXTERNAL_CONTEXT_TAG_PREFIX@);
    assert(t.subrange(t.len() - 1, t.len() as int) =~= ">"@);
}

} // verus!
