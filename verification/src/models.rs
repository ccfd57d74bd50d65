//! The items of a conversation as the model sees them.
use vstd::prelude::*;
use crate::user_input::ImageDetail;

verus! {

/// One part of a message.
#[derive(Debug, PartialEq, Eq)]
pub enum ContentItem {
    InputText { text: String },
    InputImage { image_url: String },
    OutputText { text: String },
}

/// Which stage of an answer an assistant message belongs to.
#[derive(Debug, Clone, Copy, PartialEq, Eq, Structural)]
pub enum MessagePhase {
    Commentary,
    FinalAnswer,
}

/// An item of the conversation history.
#[derive(Debug, Clone, PartialEq, Eq)]
pub enum ResponseItem {
    Message {
        id: Option<String>,
        role: String,
        content: Vec<ContentItem>,
        phase: Option<MessagePhase>,
    },
    FunctionCall { name: String, arguments: String, call_id: String },
    FunctionCallOutput { call_id: String, output: FunctionCallOutputPayload },
    Other,
}

/// One part of a tool's output.
#[derive(Debug, PartialEq, Eq)]
pub enum FunctionCallOutputContentItem {
    InputText { text: String },
    InputImage { image_url: String, detail: Option<ImageDetail> },
    EncryptedContent { encrypted_content: String },
}

/// The body of a tool's output: text, or a list of parts.
#[derive(Debug, PartialEq, Eq)]
pub enum FunctionCallOutputBody {
    Text(String),
    ContentItems(Vec<FunctionCallOutputContentItem>),
}

/// A tool's output and whether the call succeeded.
#[derive(Debug, PartialEq, Eq)]
pub struct FunctionCallOutputPayload {
    pub body: FunctionCallOutputBody,
    pub success: Option<bool>,
}

/// An item sent to the model as input.
#[derive(Debug, Clone, PartialEq, Eq)]
pub enum ResponseInputItem {
    Message { role: String, content: Vec<ContentItem> },
    FunctionCallOutput { call_id: String, output: FunctionCallOutputPayload },
}

/// The instructions a session starts with.
#[derive(Debug, PartialEq, Eq)]
pub struct BaseInstructions {
    pub text: String,
}

/// A tool the client provides at run time.
#[derive(Debug, PartialEq, Eq)]
pub struct DynamicToolSpec {
    pub namespace: Option<String>,
    pub name: String,
    pub description: String,
    /// The JSON schema of the tool's input, as JSON text.
    pub input_schema: String,
    pub defer_loading: bool,
}

/// A message with a single input text part.
pub fn input_text_message(role: String, text: String) -> (r: ResponseInputItem)
    ensures
        r matches ResponseInputItem::Message { role: rr, content } && rr == role && content@ == seq![
            ContentItem::InputText { text },
        ],
{
    let mut content: Vec<ContentItem> = Vec::new();
    content.push(ContentItem::InputText { text });
    ResponseInputItem::Message { role, content }
}


impl Clone for BaseInstructions {
    fn clone(&self) -> (r: Self)
        ensures
            r == *self,
    {
        BaseInstructions { text: self.text.clone() }
    }
}

impl Clone for DynamicToolSpec {
    fn clone(&self) -> (r: Self)
        ensures
            r == *self,
    {
        DynamicToolSpec {
            namespace: crate::text::clone_opt_string(&self.namespace),
            name: self.name.clone(),
            description: self.description.clone(),
            input_schema: self.input_schema.clone(),
            defer_loading: self.defer_loading,
        }
    }
}

/// A copy of a list of dynamic tools.
pub fn clone_dynamic_tools(v: &Vec<DynamicToolSpec>) -> (r: Vec<DynamicToolSpec>)
    ensures
        r@ == v@,
{
    let mut r: Vec<DynamicToolSpec> = Vec::new();
    let mut i: usize = 0;
    while i < v.len()
        invariant
            i <= v.len(),
            r@ == v@.take(i as int),
        decreases v.len() - i,
    {
        r.push(v[i].clone());
        proof {
            assert(r@ =~= v@.take(i + 1));
        }
        i = i + 1;
    }
    proof {
        assert(v@.take(v@.len() as int) =~= v@);
    }
    r
}


impl Clone for FunctionCallOutputContentItem {
    fn clone(&self) -> (r: Self)
        ensures
            r == *self,
    {
        match self {
            FunctionCallOutputContentItem::InputText { text } => FunctionCallOutputContentItem::InputText {
                text: text.clone(),
            },
            FunctionCallOutputContentItem::InputImage { image_url, detail } => FunctionCallOutputContentItem::InputImage {
                image_url: image_url.clone(),
                detail: *detail,
            },
            FunctionCallOutputContentItem::EncryptedContent { encrypted_content } => FunctionCallOutputContentItem::EncryptedContent {
                encrypted_content: encrypted_content.clone(),
            },
        }
    }
}

/// Whether two output bodies hold the same text or the same parts.
pub open spec fn same_body(a: FunctionCallOutputBody, b: FunctionCallOutputBody) -> bool {
    match (a, b) {
        (FunctionCallOutputBody::Text(x), FunctionCallOutputBody::Text(y)) => x == y,
        (FunctionCallOutputBody::ContentItems(x), FunctionCallOutputBody::ContentItems(y)) => x@ == y@,
        _ => false,
    }
}

/// Whether two output payloads hold the same output and outcome.
pub open spec fn same_payload(a: FunctionCallOutputPayload, b: FunctionCallOutputPayload) -> bool {
    same_body(a.body, b.body) && a.success == b.success
}

impl Clone for FunctionCallOutputBody {
    fn clone(&self) -> (r: Self)
        ensures
            same_body(r, *self),
    {
        match self {
            FunctionCallOutputBody::Text(t) => FunctionCallOutputBody::Text(t.clone()),
            FunctionCallOutputBody::ContentItems(items) => {
                let mut r: Vec<FunctionCallOutputContentItem> = Vec::new();
                let mut i: usize = 0;
                while i < items.len()
                    invariant
                        i <= items.len(),
                        r@ == items@.take(i as int),
                    decreases items.len() - i,
                {
                    r.push(items[i].clone());
                    proof {
                        assert(r@ =~= items@.take(i + 1));
                    }
                    i = i + 1;
                }
                proof {
                    assert(items@.take(items@.len() as int) =~= items@);
                }
                FunctionCallOutputBody::ContentItems(r)
            },
        }
    }
}

impl Clone for FunctionCallOutputPayload {
    fn clone(&self) -> (r: Self)
        ensures
            same_payload(r, *self),
    {
        FunctionCallOutputPayload { body: self.body.clone(), success: self.success }
    }
}

impl Default for FunctionCallOutputPayload {
    fn default() -> (r: Self)
        ensures
            r.body matches FunctionCallOutputBody::Text(t) && t@.len() == 0,
            r.success is None,
    {
        FunctionCallOutputPayload { body: FunctionCallOutputBody::Text(String::new()), success: None }
    }
}


impl Clone for ContentItem {
    fn clone(&self) -> (r: Self)
        ensures
            r == *self,
    {
        match self {
            ContentItem::InputText { text } => ContentItem::InputText { text: text.clone() },
            ContentItem::InputImage { image_url } => ContentItem::InputImage { image_url: image_url.clone() },
            ContentItem::OutputText { text } => ContentItem::OutputText { text: text.clone() },
        }
    }
}

} // verus!
