//! How the command and image tools are described to the model: their
//! names, descriptions and parameters.
use vstd::prelude::*;
use crate::text::str_eq;
use crate::view_image::{ViewImageHandler, ViewImageToolOptions, VIEW_IMAGE_TOOL_NAME};
use crate::tools::CommandToolOptions;

verus! {

/// The type of a parameter.
#[derive(Debug, Clone, PartialEq, Eq)]
pub enum JsonSchemaKind {
    String,
    Boolean,
    Number,
    /// A string restricted to the listed values.
    StringEnum(Vec<String>),
}

/// A parameter's schema.
#[derive(Debug, Clone, PartialEq, Eq)]
pub struct JsonSchema {
    pub kind: JsonSchemaKind,
    pub description: Option<String>,
}

/// The parameters of a tool: an object with the given properties, in order
/// of name.
#[derive(Debug, Clone, PartialEq, Eq)]
pub struct ObjectSchema {
    pub properties: Vec<(String, JsonSchema)>,
    pub required: Vec<String>,
    pub additional_properties: bool,
}

/// A tool the model calls with JSON arguments.
#[derive(Debug, Clone, PartialEq, Eq)]
pub struct ResponsesApiTool {
    pub name: String,
    pub description: String,
    pub strict: bool,
    pub defer_loading: Option<bool>,
    pub parameters: ObjectSchema,
    /// The schema of the tool's output, as JSON text.
    pub output_schema: Option<String>,
}

/// A tool offered to the model.
#[derive(Debug, Clone, PartialEq, Eq)]
pub enum ToolSpec {
    Function(ResponsesApiTool),
}

/// The kind of a parameter, without an enumeration's values.
#[derive(Debug, Clone, Copy, PartialEq, Eq, Structural)]
pub enum KindTag {
    String,
    Boolean,
    Number,
    StringEnum,
}

/// The kind of a schema.
pub open spec fn kind_tag(k: JsonSchemaKind) -> KindTag {
    match k {
        JsonSchemaKind::String => KindTag::String,
        JsonSchemaKind::Boolean => KindTag::Boolean,
        JsonSchemaKind::Number => KindTag::Number,
        JsonSchemaKind::StringEnum(_) => KindTag::StringEnum,
    }
}

/// Whether a property has the given name, kind and description.
pub open spec fn prop_is(p: (String, JsonSchema), name: Seq<char>, kind: KindTag, description: Seq<char>) -> bool {
    p.0@ == name && kind_tag(p.1.kind) == kind && (p.1.description matches Some(d) && d@ == description)
}

/// Whether a list of strings reads as the given texts.
pub open spec fn strings_are(v: Seq<String>, texts: Seq<Seq<char>>) -> bool {
    v.len() == texts.len() && forall|i: int| 0 <= i < v.len() ==> (#[trigger] v[i])@ == texts[i]
}

fn prop(name: &str, kind: JsonSchemaKind, description: &str) -> (r: (String, JsonSchema))
    ensures
        r.0@ == name@,
        r.1.kind == kind,
        r.1.description matches Some(d) && d@ == description@,
{
    (String::from_str(name), JsonSchema { kind, description: Some(String::from_str(description)) })
}

impl ObjectSchema {
    /// The schema of the property with the given name.
    pub fn property(&self, name: &str) -> (r: Option<&JsonSchema>)
        ensures
            r matches Some(s) ==> exists|i: int|
                0 <= i < self.properties@.len() && (#[trigger] self.properties@[i]).0@ == name@
                    && self.properties@[i].1 == *s,
            r is None ==> forall|i: int|
                0 <= i < self.properties@.len() ==> (#[trigger] self.properties@[i]).0@ != name@,
    {
        let mut i: usize = 0;
        while i < self.properties.len()
            invariant
                i <= self.properties.len(),
                forall|j: int| 0 <= j < i ==> (#[trigger] self.properties@[j]).0@ != name@,
            decreases self.properties.len() - i,
        {
            if str_eq(self.properties[i].0.as_str(), name) {
                return Some(&self.properties[i].1);
            }
            i = i + 1;
        }
        None
    }
}

/// The output schema of the command tools, as JSON text.
pub const UNIFIED_EXEC_OUTPUT_SCHEMA: &'static str = "{\"type\":\"object\",\"properties\":{\"chunk_id\":{\"type\":\"string\"},\"wall_time_seconds\":{\"type\":\"number\"},\"exit_code\":{\"type\":\"number\"},\"session_id\":{\"type\":\"number\"},\"original_token_count\":{\"type\":\"number\"},\"output\":{\"type\":\"string\"}},\"required\":[\"wall_time_seconds\",\"output\"],\"additionalProperties\":false}";

/// The output schema of the image tool, as JSON text.
pub const VIEW_IMAGE_OUTPUT_SCHEMA: &'static str = "{\"type\":\"object\",\"properties\":{\"image_url\":{\"type\":\"string\",\"description\":\"Data URL for the loaded image.\"},\"detail\":{\"type\":\"string\",\"enum\":[\"high\",\"original\"],\"description\":\"Image detail hint returned by view_image. Returns `high` for default resized behavior or `original` when original resolution is preserved.\"}},\"required\":[\"image_url\",\"detail\"],\"additionalProperties\":false}";

/// The description of the output-token budget parameter.
pub const MAX_OUTPUT_TOKENS_DESCRIPTION: &'static str = "Output token budget. Defaults to 10000 tokens; larger requests may be capped by policy.";

/// The tool that runs a command: `cmd` is required; `login` is offered only
/// when login shells are allowed.
pub fn create_exec_command_tool(options: CommandToolOptions) -> (r: ToolSpec)
    ensures
        ({
            let ToolSpec::Function(t) = r;
            let p = t.parameters.properties@;
            let with_login = options.allow_login_shell;
            let k: int = if with_login { 1 } else { 0 };
            &&& t.name@ == "exec_command"@
            &&& t.description@ == "Runs a command in a PTY, returning output or a session ID for ongoing interaction."@
            &&& !t.strict
            &&& t.defer_loading is None
            &&& !t.parameters.additional_properties
            &&& strings_are(t.parameters.required@, seq!["cmd"@])
            &&& (t.output_schema matches Some(o) && o@ == UNIFIED_EXEC_OUTPUT_SCHEMA@)
            &&& p.len() == 6 + k
            &&& prop_is(p[0], "cmd"@, KindTag::String, "Shell command to execute."@)
            &&& with_login ==> prop_is(
                p[1],
                "login"@,
                KindTag::Boolean,
                "True runs the shell with -l/-i semantics; false disables them. Defaults to true."@,
            )
            &&& prop_is(p[1 + k], "max_output_tokens"@, KindTag::Number, MAX_OUTPUT_TOKENS_DESCRIPTION@)
            &&& prop_is(
                p[2 + k],
                "shell"@,
                KindTag::String,
                "Shell binary to launch. Defaults to the user's default shell."@,
            )
            &&& prop_is(
                p[3 + k],
                "tty"@,
                KindTag::Boolean,
                "True allocates a PTY for the command; false or omitted uses plain pipes."@,
            )
            &&& prop_is(
                p[4 + k],
                "workdir"@,
                KindTag::String,
                "Working directory for the command. Defaults to the turn cwd."@,
            )
            &&& prop_is(
                p[5 + k],
                "yield_time_ms"@,
                KindTag::Number,
                "Wait before yielding output. Defaults to 10000 ms; effective range is 250-30000 ms."@,
            )
        }),
{
    let mut properties: Vec<(String, JsonSchema)> = Vec::new();
    properties.push(prop("cmd", JsonSchemaKind::String, "Shell command to execute."));
    if options.allow_login_shell {
        properties.push(
            prop(
                "login",
                JsonSchemaKind::Boolean,
                "True runs the shell with -l/-i semantics; false disables them. Defaults to true.",
            ),
        );
    }
    properties.push(prop("max_output_tokens", JsonSchemaKind::Number, MAX_OUTPUT_TOKENS_DESCRIPTION));
    properties.push(
        prop(
            "shell",
            JsonSchemaKind::String,
            "Shell binary to launch. Defaults to the user's default shell.",
        ),
    );
    properties.push(
        prop(
            "tty",
            JsonSchemaKind::Boolean,
            "True allocates a PTY for the command; false or omitted uses plain pipes.",
        ),
    );
    properties.push(
        prop(
            "workdir",
            JsonSchemaKind::String,
            "Working directory for the command. Defaults to the turn cwd.",
        ),
    );
    properties.push(
        prop(
            "yield_time_ms",
            JsonSchemaKind::Number,
            "Wait before yielding output. Defaults to 10000 ms; effective range is 250-30000 ms.",
        ),
    );
    let mut required: Vec<String> = Vec::new();
    required.push(String::from_str("cmd"));
    ToolSpec::Function(
        ResponsesApiTool {
            name: String::from_str("exec_command"),
            description: String::from_str(
                "Runs a command in a PTY, returning output or a session ID for ongoing interaction.",
            ),
            strict: false,
            defer_loading: None,
            parameters: ObjectSchema { properties, required, additional_properties: false },
            output_schema: Some(String::from_str(UNIFIED_EXEC_OUTPUT_SCHEMA)),
        },
    )
}

/// The tool that writes to a running command: `session_id` is required.
pub fn create_write_stdin_tool() -> (r: ToolSpec)
    ensures
        ({
            let ToolSpec::Function(t) = r;
            let p = t.parameters.properties@;
            &&& t.name@ == "write_stdin"@
            &&& t.description@ == "Writes characters to an existing unified exec session and returns recent output."@
            &&& !t.strict
            &&& t.defer_loading is None
            &&& !t.parameters.additional_properties
            &&& strings_are(t.parameters.required@, seq!["session_id"@])
            &&& (t.output_schema matches Some(o) && o@ == UNIFIED_EXEC_OUTPUT_SCHEMA@)
            &&& p.len() == 4
            &&& prop_is(
                p[0],
                "chars"@,
                KindTag::String,
                "Bytes to write to stdin. Defaults to empty, which polls without writing."@,
            )
            &&& prop_is(p[1], "max_output_tokens"@, KindTag::Number, MAX_OUTPUT_TOKENS_DESCRIPTION@)
            &&& prop_is(
                p[2],
                "session_id"@,
                KindTag::Number,
                "Identifier of the running unified exec session."@,
            )
            &&& prop_is(
                p[3],
                "yield_time_ms"@,
                KindTag::Number,
                "Wait before yielding output. Non-empty writes default to 250 ms and cap at 30000 ms; empty polls wait 5000-300000 ms by default."@,
            )
        }),
{
    let mut properties: Vec<(String, JsonSchema)> = Vec::new();
    properties.push(
        prop(
            "chars",
            JsonSchemaKind::String,
            "Bytes to write to stdin. Defaults to empty, which polls without writing.",
        ),
    );
    properties.push(prop("max_output_tokens", JsonSchemaKind::Number, MAX_OUTPUT_TOKENS_DESCRIPTION));
    properties.push(
        prop("session_id", JsonSchemaKind::Number, "Identifier of the running unified exec session."),
    );
    properties.push(
        prop(
            "yield_time_ms",
            JsonSchemaKind::Number,
            "Wait before yielding output. Non-empty writes default to 250 ms and cap at 30000 ms; empty polls wait 5000-300000 ms by default.",
        ),
    );
    let mut required: Vec<String> = Vec::new();
    required.push(String::from_str("session_id"));
    ToolSpec::Function(
        ResponsesApiTool {
            name: String::from_str("write_stdin"),
            description: String::from_str(
                "Writes characters to an existing unified exec session and returns recent output.",
            ),
            strict: false,
            defer_loading: None,
            parameters: ObjectSchema { properties, required, additional_properties: false },
            output_schema: Some(String::from_str(UNIFIED_EXEC_OUTPUT_SCHEMA)),
        },
    )
}

/// The tool that shows the model a local image: `path` is required;
/// `detail` is offered only when the original resolution may be asked for.
pub fn create_view_image_tool(options: ViewImageToolOptions) -> (r: ToolSpec)
    ensures
        ({
            let ToolSpec::Function(t) = r;
            let p = t.parameters.properties@;
            let with_detail = options.can_request_original_image_detail;
            &&& t.name@ == VIEW_IMAGE_TOOL_NAME@
            &&& t.description@ == "View a local image file from the filesystem when visual inspection is needed. Use this for images already available on disk."@
            &&& !t.strict
            &&& t.defer_loading is None
            &&& !t.parameters.additional_properties
            &&& strings_are(t.parameters.required@, seq!["path"@])
            &&& (t.output_schema matches Some(o) && o@ == VIEW_IMAGE_OUTPUT_SCHEMA@)
            &&& p.len() == if with_detail { 2int } else { 1int }
            &&& with_detail ==> prop_is(
                p[0],
                "detail"@,
                KindTag::StringEnum,
                "Image detail level. Defaults to `high`; use `original` to preserve exact resolution."@,
            ) && (p[0].1.kind matches JsonSchemaKind::StringEnum(values) && strings_are(
                values@,
                seq!["high"@, "original"@],
            ))
            &&& prop_is(
                p[if with_detail { 1int } else { 0int }],
                "path"@,
                KindTag::String,
                "Local filesystem path to an image file."@,
            )
        }),
{
    let mut properties: Vec<(String, JsonSchema)> = Vec::new();
    if options.can_request_original_image_detail {
        let mut values: Vec<String> = Vec::new();
        values.push(String::from_str("high"));
        values.push(String::from_str("original"));
        properties.push(
            prop(
                "detail",
                JsonSchemaKind::StringEnum(values),
                "Image detail level. Defaults to `high`; use `original` to preserve exact resolution.",
            ),
        );
    }
    properties.push(prop("path", JsonSchemaKind::String, "Local filesystem path to an image file."));
    let mut required: Vec<String> = Vec::new();
    required.push(String::from_str("path"));
    ToolSpec::Function(
        ResponsesApiTool {
            name: String::from_str(VIEW_IMAGE_TOOL_NAME),
            description: String::from_str(
                "View a local image file from the filesystem when visual inspection is needed. Use this for images already available on disk.",
            ),
            strict: false,
            defer_loading: None,
            parameters: ObjectSchema { properties, required, additional_properties: false },
            output_schema: Some(String::from_str(VIEW_IMAGE_OUTPUT_SCHEMA)),
        },
    )
}


impl ViewImageHandler {
    /// The name of the tool.
    pub fn tool_name(&self) -> (r: &'static str)
        ensures
            r@ == VIEW_IMAGE_TOOL_NAME@,
    {
        VIEW_IMAGE_TOOL_NAME
    }

    /// How the tool is described to the model.
    pub fn spec(&self) -> (r: ToolSpec)
        ensures
            ({
                let ToolSpec::Function(t) = r;
                &&& t.name@ == VIEW_IMAGE_TOOL_NAME@
                &&& t.parameters.properties@.len() == if self.options.can_request_original_image_detail {
                    2int
                } else {
                    1int
                }
            }),
    {
        create_view_image_tool(self.options)
    }

    /// Calls of the tool may run alongside other calls.
    pub fn supports_parallel_tool_calls(&self) -> (r: bool)
        ensures
            r,
    {
        true
    }
}

} // verus!
