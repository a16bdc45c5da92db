//! The schemas of the tools that a local model is told about.

use crate::json::{Json, JsonView};
use crate::ollama_client;
use crate::openrouter_client;
use vstd::prelude::*;

verus! {

/// The schema of a value of the given kind.
pub open spec fn kind_schema(kind: Seq<char>) -> JsonView {
    JsonView::Object(seq![("type"@, JsonView::Text(kind))])
}

/// The schema of a value of the given kind, with a description of its use.
pub open spec fn described_schema(kind: Seq<char>, description: Seq<char>) -> JsonView {
    JsonView::Object(
        seq![("type"@, JsonView::Text(kind)), ("description"@, JsonView::Text(description))],
    )
}

/// The schema of a list whose items fit `items`.
pub open spec fn list_schema(items: JsonView, description: Seq<char>) -> JsonView {
    JsonView::Object(
        seq![
            ("type"@, JsonView::Text("array"@)),
            ("items"@, items),
            ("description"@, JsonView::Text(description)),
        ],
    )
}

/// The schema of an object with the given properties, all of them optional.
pub open spec fn optional_schema(properties: Seq<(Seq<char>, JsonView)>) -> JsonView {
    JsonView::Object(
        seq![
            ("type"@, JsonView::Text("object"@)),
            ("properties"@, JsonView::Object(properties)),
        ],
    )
}

/// The schema of an object with the given properties, some of them required.
pub open spec fn record_schema(
    properties: Seq<(Seq<char>, JsonView)>,
    required: Seq<Seq<char>>,
) -> JsonView {
    JsonView::Object(
        seq![
            ("type"@, JsonView::Text("object"@)),
            ("properties"@, JsonView::Object(properties)),
            (
                "required"@,
                JsonView::Array(required.map_values(|key: Seq<char>| JsonView::Text(key))),
            ),
        ],
    )
}

/// A tool as it is made known to a model.
pub struct ToolSchemaView {
    pub name: Seq<char>,
    pub description: Seq<char>,
    pub parameters: JsonView,
}

pub open spec fn shell_properties() -> Seq<(Seq<char>, JsonView)> {
    seq![
        (
            "command"@,
            described_schema(
                "string"@,
                "The shell command to execute (runs in the user's shell, e.g. bash or zsh)."@,
            ),
        ),
        (
            "is_read_only"@,
            described_schema(
                "boolean"@,
                "Set to true if the command only reads state and has no side effects (e.g. ls, cat, git status)."@,
            ),
        ),
    ]
}

pub open spec fn shell_schema() -> ToolSchemaView {
    ToolSchemaView {
        name: "run_shell_command"@,
        description:
            "Run a shell command on the user's machine and return its output. The user may be prompted to approve the command before it runs."@,
        parameters: record_schema(shell_properties(), seq!["command"@]),
    }
}

pub open spec fn read_properties() -> Seq<(Seq<char>, JsonView)> {
    seq![
        (
            "paths"@,
            list_schema(
                kind_schema("string"@),
                "Absolute or working-directory-relative file paths to read."@,
            ),
        ),
    ]
}

pub open spec fn read_schema() -> ToolSchemaView {
    ToolSchemaView {
        name: "read_files"@,
        description:
            "Read the contents of one or more files. Use this to inspect source code or configuration before making changes."@,
        parameters: record_schema(read_properties(), seq!["paths"@]),
    }
}

pub open spec fn grep_properties() -> Seq<(Seq<char>, JsonView)> {
    seq![
        ("queries"@, list_schema(kind_schema("string"@), "Patterns to search for."@)),
        (
            "path"@,
            described_schema(
                "string"@,
                "Path to search in (file or directory). Defaults to the working directory."@,
            ),
        ),
    ]
}

pub open spec fn grep_schema() -> ToolSchemaView {
    ToolSchemaView {
        name: "grep"@,
        description: "Search for a text pattern across files. Uses ripgrep semantics."@,
        parameters: record_schema(grep_properties(), seq!["queries"@]),
    }
}

pub open spec fn glob_properties() -> Seq<(Seq<char>, JsonView)> {
    seq![
        (
            "patterns"@,
            list_schema(
                kind_schema("string"@),
                "Glob patterns to match (e.g. [\"**/*.rs\", \"Cargo.toml\"])."@,
            ),
        ),
        (
            "search_dir"@,
            described_schema(
                "string"@,
                "Directory to search in. Defaults to the working directory."@,
            ),
        ),
    ]
}

pub open spec fn glob_schema() -> ToolSchemaView {
    ToolSchemaView {
        name: "file_glob"@,
        description:
            "Find files whose names match one or more glob patterns (e.g. \"**/*.rs\")."@,
        parameters: record_schema(glob_properties(), seq!["patterns"@]),
    }
}

pub open spec fn new_file_properties() -> Seq<(Seq<char>, JsonView)> {
    seq![
        (
            "file_path"@,
            described_schema(
                "string"@,
                "Path of the file to create (absolute or working-directory-relative)."@,
            ),
        ),
        ("content"@, described_schema("string"@, "Full file contents."@)),
    ]
}

pub open spec fn new_file_schema() -> JsonView {
    record_schema(new_file_properties(), seq!["file_path"@, "content"@])
}

pub open spec fn edit_properties() -> Seq<(Seq<char>, JsonView)> {
    seq![
        ("file_path"@, kind_schema("string"@)),
        ("search"@, described_schema("string"@, "Exact text to replace."@)),
        ("replace"@, described_schema("string"@, "Replacement text."@)),
    ]
}

pub open spec fn edit_schema() -> JsonView {
    record_schema(edit_properties(), seq!["file_path"@, "search"@, "replace"@])
}

pub open spec fn diffs_properties() -> Seq<(Seq<char>, JsonView)> {
    seq![
        (
            "summary"@,
            described_schema(
                "string"@,
                "One-line summary describing what this set of edits accomplishes."@,
            ),
        ),
        (
            "new_files"@,
            list_schema(
                new_file_schema(),
                "Files to create. Each must have a path and full content."@,
            ),
        ),
        (
            "edits"@,
            list_schema(
                edit_schema(),
                "Edits to existing files using search/replace semantics. The `search` string must match the file contents exactly (including whitespace) and must be unique in the file."@,
            ),
        ),
        (
            "deleted_files"@,
            list_schema(kind_schema("string"@), "File paths to delete."@),
        ),
    ]
}

pub open spec fn diffs_schema() -> ToolSchemaView {
    ToolSchemaView {
        name: "apply_file_diffs"@,
        description:
            "Create new files, edit existing files, or delete files. Use this whenever you want to write code or modify the project. The user may be prompted to approve each change before it's applied."@,
        parameters: optional_schema(diffs_properties()),
    }
}

/// The tools that a local model is told about.
pub open spec fn offered_tools() -> Seq<ToolSchemaView> {
    seq![shell_schema(), read_schema(), grep_schema(), glob_schema(), diffs_schema()]
}

/// A tool as it is made known to a model.
#[derive(Debug, Clone, PartialEq)]
pub struct ToolSchema {
    pub name: String,
    pub description: String,
    pub parameters: Json,
}

impl DeepView for ToolSchema {
    type V = ToolSchemaView;

    open spec fn deep_view(&self) -> ToolSchemaView {
        ToolSchemaView {
            name: self.name@,
            description: self.description@,
            parameters: self.parameters@,
        }
    }
}

fn text(s: &str) -> (r: Json)
    ensures
        r@ == JsonView::Text(s@),
{
    Json::Text(String::from(s))
}

fn object(members: Vec<(String, Json)>) -> (r: Json)
    ensures
        r@ == JsonView::Object(members.deep_view()),
{
    let r = Json::Object(members);
    assert(r@->Object_0 =~= members.deep_view());
    r
}

fn kind(name: &str) -> (r: Json)
    ensures
        r@ == kind_schema(name@),
{
    let mut members: Vec<(String, Json)> = Vec::new();
    members.push((String::from("type"), text(name)));
    assert(members.deep_view() =~= kind_schema(name@)->Object_0);
    object(members)
}

fn described(name: &str, description: &str) -> (r: Json)
    ensures
        r@ == described_schema(name@, description@),
{
    let mut members: Vec<(String, Json)> = Vec::new();
    members.push((String::from("type"), text(name)));
    members.push((String::from("description"), text(description)));
    assert(members.deep_view() =~= described_schema(name@, description@)->Object_0);
    object(members)
}

fn list(items: Json, description: &str) -> (r: Json)
    ensures
        r@ == list_schema(items@, description@),
{
    let mut members: Vec<(String, Json)> = Vec::new();
    members.push((String::from("type"), text("array")));
    members.push((String::from("items"), items));
    members.push((String::from("description"), text(description)));
    assert(members.deep_view() =~= list_schema(items@, description@)->Object_0);
    object(members)
}

fn optional_record(properties: Vec<(String, Json)>) -> (r: Json)
    ensures
        r@ == optional_schema(properties.deep_view()),
{
    let mut members: Vec<(String, Json)> = Vec::new();
    members.push((String::from("type"), text("object")));
    members.push((String::from("properties"), object(properties)));
    assert(members.deep_view() =~= optional_schema(properties.deep_view())->Object_0);
    object(members)
}

fn record(properties: Vec<(String, Json)>, required: Vec<String>) -> (r: Json)
    ensures
        r@ == record_schema(properties.deep_view(), required.deep_view()),
{
    let ghost keys = required.deep_view();
    let mut items: Vec<Json> = Vec::new();
    for key in it: required.into_iter()
        invariant
            it.seq().len() == keys.len(),
            items@.len() == it.index(),
            forall|i: int| 0 <= i < keys.len() ==> (#[trigger] it.seq()[i])@ == keys[i],
            forall|i: int|
                0 <= i < items@.len() ==> (#[trigger] items@[i])@ == JsonView::Text(keys[i]),
    {
        items.push(Json::Text(key));
    }
    let required_items = Json::Array(items);
    assert(required_items@->Array_0 =~= keys.map_values(|key: Seq<char>| JsonView::Text(key)));
    let mut members: Vec<(String, Json)> = Vec::new();
    members.push((String::from("type"), text("object")));
    members.push((String::from("properties"), object(properties)));
    members.push((String::from("required"), required_items));
    assert(members.deep_view() =~= record_schema(properties.deep_view(), keys)->Object_0);
    object(members)
}

fn shell_tool() -> (r: ToolSchema)
    ensures
        r.deep_view() == shell_schema(),
{
    let mut properties: Vec<(String, Json)> = Vec::new();
    properties.push(
        (
            String::from("command"),
            described(
                "string",
                "The shell command to execute (runs in the user's shell, e.g. bash or zsh).",
            ),
        ),
    );
    properties.push(
        (
            String::from("is_read_only"),
            described(
                "boolean",
                "Set to true if the command only reads state and has no side effects (e.g. ls, cat, git status).",
            ),
        ),
    );
    let mut required: Vec<String> = Vec::new();
    required.push(String::from("command"));
    assert(required.deep_view() =~= seq!["command"@]);
    assert(properties.deep_view() =~= shell_properties());
    ToolSchema {
        name: String::from("run_shell_command"),
        description: String::from(
            "Run a shell command on the user's machine and return its output. The user may be prompted to approve the command before it runs.",
        ),
        parameters: record(properties, required),
    }
}

fn read_tool() -> (r: ToolSchema)
    ensures
        r.deep_view() == read_schema(),
{
    let mut properties: Vec<(String, Json)> = Vec::new();
    properties.push(
        (
            String::from("paths"),
            list(
                kind("string"),
                "Absolute or working-directory-relative file paths to read.",
            ),
        ),
    );
    let mut required: Vec<String> = Vec::new();
    required.push(String::from("paths"));
    assert(required.deep_view() =~= seq!["paths"@]);
    assert(properties.deep_view() =~= read_properties());
    ToolSchema {
        name: String::from("read_files"),
        description: String::from(
            "Read the contents of one or more files. Use this to inspect source code or configuration before making changes.",
        ),
        parameters: record(properties, required),
    }
}

fn grep_tool() -> (r: ToolSchema)
    ensures
        r.deep_view() == grep_schema(),
{
    let mut properties: Vec<(String, Json)> = Vec::new();
    properties.push(
        (String::from("queries"), list(kind("string"), "Patterns to search for.")),
    );
    properties.push(
        (
            String::from("path"),
            described(
                "string",
                "Path to search in (file or directory). Defaults to the working directory.",
            ),
        ),
    );
    let mut required: Vec<String> = Vec::new();
    required.push(String::from("queries"));
    assert(required.deep_view() =~= seq!["queries"@]);
    assert(properties.deep_view() =~= grep_properties());
    ToolSchema {
        name: String::from("grep"),
        description: String::from(
            "Search for a text pattern across files. Uses ripgrep semantics.",
        ),
        parameters: record(properties, required),
    }
}

fn glob_tool() -> (r: ToolSchema)
    ensures
        r.deep_view() == glob_schema(),
{
    let mut properties: Vec<(String, Json)> = Vec::new();
    properties.push(
        (
            String::from("patterns"),
            list(
                kind("string"),
                "Glob patterns to match (e.g. [\"**/*.rs\", \"Cargo.toml\"]).",
            ),
        ),
    );
    properties.push(
        (
            String::from("search_dir"),
            described(
                "string",
                "Directory to search in. Defaults to the working directory.",
            ),
        ),
    );
    let mut required: Vec<String> = Vec::new();
    required.push(String::from("patterns"));
    assert(required.deep_view() =~= seq!["patterns"@]);
    assert(properties.deep_view() =~= glob_properties());
    ToolSchema {
        name: String::from("file_glob"),
        description: String::from(
            "Find files whose names match one or more glob patterns (e.g. \"**/*.rs\").",
        ),
        parameters: record(properties, required),
    }
}

fn new_file_item() -> (r: Json)
    ensures
        r@ == new_file_schema(),
{
    let mut properties: Vec<(String, Json)> = Vec::new();
    properties.push(
        (
            String::from("file_path"),
            described(
                "string",
                "Path of the file to create (absolute or working-directory-relative).",
            ),
        ),
    );
    properties.push((String::from("content"), described("string", "Full file contents.")));
    let mut required: Vec<String> = Vec::new();
    required.push(String::from("file_path"));
    required.push(String::from("content"));
    assert(required.deep_view() =~= seq!["file_path"@, "content"@]);
    assert(properties.deep_view() =~= new_file_properties());
    record(properties, required)
}

fn edit_item() -> (r: Json)
    ensures
        r@ == edit_schema(),
{
    let mut properties: Vec<(String, Json)> = Vec::new();
    properties.push((String::from("file_path"), kind("string")));
    properties.push((String::from("search"), described("string", "Exact text to replace.")));
    properties.push((String::from("replace"), described("string", "Replacement text.")));
    let mut required: Vec<String> = Vec::new();
    required.push(String::from("file_path"));
    required.push(String::from("search"));
    required.push(String::from("replace"));
    assert(required.deep_view() =~= seq!["file_path"@, "search"@, "replace"@]);
    assert(properties.deep_view() =~= edit_properties());
    record(properties, required)
}

fn diffs_tool() -> (r: ToolSchema)
    ensures
        r.deep_view() == diffs_schema(),
{
    let mut properties: Vec<(String, Json)> = Vec::new();
    properties.push(
        (
            String::from("summary"),
            described(
                "string",
                "One-line summary describing what this set of edits accomplishes.",
            ),
        ),
    );
    properties.push(
        (
            String::from("new_files"),
            list(
                new_file_item(),
                "Files to create. Each must have a path and full content.",
            ),
        ),
    );
    properties.push(
        (
            String::from("edits"),
            list(
                edit_item(),
                "Edits to existing files using search/replace semantics. The `search` string must match the file contents exactly (including whitespace) and must be unique in the file.",
            ),
        ),
    );
    properties.push(
        (String::from("deleted_files"), list(kind("string"), "File paths to delete.")),
    );
    assert(properties.deep_view() =~= diffs_properties());
    ToolSchema {
        name: String::from("apply_file_diffs"),
        description: String::from(
            "Create new files, edit existing files, or delete files. Use this whenever you want to write code or modify the project. The user may be prompted to approve each change before it's applied.",
        ),
        parameters: optional_record(properties),
    }
}

/// The tools that a local model is told about.
pub fn tool_schemas() -> (r: Vec<ToolSchema>)
    ensures
        r.deep_view() == offered_tools(),
{
    let mut tools: Vec<ToolSchema> = Vec::new();
    tools.push(shell_tool());
    tools.push(read_tool());
    tools.push(grep_tool());
    tools.push(glob_tool());
    tools.push(diffs_tool());
    assert(tools.deep_view() =~= offered_tools());
    tools
}

/// A tool in the form in which OpenRouter is told of it.
pub open spec fn openrouter_definition(tool: ToolSchemaView) -> openrouter_client::ToolDefView {
    openrouter_client::ToolDefView {
        tool_type: "function"@,
        function: openrouter_client::FunctionDefView {
            name: tool.name,
            description: tool.description,
            parameters: tool.parameters,
        },
    }
}

/// A tool in the form in which Ollama is told of it.
pub open spec fn ollama_definition(tool: ToolSchemaView) -> ollama_client::ToolDefView {
    ollama_client::ToolDefView {
        tool_type: "function"@,
        function: ollama_client::FunctionDefView {
            name: tool.name,
            description: tool.description,
            parameters: tool.parameters,
        },
    }
}

/// The tools that a local model is told about, for OpenRouter.
pub fn openrouter_tool_defs() -> (r: Vec<openrouter_client::ToolDef>)
    ensures
        r.deep_view() == offered_tools().map_values(
            |tool: ToolSchemaView| openrouter_definition(tool),
        ),
{
    let tools = tool_schemas();
    let ghost views = tools.deep_view();
    let mut out: Vec<openrouter_client::ToolDef> = Vec::new();
    for tool in it: tools.into_iter()
        invariant
            it.seq().len() == views.len(),
            out@.len() == it.index(),
            forall|i: int| 0 <= i < views.len() ==> (#[trigger] it.seq()[i]).deep_view() == views[i],
            forall|i: int|
                0 <= i < out@.len() ==> (#[trigger] out@[i]).deep_view() == openrouter_definition(
                    views[i],
                ),
    {
        out.push(
            openrouter_client::ToolDef {
                tool_type: String::from("function"),
                function: openrouter_client::FunctionDef {
                    name: tool.name,
                    description: tool.description,
                    parameters: tool.parameters,
                },
            },
        );
    }
    assert(out.deep_view() =~= views.map_values(
        |tool: ToolSchemaView| openrouter_definition(tool),
    ));
    out
}

/// The tools that a local model is told about, for Ollama.
pub fn ollama_tool_defs() -> (r: Vec<ollama_client::ToolDef>)
    ensures
        r.deep_view() == offered_tools().map_values(|tool: ToolSchemaView| ollama_definition(tool)),
{
    let tools = tool_schemas();
    let ghost views = tools.deep_view();
    let mut out: Vec<ollama_client::ToolDef> = Vec::new();
    for tool in it: tools.into_iter()
        invariant
            it.seq().len() == views.len(),
            out@.len() == it.index(),
            forall|i: int| 0 <= i < views.len() ==> (#[trigger] it.seq()[i]).deep_view() == views[i],
            forall|i: int|
                0 <= i < out@.len() ==> (#[trigger] out@[i]).deep_view() == ollama_definition(
                    views[i],
                ),
    {
        out.push(
            ollama_client::ToolDef {
                tool_type: String::from("function"),
                function: ollama_client::FunctionDef {
                    name: tool.name,
                    description: tool.description,
                    parameters: tool.parameters,
                },
            },
        );
    }
    assert(out.deep_view() =~= views.map_values(|tool: ToolSchemaView| ollama_definition(tool)));
    out
}

} // verus!
