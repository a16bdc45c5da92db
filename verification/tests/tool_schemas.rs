use local_agent::json::{parse_json, Json};
use local_agent::local_tools::{into_proto_tool_call, ollama_tool_defs, openrouter_tool_defs};
use local_agent::tool_schemas::tool_schemas;

/// The same value with the members of every object in the order of their keys.
fn sorted(value: &Json) -> Json {
    match value {
        Json::Array(items) => Json::Array(items.iter().map(sorted).collect()),
        Json::Object(members) => {
            let mut members: Vec<(String, Json)> =
                members.iter().map(|(key, value)| (key.clone(), sorted(value))).collect();
            members.sort_by(|a, b| a.0.cmp(&b.0));
            Json::Object(members)
        }
        other => other.clone(),
    }
}

fn parameters(name: &str) -> Json {
    let tools = tool_schemas();
    let tool = tools.iter().find(|tool| tool.name == name).unwrap();
    sorted(&tool.parameters)
}

fn schema(text: &str) -> Json {
    sorted(&parse_json(text).unwrap())
}

#[test]
fn five_tools_are_offered_to_both_services() {
    let names = ["run_shell_command", "read_files", "grep", "file_glob", "apply_file_diffs"];
    let tools = tool_schemas();
    let openrouter = openrouter_tool_defs();
    let ollama = ollama_tool_defs();
    assert_eq!(tools.len(), 5);
    assert_eq!(openrouter.len(), 5);
    assert_eq!(ollama.len(), 5);
    for i in 0..5 {
        assert_eq!(tools[i].name, names[i]);
        assert_eq!(openrouter[i].tool_type, "function");
        assert_eq!(openrouter[i].function.name, names[i]);
        assert_eq!(openrouter[i].function.description, tools[i].description);
        assert_eq!(openrouter[i].function.parameters, tools[i].parameters);
        assert_eq!(ollama[i].tool_type, "function");
        assert_eq!(ollama[i].function.name, names[i]);
        assert_eq!(ollama[i].function.description, tools[i].description);
        assert_eq!(ollama[i].function.parameters, tools[i].parameters);
    }
}

#[test]
fn tools_are_described() {
    let tools = tool_schemas();
    assert_eq!(
        tools[0].description,
        "Run a shell command on the user's machine and return its output. \
         The user may be prompted to approve the command before it runs."
    );
    assert_eq!(
        tools[4].description,
        "Create new files, edit existing files, or delete files. Use this whenever you want \
         to write code or modify the project. The user may be prompted to approve each \
         change before it's applied."
    );
}

#[test]
fn the_schema_of_a_shell_command() {
    assert_eq!(
        parameters("run_shell_command"),
        schema(
            r#"{
                "type": "object",
                "properties": {
                    "command": {
                        "type": "string",
                        "description": "The shell command to execute (runs in the user's shell, e.g. bash or zsh)."
                    },
                    "is_read_only": {
                        "type": "boolean",
                        "description": "Set to true if the command only reads state and has no side effects (e.g. ls, cat, git status)."
                    }
                },
                "required": ["command"]
            }"#
        )
    );
}

#[test]
fn the_schemas_of_searches() {
    assert_eq!(
        parameters("grep"),
        schema(
            r#"{
                "type": "object",
                "properties": {
                    "queries": {
                        "type": "array",
                        "items": {"type": "string"},
                        "description": "Patterns to search for."
                    },
                    "path": {
                        "type": "string",
                        "description": "Path to search in (file or directory). Defaults to the working directory."
                    }
                },
                "required": ["queries"]
            }"#
        )
    );
    assert_eq!(
        parameters("file_glob"),
        schema(
            r#"{
                "type": "object",
                "properties": {
                    "patterns": {
                        "type": "array",
                        "items": {"type": "string"},
                        "description": "Glob patterns to match (e.g. [\"**/*.rs\", \"Cargo.toml\"])."
                    },
                    "search_dir": {
                        "type": "string",
                        "description": "Directory to search in. Defaults to the working directory."
                    }
                },
                "required": ["patterns"]
            }"#
        )
    );
}

#[test]
fn the_schema_of_reading_files() {
    assert_eq!(
        parameters("read_files"),
        schema(
            r#"{
                "type": "object",
                "properties": {
                    "paths": {
                        "type": "array",
                        "items": {"type": "string"},
                        "description": "Absolute or working-directory-relative file paths to read."
                    }
                },
                "required": ["paths"]
            }"#
        )
    );
}

#[test]
fn the_schema_of_changing_files() {
    assert_eq!(
        parameters("apply_file_diffs"),
        schema(
            r#"{
                "type": "object",
                "properties": {
                    "summary": {
                        "type": "string",
                        "description": "One-line summary describing what this set of edits accomplishes."
                    },
                    "new_files": {
                        "type": "array",
                        "description": "Files to create. Each must have a path and full content.",
                        "items": {
                            "type": "object",
                            "properties": {
                                "file_path": {"type": "string", "description": "Path of the file to create (absolute or working-directory-relative)."},
                                "content": {"type": "string", "description": "Full file contents."}
                            },
                            "required": ["file_path", "content"]
                        }
                    },
                    "edits": {
                        "type": "array",
                        "description": "Edits to existing files using search/replace semantics. The `search` string must match the file contents exactly (including whitespace) and must be unique in the file.",
                        "items": {
                            "type": "object",
                            "properties": {
                                "file_path": {"type": "string"},
                                "search": {"type": "string", "description": "Exact text to replace."},
                                "replace": {"type": "string", "description": "Replacement text."}
                            },
                            "required": ["file_path", "search", "replace"]
                        }
                    },
                    "deleted_files": {
                        "type": "array",
                        "description": "File paths to delete.",
                        "items": {"type": "string"}
                    }
                }
            }"#
        )
    );
}

#[test]
fn arguments_that_fit_a_schema_are_understood() {
    let fitting = [
        ("run_shell_command", r#"{"command":"ls"}"#),
        ("read_files", r#"{"paths":["a"]}"#),
        ("grep", r#"{"queries":["a"],"path":"b"}"#),
        ("file_glob", r#"{"patterns":["a"]}"#),
        ("apply_file_diffs", r#"{"new_files":[{"file_path":"a","content":""}]}"#),
    ];
    for (name, arguments) in fitting {
        assert!(into_proto_tool_call("1".to_string(), name, arguments).is_some(), "{name}");
    }
}
