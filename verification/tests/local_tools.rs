use local_agent::json::{parse_json, Json};
use local_agent::local_tools::{
    describe_search, into_proto_tool_call, tool_call_from_arguments, tool_call_summary,
    tool_from_arguments,
};
use local_agent::proto::{
    ApplyFileDiffs, DeleteFile, FileDiff, FileGlobV2, Grep, NewFile, ReadFile, ReadFiles,
    RunShellCommand, Tool, ToolCall, WaitUntilCompleteValue,
};

fn texts(items: &[&str]) -> Vec<String> {
    items.iter().map(|item| item.to_string()).collect()
}

fn request(name: &str, arguments: &str) -> Option<Tool> {
    let call = into_proto_tool_call("call_1".to_string(), name, arguments)?;
    assert_eq!(call.tool_call_id, "call_1");
    call.tool
}

fn summary(tool: Option<Tool>) -> String {
    tool_call_summary(&ToolCall { tool_call_id: "1".to_string(), tool })
}

fn shell(command: &str, is_read_only: bool) -> Option<Tool> {
    Some(Tool::RunShellCommand(RunShellCommand {
        command: command.to_string(),
        is_read_only,
        uses_pager: false,
        citations: Vec::new(),
        is_risky: !is_read_only,
        wait_until_complete_value: Some(WaitUntilCompleteValue::WaitUntilComplete(true)),
        risk_category: 0,
    }))
}

#[test]
fn a_shell_command_is_risky_unless_read_only() {
    let run = "run_shell_command";
    assert_eq!(request(run, r#"{"command":"ls","is_read_only":true}"#), shell("ls", true));
    assert_eq!(request(run, r#"{"command":"rm x","is_read_only":false}"#), shell("rm x", false));
    assert_eq!(request(run, r#"{"command":"ls"}"#), shell("ls", false));
    assert_eq!(request(run, r#"{"command":"ls","is_read_only":"yes"}"#), shell("ls", false));
    assert_eq!(request(run, r#"{"command":""}"#), shell("", false));
}

#[test]
fn a_shell_command_without_a_command_is_refused() {
    assert_eq!(request("run_shell_command", "{}"), None);
    assert_eq!(request("run_shell_command", r#"{"command":1}"#), None);
    assert_eq!(request("run_shell_command", "[]"), None);
}

#[test]
fn files_are_read_whole() {
    assert_eq!(
        request("read_files", r#"{"paths":["a.rs",1,"b.rs"]}"#),
        Some(Tool::ReadFiles(ReadFiles {
            files: vec![
                ReadFile { name: "a.rs".to_string(), line_ranges: Vec::new() },
                ReadFile { name: "b.rs".to_string(), line_ranges: Vec::new() },
            ],
        }))
    );
    assert_eq!(
        request("read_files", r#"{"paths":[]}"#),
        Some(Tool::ReadFiles(ReadFiles { files: Vec::new() }))
    );
    assert_eq!(request("read_files", r#"{"paths":"a.rs"}"#), None);
    assert_eq!(request("read_files", "{}"), None);
}

#[test]
fn a_grep_searches_the_working_directory_by_default() {
    assert_eq!(
        request("grep", r#"{"queries":["fn main","x"],"path":"src"}"#),
        Some(Tool::Grep(Grep { queries: texts(&["fn main", "x"]), path: "src".to_string() }))
    );
    assert_eq!(
        request("grep", r#"{"queries":[null],"path":7}"#),
        Some(Tool::Grep(Grep { queries: Vec::new(), path: String::new() }))
    );
    assert_eq!(request("grep", r#"{"path":"src"}"#), None);
}

#[test]
fn a_glob_has_no_limits() {
    assert_eq!(
        request("file_glob", r#"{"patterns":["*.rs"],"search_dir":"src"}"#),
        Some(Tool::FileGlobV2(FileGlobV2 {
            patterns: texts(&["*.rs"]),
            search_dir: "src".to_string(),
            min_depth: 0,
            max_depth: 0,
            max_matches: 0,
        }))
    );
    match request("file_glob", r#"{"patterns":["*.rs"]}"#) {
        Some(Tool::FileGlobV2(glob)) => assert_eq!(glob.search_dir, ""),
        other => panic!("{other:?}"),
    }
    assert_eq!(request("file_glob", r#"{"patterns":{}}"#), None);
}

#[test]
fn changes_of_files_are_gathered() {
    let arguments = r#"{
        "summary": "tidy",
        "new_files": [{"file_path":"a","content":"A"},{"file_path":"b"},3],
        "edits": [{"file_path":"c","search":"x","replace":"y"},{"file_path":"d","search":"x"}],
        "deleted_files": ["e", false]
    }"#;
    assert_eq!(
        request("apply_file_diffs", arguments),
        Some(Tool::ApplyFileDiffs(ApplyFileDiffs {
            summary: "tidy".to_string(),
            new_files: vec![NewFile { file_path: "a".to_string(), content: "A".to_string() }],
            diffs: vec![FileDiff {
                file_path: "c".to_string(),
                search: "x".to_string(),
                replace: "y".to_string(),
            }],
            v4a_updates: Vec::new(),
            deleted_files: vec![DeleteFile { file_path: "e".to_string() }],
        }))
    );
}

#[test]
fn a_change_of_nothing_is_refused() {
    assert_eq!(request("apply_file_diffs", r#"{"summary":"none"}"#), None);
    assert_eq!(request("apply_file_diffs", r#"{"new_files":[{"file_path":"b"}]}"#), None);
    assert_eq!(
        request("apply_file_diffs", r#"{"edits":[],"deleted_files":[],"new_files":[]}"#),
        None
    );
    match request("apply_file_diffs", r#"{"deleted_files":["x"]}"#) {
        Some(Tool::ApplyFileDiffs(change)) => assert_eq!(change.summary, ""),
        other => panic!("{other:?}"),
    }
}

#[test]
fn unknown_functions_and_broken_arguments_are_refused() {
    assert_eq!(request("rm", r#"{"command":"ls"}"#), None);
    assert_eq!(request("grep ", r#"{"queries":[]}"#), None);
    assert_eq!(request("run_shell_command", "{"), None);
    assert_eq!(request("run_shell_command", ""), None);
}

#[test]
fn parsed_arguments_are_understood_as_their_text_is() {
    let args = parse_json(r#"{"command":"ls"}"#).unwrap();
    assert_eq!(tool_from_arguments("run_shell_command", &args), shell("ls", false));
    assert_eq!(
        tool_call_from_arguments("7".to_string(), "run_shell_command", &args),
        Some(ToolCall { tool_call_id: "7".to_string(), tool: shell("ls", false) })
    );
    assert_eq!(tool_from_arguments("run_shell_command", &Json::Null), None);
}

#[test]
fn calls_are_summed_up_in_one_line() {
    assert_eq!(summary(shell("ls -l", true)), "run_shell_command: ls -l");
    assert_eq!(summary(request("read_files", r#"{"paths":["a","b"]}"#)), "read_files: a, b");
    assert_eq!(summary(request("read_files", r#"{"paths":[]}"#)), "read_files: ");
    assert_eq!(
        summary(request("grep", r#"{"queries":["a\"b","c"],"path":"src"}"#)),
        r#"grep ["a\"b", "c"] in src"#
    );
    assert_eq!(
        summary(request("file_glob", r#"{"patterns":["*.rs"]}"#)),
        r#"file_glob ["*.rs"] in "#
    );
    assert_eq!(
        summary(request("apply_file_diffs", r#"{"summary":"s","deleted_files":["x","y"]}"#)),
        "apply_file_diffs: 0 new / 0 edits / 2 deleted — s"
    );
    assert_eq!(summary(Some(Tool::Other)), "<tool call>");
    assert_eq!(summary(None), "<tool call>");
}

#[test]
fn a_search_is_described_by_what_and_where() {
    assert_eq!(describe_search("grep", "[]", "src"), "grep [] in src");
}
