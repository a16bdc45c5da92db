//! The tools that a local model may call: the schemas it is told about, and
//! what is made of the calls that it makes.

use crate::json::{parse_json, parsed_json, Json, JsonView};
use crate::proto::{
    ApplyFileDiffs, ApplyFileDiffsView, DeleteFile, DeleteFileView, FileDiff, FileDiffView,
    FileGlobV2, FileGlobV2View, Grep, GrepView, NewFile, NewFileView, ReadFile, ReadFileView,
    ReadFiles, ReadFilesView, RunShellCommand, RunShellCommandView, Tool, ToolCall, ToolCallView,
    ToolView, WaitUntilCompleteValue,
};
use crate::text::{decimal, decimal_digits, join, joined, str_eq};
use vstd::prelude::*;

pub use crate::tool_schemas::{ollama_tool_defs, openrouter_tool_defs};

verus! {

/// The text in each text item, in order; items of any other kind are passed
/// over.
pub open spec fn texts_in(items: Seq<JsonView>) -> Seq<Seq<char>> {
    items.filter_map(|item: JsonView| item.as_str())
}

/// The items of a list member, or none where the member is missing or no list.
pub open spec fn list_member(args: JsonView, key: Seq<char>) -> Seq<JsonView> {
    match args.get_array(key) {
        Some(items) => items,
        None => Seq::empty(),
    }
}

/// A text member, or the empty text where the member is missing or no text.
pub open spec fn text_member(args: JsonView, key: Seq<char>) -> Seq<char> {
    match args.get_str(key) {
        Some(text) => text,
        None => Seq::empty(),
    }
}

/// A shell command, taken for risky unless the model calls it read-only.
pub open spec fn shell_request(args: JsonView) -> Option<ToolView> {
    match args.get_str("command"@) {
        Some(command) => {
            let is_read_only = args.get_bool("is_read_only"@) == Some(true);
            Some(
                ToolView::RunShellCommand(
                    RunShellCommandView {
                        command,
                        is_read_only,
                        uses_pager: false,
                        citations: Seq::empty(),
                        is_risky: !is_read_only,
                        wait_until_complete_value: Some(
                            WaitUntilCompleteValue::WaitUntilComplete(true),
                        ),
                        risk_category: 0,
                    },
                ),
            )
        },
        None => None,
    }
}

/// The whole of each file whose path is given as a text.
pub open spec fn read_request(args: JsonView) -> Option<ToolView> {
    match args.get_array("paths"@) {
        Some(items) => Some(
            ToolView::ReadFiles(
                ReadFilesView {
                    files: texts_in(items).map_values(
                        |name: Seq<char>| ReadFileView { name, line_ranges: Seq::empty() },
                    ),
                },
            ),
        ),
        None => None,
    }
}

pub open spec fn grep_request(args: JsonView) -> Option<ToolView> {
    match args.get_array("queries"@) {
        Some(items) => Some(
            ToolView::Grep(
                GrepView { queries: texts_in(items), path: text_member(args, "path"@) },
            ),
        ),
        None => None,
    }
}

pub open spec fn glob_request(args: JsonView) -> Option<ToolView> {
    match args.get_array("patterns"@) {
        Some(items) => Some(
            ToolView::FileGlobV2(
                FileGlobV2View {
                    patterns: texts_in(items),
                    search_dir: text_member(args, "search_dir"@),
                    min_depth: 0,
                    max_depth: 0,
                    max_matches: 0,
                },
            ),
        ),
        None => None,
    }
}

/// A file to create, where both its path and its content are texts.
pub open spec fn new_file_in(item: JsonView) -> Option<NewFileView> {
    match (item.get_str("file_path"@), item.get_str("content"@)) {
        (Some(file_path), Some(content)) => Some(NewFileView { file_path, content }),
        _ => None,
    }
}

/// An edit, where its path, the text to find and its replacement are texts.
pub open spec fn file_diff_in(item: JsonView) -> Option<FileDiffView> {
    match (item.get_str("file_path"@), item.get_str("search"@), item.get_str("replace"@)) {
        (Some(file_path), Some(search), Some(replace)) => Some(
            FileDiffView { file_path, search, replace },
        ),
        _ => None,
    }
}

/// The edits that can be understood; a request in which there is none at all
/// is refused.
pub open spec fn diffs_request(args: JsonView) -> Option<ToolView> {
    let new_files = list_member(args, "new_files"@).filter_map(
        |item: JsonView| new_file_in(item),
    );
    let diffs = list_member(args, "edits"@).filter_map(|item: JsonView| file_diff_in(item));
    let deleted_files = texts_in(list_member(args, "deleted_files"@)).map_values(
        |file_path: Seq<char>| DeleteFileView { file_path },
    );
    if new_files.len() == 0 && diffs.len() == 0 && deleted_files.len() == 0 {
        None
    } else {
        Some(
            ToolView::ApplyFileDiffs(
                ApplyFileDiffsView {
                    summary: text_member(args, "summary"@),
                    new_files,
                    diffs,
                    v4a_updates: Seq::empty(),
                    deleted_files,
                },
            ),
        )
    }
}

/// What a call of the named function with the given arguments asks for; `None`
/// where no such function is offered or the arguments do not fit it.
pub open spec fn requested_tool(function_name: Seq<char>, args: JsonView) -> Option<ToolView> {
    if function_name == "run_shell_command"@ {
        shell_request(args)
    } else if function_name == "read_files"@ {
        read_request(args)
    } else if function_name == "grep"@ {
        grep_request(args)
    } else if function_name == "file_glob"@ {
        glob_request(args)
    } else if function_name == "apply_file_diffs"@ {
        diffs_request(args)
    } else {
        None
    }
}

/// The tool call with the given id for what `requested_tool` gives.
pub open spec fn requested_call(
    tool_call_id: Seq<char>,
    function_name: Seq<char>,
    args: JsonView,
) -> Option<ToolCallView> {
    match requested_tool(function_name, args) {
        Some(tool) => Some(ToolCallView { tool_call_id, tool: Some(tool) }),
        None => None,
    }
}

/// The text of each text item, in order.
fn collect_texts(items: &Vec<Json>) -> (r: Vec<String>)
    ensures
        r.deep_view() == texts_in(items.deep_view()),
{
    let ghost views = items.deep_view();
    let ghost pick = |item: JsonView| item.as_str();
    let mut out: Vec<String> = Vec::new();
    let mut i: usize = 0;
    assert(out.deep_view() =~= views.take(0).filter_map(pick));
    while i < items.len()
        invariant
            i <= items@.len(),
            views == items.deep_view(),
            pick == (|item: JsonView| item.as_str()),
            out.deep_view() == views.take(i as int).filter_map(pick),
        decreases items@.len() - i,
    {
        proof {
            views.lemma_filter_map_take_succ(pick, i as int);
            assert(views[i as int] == items@[i as int]@);
        }
        let ghost before = out.deep_view();
        if let Some(text) = items[i].as_str() {
            out.push(text.to_owned());
            assert(out.deep_view() =~= before + seq![text@]);
        }
        i = i + 1;
    }
    assert(views.take(i as int) =~= views);
    out
}

/// The text items of a list member.
fn collect_member_texts(args: &Json, key: &str) -> (r: Vec<String>)
    ensures
        r.deep_view() == texts_in(list_member(args@, key@)),
{
    match args.get_array(key) {
        Some(items) => collect_texts(items),
        None => {
            let r: Vec<String> = Vec::new();
            assert(r.deep_view() =~= texts_in(Seq::empty()));
            r
        },
    }
}

fn text_or_empty(args: &Json, key: &str) -> (r: String)
    ensures
        r@ == text_member(args@, key@),
{
    match args.get_str(key) {
        Some(text) => text,
        None => String::new(),
    }
}

fn read_new_file(item: &Json) -> (r: Option<NewFile>)
    ensures
        r.deep_view() == new_file_in(item@),
{
    match (item.get_str("file_path"), item.get_str("content")) {
        (Some(file_path), Some(content)) => Some(NewFile { file_path, content }),
        _ => None,
    }
}

fn read_file_diff(item: &Json) -> (r: Option<FileDiff>)
    ensures
        r.deep_view() == file_diff_in(item@),
{
    match (item.get_str("file_path"), item.get_str("search"), item.get_str("replace")) {
        (Some(file_path), Some(search), Some(replace)) => Some(
            FileDiff { file_path, search, replace },
        ),
        _ => None,
    }
}

/// The files to create.
fn collect_new_files(args: &Json) -> (r: Vec<NewFile>)
    ensures
        r.deep_view() == list_member(args@, "new_files"@).filter_map(
            |item: JsonView| new_file_in(item),
        ),
{
    let ghost pick = |item: JsonView| new_file_in(item);
    let mut out: Vec<NewFile> = Vec::new();
    match args.get_array("new_files") {
        Some(items) => {
            let ghost views = items.deep_view();
            let mut i: usize = 0;
            assert(out.deep_view() =~= views.take(0).filter_map(pick));
            while i < items.len()
                invariant
                    i <= items@.len(),
                    views == items.deep_view(),
                    pick == (|item: JsonView| new_file_in(item)),
                    out.deep_view() == views.take(i as int).filter_map(pick),
                decreases items@.len() - i,
            {
                proof {
                    views.lemma_filter_map_take_succ(pick, i as int);
                    assert(views[i as int] == items@[i as int]@);
                }
                let ghost before = out.deep_view();
                if let Some(file) = read_new_file(&items[i]) {
                    out.push(file);
                    assert(out.deep_view() =~= before + seq![file.deep_view()]);
                }
                i = i + 1;
            }
            assert(views.take(i as int) =~= views);
        },
        None => {
            assert(out.deep_view() =~= Seq::<JsonView>::empty().filter_map(pick));
        },
    }
    out
}

/// The edits of existing files.
fn collect_file_diffs(args: &Json) -> (r: Vec<FileDiff>)
    ensures
        r.deep_view() == list_member(args@, "edits"@).filter_map(
            |item: JsonView| file_diff_in(item),
        ),
{
    let ghost pick = |item: JsonView| file_diff_in(item);
    let mut out: Vec<FileDiff> = Vec::new();
    match args.get_array("edits") {
        Some(items) => {
            let ghost views = items.deep_view();
            let mut i: usize = 0;
            assert(out.deep_view() =~= views.take(0).filter_map(pick));
            while i < items.len()
                invariant
                    i <= items@.len(),
                    views == items.deep_view(),
                    pick == (|item: JsonView| file_diff_in(item)),
                    out.deep_view() == views.take(i as int).filter_map(pick),
                decreases items@.len() - i,
            {
                proof {
                    views.lemma_filter_map_take_succ(pick, i as int);
                    assert(views[i as int] == items@[i as int]@);
                }
                let ghost before = out.deep_view();
                if let Some(diff) = read_file_diff(&items[i]) {
                    out.push(diff);
                    assert(out.deep_view() =~= before + seq![diff.deep_view()]);
                }
                i = i + 1;
            }
            assert(views.take(i as int) =~= views);
        },
        None => {
            assert(out.deep_view() =~= Seq::<JsonView>::empty().filter_map(pick));
        },
    }
    out
}

/// The files to delete.
fn collect_deleted_files(args: &Json) -> (r: Vec<DeleteFile>)
    ensures
        r.deep_view() == texts_in(list_member(args@, "deleted_files"@)).map_values(
            |file_path: Seq<char>| DeleteFileView { file_path },
        ),
{
    let paths = collect_member_texts(args, "deleted_files");
    let ghost views = paths.deep_view();
    let mut out: Vec<DeleteFile> = Vec::new();
    for file_path in it: paths.into_iter()
        invariant
            it.seq().len() == views.len(),
            out@.len() == it.index(),
            forall|i: int| 0 <= i < views.len() ==> (#[trigger] it.seq()[i])@ == views[i],
            forall|i: int|
                0 <= i < out@.len() ==> (#[trigger] out@[i]).deep_view() == (DeleteFileView {
                    file_path: views[i],
                }),
    {
        out.push(DeleteFile { file_path });
    }
    assert(out.deep_view() =~= views.map_values(
        |file_path: Seq<char>| DeleteFileView { file_path },
    ));
    out
}

fn shell_command(args: &Json) -> (r: Option<Tool>)
    ensures
        r.deep_view() == shell_request(args@),
{
    let command = match args.get_str("command") {
        Some(command) => command,
        None => return None,
    };
    let is_read_only = match args.get_bool("is_read_only") {
        Some(flag) => flag,
        None => false,
    };
    let citations: Vec<String> = Vec::new();
    assert(citations.deep_view() =~= Seq::empty());
    Some(
        Tool::RunShellCommand(
            RunShellCommand {
                command,
                is_read_only,
                uses_pager: false,
                citations,
                is_risky: !is_read_only,
                wait_until_complete_value: Some(WaitUntilCompleteValue::WaitUntilComplete(true)),
                risk_category: 0,
            },
        ),
    )
}

fn read_files(args: &Json) -> (r: Option<Tool>)
    ensures
        r.deep_view() == read_request(args@),
{
    let names = match args.get_array("paths") {
        Some(items) => collect_texts(items),
        None => return None,
    };
    let ghost views = names.deep_view();
    let mut files: Vec<ReadFile> = Vec::new();
    for name in it: names.into_iter()
        invariant
            it.seq().len() == views.len(),
            files@.len() == it.index(),
            forall|i: int| 0 <= i < views.len() ==> (#[trigger] it.seq()[i])@ == views[i],
            forall|i: int|
                0 <= i < files@.len() ==> (#[trigger] files@[i]).deep_view() == (ReadFileView {
                    name: views[i],
                    line_ranges: Seq::empty(),
                }),
    {
        let file = ReadFile { name, line_ranges: Vec::new() };
        assert(file.line_ranges.deep_view() =~= Seq::empty());
        files.push(file);
    }
    assert(files.deep_view() =~= views.map_values(
        |name: Seq<char>| ReadFileView { name, line_ranges: Seq::empty() },
    ));
    Some(Tool::ReadFiles(ReadFiles { files }))
}

fn grep(args: &Json) -> (r: Option<Tool>)
    ensures
        r.deep_view() == grep_request(args@),
{
    match args.get_array("queries") {
        Some(items) => Some(
            Tool::Grep(
                Grep { queries: collect_texts(items), path: text_or_empty(args, "path") },
            ),
        ),
        None => None,
    }
}

fn file_glob(args: &Json) -> (r: Option<Tool>)
    ensures
        r.deep_view() == glob_request(args@),
{
    match args.get_array("patterns") {
        Some(items) => Some(
            Tool::FileGlobV2(
                FileGlobV2 {
                    patterns: collect_texts(items),
                    search_dir: text_or_empty(args, "search_dir"),
                    min_depth: 0,
                    max_depth: 0,
                    max_matches: 0,
                },
            ),
        ),
        None => None,
    }
}

fn apply_file_diffs(args: &Json) -> (r: Option<Tool>)
    ensures
        r.deep_view() == diffs_request(args@),
{
    let new_files = collect_new_files(args);
    let diffs = collect_file_diffs(args);
    let deleted_files = collect_deleted_files(args);
    assert(new_files.deep_view().len() == new_files@.len());
    assert(diffs.deep_view().len() == diffs@.len());
    assert(deleted_files.deep_view().len() == deleted_files@.len());
    if new_files.len() == 0 && diffs.len() == 0 && deleted_files.len() == 0 {
        return None;
    }
    let v4a_updates: Vec<String> = Vec::new();
    assert(v4a_updates.deep_view() =~= Seq::empty());
    Some(
        Tool::ApplyFileDiffs(
            ApplyFileDiffs {
                summary: text_or_empty(args, "summary"),
                new_files,
                diffs,
                v4a_updates,
                deleted_files,
            },
        ),
    )
}

/// What a call of the named function with the given arguments asks for.
pub fn tool_from_arguments(function_name: &str, args: &Json) -> (r: Option<Tool>)
    ensures
        r.deep_view() == requested_tool(function_name@, args@),
{
    if str_eq(function_name, "run_shell_command") {
        shell_command(args)
    } else if str_eq(function_name, "read_files") {
        read_files(args)
    } else if str_eq(function_name, "grep") {
        grep(args)
    } else if str_eq(function_name, "file_glob") {
        file_glob(args)
    } else if str_eq(function_name, "apply_file_diffs") {
        apply_file_diffs(args)
    } else {
        None
    }
}

/// The tool call that a model makes by naming a function and giving the value
/// of its arguments.
pub fn tool_call_from_arguments(tool_call_id: String, function_name: &str, args: &Json) -> (r:
    Option<ToolCall>)
    ensures
        r.deep_view() == requested_call(tool_call_id@, function_name@, args@),
{
    match tool_from_arguments(function_name, args) {
        Some(tool) => Some(ToolCall { tool_call_id, tool: Some(tool) }),
        None => None,
    }
}

/// The tool call that a model makes by naming a function and giving the JSON
/// text of its arguments. `None` where the text is not JSON, the function is
/// unknown, or the arguments do not fit it.
pub fn into_proto_tool_call(tool_call_id: String, function_name: &str, arguments_json: &str) -> (r:
    Option<ToolCall>)
    ensures
        r.deep_view() == match parsed_json(arguments_json@) {
            Some(args) => requested_call(tool_call_id@, function_name@, args),
            None => None,
        },
{
    match parse_json(arguments_json) {
        Some(args) => tool_call_from_arguments(tool_call_id, function_name, &args),
        None => None,
    }
}

/// The text that the `Debug` formatting of a list of strings gives.
pub uninterp spec fn debug_text(items: Seq<Seq<char>>) -> Seq<char>;

/// Formats a `Vec<String>` with `{:?}` of the standard library. The text
/// depends on the strings alone.
#[verifier::external_body]
fn debug_list(items: &Vec<String>) -> (r: String)
    ensures
        r@ == debug_text(items.deep_view()),
{
    format!("{:?}", items)
}

/// A search for the patterns of a list in some place.
pub open spec fn search_summary(
    tool_name: Seq<char>,
    patterns: Seq<char>,
    place: Seq<char>,
) -> Seq<char> {
    tool_name + " "@ + patterns + " in "@ + place
}

/// A one-line description of what a tool call asks for.
pub open spec fn summary(tool: Option<ToolView>) -> Seq<char> {
    match tool {
        Some(ToolView::RunShellCommand(command)) => "run_shell_command: "@ + command.command,
        Some(ToolView::ReadFiles(files)) => "read_files: "@ + joined(
            files.files.map_values(|file: ReadFileView| file.name),
            ", "@,
        ),
        Some(ToolView::Grep(grep)) => search_summary("grep"@, debug_text(grep.queries), grep.path),
        Some(ToolView::FileGlobV2(glob)) => search_summary(
            "file_glob"@,
            debug_text(glob.patterns),
            glob.search_dir,
        ),
        Some(ToolView::ApplyFileDiffs(diffs)) => "apply_file_diffs: "@ + decimal_digits(
            diffs.new_files.len(),
        ) + " new / "@ + decimal_digits(diffs.diffs.len()) + " edits / "@ + decimal_digits(
            diffs.deleted_files.len(),
        ) + " deleted — "@ + diffs.summary,
        _ => "<tool call>"@,
    }
}

/// Describes a search, given the text of its list of patterns.
pub fn describe_search(tool_name: &str, patterns: &str, place: &str) -> (r: String)
    ensures
        r@ == search_summary(tool_name@, patterns@, place@),
{
    let mut out = tool_name.to_owned();
    out.append(" ");
    out.append(patterns);
    out.append(" in ");
    out.append(place);
    out
}

/// A one-line description of a tool call for the chat history of a model.
pub fn tool_call_summary(tc: &ToolCall) -> (r: String)
    ensures
        r@ == summary(tc.deep_view().tool),
{
    match &tc.tool {
        Some(Tool::RunShellCommand(command)) => {
            let mut out = "run_shell_command: ".to_owned();
            out.append(command.command.as_str());
            out
        },
        Some(Tool::ReadFiles(files)) => {
            let mut names: Vec<String> = Vec::new();
            let mut i: usize = 0;
            while i < files.files.len()
                invariant
                    i <= files.files@.len(),
                    names@.len() == i,
                    forall|k: int| 0 <= k < i ==> (#[trigger] names@[k])@ == files.files@[k].name@,
                decreases files.files@.len() - i,
            {
                names.push(files.files[i].name.clone());
                i = i + 1;
            }
            assert(names.deep_view() =~= files.deep_view().files.map_values(
                |file: ReadFileView| file.name,
            ));
            let mut out = "read_files: ".to_owned();
            out.append(join(&names, ", ").as_str());
            out
        },
        Some(Tool::Grep(grep)) => describe_search(
            "grep",
            debug_list(&grep.queries).as_str(),
            grep.path.as_str(),
        ),
        Some(Tool::FileGlobV2(glob)) => describe_search(
            "file_glob",
            debug_list(&glob.patterns).as_str(),
            glob.search_dir.as_str(),
        ),
        Some(Tool::ApplyFileDiffs(diffs)) => {
            let mut out = "apply_file_diffs: ".to_owned();
            out.append(decimal(diffs.new_files.len()).as_str());
            out.append(" new / ");
            out.append(decimal(diffs.diffs.len()).as_str());
            out.append(" edits / ");
            out.append(decimal(diffs.deleted_files.len()).as_str());
            out.append(" deleted — ");
            out.append(diffs.summary.as_str());
            out
        },
        _ => "<tool call>".to_owned(),
    }
}

} // verus!
