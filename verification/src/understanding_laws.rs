//! What is taken over from the arguments of a tool call, whatever the arguments.

use crate::json::JsonView;
use crate::local_tools::{
    debug_text, diffs_request, file_diff_in, list_member, new_file_in, requested_call,
    requested_tool, search_summary, summary, texts_in,
};
use crate::proto::{
    ApplyFileDiffsView, FileDiffView, FileGlobV2View, GrepView, NewFileView,
    ReadFileView, ReadFilesView, RunShellCommandView, ToolView, WaitUntilCompleteValue,
};
use crate::text::{decimal_digits, joined};
use vstd::prelude::*;

verus! {

/// The texts among the items of a list, each as it stands.
pub open spec fn texts_given(items: Seq<JsonView>) -> Seq<Seq<char>>
    decreases items.len(),
{
    if items.len() == 0 {
        Seq::empty()
    } else {
        match items[0] {
            JsonView::Text(text) => seq![text] + texts_given(items.skip(1)),
            _ => texts_given(items.skip(1)),
        }
    }
}

/// The files to create among the items of a list: those that hold a path and a
/// content, each as it stands.
pub open spec fn new_files_given(items: Seq<JsonView>) -> Seq<NewFileView>
    decreases items.len(),
{
    if items.len() == 0 {
        Seq::empty()
    } else {
        match (items[0].get("file_path"@), items[0].get("content"@)) {
            (Some(JsonView::Text(file_path)), Some(JsonView::Text(content))) => seq![
                NewFileView { file_path, content },
            ] + new_files_given(items.skip(1)),
            _ => new_files_given(items.skip(1)),
        }
    }
}

/// The edits among the items of a list: those that hold a path, a text to find and
/// its replacement, each as it stands.
pub open spec fn edits_given(items: Seq<JsonView>) -> Seq<FileDiffView>
    decreases items.len(),
{
    if items.len() == 0 {
        Seq::empty()
    } else {
        match (
            items[0].get("file_path"@),
            items[0].get("search"@),
            items[0].get("replace"@),
        ) {
            (
                Some(JsonView::Text(file_path)),
                Some(JsonView::Text(search)),
                Some(JsonView::Text(replace)),
            ) => seq![FileDiffView { file_path, search, replace }] + edits_given(items.skip(1)),
            _ => edits_given(items.skip(1)),
        }
    }
}

/// The items of a list member; none where there is no such list.
pub open spec fn items_given(args: JsonView, key: Seq<char>) -> Seq<JsonView> {
    match args.get(key) {
        Some(JsonView::Array(items)) => items,
        _ => Seq::empty(),
    }
}

/// A text member; empty where there is no such text.
pub open spec fn text_given(args: JsonView, key: Seq<char>) -> Seq<char> {
    match args.get(key) {
        Some(JsonView::Text(text)) => text,
        _ => Seq::empty(),
    }
}

/// What is picked from a list is what is picked from its first item, followed by
/// what is picked from the rest.
proof fn lemma_pick_first<T>(items: Seq<JsonView>, pick: spec_fn(JsonView) -> Option<T>)
    requires
        items.len() > 0,
    ensures
        items.filter_map(pick) == (match pick(items[0]) {
            Some(picked) => seq![picked],
            None => Seq::empty(),
        }) + items.skip(1).filter_map(pick),
    decreases items.len(),
{
    let head = match pick(items[0]) {
        Some(picked) => seq![picked],
        None => Seq::empty(),
    };
    if items.len() == 1 {
        reveal_with_fuel(Seq::filter_map, 2);
        assert(items.drop_last() =~= Seq::empty());
        assert(items.skip(1) =~= Seq::empty());
        assert(items.filter_map(pick) =~= head + items.skip(1).filter_map(pick));
    } else {
        lemma_pick_first(items.drop_last(), pick);
        assert(items.skip(1).drop_last() =~= items.drop_last().skip(1));
        assert(items.skip(1).last() == items.last());
        assert(items.filter_map(pick) =~= head + items.skip(1).filter_map(pick));
    }
}

/// The texts of a list are taken over in their order, each character for
/// character; other items are passed over.
pub proof fn texts_are_taken_as_they_stand(items: Seq<JsonView>)
    ensures
        texts_in(items) == texts_given(items),
    decreases items.len(),
{
    if items.len() > 0 {
        texts_are_taken_as_they_stand(items.skip(1));
        lemma_pick_first(items, |item: JsonView| item.as_str());
        assert(texts_in(items) =~= texts_given(items));
    }
}

proof fn lemma_new_files(items: Seq<JsonView>)
    ensures
        items.filter_map(|item: JsonView| new_file_in(item)) == new_files_given(items),
    decreases items.len(),
{
    let pick = |item: JsonView| new_file_in(item);
    if items.len() > 0 {
        lemma_new_files(items.skip(1));
        lemma_pick_first(items, pick);
        assert(items.filter_map(pick) =~= new_files_given(items));
    }
}

proof fn lemma_edits(items: Seq<JsonView>)
    ensures
        items.filter_map(|item: JsonView| file_diff_in(item)) == edits_given(items),
    decreases items.len(),
{
    let pick = |item: JsonView| file_diff_in(item);
    if items.len() > 0 {
        lemma_edits(items.skip(1));
        lemma_pick_first(items, pick);
        assert(items.filter_map(pick) =~= edits_given(items));
    }
}

proof fn lemma_names_differ()
    ensures
        "run_shell_command"@.len() == 17,
        "read_files"@.len() == 10,
        "grep"@.len() == 4,
        "file_glob"@.len() == 9,
        "apply_file_diffs"@.len() == 16,
{
    reveal_strlit("run_shell_command");
    reveal_strlit("read_files");
    reveal_strlit("grep");
    reveal_strlit("file_glob");
    reveal_strlit("apply_file_diffs");
}

/// A shell command is run as it was given, to the last character, and refused only
/// where no command was given.
pub proof fn a_shell_command_is_run_as_given(args: JsonView)
    ensures
        requested_tool("run_shell_command"@, args) == match args.get("command"@) {
            Some(JsonView::Text(command)) => Some(
                ToolView::RunShellCommand(
                    RunShellCommandView {
                        command,
                        is_read_only: args.get("is_read_only"@) == Some(JsonView::Bool(true)),
                        uses_pager: false,
                        citations: Seq::empty(),
                        is_risky: args.get("is_read_only"@) != Some(JsonView::Bool(true)),
                        wait_until_complete_value: Some(
                            WaitUntilCompleteValue::WaitUntilComplete(true),
                        ),
                        risk_category: 0,
                    },
                ),
            ),
            _ => None,
        },
{
}

/// The files that were given are read, each in whole and in their order, and the
/// request is refused only where no list of paths was given.
pub proof fn files_are_read_as_given(args: JsonView)
    ensures
        match args.get("paths"@) {
            Some(JsonView::Array(items)) => {
                let paths = texts_given(items);
                &&& requested_tool("read_files"@, args) matches Some(
                    ToolView::ReadFiles(read),
                )
                &&& read.files.len() == paths.len()
                &&& forall|i: int|
                    0 <= i < paths.len() ==> (#[trigger] read.files[i]).name == paths[i]
                        && read.files[i].line_ranges.len() == 0
            },
            _ => requested_tool("read_files"@, args) is None,
        },
{
    lemma_names_differ();
    if let Some(JsonView::Array(items)) = args.get("paths"@) {
        texts_are_taken_as_they_stand(items);
    }
}

/// The patterns that were given are searched for, in the place that was given; a
/// search is refused only where no list of patterns was given.
pub proof fn searches_are_made_as_given(args: JsonView)
    ensures
        requested_tool("grep"@, args) == match args.get("queries"@) {
            Some(JsonView::Array(items)) => Some(
                ToolView::Grep(
                    GrepView { queries: texts_given(items), path: text_given(args, "path"@) },
                ),
            ),
            _ => None,
        },
        requested_tool("file_glob"@, args) == match args.get("patterns"@) {
            Some(JsonView::Array(items)) => Some(
                ToolView::FileGlobV2(
                    FileGlobV2View {
                        patterns: texts_given(items),
                        search_dir: text_given(args, "search_dir"@),
                        min_depth: 0,
                        max_depth: 0,
                        max_matches: 0,
                    },
                ),
            ),
            _ => None,
        },
{
    lemma_names_differ();
    texts_are_taken_as_they_stand(items_given(args, "queries"@));
    texts_are_taken_as_they_stand(items_given(args, "patterns"@));
}

/// Files are created, edited and deleted as given: every path, every content and
/// every replacement to the last character and in their order. A change is refused
/// only where nothing to change was given.
pub proof fn files_are_changed_as_given(args: JsonView)
    ensures
        ({
            let new_files = new_files_given(items_given(args, "new_files"@));
            let edits = edits_given(items_given(args, "edits"@));
            let deleted = texts_given(items_given(args, "deleted_files"@));
            match requested_tool("apply_file_diffs"@, args) {
                Some(ToolView::ApplyFileDiffs(change)) => {
                    &&& new_files.len() + edits.len() + deleted.len() > 0
                    &&& change.summary == text_given(args, "summary"@)
                    &&& change.new_files == new_files
                    &&& change.diffs == edits
                    &&& change.deleted_files.len() == deleted.len()
                    &&& forall|i: int|
                        0 <= i < deleted.len() ==> (#[trigger] change.deleted_files[i]).file_path
                            == deleted[i]
                    &&& change.v4a_updates.len() == 0
                },
                None => new_files.len() + edits.len() + deleted.len() == 0,
                _ => false,
            }
        }),
{
    lemma_names_differ();
    assert(list_member(args, "new_files"@) == items_given(args, "new_files"@));
    assert(list_member(args, "edits"@) == items_given(args, "edits"@));
    assert(list_member(args, "deleted_files"@) == items_given(args, "deleted_files"@));
    lemma_new_files(items_given(args, "new_files"@));
    lemma_edits(items_given(args, "edits"@));
    texts_are_taken_as_they_stand(items_given(args, "deleted_files"@));
    assert(requested_tool("apply_file_diffs"@, args) == diffs_request(args));
}

/// A call of a function that is not offered is refused. One that is understood
/// keeps its id and asks for what was understood.
pub proof fn a_call_keeps_its_id(
    tool_call_id: Seq<char>,
    function_name: Seq<char>,
    args: JsonView,
)
    ensures
        function_name != "run_shell_command"@ && function_name != "read_files"@ && function_name
            != "grep"@ && function_name != "file_glob"@ && function_name != "apply_file_diffs"@
            ==> requested_tool(function_name, args) is None,
        match requested_call(tool_call_id, function_name, args) {
            Some(call) => call.tool_call_id == tool_call_id && call.tool is Some && call.tool
                == requested_tool(function_name, args),
            None => requested_tool(function_name, args) is None,
        },
{
}

/// A summary names the tool and tells what it was asked to do, as it was asked.
pub proof fn a_summary_tells_what_was_asked(
    command: RunShellCommandView,
    read: ReadFilesView,
    grep: GrepView,
    glob: FileGlobV2View,
    change: ApplyFileDiffsView,
    tool_name: Seq<char>,
    patterns: Seq<char>,
    place: Seq<char>,
)
    ensures
        summary(Some(ToolView::RunShellCommand(command))) == "run_shell_command: "@
            + command.command,
        summary(Some(ToolView::ReadFiles(read))) == "read_files: "@ + joined(
            Seq::new(read.files.len(), |i: int| read.files[i].name),
            ", "@,
        ),
        summary(Some(ToolView::Grep(grep))) == "grep"@ + " "@ + debug_text(grep.queries) + " in "@
            + grep.path,
        summary(Some(ToolView::FileGlobV2(glob))) == "file_glob"@ + " "@ + debug_text(glob.patterns)
            + " in "@ + glob.search_dir,
        summary(Some(ToolView::ApplyFileDiffs(change))) == "apply_file_diffs: "@ + decimal_digits(
            change.new_files.len(),
        ) + " new / "@ + decimal_digits(change.diffs.len()) + " edits / "@ + decimal_digits(
            change.deleted_files.len(),
        ) + " deleted — "@ + change.summary,
        summary(Some(ToolView::Other)) == "<tool call>"@,
        summary(None) == "<tool call>"@,
        search_summary(tool_name, patterns, place) == tool_name + " "@ + patterns + " in "@ + place,
{
    let names = Seq::new(read.files.len(), |i: int| read.files[i].name);
    assert(read.files.map_values(|file: ReadFileView| file.name) =~= names);
}

} // verus!
