//! How the schemas that a model is told about and the calls that are understood
//! fit together.

use crate::json::{distinct_keys, lookup, lookup_finds_the_member, JsonView};
use crate::local_tools::{
    diffs_request, file_diff_in, list_member, new_file_in, requested_tool, texts_in,
};
use crate::proto::{DeleteFileView, ReadFileView, ToolView};
use crate::tool_schemas::{
    described_schema, diffs_properties, diffs_schema, edit_properties, edit_schema,
    glob_properties, glob_schema, grep_properties, grep_schema, kind_schema, list_schema,
    new_file_properties, new_file_schema, offered_tools, ollama_definition, openrouter_definition,
    optional_schema, read_properties, read_schema, record_schema, shell_properties, shell_schema,
    ToolSchemaView,
};
use vstd::prelude::*;

verus! {

/// The value fits the schema: it is of the schema's kind, every item of a list
/// fits the schema of the items, an object holds every required property, and
/// every property that it holds fits its own schema.
pub open spec fn fits(schema: JsonView, value: JsonView) -> bool
    decreases value,
{
    let kind = schema.get_str("type"@);
    &&& kind == Some("string"@) ==> value is Text
    &&& kind == Some("boolean"@) ==> value is Bool
    &&& kind == Some("array"@) ==> match value {
        JsonView::Array(items) => forall|i: int|
            0 <= i < items.len() ==> fits(schema.get("items"@)->0, #[trigger] items[i]),
        _ => false,
    }
    &&& kind == Some("object"@) ==> match value {
        JsonView::Object(members) => {
            &&& forall|i: int|
                0 <= i < list_member(schema, "required"@).len() ==> lookup(
                    members,
                    (#[trigger] list_member(schema, "required"@)[i])->Text_0,
                ) is Some
            &&& forall|i: int|
                0 <= i < members.len() ==> match schema.get("properties"@)->0.get(
                    (#[trigger] members[i]).0,
                ) {
                    Some(property) => fits(property, members[i].1),
                    None => true,
                }
        },
        _ => false,
    }
}

proof fn lemma_schema_words()
    ensures
        "type"@.len() == 4,
        "items"@.len() == 5,
        "properties"@.len() == 10,
        "required"@.len() == 8,
        "description"@.len() == 11,
        "string"@.len() == 6,
        "boolean"@.len() == 7,
        "array"@ != "string"@,
        "array"@ != "boolean"@,
        "array"@ != "object"@,
        "object"@ != "string"@,
        "object"@ != "boolean"@,
{
    reveal_strlit("type");
    reveal_strlit("items");
    reveal_strlit("properties");
    reveal_strlit("required");
    reveal_strlit("description");
    reveal_strlit("string");
    reveal_strlit("boolean");
    reveal_strlit("array");
    reveal_strlit("object");
    assert("object"@[0] != "string"@[0]);
}

/// A member that is found is one of the members.
proof fn lemma_found(members: Seq<(Seq<char>, JsonView)>, key: Seq<char>)
    ensures
        lookup(members, key) is Some ==> members.contains((key, lookup(members, key)->0)),
    decreases members.len(),
{
    if members.len() > 0 {
        if members[0].0 == key {
            assert(members[0] == (key, lookup(members, key)->0));
        } else {
            lemma_found(members.skip(1), key);
            if lookup(members, key) is Some {
                let found = (key, lookup(members, key)->0);
                let i = choose|i: int| 0 <= i < members.skip(1).len() && members.skip(1)[i] == found;
                assert(members[i + 1] == found);
            }
        }
    }
}

/// A property that an object holds fits its schema.
proof fn lemma_property_fits(
    schema: JsonView,
    properties: Seq<(Seq<char>, JsonView)>,
    value: JsonView,
    k: int,
)
    requires
        fits(schema, value),
        schema.get_str("type"@) == Some("object"@),
        schema.get("properties"@) == Some(JsonView::Object(properties)),
        distinct_keys(properties),
        0 <= k < properties.len(),
    ensures
        value is Object,
        value.get(properties[k].0) is Some ==> fits(
            properties[k].1,
            value.get(properties[k].0)->0,
        ),
{
    let (key, property) = properties[k];
    lookup_finds_the_member(properties, key, property);
    assert(properties.contains(properties[k]));
    let members = value->Object_0;
    lemma_found(members, key);
    if value.get(key) is Some {
        let found = (key, value.get(key)->0);
        let i = choose|i: int| 0 <= i < members.len() && members[i] == found;
        assert(members[i].0 == key);
    }
}

proof fn lemma_simple_schemas(kind: Seq<char>, description: Seq<char>)
    ensures
        kind_schema(kind).get_str("type"@) == Some(kind),
        described_schema(kind, description).get_str("type"@) == Some(kind),
{
}

proof fn lemma_list_schema(items: JsonView, description: Seq<char>)
    ensures
        list_schema(items, description).get_str("type"@) == Some("array"@),
        list_schema(items, description).get("items"@) == Some(items),
{
    lemma_schema_words();
    reveal_with_fuel(lookup, 3);
}

proof fn lemma_object_schemas(properties: Seq<(Seq<char>, JsonView)>, required: Seq<Seq<char>>)
    ensures
        record_schema(properties, required).get_str("type"@) == Some("object"@),
        record_schema(properties, required).get("properties"@) == Some(
            JsonView::Object(properties),
        ),
        list_member(record_schema(properties, required), "required"@) == required.map_values(
            |key: Seq<char>| JsonView::Text(key),
        ),
        optional_schema(properties).get_str("type"@) == Some("object"@),
        optional_schema(properties).get("properties"@) == Some(JsonView::Object(properties)),
{
    lemma_schema_words();
    reveal_with_fuel(lookup, 4);
}

/// The properties of every object that a schema describes have distinct names.
proof fn lemma_distinct_properties()
    ensures
        distinct_keys(shell_properties()),
        distinct_keys(read_properties()),
        distinct_keys(grep_properties()),
        distinct_keys(glob_properties()),
        distinct_keys(new_file_properties()),
        distinct_keys(edit_properties()),
        distinct_keys(diffs_properties()),
{
    reveal_strlit("command");
    assert("command"@.len() == 7);
    reveal_strlit("is_read_only");
    assert("is_read_only"@.len() == 12);
    reveal_strlit("queries");
    assert("queries"@.len() == 7);
    reveal_strlit("path");
    assert("path"@.len() == 4);
    reveal_strlit("patterns");
    assert("patterns"@.len() == 8);
    reveal_strlit("search_dir");
    assert("search_dir"@.len() == 10);
    reveal_strlit("file_path");
    assert("file_path"@.len() == 9);
    reveal_strlit("content");
    assert("content"@.len() == 7);
    reveal_strlit("search");
    assert("search"@.len() == 6);
    reveal_strlit("replace");
    assert("replace"@.len() == 7);
    reveal_strlit("summary");
    assert("summary"@.len() == 7);
    reveal_strlit("new_files");
    assert("new_files"@.len() == 9);
    reveal_strlit("edits");
    assert("edits"@.len() == 5);
    reveal_strlit("deleted_files");
    assert("deleted_files"@.len() == 13);
}

/// What is required is there.
proof fn lemma_required(
    properties: Seq<(Seq<char>, JsonView)>,
    required: Seq<Seq<char>>,
    value: JsonView,
    i: int,
)
    requires
        fits(record_schema(properties, required), value),
        0 <= i < required.len(),
    ensures
        value.get(required[i]) is Some,
{
    lemma_object_schemas(properties, required);
    let schema = record_schema(properties, required);
    assert(list_member(schema, "required"@)[i]->Text_0 == required[i]);
}

proof fn lemma_text_fits(schema: JsonView, value: JsonView)
    requires
        schema.get_str("type"@) == Some("string"@),
        fits(schema, value),
    ensures
        value is Text,
{
}

proof fn lemma_list_fits(items: JsonView, description: Seq<char>, value: JsonView)
    requires
        fits(list_schema(items, description), value),
    ensures
        value is Array,
        forall|i: int| 0 <= i < value->Array_0.len() ==> fits(items, #[trigger] value->Array_0[i]),
{
    lemma_list_schema(items, description);
}

proof fn lemma_texts_fit(description: Seq<char>, value: JsonView)
    requires
        fits(list_schema(kind_schema("string"@), description), value),
    ensures
        value is Array,
        forall|i: int| 0 <= i < value->Array_0.len() ==> (#[trigger] value->Array_0[i]) is Text,
{
    lemma_list_fits(kind_schema("string"@), description, value);
    lemma_simple_schemas("string"@, description);
    assert forall|i: int| 0 <= i < value->Array_0.len() implies (
    #[trigger] value->Array_0[i]) is Text by {
        lemma_text_fits(kind_schema("string"@), value->Array_0[i]);
    }
}

/// Where everything can be understood, nothing is passed over.
proof fn lemma_all_kept<T>(items: Seq<JsonView>, pick: spec_fn(JsonView) -> Option<T>)
    requires
        forall|i: int| 0 <= i < items.len() ==> pick(#[trigger] items[i]) is Some,
    ensures
        items.filter_map(pick).len() == items.len(),
        forall|i: int|
            0 <= i < items.len() ==> pick(items[i]) == Some(#[trigger] items.filter_map(pick)[i]),
    decreases items.len(),
{
    if items.len() > 0 {
        lemma_all_kept(items.drop_last(), pick);
        assert forall|i: int| 0 <= i < items.len() implies pick(items[i]) == Some(
            #[trigger] items.filter_map(pick)[i],
        ) by {
            if i < items.len() - 1 {
                assert(items.drop_last()[i] == items[i]);
                assert(items.filter_map(pick)[i] == items.drop_last().filter_map(pick)[i]);
            }
        }
    }
}

proof fn lemma_tool_names()
    ensures
        "run_shell_command"@.len() == 17,
        "read_files"@.len() == 10,
        "grep"@.len() == 4,
        "file_glob"@.len() == 9,
        "apply_file_diffs"@.len() == 16,
{
    reveal_strlit("run_shell_command");
    reveal_strlit("read_files");
    reveal_strlit("grep");
    reveal_strlit("file_glob");
    reveal_strlit("apply_file_diffs");
}

/// No two tools go by one name.
pub proof fn tools_have_distinct_names(i: int, j: int)
    requires
        0 <= i < j < offered_tools().len(),
    ensures
        offered_tools()[i].name != offered_tools()[j].name,
{
    lemma_tool_names();
}

/// A call is understood only where it names a tool that the model was told about.
pub proof fn only_offered_tools_are_understood(function_name: Seq<char>, args: JsonView)
    ensures
        requested_tool(function_name, args) is Some ==> exists|i: int|
            0 <= i < offered_tools().len() && #[trigger] offered_tools()[i].name == function_name,
{
    assert(offered_tools()[0].name == "run_shell_command"@);
    assert(offered_tools()[1].name == "read_files"@);
    assert(offered_tools()[2].name == "grep"@);
    assert(offered_tools()[3].name == "file_glob"@);
    assert(offered_tools()[4].name == "apply_file_diffs"@);
}

/// A shell command is called risky exactly where it is not called read-only, and
/// is waited for.
pub proof fn shell_commands_are_risky_unless_read_only(function_name: Seq<char>, args: JsonView)
    ensures
        requested_tool(function_name, args) matches Some(ToolView::RunShellCommand(command)) ==> {
            &&& command.is_risky == !command.is_read_only
            &&& command.is_read_only == (args.get_bool("is_read_only"@) == Some(true))
            &&& command.wait_until_complete_value is Some
        },
{
}

/// The texts in a list of nothing but texts.
pub open spec fn are_texts(items: Seq<JsonView>, texts: Seq<Seq<char>>) -> bool {
    items == texts.map_values(|text: Seq<char>| JsonView::Text(text))
}

proof fn lemma_texts_kept(items: Seq<JsonView>)
    requires
        forall|i: int| 0 <= i < items.len() ==> (#[trigger] items[i]) is Text,
    ensures
        are_texts(items, texts_in(items)),
{
    let pick = |item: JsonView| item.as_str();
    lemma_all_kept(items, pick);
    assert forall|i: int| 0 <= i < items.len() implies items[i] == JsonView::Text(
        #[trigger] texts_in(items)[i],
    ) by {
        assert(pick(items[i]) == Some(items.filter_map(pick)[i]));
    }
    assert(items =~= texts_in(items).map_values(|text: Seq<char>| JsonView::Text(text)));
}

/// A shell command with fitting arguments is understood.
pub proof fn a_fitting_shell_command_is_understood(args: JsonView)
    requires
        fits(shell_schema().parameters, args),
    ensures
        requested_tool(shell_schema().name, args) matches Some(ToolView::RunShellCommand(command))
            && args.get("command"@) == Some(JsonView::Text(command.command)),
{
    lemma_distinct_properties();
    let required = seq!["command"@];
    let schema = record_schema(shell_properties(), required);
    lemma_object_schemas(shell_properties(), required);
    lemma_required(shell_properties(), required, args, 0);
    lemma_property_fits(schema, shell_properties(), args, 0);
    lemma_text_fits(shell_properties()[0].1, args.get("command"@)->0);
}

/// A request to read files with fitting arguments is understood, and no file is
/// left out.
pub proof fn a_fitting_read_is_understood(args: JsonView)
    requires
        fits(read_schema().parameters, args),
    ensures
        requested_tool(read_schema().name, args) matches Some(ToolView::ReadFiles(read))
            && are_texts(list_member(args, "paths"@), read.files.map_values(|file: ReadFileView| file.name)),
{
    lemma_tool_names();
    lemma_distinct_properties();
    let required = seq!["paths"@];
    let schema = record_schema(read_properties(), required);
    lemma_object_schemas(read_properties(), required);
    lemma_required(read_properties(), required, args, 0);
    lemma_property_fits(schema, read_properties(), args, 0);
    lemma_texts_fit(
        "Absolute or working-directory-relative file paths to read."@,
        args.get("paths"@)->0,
    );
    lemma_texts_kept(list_member(args, "paths"@));
    let read = requested_tool(read_schema().name, args)->0->ReadFiles_0;
    assert(read.files.map_values(|file: ReadFileView| file.name) =~= texts_in(
        list_member(args, "paths"@),
    ));
}

/// A search for text with fitting arguments is understood, and no pattern is left
/// out.
pub proof fn a_fitting_grep_is_understood(args: JsonView)
    requires
        fits(grep_schema().parameters, args),
    ensures
        requested_tool(grep_schema().name, args) matches Some(ToolView::Grep(grep)) && {
            &&& are_texts(list_member(args, "queries"@), grep.queries)
            &&& args.get("path"@) == Some(JsonView::Text(grep.path)) || (args.get("path"@) is None
                && grep.path.len() == 0)
        },
{
    lemma_tool_names();
    lemma_distinct_properties();
    let required = seq!["queries"@];
    let schema = record_schema(grep_properties(), required);
    lemma_object_schemas(grep_properties(), required);
    lemma_required(grep_properties(), required, args, 0);
    lemma_property_fits(schema, grep_properties(), args, 0);
    lemma_property_fits(schema, grep_properties(), args, 1);
    lemma_texts_fit("Patterns to search for."@, args.get("queries"@)->0);
    lemma_texts_kept(list_member(args, "queries"@));
    if args.get("path"@) is Some {
        lemma_text_fits(grep_properties()[1].1, args.get("path"@)->0);
    }
}

/// A search for files with fitting arguments is understood, and no pattern is left
/// out.
pub proof fn a_fitting_glob_is_understood(args: JsonView)
    requires
        fits(glob_schema().parameters, args),
    ensures
        requested_tool(glob_schema().name, args) matches Some(ToolView::FileGlobV2(glob)) && {
            &&& are_texts(list_member(args, "patterns"@), glob.patterns)
            &&& args.get("search_dir"@) == Some(JsonView::Text(glob.search_dir)) || (args.get(
                "search_dir"@,
            ) is None && glob.search_dir.len() == 0)
        },
{
    lemma_tool_names();
    lemma_distinct_properties();
    let required = seq!["patterns"@];
    let schema = record_schema(glob_properties(), required);
    lemma_object_schemas(glob_properties(), required);
    lemma_required(glob_properties(), required, args, 0);
    lemma_property_fits(schema, glob_properties(), args, 0);
    lemma_property_fits(schema, glob_properties(), args, 1);
    lemma_texts_fit(
        "Glob patterns to match (e.g. [\"**/*.rs\", \"Cargo.toml\"])."@,
        args.get("patterns"@)->0,
    );
    lemma_texts_kept(list_member(args, "patterns"@));
    if args.get("search_dir"@) is Some {
        lemma_text_fits(glob_properties()[1].1, args.get("search_dir"@)->0);
    }
}

/// A list property of an object, where all its items fit.
proof fn lemma_list_property(
    properties: Seq<(Seq<char>, JsonView)>,
    value: JsonView,
    k: int,
    items: JsonView,
    description: Seq<char>,
)
    requires
        fits(optional_schema(properties), value),
        distinct_keys(properties),
        0 <= k < properties.len(),
        properties[k].1 == list_schema(items, description),
    ensures
        forall|i: int|
            0 <= i < list_member(value, properties[k].0).len() ==> fits(
                items,
                #[trigger] list_member(value, properties[k].0)[i],
            ),
{
    let key = properties[k].0;
    lemma_object_schemas(properties, Seq::empty());
    lemma_property_fits(optional_schema(properties), properties, value, k);
    if value.get(key) is Some {
        lemma_list_fits(items, description, value.get(key)->0);
    }
}

proof fn lemma_new_file_fits(item: JsonView)
    requires
        fits(new_file_schema(), item),
    ensures
        new_file_in(item) is Some,
{
    lemma_distinct_properties();
    let properties = new_file_properties();
    let required = seq!["file_path"@, "content"@];
    lemma_object_schemas(properties, required);
    lemma_required(properties, required, item, 0);
    lemma_required(properties, required, item, 1);
    lemma_property_fits(new_file_schema(), properties, item, 0);
    lemma_property_fits(new_file_schema(), properties, item, 1);
    lemma_text_fits(properties[0].1, item.get("file_path"@)->0);
    lemma_text_fits(properties[1].1, item.get("content"@)->0);
}

proof fn lemma_edit_fits(item: JsonView)
    requires
        fits(edit_schema(), item),
    ensures
        file_diff_in(item) is Some,
{
    lemma_distinct_properties();
    let properties = edit_properties();
    let required = seq!["file_path"@, "search"@, "replace"@];
    lemma_object_schemas(properties, required);
    lemma_required(properties, required, item, 0);
    lemma_required(properties, required, item, 1);
    lemma_required(properties, required, item, 2);
    lemma_property_fits(edit_schema(), properties, item, 0);
    lemma_property_fits(edit_schema(), properties, item, 1);
    lemma_property_fits(edit_schema(), properties, item, 2);
    lemma_text_fits(properties[0].1, item.get("file_path"@)->0);
    lemma_text_fits(properties[1].1, item.get("search"@)->0);
    lemma_text_fits(properties[2].1, item.get("replace"@)->0);
}

/// A change of files with fitting arguments is understood exactly where it names
/// something to change, and no part of it is left out.
pub proof fn a_fitting_change_is_understood(args: JsonView)
    requires
        fits(diffs_schema().parameters, args),
    ensures
        ({
            let new_files = list_member(args, "new_files"@);
            let edits = list_member(args, "edits"@);
            let deleted_files = list_member(args, "deleted_files"@);
            match requested_tool(diffs_schema().name, args) {
                Some(ToolView::ApplyFileDiffs(change)) => {
                    &&& new_files.len() + edits.len() + deleted_files.len() > 0
                    &&& change.new_files.len() == new_files.len()
                    &&& forall|i: int|
                        0 <= i < new_files.len() ==> new_file_in(new_files[i]) == Some(
                            #[trigger] change.new_files[i],
                        ) && new_files[i].get("file_path"@) == Some(
                            JsonView::Text(change.new_files[i].file_path),
                        ) && new_files[i].get("content"@) == Some(
                            JsonView::Text(change.new_files[i].content),
                        )
                    &&& change.diffs.len() == edits.len()
                    &&& forall|i: int|
                        0 <= i < edits.len() ==> file_diff_in(edits[i]) == Some(
                            #[trigger] change.diffs[i],
                        ) && edits[i].get("file_path"@) == Some(
                            JsonView::Text(change.diffs[i].file_path),
                        ) && edits[i].get("search"@) == Some(
                            JsonView::Text(change.diffs[i].search),
                        ) && edits[i].get("replace"@) == Some(
                            JsonView::Text(change.diffs[i].replace),
                        )
                    &&& are_texts(
                        deleted_files,
                        change.deleted_files.map_values(|file: DeleteFileView| file.file_path),
                    )
                },
                None => new_files.len() + edits.len() + deleted_files.len() == 0,
                _ => false,
            }
        }),
{
    lemma_tool_names();
    lemma_distinct_properties();
    let properties = diffs_properties();
    let new_files = list_member(args, "new_files"@);
    let edits = list_member(args, "edits"@);
    let deleted_files = list_member(args, "deleted_files"@);
    lemma_list_property(
        properties,
        args,
        1,
        new_file_schema(),
        "Files to create. Each must have a path and full content."@,
    );
    assert forall|i: int| 0 <= i < new_files.len() implies new_file_in(
        #[trigger] new_files[i],
    ) is Some by {
        lemma_new_file_fits(new_files[i]);
    }
    let pick_file = |item: JsonView| new_file_in(item);
    lemma_all_kept(new_files, pick_file);
    lemma_list_property(
        properties,
        args,
        2,
        edit_schema(),
        "Edits to existing files using search/replace semantics. The `search` string must match the file contents exactly (including whitespace) and must be unique in the file."@,
    );
    assert forall|i: int| 0 <= i < edits.len() implies file_diff_in(#[trigger] edits[i]) is Some by {
        lemma_edit_fits(edits[i]);
    }
    let pick_edit = |item: JsonView| file_diff_in(item);
    lemma_all_kept(edits, pick_edit);
    lemma_list_property(
        properties,
        args,
        3,
        kind_schema("string"@),
        "File paths to delete."@,
    );
    assert forall|i: int| 0 <= i < deleted_files.len() implies (
    #[trigger] deleted_files[i]) is Text by {
        lemma_simple_schemas("string"@, "string"@);
        lemma_text_fits(kind_schema("string"@), deleted_files[i]);
    }
    lemma_texts_kept(deleted_files);
    match diffs_request(args) {
        Some(ToolView::ApplyFileDiffs(change)) => {
            assert forall|i: int| 0 <= i < new_files.len() implies new_file_in(new_files[i])
                == Some(#[trigger] change.new_files[i]) by {
                assert(pick_file(new_files[i]) == Some(new_files.filter_map(pick_file)[i]));
            }
            assert forall|i: int| 0 <= i < edits.len() implies file_diff_in(edits[i]) == Some(
                #[trigger] change.diffs[i],
            ) by {
                assert(pick_edit(edits[i]) == Some(edits.filter_map(pick_edit)[i]));
            }
            assert(change.deleted_files.map_values(|file: DeleteFileView| file.file_path)
                =~= texts_in(deleted_files));
        },
        _ => {},
    }
}

proof fn lemma_simple_well_formed(kind: Seq<char>, description: Seq<char>)
    ensures
        kind_schema(kind).well_formed(),
        described_schema(kind, description).well_formed(),
{
    lemma_schema_words();
    reveal_with_fuel(JsonView::well_formed, 2);
}

proof fn lemma_list_well_formed(items: JsonView, description: Seq<char>)
    requires
        items.well_formed(),
    ensures
        list_schema(items, description).well_formed(),
{
    lemma_schema_words();
    reveal_with_fuel(JsonView::well_formed, 2);
}

proof fn lemma_object_well_formed(
    properties: Seq<(Seq<char>, JsonView)>,
    required: Seq<Seq<char>>,
)
    requires
        distinct_keys(properties),
        forall|i: int| 0 <= i < properties.len() ==> (#[trigger] properties[i]).1.well_formed(),
    ensures
        record_schema(properties, required).well_formed(),
        optional_schema(properties).well_formed(),
{
    lemma_schema_words();
    reveal_with_fuel(JsonView::well_formed, 2);
    assert(JsonView::Object(properties).well_formed());
    assert(JsonView::Array(
        required.map_values(|key: Seq<char>| JsonView::Text(key)),
    ).well_formed());
}

proof fn lemma_string_schemas()
    ensures
        kind_schema("string"@).well_formed(),
        forall|kind: Seq<char>, description: Seq<char>| #[trigger]
            described_schema(kind, description).well_formed(),
        forall|description: Seq<char>| #[trigger]
            list_schema(kind_schema("string"@), description).well_formed(),
{
    lemma_simple_well_formed("string"@, "string"@);
    assert forall|kind: Seq<char>, description: Seq<char>| #[trigger]
        described_schema(kind, description).well_formed() by {
        lemma_simple_well_formed(kind, description);
    }
    assert forall|description: Seq<char>| #[trigger]
        list_schema(kind_schema("string"@), description).well_formed() by {
        lemma_list_well_formed(kind_schema("string"@), description);
    }
}

proof fn lemma_diffs_well_formed()
    ensures
        diffs_schema().parameters.well_formed(),
{
    lemma_string_schemas();
    lemma_distinct_properties();
    lemma_object_well_formed(new_file_properties(), seq!["file_path"@, "content"@]);
    lemma_object_well_formed(edit_properties(), seq!["file_path"@, "search"@, "replace"@]);
    lemma_list_well_formed(
        new_file_schema(),
        "Files to create. Each must have a path and full content."@,
    );
    lemma_list_well_formed(
        edit_schema(),
        "Edits to existing files using search/replace semantics. The `search` string must match the file contents exactly (including whitespace) and must be unique in the file."@,
    );
    lemma_object_well_formed(diffs_properties(), Seq::empty());
}

/// No object in the schemas holds a key twice.
pub proof fn offered_schemas_are_well_formed(i: int)
    requires
        0 <= i < offered_tools().len(),
    ensures
        offered_tools()[i].parameters.well_formed(),
{
    lemma_string_schemas();
    lemma_distinct_properties();
    lemma_object_well_formed(shell_properties(), seq!["command"@]);
    lemma_object_well_formed(read_properties(), seq!["paths"@]);
    lemma_object_well_formed(grep_properties(), seq!["queries"@]);
    lemma_object_well_formed(glob_properties(), seq!["patterns"@]);
    lemma_diffs_well_formed();
}

/// A model is told of five tools, and of each what it is for.
pub proof fn a_model_is_told_what_each_tool_is_for()
    ensures
        offered_tools().len() == 5,
        offered_tools()[0].name == "run_shell_command"@,
        offered_tools()[0].description
            == "Run a shell command on the user's machine and return its output. The user may be prompted to approve the command before it runs."@,
        offered_tools()[1].name == "read_files"@,
        offered_tools()[1].description
            == "Read the contents of one or more files. Use this to inspect source code or configuration before making changes."@,
        offered_tools()[2].name == "grep"@,
        offered_tools()[2].description
            == "Search for a text pattern across files. Uses ripgrep semantics."@,
        offered_tools()[3].name == "file_glob"@,
        offered_tools()[3].description
            == "Find files whose names match one or more glob patterns (e.g. \"**/*.rs\")."@,
        offered_tools()[4].name == "apply_file_diffs"@,
        offered_tools()[4].description
            == "Create new files, edit existing files, or delete files. Use this whenever you want to write code or modify the project. The user may be prompted to approve each change before it's applied."@,
{
}

/// A service is told of a tool as a function, under its name and with its
/// description and its schema as they stand.
pub proof fn a_tool_is_made_known_as_it_stands(tool: ToolSchemaView)
    ensures
        openrouter_definition(tool).tool_type == "function"@,
        openrouter_definition(tool).function.name == tool.name,
        openrouter_definition(tool).function.description == tool.description,
        openrouter_definition(tool).function.parameters == tool.parameters,
        ollama_definition(tool).tool_type == "function"@,
        ollama_definition(tool).function.name == tool.name,
        ollama_definition(tool).function.description == tool.description,
        ollama_definition(tool).function.parameters == tool.parameters,
{
}

} // verus!
