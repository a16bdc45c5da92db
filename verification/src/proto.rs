//! The messages of the agent protocol that a local run reads and writes, as
//! plain values.

use vstd::prelude::*;

verus! {

/// A span of lines of a file.
#[derive(Debug, Clone, PartialEq)]
pub struct LineRange {
    pub start: u32,
    pub end: u32,
}

pub struct LineRangeView {
    pub start: u32,
    pub end: u32,
}

impl DeepView for LineRange {
    type V = LineRangeView;

    open spec fn deep_view(&self) -> LineRangeView {
        LineRangeView { start: self.start, end: self.end }
    }
}

/// Whether a shell command is waited for.
#[derive(Debug, Clone, Copy, PartialEq)]
pub enum WaitUntilCompleteValue {
    WaitUntilComplete(bool),
}

#[derive(Debug, Clone, PartialEq)]
pub struct RunShellCommand {
    pub command: String,
    pub is_read_only: bool,
    pub uses_pager: bool,
    pub citations: Vec<String>,
    pub is_risky: bool,
    pub wait_until_complete_value: Option<WaitUntilCompleteValue>,
    pub risk_category: i32,
}

pub struct RunShellCommandView {
    pub command: Seq<char>,
    pub is_read_only: bool,
    pub uses_pager: bool,
    pub citations: Seq<Seq<char>>,
    pub is_risky: bool,
    pub wait_until_complete_value: Option<WaitUntilCompleteValue>,
    pub risk_category: i32,
}

impl DeepView for RunShellCommand {
    type V = RunShellCommandView;

    open spec fn deep_view(&self) -> RunShellCommandView {
        RunShellCommandView {
            command: self.command@,
            is_read_only: self.is_read_only,
            uses_pager: self.uses_pager,
            citations: self.citations.deep_view(),
            is_risky: self.is_risky,
            wait_until_complete_value: self.wait_until_complete_value,
            risk_category: self.risk_category,
        }
    }
}

/// A file to read; no line range stands for the whole file.
#[derive(Debug, Clone, PartialEq)]
pub struct ReadFile {
    pub name: String,
    pub line_ranges: Vec<LineRange>,
}

pub struct ReadFileView {
    pub name: Seq<char>,
    pub line_ranges: Seq<LineRangeView>,
}

impl DeepView for ReadFile {
    type V = ReadFileView;

    open spec fn deep_view(&self) -> ReadFileView {
        ReadFileView { name: self.name@, line_ranges: self.line_ranges.deep_view() }
    }
}

#[derive(Debug, Clone, PartialEq)]
pub struct ReadFiles {
    pub files: Vec<ReadFile>,
}

pub struct ReadFilesView {
    pub files: Seq<ReadFileView>,
}

impl DeepView for ReadFiles {
    type V = ReadFilesView;

    open spec fn deep_view(&self) -> ReadFilesView {
        ReadFilesView { files: self.files.deep_view() }
    }
}

#[derive(Debug, Clone, PartialEq)]
pub struct Grep {
    pub queries: Vec<String>,
    pub path: String,
}

pub struct GrepView {
    pub queries: Seq<Seq<char>>,
    pub path: Seq<char>,
}

impl DeepView for Grep {
    type V = GrepView;

    open spec fn deep_view(&self) -> GrepView {
        GrepView { queries: self.queries.deep_view(), path: self.path@ }
    }
}

#[derive(Debug, Clone, PartialEq)]
pub struct FileGlobV2 {
    pub patterns: Vec<String>,
    pub search_dir: String,
    pub min_depth: i32,
    pub max_depth: i32,
    pub max_matches: i32,
}

pub struct FileGlobV2View {
    pub patterns: Seq<Seq<char>>,
    pub search_dir: Seq<char>,
    pub min_depth: i32,
    pub max_depth: i32,
    pub max_matches: i32,
}

impl DeepView for FileGlobV2 {
    type V = FileGlobV2View;

    open spec fn deep_view(&self) -> FileGlobV2View {
        FileGlobV2View {
            patterns: self.patterns.deep_view(),
            search_dir: self.search_dir@,
            min_depth: self.min_depth,
            max_depth: self.max_depth,
            max_matches: self.max_matches,
        }
    }
}

#[derive(Debug, Clone, PartialEq)]
pub struct NewFile {
    pub file_path: String,
    pub content: String,
}

pub struct NewFileView {
    pub file_path: Seq<char>,
    pub content: Seq<char>,
}

impl DeepView for NewFile {
    type V = NewFileView;

    open spec fn deep_view(&self) -> NewFileView {
        NewFileView { file_path: self.file_path@, content: self.content@ }
    }
}

/// A replacement of one text by another in a file.
#[derive(Debug, Clone, PartialEq)]
pub struct FileDiff {
    pub file_path: String,
    pub search: String,
    pub replace: String,
}

pub struct FileDiffView {
    pub file_path: Seq<char>,
    pub search: Seq<char>,
    pub replace: Seq<char>,
}

impl DeepView for FileDiff {
    type V = FileDiffView;

    open spec fn deep_view(&self) -> FileDiffView {
        FileDiffView {
            file_path: self.file_path@,
            search: self.search@,
            replace: self.replace@,
        }
    }
}

#[derive(Debug, Clone, PartialEq)]
pub struct DeleteFile {
    pub file_path: String,
}

pub struct DeleteFileView {
    pub file_path: Seq<char>,
}

impl DeepView for DeleteFile {
    type V = DeleteFileView;

    open spec fn deep_view(&self) -> DeleteFileView {
        DeleteFileView { file_path: self.file_path@ }
    }
}

#[derive(Debug, Clone, PartialEq)]
pub struct ApplyFileDiffs {
    pub summary: String,
    pub new_files: Vec<NewFile>,
    pub diffs: Vec<FileDiff>,
    pub v4a_updates: Vec<String>,
    pub deleted_files: Vec<DeleteFile>,
}

pub struct ApplyFileDiffsView {
    pub summary: Seq<char>,
    pub new_files: Seq<NewFileView>,
    pub diffs: Seq<FileDiffView>,
    pub v4a_updates: Seq<Seq<char>>,
    pub deleted_files: Seq<DeleteFileView>,
}

impl DeepView for ApplyFileDiffs {
    type V = ApplyFileDiffsView;

    open spec fn deep_view(&self) -> ApplyFileDiffsView {
        ApplyFileDiffsView {
            summary: self.summary@,
            new_files: self.new_files.deep_view(),
            diffs: self.diffs.deep_view(),
            v4a_updates: self.v4a_updates.deep_view(),
            deleted_files: self.deleted_files.deep_view(),
        }
    }
}

/// What a tool call asks for.
#[derive(Debug, Clone, PartialEq)]
pub enum Tool {
    RunShellCommand(RunShellCommand),
    ReadFiles(ReadFiles),
    Grep(Grep),
    FileGlobV2(FileGlobV2),
    ApplyFileDiffs(ApplyFileDiffs),
    /// A tool that is not offered to local models.
    Other,
}

pub enum ToolView {
    RunShellCommand(RunShellCommandView),
    ReadFiles(ReadFilesView),
    Grep(GrepView),
    FileGlobV2(FileGlobV2View),
    ApplyFileDiffs(ApplyFileDiffsView),
    Other,
}

impl DeepView for Tool {
    type V = ToolView;

    open spec fn deep_view(&self) -> ToolView {
        match self {
            Tool::RunShellCommand(command) => ToolView::RunShellCommand(command.deep_view()),
            Tool::ReadFiles(files) => ToolView::ReadFiles(files.deep_view()),
            Tool::Grep(grep) => ToolView::Grep(grep.deep_view()),
            Tool::FileGlobV2(glob) => ToolView::FileGlobV2(glob.deep_view()),
            Tool::ApplyFileDiffs(diffs) => ToolView::ApplyFileDiffs(diffs.deep_view()),
            Tool::Other => ToolView::Other,
        }
    }
}

/// A tool call in a task.
#[derive(Debug, Clone, PartialEq)]
pub struct ToolCall {
    pub tool_call_id: String,
    pub tool: Option<Tool>,
}

pub struct ToolCallView {
    pub tool_call_id: Seq<char>,
    pub tool: Option<ToolView>,
}

impl DeepView for ToolCall {
    type V = ToolCallView;

    open spec fn deep_view(&self) -> ToolCallView {
        ToolCallView { tool_call_id: self.tool_call_id@, tool: self.tool.deep_view() }
    }
}

/// A point in time, counted from the Unix epoch.
#[derive(Debug, Clone, Copy, PartialEq)]
pub struct Timestamp {
    pub seconds: i64,
    pub nanos: i32,
}

impl DeepView for Timestamp {
    type V = Timestamp;

    open spec fn deep_view(&self) -> Timestamp {
        *self
    }
}

/// What a message of a task says.
#[derive(Debug, Clone, PartialEq)]
pub enum MessageContent {
    UserQuery { query: String },
    AgentOutput { text: String },
    /// Content that a local model is not shown.
    Other,
}

pub enum MessageContentView {
    UserQuery { query: Seq<char> },
    AgentOutput { text: Seq<char> },
    Other,
}

impl DeepView for MessageContent {
    type V = MessageContentView;

    open spec fn deep_view(&self) -> MessageContentView {
        match self {
            MessageContent::UserQuery { query } => MessageContentView::UserQuery { query: query@ },
            MessageContent::AgentOutput { text } => MessageContentView::AgentOutput { text: text@ },
            MessageContent::Other => MessageContentView::Other,
        }
    }
}

/// A message of a task.
#[derive(Debug, Clone, PartialEq)]
pub struct Message {
    pub id: String,
    pub task_id: String,
    pub request_id: String,
    pub timestamp: Option<Timestamp>,
    pub server_message_data: String,
    pub citations: Vec<String>,
    pub message: Option<MessageContent>,
}

pub struct MessageView {
    pub id: Seq<char>,
    pub task_id: Seq<char>,
    pub request_id: Seq<char>,
    pub timestamp: Option<Timestamp>,
    pub server_message_data: Seq<char>,
    pub citations: Seq<Seq<char>>,
    pub message: Option<MessageContentView>,
}

impl DeepView for Message {
    type V = MessageView;

    open spec fn deep_view(&self) -> MessageView {
        MessageView {
            id: self.id@,
            task_id: self.task_id@,
            request_id: self.request_id@,
            timestamp: self.timestamp,
            server_message_data: self.server_message_data@,
            citations: self.citations.deep_view(),
            message: self.message.deep_view(),
        }
    }
}

/// A task of a conversation.
#[derive(Debug, Clone, PartialEq)]
pub struct Task {
    pub id: String,
    pub description: String,
    pub dependencies: Option<Vec<String>>,
    pub messages: Vec<Message>,
    pub summary: String,
    pub server_data: String,
}

pub struct TaskView {
    pub id: Seq<char>,
    pub description: Seq<char>,
    pub dependencies: Option<Seq<Seq<char>>>,
    pub messages: Seq<MessageView>,
    pub summary: Seq<char>,
    pub server_data: Seq<char>,
}

impl DeepView for Task {
    type V = TaskView;

    open spec fn deep_view(&self) -> TaskView {
        TaskView {
            id: self.id@,
            description: self.description@,
            dependencies: self.dependencies.deep_view(),
            messages: self.messages.deep_view(),
            summary: self.summary@,
            server_data: self.server_data@,
        }
    }
}

/// The fields of a message that an update touches.
#[derive(Debug, Clone, PartialEq)]
pub struct FieldMask {
    pub paths: Vec<String>,
}

pub struct FieldMaskView {
    pub paths: Seq<Seq<char>>,
}

impl DeepView for FieldMask {
    type V = FieldMaskView;

    open spec fn deep_view(&self) -> FieldMaskView {
        FieldMaskView { paths: self.paths.deep_view() }
    }
}

#[derive(Debug, Clone, PartialEq)]
pub struct AddMessagesToTask {
    pub task_id: String,
    pub messages: Vec<Message>,
}

pub struct AddMessagesToTaskView {
    pub task_id: Seq<char>,
    pub messages: Seq<MessageView>,
}

impl DeepView for AddMessagesToTask {
    type V = AddMessagesToTaskView;

    open spec fn deep_view(&self) -> AddMessagesToTaskView {
        AddMessagesToTaskView { task_id: self.task_id@, messages: self.messages.deep_view() }
    }
}

/// Appends the masked fields of `message` to the message with its id.
#[derive(Debug, Clone, PartialEq)]
pub struct AppendToMessageContent {
    pub task_id: String,
    pub message: Option<Message>,
    pub mask: Option<FieldMask>,
}

pub struct AppendToMessageContentView {
    pub task_id: Seq<char>,
    pub message: Option<MessageView>,
    pub mask: Option<FieldMaskView>,
}

impl DeepView for AppendToMessageContent {
    type V = AppendToMessageContentView;

    open spec fn deep_view(&self) -> AppendToMessageContentView {
        AppendToMessageContentView {
            task_id: self.task_id@,
            message: self.message.deep_view(),
            mask: self.mask.deep_view(),
        }
    }
}

/// A change to the conversation that the client is asked to make.
#[derive(Debug, Clone, PartialEq)]
pub enum Action {
    BeginTransaction,
    CreateTask { task: Option<Task> },
    AddMessagesToTask(AddMessagesToTask),
    AppendToMessageContent(AppendToMessageContent),
    CommitTransaction,
}

pub enum ActionView {
    BeginTransaction,
    CreateTask { task: Option<TaskView> },
    AddMessagesToTask(AddMessagesToTaskView),
    AppendToMessageContent(AppendToMessageContentView),
    CommitTransaction,
}

impl DeepView for Action {
    type V = ActionView;

    open spec fn deep_view(&self) -> ActionView {
        match self {
            Action::BeginTransaction => ActionView::BeginTransaction,
            Action::CreateTask { task } => ActionView::CreateTask { task: task.deep_view() },
            Action::AddMessagesToTask(added) => ActionView::AddMessagesToTask(added.deep_view()),
            Action::AppendToMessageContent(appended) => ActionView::AppendToMessageContent(
                appended.deep_view(),
            ),
            Action::CommitTransaction => ActionView::CommitTransaction,
        }
    }
}

#[derive(Debug, Clone, PartialEq)]
pub struct ClientAction {
    pub action: Option<Action>,
}

pub struct ClientActionView {
    pub action: Option<ActionView>,
}

impl DeepView for ClientAction {
    type V = ClientActionView;

    open spec fn deep_view(&self) -> ClientActionView {
        ClientActionView { action: self.action.deep_view() }
    }
}

/// The identifiers under which an exchange is known.
#[derive(Debug, Clone, PartialEq)]
pub struct StreamInit {
    pub conversation_id: String,
    pub request_id: String,
    pub run_id: String,
}

pub struct StreamInitView {
    pub conversation_id: Seq<char>,
    pub request_id: Seq<char>,
    pub run_id: Seq<char>,
}

impl DeepView for StreamInit {
    type V = StreamInitView;

    open spec fn deep_view(&self) -> StreamInitView {
        StreamInitView {
            conversation_id: self.conversation_id@,
            request_id: self.request_id@,
            run_id: self.run_id@,
        }
    }
}

/// Why a stream came to its end.
#[derive(Debug, Clone, Copy, PartialEq)]
pub enum FinishReason {
    Done,
    Other,
}

#[derive(Debug, Clone, PartialEq)]
pub struct StreamFinished {
    pub reason: Option<FinishReason>,
    pub conversation_usage_metadata: Option<String>,
    pub token_usage: Vec<String>,
    pub should_refresh_model_config: bool,
    pub request_cost: Option<String>,
}

pub struct StreamFinishedView {
    pub reason: Option<FinishReason>,
    pub conversation_usage_metadata: Option<Seq<char>>,
    pub token_usage: Seq<Seq<char>>,
    pub should_refresh_model_config: bool,
    pub request_cost: Option<Seq<char>>,
}

impl DeepView for StreamFinished {
    type V = StreamFinishedView;

    open spec fn deep_view(&self) -> StreamFinishedView {
        StreamFinishedView {
            reason: self.reason,
            conversation_usage_metadata: self.conversation_usage_metadata.deep_view(),
            token_usage: self.token_usage.deep_view(),
            should_refresh_model_config: self.should_refresh_model_config,
            request_cost: self.request_cost.deep_view(),
        }
    }
}

#[derive(Debug, Clone, PartialEq)]
pub enum EventType {
    Init(StreamInit),
    ClientActions { actions: Vec<ClientAction> },
    Finished(StreamFinished),
}

pub enum EventTypeView {
    Init(StreamInitView),
    ClientActions { actions: Seq<ClientActionView> },
    Finished(StreamFinishedView),
}

impl DeepView for EventType {
    type V = EventTypeView;

    open spec fn deep_view(&self) -> EventTypeView {
        match self {
            EventType::Init(init) => EventTypeView::Init(init.deep_view()),
            EventType::ClientActions { actions } => EventTypeView::ClientActions {
                actions: actions.deep_view(),
            },
            EventType::Finished(finished) => EventTypeView::Finished(finished.deep_view()),
        }
    }
}

/// One event of the stream that answers a request.
#[derive(Debug, Clone, PartialEq)]
pub struct ResponseEvent {
    pub event_type: Option<EventType>,
}

pub struct ResponseEventView {
    pub event_type: Option<EventTypeView>,
}

impl DeepView for ResponseEvent {
    type V = ResponseEventView;

    open spec fn deep_view(&self) -> ResponseEventView {
        ResponseEventView { event_type: self.event_type.deep_view() }
    }
}

} // verus!
