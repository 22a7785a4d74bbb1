//! Conversation entries and the patches that add and replace them.

use crate::text::text_of;
use vstd::prelude::*;

verus! {

/// What a shell command is for.
#[derive(Clone, Copy, Debug, PartialEq, Eq, Structural)]
pub enum CommandCategory {
    Read,
    Search,
    Edit,
    Fetch,
    Other,
}

/// How a command ended.
#[derive(Clone, Copy, Debug, PartialEq, Eq, Structural)]
pub enum CommandExitStatus {
    ExitCode { code: i32 },
}

/// How far the use of a tool has come.
#[derive(Clone, Copy, Debug, PartialEq, Eq, Structural)]
pub enum ToolStatus {
    Created,
    Success,
    Failed,
}

/// What kind of error an error message reports.
#[derive(Clone, Copy, Debug, PartialEq, Eq, Structural)]
pub enum NormalizedEntryError {
    SetupRequired,
    Other,
}

/// The outcome of a command.
#[derive(Clone, Debug, PartialEq, Eq)]
pub struct CommandRunResult {
    pub exit_status: Option<CommandExitStatus>,
    pub output: Option<String>,
}

/// What a tool does.
#[allow(inconsistent_fields)]
#[derive(Clone, Debug, PartialEq, Eq)]
pub enum ActionType {
    FileRead { path: String },
    CommandRun {
        command: String,
        result: Option<CommandRunResult>,
        category: CommandCategory,
    },
    WebFetch { url: String },
    Search { query: String },
    /// Any other tool. Arguments and result are JSON texts.
    Tool { tool_name: String, arguments: Option<String>, result: Option<String> },
}

/// What an entry is.
#[derive(Clone, Debug, PartialEq, Eq)]
pub enum NormalizedEntryType {
    ToolUse { tool_name: String, action_type: ActionType, status: ToolStatus },
    AssistantMessage,
    ErrorMessage { error_type: NormalizedEntryError },
}

/// An entry of a conversation. The metadata is a JSON text.
#[derive(Clone, Debug, PartialEq, Eq)]
pub struct NormalizedEntry {
    pub timestamp: Option<String>,
    pub entry_type: NormalizedEntryType,
    pub content: String,
    pub metadata: Option<String>,
}

/// A change of a conversation.
#[derive(Clone, Debug, PartialEq, Eq)]
pub enum ConversationPatch {
    /// A new entry under an index that was not used before.
    AddNormalizedEntry { index: usize, entry: NormalizedEntry },
    /// Another entry under an index that is in use.
    Replace { index: usize, entry: NormalizedEntry },
}

/// The values that a `CommandRunResult` holds.
pub struct CommandRunResultView {
    pub exit_status: Option<CommandExitStatus>,
    pub output: Option<Seq<char>>,
}

/// The values that an `ActionType` holds.
#[allow(inconsistent_fields)]
pub enum ActionView {
    FileRead { path: Seq<char> },
    CommandRun {
        command: Seq<char>,
        result: Option<CommandRunResultView>,
        category: CommandCategory,
    },
    WebFetch { url: Seq<char> },
    Search { query: Seq<char> },
    Tool { tool_name: Seq<char>, arguments: Option<Seq<char>>, result: Option<Seq<char>> },
}

/// The values that a `NormalizedEntryType` holds.
pub enum EntryTypeView {
    ToolUse { tool_name: Seq<char>, action_type: ActionView, status: ToolStatus },
    AssistantMessage,
    ErrorMessage { error_type: NormalizedEntryError },
}

/// The values that a `NormalizedEntry` holds.
pub struct EntryView {
    pub timestamp: Option<Seq<char>>,
    pub entry_type: EntryTypeView,
    pub content: Seq<char>,
    pub metadata: Option<Seq<char>>,
}

/// The values that a `ConversationPatch` holds.
pub enum PatchView {
    AddNormalizedEntry { index: usize, entry: EntryView },
    Replace { index: usize, entry: EntryView },
}

impl View for CommandRunResult {
    type V = CommandRunResultView;

    open spec fn view(&self) -> CommandRunResultView {
        CommandRunResultView { exit_status: self.exit_status, output: text_of(self.output) }
    }
}

impl View for ActionType {
    type V = ActionView;

    open spec fn view(&self) -> ActionView {
        match self {
            ActionType::FileRead { path } => ActionView::FileRead { path: path@ },
            ActionType::CommandRun { command, result, category } => ActionView::CommandRun {
                command: command@,
                result: match result {
                    Some(result) => Some(result@),
                    None => None,
                },
                category: *category,
            },
            ActionType::WebFetch { url } => ActionView::WebFetch { url: url@ },
            ActionType::Search { query } => ActionView::Search { query: query@ },
            ActionType::Tool { tool_name, arguments, result } => ActionView::Tool {
                tool_name: tool_name@,
                arguments: text_of(*arguments),
                result: text_of(*result),
            },
        }
    }
}

impl View for NormalizedEntryType {
    type V = EntryTypeView;

    open spec fn view(&self) -> EntryTypeView {
        match self {
            NormalizedEntryType::ToolUse { tool_name, action_type, status } =>
                EntryTypeView::ToolUse {
                    tool_name: tool_name@,
                    action_type: action_type@,
                    status: *status,
                },
            NormalizedEntryType::AssistantMessage => EntryTypeView::AssistantMessage,
            NormalizedEntryType::ErrorMessage { error_type } => EntryTypeView::ErrorMessage {
                error_type: *error_type,
            },
        }
    }
}

impl View for NormalizedEntry {
    type V = EntryView;

    open spec fn view(&self) -> EntryView {
        EntryView {
            timestamp: text_of(self.timestamp),
            entry_type: self.entry_type@,
            content: self.content@,
            metadata: text_of(self.metadata),
        }
    }
}

impl View for ConversationPatch {
    type V = PatchView;

    open spec fn view(&self) -> PatchView {
        match self {
            ConversationPatch::AddNormalizedEntry { index, entry } =>
                PatchView::AddNormalizedEntry { index: *index, entry: entry@ },
            ConversationPatch::Replace { index, entry } => PatchView::Replace {
                index: *index,
                entry: entry@,
            },
        }
    }
}

/// No value of an action is lost or changed in its view.
pub proof fn actions_show_their_values(action: ActionType)
    ensures
        action matches ActionType::FileRead { path } ==> (action@ matches ActionView::FileRead {
            path: shown,
        } && shown == path@),
        action matches ActionType::CommandRun { command, result, category } ==> ({
            &&& action@ matches ActionView::CommandRun {
                command: shown,
                result: shown_result,
                category: shown_category,
            }
            &&& shown == command@
            &&& shown_category == category
            &&& result is None <==> shown_result is None
            &&& result matches Some(result) ==> {
                &&& shown_result->0.exit_status == result.exit_status
                &&& result.output is None <==> shown_result->0.output is None
                &&& result.output matches Some(output) ==> shown_result->0.output == Some(output@)
            }
        }),
        action matches ActionType::WebFetch { url } ==> (action@ matches ActionView::WebFetch {
            url: shown,
        } && shown == url@),
        action matches ActionType::Search { query } ==> (action@ matches ActionView::Search {
            query: shown,
        } && shown == query@),
        action matches ActionType::Tool { tool_name, arguments, result } ==> ({
            &&& action@ matches ActionView::Tool {
                tool_name: shown,
                arguments: shown_arguments,
                result: shown_result,
            }
            &&& shown == tool_name@
            &&& arguments is None <==> shown_arguments is None
            &&& arguments matches Some(text) ==> shown_arguments == Some(text@)
            &&& result is None <==> shown_result is None
            &&& result matches Some(text) ==> shown_result == Some(text@)
        }),
{
}

/// No value of an entry is lost or changed in its view.
pub proof fn entries_show_their_values(entry: NormalizedEntry)
    ensures
        entry@.content == entry.content@,
        entry.timestamp is None <==> entry@.timestamp is None,
        entry.timestamp matches Some(text) ==> entry@.timestamp == Some(text@),
        entry.metadata is None <==> entry@.metadata is None,
        entry.metadata matches Some(text) ==> entry@.metadata == Some(text@),
        entry.entry_type matches NormalizedEntryType::ToolUse { tool_name, action_type, status }
            ==> ({
            &&& entry@.entry_type matches EntryTypeView::ToolUse {
                tool_name: shown,
                action_type: shown_action,
                status: shown_status,
            }
            &&& shown == tool_name@
            &&& shown_action == action_type@
            &&& shown_status == status
        }),
        entry.entry_type is AssistantMessage <==> entry@.entry_type is AssistantMessage,
        entry.entry_type matches NormalizedEntryType::ErrorMessage { error_type } ==> (
        entry@.entry_type matches EntryTypeView::ErrorMessage { error_type: shown } && shown
            == error_type),
{
}

/// Kind, index and entry of a patch are those of its view.
pub proof fn patches_show_their_values(patch: ConversationPatch)
    ensures
        patch matches ConversationPatch::AddNormalizedEntry { index, entry } ==> (patch@ matches
            PatchView::AddNormalizedEntry { index: shown, entry: shown_entry } && shown == index
            && shown_entry == entry@),
        patch matches ConversationPatch::Replace { index, entry } ==> (patch@ matches
            PatchView::Replace { index: shown, entry: shown_entry } && shown == index
            && shown_entry == entry@),
{
}

} // verus!
