//! Turns what Kiro writes into conversation entries.

use crate::entries::{
    ActionView, CommandCategory, CommandExitStatus, ConversationPatch, EntryTypeView, EntryView, NormalizedEntry,
    NormalizedEntryError, NormalizedEntryType, PatchView, ToolStatus,
};
use crate::outside::{is_plain_text, strip_escapes, stripped};
use crate::text::{
    all_white, contained_pattern_is_surrounded, contains, contains_spec, is_tidy, is_white_space,
    pattern_is_contained, same_text, trim, trim_end, trim_end_spec,
    trim_end_takes_only_white_space, trim_end_undoes_white_space, trim_spec,
    trim_undoes_white_space,
};
use crate::tools::{
    completion_code, detect_kiro_tool_completion, detect_kiro_tool_start, kiro_tool_action,
    kiro_tool_action_with_exit_code, start_needs_the_marker, started_tool, tool_action,
    tool_names_differ,
};
use vstd::hash_map::StringHashMap;
use vstd::prelude::*;

verus! {

/// What stands in a line of output once escape sequences and the white space around it are gone.
pub open spec fn visible_text(line: Seq<char>) -> Seq<char> {
    trim_spec(stripped(line))
}

/// A text by which Kiro says that somebody has to log in.
pub open spec fn asks_for_login(text: Seq<char>) -> bool {
    ||| contains_spec(text, "Not logged in"@)
    ||| contains_spec(text, "kiro-cli login"@)
    ||| contains_spec(text, "Authentication required"@)
}

/// What a `LogNormalizer` remembers.
#[verifier::ext_equal]
pub struct LogState {
    /// The index of the next new entry.
    pub next_index: usize,
    /// The lines of the assistant so far, each with a line feed behind it.
    pub assistant_buffer: Seq<char>,
    /// The index of the entry of the assistant.
    pub assistant_entry: Option<usize>,
    /// The index of the entry of each tool that has started and not ended.
    pub tool_entries: Map<Seq<char>, usize>,
}

/// The index behind `index`. Behind the greatest comes zero.
pub open spec fn following_index(index: usize) -> usize {
    if index < usize::MAX {
        (index + 1) as usize
    } else {
        0
    }
}

/// An entry with neither time nor metadata.
pub open spec fn plain_entry(entry_type: EntryTypeView, content: Seq<char>) -> EntryView {
    EntryView { timestamp: None, entry_type, content, metadata: None }
}

/// The entry of a tool that has started.
pub open spec fn started_entry(
    tool_name: Seq<char>,
    text: Seq<char>,
    category: CommandCategory,
) -> EntryView {
    plain_entry(
        EntryTypeView::ToolUse {
            tool_name,
            action_type: tool_action(tool_name, text, Some(0), category),
            status: ToolStatus::Created,
        },
        text,
    )
}

/// The entry of a shell command that has ended.
pub open spec fn ended_entry(text: Seq<char>, code: i32, category: CommandCategory) -> EntryView {
    plain_entry(
        EntryTypeView::ToolUse {
            tool_name: "shell"@,
            action_type: tool_action("shell"@, text, Some(code), category),
            status: if code == 0 {
                ToolStatus::Success
            } else {
                ToolStatus::Failed
            },
        },
        text,
    )
}

/// The entry of the assistant for all its lines so far.
pub open spec fn assistant_entry(buffer: Seq<char>) -> EntryView {
    plain_entry(EntryTypeView::AssistantMessage, trim_end_spec(buffer))
}

/// The entry of a text on standard error.
pub open spec fn error_entry(text: Seq<char>) -> EntryView {
    plain_entry(
        EntryTypeView::ErrorMessage {
            error_type: if asks_for_login(text) {
                NormalizedEntryError::SetupRequired
            } else {
                NormalizedEntryError::Other
            },
        },
        text,
    )
}

impl LogState {
    /// Nothing seen yet; the first new entry gets the index `next_index`.
    pub open spec fn initial(next_index: usize) -> LogState {
        LogState {
            next_index,
            assistant_buffer: Seq::empty(),
            assistant_entry: None,
            tool_entries: Map::empty(),
        }
    }

    /// A tool has started: it gets a new entry.
    pub open spec fn after_start(
        self,
        tool_name: Seq<char>,
        text: Seq<char>,
        category: CommandCategory,
    ) -> (LogState, Option<PatchView>) {
        (
            LogState {
                next_index: following_index(self.next_index),
                tool_entries: self.tool_entries.insert(tool_name, self.next_index),
                ..self
            },
            Some(
                PatchView::AddNormalizedEntry {
                    index: self.next_index,
                    entry: started_entry(tool_name, text, category),
                },
            ),
        )
    }

    /// The shell command that is running has ended: its entry is replaced.
    pub open spec fn after_end(
        self,
        text: Seq<char>,
        code: i32,
        category: CommandCategory,
    ) -> (LogState, Option<PatchView>) {
        (
            LogState { tool_entries: self.tool_entries.remove("shell"@), ..self },
            Some(
                PatchView::Replace {
                    index: self.tool_entries["shell"@],
                    entry: ended_entry(text, code, category),
                },
            ),
        )
    }

    /// The assistant has written a line: its one entry is added or replaced.
    pub open spec fn after_assistant(self, text: Seq<char>) -> (LogState, Option<PatchView>) {
        let buffer = self.assistant_buffer + text + seq!['\n'];
        match self.assistant_entry {
            Some(index) => (
                LogState { assistant_buffer: buffer, ..self },
                Some(PatchView::Replace { index, entry: assistant_entry(buffer) }),
            ),
            None => (
                LogState {
                    next_index: following_index(self.next_index),
                    assistant_buffer: buffer,
                    assistant_entry: Some(self.next_index),
                    ..self
                },
                Some(
                    PatchView::AddNormalizedEntry {
                        index: self.next_index,
                        entry: assistant_entry(buffer),
                    },
                ),
            ),
        }
    }

    /// What the visible text of a line on standard output leads to.
    pub open spec fn after_stdout(self, text: Seq<char>, category: CommandCategory) -> (
        LogState,
        Option<PatchView>,
    ) {
        if text.len() == 0 {
            (self, None)
        } else if started_tool(text) is Some {
            self.after_start(started_tool(text)->0, text, category)
        } else if completion_code(text) is Some && self.tool_entries.contains_key("shell"@) {
            self.after_end(text, completion_code(text)->0, category)
        } else {
            self.after_assistant(text)
        }
    }

    /// The entry that the visible text of a line on standard output leads to shows a shell command.
    pub open spec fn shows_command(self, text: Seq<char>) -> bool {
        &&& text.len() > 0
        &&& match started_tool(text) {
            Some(tool_name) => tool_name == "shell"@ || tool_name == "run_shell_command"@,
            None => completion_code(text) is Some && self.tool_entries.contains_key("shell"@),
        }
    }

    /// What the visible text of a chunk on standard error leads to.
    pub open spec fn after_stderr(self, text: Seq<char>) -> (LogState, Option<PatchView>) {
        if text.len() == 0 {
            (self, None)
        } else {
            (
                LogState { next_index: following_index(self.next_index), ..self },
                Some(
                    PatchView::AddNormalizedEntry {
                        index: self.next_index,
                        entry: error_entry(text),
                    },
                ),
            )
        }
    }
}

/// Follows the output of one run of Kiro.
pub struct LogNormalizer {
    next_index: usize,
    assistant_buffer: String,
    assistant_entry_id: Option<usize>,
    tool_entries: StringHashMap<usize>,
}

impl View for LogNormalizer {
    type V = LogState;

    closed spec fn view(&self) -> LogState {
        LogState {
            next_index: self.next_index,
            assistant_buffer: self.assistant_buffer@,
            assistant_entry: self.assistant_entry_id,
            tool_entries: self.tool_entries@,
        }
    }
}

/// The values that an optional patch holds.
pub open spec fn patch_view(patch: Option<ConversationPatch>) -> Option<PatchView> {
    match patch {
        Some(patch) => Some(patch@),
        None => None,
    }
}

/// Whether `text` says that somebody has to log in.
pub fn auth_required(text: &str) -> (yes: bool)
    ensures
        yes == asks_for_login(text@),
        yes == (contains_spec(text@, "Not logged in"@) || contains_spec(text@, "kiro-cli login"@)
            || contains_spec(text@, "Authentication required"@)),
{
    contains(text, "Not logged in") || contains(text, "kiro-cli login") || contains(
        text,
        "Authentication required",
    )
}

impl LogNormalizer {
    /// Nothing seen yet; the first new entry gets the index `next_index`.
    pub fn start_from(next_index: usize) -> (normalizer: Self)
        ensures
            normalizer@ == LogState::initial(next_index),
            normalizer@.next_index == next_index,
            normalizer@.assistant_buffer == Seq::<char>::empty(),
            normalizer@.assistant_entry is None,
            normalizer@.tool_entries == Map::<Seq<char>, usize>::empty(),
    {
        LogNormalizer {
            next_index,
            assistant_buffer: String::new(),
            assistant_entry_id: None,
            tool_entries: StringHashMap::new(),
        }
    }

    /// Hands out the index of a new entry.
    fn take_index(&mut self) -> (index: usize)
        ensures
            index == old(self)@.next_index,
            final(self)@ == (LogState { next_index: following_index(index), ..old(self)@ }),
    {
        let index: usize = self.next_index;
        self.next_index = if index < usize::MAX {
            index + 1
        } else {
            0
        };
        index
    }

    /// Takes the visible text of a line on standard output. `category` is the category of that
    /// text as a shell command.
    pub fn stdout_text(&mut self, text: &str, category: CommandCategory) -> (patch: Option<
        ConversationPatch,
    >)
        ensures
            (final(self)@, patch_view(patch)) == old(self)@.after_stdout(text@, category),
            patch is None <==> text@.len() == 0,
            contains_spec(text@, "(using tool:"@) ==> ({
                &&& patch matches Some(ConversationPatch::AddNormalizedEntry { index, entry })
                &&& index == old(self)@.next_index
                &&& entry.content@ == text@
                &&& entry.entry_type matches NormalizedEntryType::ToolUse {
                    tool_name,
                    action_type,
                    status,
                }
                &&& Some(tool_name@) == started_tool(text@)
                &&& action_type@ == tool_action(tool_name@, text@, Some(0), category)
                &&& status == ToolStatus::Created
            }),
    {
        proof {
            start_needs_the_marker(text@);
            if text@.len() == 0 && contains_spec(text@, "(using tool:"@) {
                reveal_strlit("(using tool:");
            }
        }
        if text.is_empty() {
            return None;
        }
        if let Some((tool_name, tool_content)) = detect_kiro_tool_start(text) {
            let action_type = kiro_tool_action(tool_name.as_str(), tool_content, category);
            let entry = NormalizedEntry {
                timestamp: None,
                entry_type: NormalizedEntryType::ToolUse {
                    tool_name: tool_name.clone(),
                    action_type,
                    status: ToolStatus::Created,
                },
                content: tool_content.to_string(),
                metadata: None,
            };
            let index: usize = self.take_index();
            self.tool_entries.insert(tool_name, index);
            return Some(ConversationPatch::AddNormalizedEntry { index, entry });
        }
        if let Some((tool_name, exit_code)) = detect_kiro_tool_completion(text) {
            let running: Option<usize> = match self.tool_entries.get(tool_name.as_str()) {
                Some(index) => Some(*index),
                None => None,
            };
            if let Some(index) = running {
                self.tool_entries.remove(tool_name.as_str());
                let action_type = kiro_tool_action_with_exit_code(
                    tool_name.as_str(),
                    text,
                    exit_code,
                    category,
                );
                let status = match exit_code {
                    Some(0) => ToolStatus::Success,
                    _ => ToolStatus::Failed,
                };
                let entry = NormalizedEntry {
                    timestamp: None,
                    entry_type: NormalizedEntryType::ToolUse { tool_name, action_type, status },
                    content: text.to_string(),
                    metadata: None,
                };
                return Some(ConversationPatch::Replace { index, entry });
            }
        }
        self.assistant_buffer.append(text);
        proof {
            reveal_strlit("\n");
            assert("\n"@ == seq!['\n']);
        }
        self.assistant_buffer.append("\n");
        let entry = NormalizedEntry {
            timestamp: None,
            entry_type: NormalizedEntryType::AssistantMessage,
            content: trim_end(self.assistant_buffer.as_str()).to_string(),
            metadata: None,
        };
        match self.assistant_entry_id {
            Some(index) => Some(ConversationPatch::Replace { index, entry }),
            None => {
                let index: usize = self.take_index();
                self.assistant_entry_id = Some(index);
                Some(ConversationPatch::AddNormalizedEntry { index, entry })
            },
        }
    }

    /// Whether the entry that the visible text of a line on standard output leads to shows a shell
    /// command.
    fn shows_command(&self, text: &str) -> (yes: bool)
        ensures
            yes == self@.shows_command(text@),
    {
        if text.is_empty() {
            return false;
        }
        match detect_kiro_tool_start(text) {
            Some((tool_name, _)) => same_text(tool_name.as_str(), "shell") || same_text(
                tool_name.as_str(),
                "run_shell_command",
            ),
            None => match detect_kiro_tool_completion(text) {
                Some((tool_name, _)) => self.tool_entries.contains_key(tool_name.as_str()),
                None => false,
            },
        }
    }

    /// Takes a line on standard output. `classify` tells the category of a shell command and is
    /// asked only where the line leads to one.
    pub fn stdout_line<F: Fn(&str) -> CommandCategory>(&mut self, line: &str, classify: F) -> (patch:
        Option<ConversationPatch>)
        requires
            forall|text: &str| call_requires(classify, (text,)),
        ensures
            old(self)@.shows_command(visible_text(line@)) ==> exists|
                text: &str,
                category: CommandCategory,
            |
                {
                    &&& text@ == visible_text(line@)
                    &&& #[trigger] call_ensures(classify, (text,), category)
                    &&& (final(self)@, patch_view(patch)) == old(self)@.after_stdout(
                        text@,
                        category,
                    )
                },
            !old(self)@.shows_command(visible_text(line@)) ==> forall|category: CommandCategory|
                (final(self)@, patch_view(patch)) == #[trigger] old(self)@.after_stdout(
                    visible_text(line@),
                    category,
                ),
            is_plain_text(line@) ==> visible_text(line@) == trim_spec(line@),
    {
        let content = strip_escapes(line);
        let text = trim(content.as_str());
        let category = if self.shows_command(text) {
            classify(text)
        } else {
            CommandCategory::Other
        };
        self.stdout_text(text, category)
    }

    /// Takes a chunk on standard error.
    pub fn stderr_chunk(&mut self, chunk: &str) -> (patch: Option<ConversationPatch>)
        ensures
            (final(self)@, patch_view(patch)) == old(self)@.after_stderr(visible_text(chunk@)),
            is_plain_text(chunk@) ==> visible_text(chunk@) == trim_spec(chunk@),
    {
        let content = strip_escapes(chunk);
        self.stderr_text(trim(content.as_str()))
    }

    /// Takes the visible text of a chunk on standard error.
    pub fn stderr_text(&mut self, text: &str) -> (patch: Option<ConversationPatch>)
        ensures
            (final(self)@, patch_view(patch)) == old(self)@.after_stderr(text@),
            patch is None <==> text@.len() == 0,
            text@.len() > 0 ==> ({
                &&& patch matches Some(ConversationPatch::AddNormalizedEntry { index, entry })
                &&& index == old(self)@.next_index
                &&& entry.content@ == text@
                &&& entry.entry_type matches NormalizedEntryType::ErrorMessage { error_type }
                &&& error_type == NormalizedEntryError::SetupRequired <==> (contains_spec(
                    text@,
                    "Not logged in"@,
                ) || contains_spec(text@, "kiro-cli login"@) || contains_spec(
                    text@,
                    "Authentication required"@,
                ))
            }),
    {
        if text.is_empty() {
            return None;
        }
        let error_type = if auth_required(text) {
            NormalizedEntryError::SetupRequired
        } else {
            NormalizedEntryError::Other
        };
        let entry = NormalizedEntry {
            timestamp: None,
            entry_type: NormalizedEntryType::ErrorMessage { error_type },
            content: text.to_string(),
            metadata: None,
        };
        let index: usize = self.take_index();
        Some(ConversationPatch::AddNormalizedEntry { index, entry })
    }
}

/// The visible text is the text without escape sequences, the white space in front of it and the
/// white space behind it.
pub proof fn visible_text_is_what_stands_inside(
    line: Seq<char>,
    lead: Seq<char>,
    kept: Seq<char>,
    tail: Seq<char>,
)
    requires
        stripped(line) == lead + kept + tail,
        all_white(lead),
        kept.len() == 0 || is_tidy(kept),
        all_white(tail),
    ensures
        visible_text(line) == kept,
{
    trim_undoes_white_space(lead, kept, tail);
}

/// New entries are numbered one by one from the index that the normalizer starts from.
pub proof fn numbering_starts_and_goes_on(first: usize)
    ensures
        LogState::initial(first).next_index == first,
        LogState::initial(first).assistant_buffer.len() == 0,
        LogState::initial(first).assistant_entry is None,
        forall|name: Seq<char>| !LogState::initial(first).tool_entries.contains_key(name),
        first < usize::MAX ==> following_index(first) == first + 1,
        following_index(usize::MAX) == 0,
{
}

/// A text that reports the start of a tool, whatever has been seen before, adds one entry at the
/// next free index: a use of that tool with the status `Created` and the text as its content. The
/// index is remembered under the name of the tool, in place of an earlier one, and nothing else
/// changes.
pub proof fn start_adds_an_entry(state: LogState, text: Seq<char>, category: CommandCategory)
    requires
        contains_spec(text, "(using tool:"@),
    ensures
        started_tool(text) is Some,
        ({
            let name = started_tool(text)->0;
            let (next, patch) = state.after_stdout(text, category);
            &&& patch == Some(
                PatchView::AddNormalizedEntry {
                    index: state.next_index,
                    entry: EntryView {
                        timestamp: None,
                        entry_type: EntryTypeView::ToolUse {
                            tool_name: name,
                            action_type: tool_action(name, text, Some(0), category),
                            status: ToolStatus::Created,
                        },
                        content: text,
                        metadata: None,
                    },
                },
            )
            &&& state.next_index < usize::MAX ==> next.next_index == state.next_index + 1
            &&& next.tool_entries.contains_key(name)
            &&& next.tool_entries[name] == state.next_index
            &&& forall|other: Seq<char>|
                other != name ==> {
                    &&& #[trigger] next.tool_entries.contains_key(other)
                        == state.tool_entries.contains_key(other)
                    &&& state.tool_entries.contains_key(other) ==> next.tool_entries[other]
                        == state.tool_entries[other]
                }
            &&& next.assistant_buffer == state.assistant_buffer
            &&& next.assistant_entry == state.assistant_entry
        }),
{
    start_needs_the_marker(text);
    reveal_strlit("(using tool:");
}

/// A text that reports an end while a shell command is running replaces the entry of that command:
/// its status is `Success` where the code is zero and else `Failed`, it shows the text as the
/// command, with the code and the category, and the text is its content. The command is forgotten,
/// and nothing else changes.
pub proof fn end_replaces_the_entry(
    state: LogState,
    text: Seq<char>,
    code: i32,
    category: CommandCategory,
)
    requires
        !contains_spec(text, "(using tool:"@),
        completion_code(text) == Some(code),
        text.len() > 0,
        state.tool_entries.contains_key("shell"@),
    ensures
        ({
            let (next, patch) = state.after_stdout(text, category);
            &&& patch matches Some(PatchView::Replace { index, entry })
            &&& index == state.tool_entries["shell"@]
            &&& entry.timestamp is None
            &&& entry.metadata is None
            &&& entry.content == text
            &&& entry.entry_type matches EntryTypeView::ToolUse { tool_name, action_type, status }
            &&& tool_name == "shell"@
            &&& status == ToolStatus::Success <==> code == 0
            &&& status == ToolStatus::Failed <==> code != 0
            &&& action_type matches ActionView::CommandRun {
                command,
                result: Some(result),
                category: kept,
            }
            &&& command == text
            &&& result.exit_status == Some(CommandExitStatus::ExitCode { code })
            &&& result.output is None
            &&& kept == category
        }),
        ({
            let next = state.after_stdout(text, category).0;
            &&& !next.tool_entries.contains_key("shell"@)
            &&& forall|other: Seq<char>|
                other != "shell"@ ==> {
                    &&& #[trigger] next.tool_entries.contains_key(other)
                        == state.tool_entries.contains_key(other)
                    &&& state.tool_entries.contains_key(other) ==> next.tool_entries[other]
                        == state.tool_entries[other]
                }
            &&& next.next_index == state.next_index
            &&& next.assistant_buffer == state.assistant_buffer
            &&& next.assistant_entry == state.assistant_entry
        }),
{
    start_needs_the_marker(text);
    tool_names_differ();
}

/// Any other text is a line of the assistant: it stands behind all the earlier lines in the one
/// entry of the assistant, which is added with the first line and replaced with each further one.
pub proof fn assistant_entry_grows(state: LogState, text: Seq<char>, category: CommandCategory)
    requires
        !contains_spec(text, "(using tool:"@),
        completion_code(text) is Some ==> !state.tool_entries.contains_key("shell"@),
        text.len() > 0,
        !is_white_space(text.last()),
    ensures
        ({
            let (next, patch) = state.after_stdout(text, category);
            let entry = EntryView {
                timestamp: None,
                entry_type: EntryTypeView::AssistantMessage,
                content: state.assistant_buffer + text,
                metadata: None,
            };
            &&& match state.assistant_entry {
                Some(index) => {
                    &&& patch == Some(PatchView::Replace { index, entry })
                    &&& next.assistant_entry == Some(index)
                    &&& next.next_index == state.next_index
                },
                None => {
                    &&& patch == Some(
                        PatchView::AddNormalizedEntry { index: state.next_index, entry },
                    )
                    &&& next.assistant_entry == Some(state.next_index)
                    &&& state.next_index < usize::MAX ==> next.next_index == state.next_index + 1
                },
            }
            &&& next.assistant_buffer == state.assistant_buffer + text + seq!['\n']
            &&& next.tool_entries == state.tool_entries
        }),
{
    start_needs_the_marker(text);
    let grown = state.assistant_buffer + text;
    assert(grown.last() == text.last());
    assert(is_white_space('\n'));
    trim_end_undoes_white_space(grown, seq!['\n']);
}

/// A category is asked for exactly where the entry that a text leads to shows a shell command.
pub proof fn category_belongs_to_commands(
    state: LogState,
    text: Seq<char>,
    category: CommandCategory,
)
    ensures
        state.shows_command(text) <==> match state.after_stdout(text, category).1 {
            Some(PatchView::AddNormalizedEntry { entry, .. }) => {
                &&& entry.entry_type matches EntryTypeView::ToolUse { action_type, .. }
                &&& action_type is CommandRun
            },
            Some(PatchView::Replace { entry, .. }) => {
                &&& entry.entry_type matches EntryTypeView::ToolUse { action_type, .. }
                &&& action_type is CommandRun
            },
            None => false,
        },
{
    tool_names_differ();
}

/// A text on standard error that holds one of the three phrases, whatever stands before it and
/// behind it, is reported as `SetupRequired`.
pub proof fn login_phrases_ask_for_setup(state: LogState, before: Seq<char>, after: Seq<char>)
    ensures
        asks_for_login(before + "Not logged in"@ + after),
        asks_for_login(before + "kiro-cli login"@ + after),
        asks_for_login(before + "Authentication required"@ + after),
        forall|phrase: Seq<char>|
            phrase == "Not logged in"@ || phrase == "kiro-cli login"@ || phrase
                == "Authentication required"@ ==> (#[trigger] state.after_stderr(
                before + phrase + after,
            )).1 == Some(
                PatchView::AddNormalizedEntry {
                    index: state.next_index,
                    entry: EntryView {
                        timestamp: None,
                        entry_type: EntryTypeView::ErrorMessage {
                            error_type: NormalizedEntryError::SetupRequired,
                        },
                        content: before + phrase + after,
                        metadata: None,
                    },
                },
            ),
{
    reveal_strlit("Not logged in");
    reveal_strlit("kiro-cli login");
    reveal_strlit("Authentication required");
    pattern_is_contained(before, "Not logged in"@, after);
    pattern_is_contained(before, "kiro-cli login"@, after);
    pattern_is_contained(before, "Authentication required"@, after);
}

/// A text on standard error in which none of the three phrases stands at any position is reported
/// as `Other`.
pub proof fn other_errors_are_other(state: LogState, text: Seq<char>)
    requires
        text.len() > 0,
        forall|before: Seq<char>, after: Seq<char>|
            text != #[trigger] (before + "Not logged in"@ + after),
        forall|before: Seq<char>, after: Seq<char>|
            text != #[trigger] (before + "kiro-cli login"@ + after),
        forall|before: Seq<char>, after: Seq<char>|
            text != #[trigger] (before + "Authentication required"@ + after),
    ensures
        !asks_for_login(text),
        state.after_stderr(text).1 == Some(
            PatchView::AddNormalizedEntry {
                index: state.next_index,
                entry: EntryView {
                    timestamp: None,
                    entry_type: EntryTypeView::ErrorMessage {
                        error_type: NormalizedEntryError::Other,
                    },
                    content: text,
                    metadata: None,
                },
            },
        ),
{
    if contains_spec(text, "Not logged in"@) {
        let (before, after) = contained_pattern_is_surrounded(text, "Not logged in"@);
        assert(text == before + "Not logged in"@ + after);
    }
    if contains_spec(text, "kiro-cli login"@) {
        let (before, after) = contained_pattern_is_surrounded(text, "kiro-cli login"@);
        assert(text == before + "kiro-cli login"@ + after);
    }
    if contains_spec(text, "Authentication required"@) {
        let (before, after) = contained_pattern_is_surrounded(text, "Authentication required"@);
        assert(text == before + "Authentication required"@ + after);
    }
}

/// Every text on standard error takes the next free index, and one index only.
pub proof fn errors_take_the_next_index(state: LogState, text: Seq<char>)
    requires
        text.len() > 0,
        state.next_index < usize::MAX,
    ensures
        state.after_stderr(text).0.next_index == state.next_index + 1,
        state.after_stderr(text).1 matches Some(PatchView::AddNormalizedEntry { index, entry })
            && index == state.next_index && entry.content == text && entry.entry_type
            is ErrorMessage,
{
}

/// The entry of the assistant holds the earlier lines and the new text whole, but for white space at
/// the very end.
pub proof fn assistant_entry_holds_the_text(
    state: LogState,
    text: Seq<char>,
    category: CommandCategory,
) -> (tail: Seq<char>)
    requires
        !contains_spec(text, "(using tool:"@),
        completion_code(text) is Some ==> !state.tool_entries.contains_key("shell"@),
        text.len() > 0,
    ensures
        all_white(tail),
        match state.after_stdout(text, category).1 {
            Some(PatchView::AddNormalizedEntry { entry, .. }) => {
                &&& state.assistant_entry is None
                &&& entry.entry_type is AssistantMessage
                &&& entry.content + tail == state.assistant_buffer + text + seq!['\n']
                &&& entry.content.len() > 0 ==> !is_white_space(entry.content.last())
            },
            Some(PatchView::Replace { index, entry }) => {
                &&& state.assistant_entry == Some(index)
                &&& entry.entry_type is AssistantMessage
                &&& entry.content + tail == state.assistant_buffer + text + seq!['\n']
                &&& entry.content.len() > 0 ==> !is_white_space(entry.content.last())
            },
            None => false,
        },
{
    start_needs_the_marker(text);
    trim_end_takes_only_white_space(state.assistant_buffer + text + seq!['\n'])
}

} // verus!
