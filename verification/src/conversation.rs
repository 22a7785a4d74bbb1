//! What holds of a conversation that a `LogNormalizer` builds, whatever the order in which standard
//! output and standard error arrive.

use crate::entries::{CommandCategory, EntryTypeView, EntryView, PatchView, ToolStatus};
use crate::normalizer::{
    assistant_entry_grows, end_replaces_the_entry, plain_entry, start_adds_an_entry, visible_text,
    LogState,
};
use crate::outside::stripped;
use crate::text::{
    contains_spec, is_tidy, is_white_space, joined, trim_end_spec, trimmed_text_is_tidy,
};
use crate::tools::{completion_code, start_needs_the_marker, started_tool};
use vstd::prelude::*;

verus! {

/// What arrives from a run of Kiro.
pub enum LogEvent {
    /// A line on standard output, and the category of its visible text as a shell command.
    Stdout { line: Seq<char>, category: CommandCategory },
    /// A chunk on standard error.
    Stderr { chunk: Seq<char> },
}

impl LogState {
    /// What an event leads to.
    pub open spec fn after(self, event: LogEvent) -> (LogState, Option<PatchView>) {
        match event {
            LogEvent::Stdout { line, category } => self.after_stdout(visible_text(line), category),
            LogEvent::Stderr { chunk } => self.after_stderr(visible_text(chunk)),
        }
    }

    /// The event is a line that counts as the words of the assistant.
    pub open spec fn hears_assistant(self, event: LogEvent) -> bool {
        match event {
            LogEvent::Stdout { line, .. } => {
                let text = visible_text(line);
                &&& text.len() > 0
                &&& started_tool(text) is None
                &&& completion_code(text) is Some ==> !self.tool_entries.contains_key("shell"@)
            },
            LogEvent::Stderr { .. } => false,
        }
    }
}

/// The state behind all the events, where the first new entry has the index `first`.
pub open spec fn state_after(first: usize, events: Seq<LogEvent>) -> LogState
    decreases events.len(),
{
    if events.len() == 0 {
        LogState::initial(first)
    } else {
        state_after(first, events.drop_last()).after(events.last()).0
    }
}

/// The entries after a patch, where the entry at position zero has the index `first`. A new entry
/// has to get the index behind the last one, and only an entry that is there can be replaced.
pub open spec fn patched(first: usize, entries: Seq<EntryView>, patch: PatchView) -> Option<
    Seq<EntryView>,
> {
    match patch {
        PatchView::AddNormalizedEntry { index, entry } => if index == first + entries.len() {
            Some(entries.push(entry))
        } else {
            None
        },
        PatchView::Replace { index, entry } => if first <= index < first + entries.len() {
            Some(entries.update(index - first, entry))
        } else {
            None
        },
    }
}

/// The entries after a patch, if there is one.
pub open spec fn patched_by(first: usize, entries: Seq<EntryView>, patch: Option<PatchView>) -> Option<
    Seq<EntryView>,
> {
    match patch {
        None => Some(entries),
        Some(patch) => patched(first, entries, patch),
    }
}

/// The entries behind all the events, as far as every patch could be applied.
pub open spec fn conversation(first: usize, events: Seq<LogEvent>) -> Option<Seq<EntryView>>
    decreases events.len(),
{
    if events.len() == 0 {
        Some(Seq::empty())
    } else {
        match conversation(first, events.drop_last()) {
            None => None,
            Some(entries) => patched_by(
                first,
                entries,
                state_after(first, events.drop_last()).after(events.last()).1,
            ),
        }
    }
}

/// The patches that the events lead to, in order.
pub open spec fn patches_of(first: usize, events: Seq<LogEvent>) -> Seq<PatchView>
    decreases events.len(),
{
    if events.len() == 0 {
        Seq::empty()
    } else {
        let earlier = patches_of(first, events.drop_last());
        match state_after(first, events.drop_last()).after(events.last()).1 {
            Some(patch) => earlier.push(patch),
            None => earlier,
        }
    }
}

/// Two events come from the same stream and have the same visible text, and the same category where
/// they have one.
pub open spec fn shows_the_same(a: LogEvent, b: LogEvent) -> bool {
    match (a, b) {
        (
            LogEvent::Stdout { line: a_line, category: a_category },
            LogEvent::Stdout { line: b_line, category: b_category },
        ) => visible_text(a_line) == visible_text(b_line) && a_category == b_category,
        (LogEvent::Stderr { chunk: a_chunk }, LogEvent::Stderr { chunk: b_chunk }) => visible_text(
            a_chunk,
        ) == visible_text(b_chunk),
        _ => false,
    }
}

/// The events of lines on standard output, where `classify` tells the category of a visible text.
pub open spec fn stdout_events(
    lines: Seq<Seq<char>>,
    classify: spec_fn(Seq<char>) -> CommandCategory,
) -> Seq<LogEvent> {
    lines.map_values(
        |line: Seq<char>| LogEvent::Stdout { line, category: classify(visible_text(line)) },
    )
}

/// The lines that count as the words of the assistant, in order.
pub open spec fn assistant_lines(first: usize, events: Seq<LogEvent>) -> Seq<Seq<char>>
    decreases events.len(),
{
    if events.len() == 0 {
        Seq::empty()
    } else {
        let earlier = assistant_lines(first, events.drop_last());
        if state_after(first, events.drop_last()).hears_assistant(events.last()) {
            earlier.push(visible_text(events.last()->line))
        } else {
            earlier
        }
    }
}

/// The entry may stand where the other stood: it is the same, or both are the words of the
/// assistant, or it is the end of the tool use that the other started.
pub open spec fn may_follow(before: EntryView, after: EntryView) -> bool {
    ||| after == before
    ||| before.entry_type is AssistantMessage && after.entry_type is AssistantMessage
    ||| {
        &&& before.entry_type matches EntryTypeView::ToolUse { tool_name, status, .. }
        &&& status == ToolStatus::Created
        &&& after.entry_type matches EntryTypeView::ToolUse {
            tool_name: later_name,
            status: later_status,
            ..
        }
        &&& later_name == tool_name
        &&& later_status != ToolStatus::Created
    }
}

/// A tool use that has started under the name `tool_name` and not ended.
pub open spec fn is_open_use(entry: EntryView, tool_name: Seq<char>) -> bool {
    &&& entry.entry_type matches EntryTypeView::ToolUse { tool_name: name, status, .. }
    &&& name == tool_name
    &&& status == ToolStatus::Created
}

/// How many of the items are wanted.
pub open spec fn counted<A>(items: Seq<A>, wanted: spec_fn(A) -> bool) -> nat
    decreases items.len(),
{
    if items.len() == 0 {
        0
    } else {
        counted(items.drop_last(), wanted) + if wanted(items.last()) {
            1nat
        } else {
            0
        }
    }
}

/// A line on standard output that says which tool is used.
pub open spec fn reports_start(event: LogEvent) -> bool {
    event matches LogEvent::Stdout { line, .. } && contains_spec(
        visible_text(line),
        "(using tool:"@,
    )
}

/// A line on standard output that says that a shell command has ended.
pub open spec fn reports_end(event: LogEvent) -> bool {
    &&& event matches LogEvent::Stdout { line, .. }
    &&& !contains_spec(visible_text(line), "(using tool:"@)
    &&& completion_code(visible_text(line)) is Some
}

/// A chunk on standard error with visible text.
pub open spec fn shows_error(event: LogEvent) -> bool {
    event matches LogEvent::Stderr { chunk } && visible_text(chunk).len() > 0
}

/// How state and entries hang together.
spec fn in_step(
    first: usize,
    state: LogState,
    entries: Seq<EntryView>,
    lines: Seq<Seq<char>>,
) -> bool {
    &&& state.next_index == first + entries.len()
    &&& (state.assistant_entry is Some <==> lines.len() > 0)
    &&& lines.len() == 0 ==> state.assistant_buffer == Seq::<char>::empty()
    &&& lines.len() > 0 ==> {
        &&& state.assistant_buffer == joined(lines, seq!['\n']) + seq!['\n']
        &&& first <= state.assistant_entry->0 < state.next_index
        &&& entries[state.assistant_entry->0 - first] == plain_entry(
            EntryTypeView::AssistantMessage,
            joined(lines, seq!['\n']),
        )
    }
    &&& forall|k: int|
        0 <= k < entries.len() && (#[trigger] entries[k]).entry_type is AssistantMessage
            ==> state.assistant_entry == Some((first + k) as usize)
    &&& forall|k: int| 0 <= k < entries.len() ==> is_tidy((#[trigger] entries[k]).content)
    &&& forall|name: Seq<char>| #[trigger]
        state.tool_entries.contains_key(name) ==> {
            &&& first <= state.tool_entries[name] < state.next_index
            &&& is_open_use(entries[state.tool_entries[name] - first], name)
        }
}

/// With a line feed behind it, a text that ends in no white space is trimmed to itself.
proof fn line_feed_trimmed(s: Seq<char>)
    requires
        s.len() > 0,
        !is_white_space(s.last()),
    ensures
        trim_end_spec(s + seq!['\n']) == s,
{
    assert((s + seq!['\n']).drop_last() == s);
    assert(is_white_space('\n'));
    reveal_with_fuel(trim_end_spec, 2);
}

/// The entry of the assistant holds its earlier lines and the new one.
proof fn buffer_grows(lines: Seq<Seq<char>>, buffer: Seq<char>, line: Seq<char>)
    requires
        lines.len() == 0 ==> buffer == Seq::<char>::empty(),
        lines.len() > 0 ==> buffer == joined(lines, seq!['\n']) + seq!['\n'],
        lines.len() > 0 ==> is_tidy(joined(lines, seq!['\n'])),
        visible_text(line).len() > 0,
    ensures
        ({
            let text = visible_text(line);
            let whole = joined(lines.push(text), seq!['\n']);
            &&& is_tidy(whole)
            &&& buffer + text == whole
            &&& trim_end_spec(buffer + text + seq!['\n']) == whole
        }),
{
    let text = visible_text(line);
    assert(lines.push(text).drop_last() == lines);
    assert(lines.push(text).last() == text);
    if lines.len() == 0 {
        assert(buffer + text == text);
        assert(lines.push(text).first() == text);
    }
    trimmed_text_is_tidy(stripped(line));
    assert((buffer + text).last() == text.last());
    assert(lines.len() > 0 ==> (buffer + text)[0] == joined(lines, seq!['\n'])[0]);
    line_feed_trimmed(buffer + text);
}

/// One event keeps state and entries in step.
proof fn event_keeps_step(
    first: usize,
    state: LogState,
    entries: Seq<EntryView>,
    lines: Seq<Seq<char>>,
    event: LogEvent,
)
    requires
        in_step(first, state, entries, lines),
        state.next_index < usize::MAX,
    ensures
        ({
            let (next, patch) = state.after(event);
            let heard = if state.hears_assistant(event) {
                lines.push(visible_text(event->line))
            } else {
                lines
            };
            let changed = patched_by(first, entries, patch);
            &&& changed is Some
            &&& in_step(first, next, changed->0, heard)
            &&& entries.len() <= changed->0.len() <= entries.len() + 1
            &&& forall|k: int|
                0 <= k < entries.len() ==> may_follow(entries[k], #[trigger] changed->0[k])
        }),
{
    if state.hears_assistant(event) {
        buffer_grows(lines, state.assistant_buffer, event->line);
    }
    match event {
        LogEvent::Stdout { line, .. } => trimmed_text_is_tidy(stripped(line)),
        LogEvent::Stderr { chunk } => trimmed_text_is_tidy(stripped(chunk)),
    }
}

/// State and entries are in step behind any events.
proof fn events_keep_step(first: usize, events: Seq<LogEvent>)
    requires
        first + events.len() <= usize::MAX,
    ensures
        conversation(first, events) is Some,
        conversation(first, events)->0.len() <= events.len(),
        in_step(
            first,
            state_after(first, events),
            conversation(first, events)->0,
            assistant_lines(first, events),
        ),
    decreases events.len(),
{
    if events.len() > 0 {
        let earlier = events.drop_last();
        events_keep_step(first, earlier);
        event_keeps_step(
            first,
            state_after(first, earlier),
            conversation(first, earlier)->0,
            assistant_lines(first, earlier),
            events.last(),
        );
    }
}

/// Every patch can be applied: a new entry gets the index behind the last one, and only an entry
/// that is there is replaced.
pub proof fn patches_apply(first: usize, events: Seq<LogEvent>)
    requires
        first + events.len() <= usize::MAX,
    ensures
        conversation(first, events) is Some,
        state_after(first, events).next_index == first + conversation(first, events)->0.len(),
{
    events_keep_step(first, events);
}

/// The assistant has one entry, once it has written a line, and that entry holds all its lines with
/// a line feed between each and the next.
pub proof fn assistant_entry_holds_its_lines(first: usize, events: Seq<LogEvent>)
    requires
        first + events.len() <= usize::MAX,
    ensures
        ({
            let entries = conversation(first, events)->0;
            let lines = assistant_lines(first, events);
            &&& lines.len() == 0 ==> forall|k: int|
                0 <= k < entries.len() ==> !((#[trigger] entries[k]).entry_type is AssistantMessage)
            &&& lines.len() > 0 ==> exists|k: int|
                {
                    &&& 0 <= k < entries.len()
                    &&& #[trigger] entries[k] == plain_entry(
                        EntryTypeView::AssistantMessage,
                        joined(lines, seq!['\n']),
                    )
                    &&& forall|j: int|
                        0 <= j < entries.len() && (#[trigger] entries[j]).entry_type
                            is AssistantMessage ==> j == k
                }
        }),
{
    events_keep_step(first, events);
    let state = state_after(first, events);
    let entries = conversation(first, events)->0;
    let lines = assistant_lines(first, events);
    if lines.len() > 0 {
        let k = state.assistant_entry->0 - first;
        assert(entries[k] == plain_entry(
            EntryTypeView::AssistantMessage,
            joined(lines, seq!['\n']),
        ));
    }
}

/// No entry is lost, and an entry changes only as the words of the assistant grow or as a tool use
/// that has started ends.
pub proof fn entries_change_in_place(first: usize, events: Seq<LogEvent>, event: LogEvent)
    requires
        first + events.len() + 1 <= usize::MAX,
    ensures
        ({
            let before = conversation(first, events)->0;
            let after = conversation(first, events.push(event))->0;
            &&& before.len() <= after.len() <= before.len() + 1
            &&& forall|k: int|
                0 <= k < before.len() ==> may_follow(before[k], #[trigger] after[k])
        }),
{
    events_keep_step(first, events);
    assert(events.push(event).drop_last() == events);
    event_keeps_step(
        first,
        state_after(first, events),
        conversation(first, events)->0,
        assistant_lines(first, events),
        event,
    );
}

/// The index that is remembered for a tool is that of an entry which shows the tool as started and
/// not ended.
pub proof fn remembered_tools_are_open(first: usize, events: Seq<LogEvent>, tool_name: Seq<char>)
    requires
        first + events.len() <= usize::MAX,
        state_after(first, events).tool_entries.contains_key(tool_name),
    ensures
        ({
            let entries = conversation(first, events)->0;
            let index = state_after(first, events).tool_entries[tool_name];
            &&& first <= index < first + entries.len()
            &&& is_open_use(entries[index - first], tool_name)
        }),
{
    events_keep_step(first, events);
}

/// No entry is blank, and none has white space around it.
pub proof fn entries_are_tidy(first: usize, events: Seq<LogEvent>)
    requires
        first + events.len() <= usize::MAX,
    ensures
        ({
            let entries = conversation(first, events)->0;
            forall|k: int| 0 <= k < entries.len() ==> is_tidy((#[trigger] entries[k]).content)
        }),
{
    events_keep_step(first, events);
}

/// Output without visible text changes nothing.
pub proof fn blank_output_is_ignored(state: LogState, event: LogEvent)
    requires
        match event {
            LogEvent::Stdout { line, .. } => visible_text(line).len() == 0,
            LogEvent::Stderr { chunk } => visible_text(chunk).len() == 0,
        },
    ensures
        state.after(event) == (state, None::<PatchView>),
{
}

/// Lines with the same visible text lead to the same state and patch.
pub proof fn same_visible_text_same_patch(
    state: LogState,
    a: Seq<char>,
    b: Seq<char>,
    category: CommandCategory,
)
    requires
        visible_text(a) == visible_text(b),
    ensures
        state.after(LogEvent::Stdout { line: a, category }) == state.after(
            LogEvent::Stdout { line: b, category },
        ),
        state.after(LogEvent::Stderr { chunk: a }) == state.after(LogEvent::Stderr { chunk: b }),
{
}

/// Runs whose events show the same, one by one, push the same patches and end in the same state.
pub proof fn same_output_same_patches(first: usize, a: Seq<LogEvent>, b: Seq<LogEvent>)
    requires
        a.len() == b.len(),
        forall|i: int| 0 <= i < a.len() ==> shows_the_same(#[trigger] a[i], b[i]),
    ensures
        patches_of(first, a) == patches_of(first, b),
        state_after(first, a) == state_after(first, b),
        conversation(first, a) == conversation(first, b),
    decreases a.len(),
{
    if a.len() > 0 {
        assert forall|i: int| 0 <= i < a.len() - 1 implies shows_the_same(
            #[trigger] a.drop_last()[i],
            b.drop_last()[i],
        ) by {
            assert(shows_the_same(a[i], b[i]));
        }
        same_output_same_patches(first, a.drop_last(), b.drop_last());
        assert(shows_the_same(a[a.len() - 1], b[a.len() - 1]));
    }
}

/// Escape sequences and the white space around a line have no influence: lines on standard output
/// with the same visible text, one by one, push the same patches.
pub proof fn only_visible_text_counts(
    first: usize,
    a: Seq<Seq<char>>,
    b: Seq<Seq<char>>,
    classify: spec_fn(Seq<char>) -> CommandCategory,
)
    requires
        a.len() == b.len(),
        forall|i: int| 0 <= i < a.len() ==> visible_text(#[trigger] a[i]) == visible_text(b[i]),
    ensures
        patches_of(first, stdout_events(a, classify)) == patches_of(
            first,
            stdout_events(b, classify),
        ),
{
    assert forall|i: int| 0 <= i < a.len() implies shows_the_same(
        #[trigger] stdout_events(a, classify)[i],
        stdout_events(b, classify)[i],
    ) by {
        assert(visible_text(a[i]) == visible_text(b[i]));
    }
    same_output_same_patches(first, stdout_events(a, classify), stdout_events(b, classify));
}

/// The end of a shell command counts once: behind it, the next such report is the words of the
/// assistant, until a shell command starts again.
pub proof fn an_end_counts_once(
    state: LogState,
    line: Seq<char>,
    category: CommandCategory,
    later_line: Seq<char>,
    later_category: CommandCategory,
)
    requires
        visible_text(line).len() > 0,
        started_tool(visible_text(line)) is None,
        completion_code(visible_text(line)) is Some,
        visible_text(later_line).len() > 0,
        started_tool(visible_text(later_line)) is None,
        completion_code(visible_text(later_line)) is Some,
    ensures
        ({
            let next = state.after(LogEvent::Stdout { line, category }).0;
            next.hears_assistant(LogEvent::Stdout { line: later_line, category: later_category })
        }),
{
}

/// Standard error takes an index and touches nothing else.
pub proof fn standard_error_only_takes_an_index(state: LogState, chunk: Seq<char>)
    ensures
        ({
            let next = state.after(LogEvent::Stderr { chunk }).0;
            next == (LogState { next_index: next.next_index, ..state })
        }),
{
}

/// An item in place of another of its kind leaves the count as it is.
proof fn counted_in_place<A>(items: Seq<A>, k: int, item: A, wanted: spec_fn(A) -> bool)
    requires
        0 <= k < items.len(),
        wanted(item) == wanted(items[k]),
    ensures
        counted(items.update(k, item), wanted) == counted(items, wanted),
    decreases items.len(),
{
    let changed = items.update(k, item);
    if k == items.len() - 1 {
        assert(changed.drop_last() == items.drop_last());
    } else {
        counted_in_place(items.drop_last(), k, item, wanted);
        assert(changed.drop_last() == items.drop_last().update(k, item));
    }
}

/// An item behind the others is counted too.
proof fn counted_at_the_end<A>(items: Seq<A>, item: A, wanted: spec_fn(A) -> bool)
    ensures
        counted(items.push(item), wanted) == counted(items, wanted) + if wanted(item) {
            1nat
        } else {
            0
        },
{
    assert(items.push(item).drop_last() == items);
}

/// Over any run there are as many tool uses as lines that report a start, and as many errors as
/// chunks with visible text on standard error.
pub proof fn every_start_has_its_entry(first: usize, events: Seq<LogEvent>)
    requires
        first + events.len() <= usize::MAX,
    ensures
        conversation(first, events) is Some,
        counted(
            conversation(first, events)->0,
            |entry: EntryView| entry.entry_type is ToolUse,
        ) == counted(events, |event: LogEvent| reports_start(event)),
        counted(
            conversation(first, events)->0,
            |entry: EntryView| entry.entry_type is ErrorMessage,
        ) == counted(events, |event: LogEvent| shows_error(event)),
    decreases events.len(),
{
    let is_use = |entry: EntryView| entry.entry_type is ToolUse;
    let is_error = |entry: EntryView| entry.entry_type is ErrorMessage;
    events_keep_step(first, events);
    if events.len() > 0 {
        let earlier = events.drop_last();
        let event = events.last();
        every_start_has_its_entry(first, earlier);
        events_keep_step(first, earlier);
        let state = state_after(first, earlier);
        let entries = conversation(first, earlier)->0;
        if let LogEvent::Stdout { line, .. } = event {
            start_needs_the_marker(visible_text(line));
            reveal_strlit("(using tool:");
        }
        match state.after(event).1 {
            None => {},
            Some(PatchView::AddNormalizedEntry { entry, .. }) => {
                counted_at_the_end(entries, entry, is_use);
                counted_at_the_end(entries, entry, is_error);
            },
            Some(PatchView::Replace { index, entry }) => {
                counted_in_place(entries, index - first, entry, is_use);
                counted_in_place(entries, index - first, entry, is_error);
            },
        }
    }
}

/// A line that reports a start, behind any events, adds one entry behind all the others and leaves
/// those as they are. The new entry is a use of that tool, with the status `Created` and the visible
/// text of the line as its content.
pub proof fn start_is_shown(
    first: usize,
    events: Seq<LogEvent>,
    line: Seq<char>,
    category: CommandCategory,
)
    requires
        first + events.len() + 1 <= usize::MAX,
        contains_spec(visible_text(line), "(using tool:"@),
    ensures
        ({
            let before = conversation(first, events)->0;
            let after = conversation(first, events.push(LogEvent::Stdout { line, category }))->0;
            &&& after.len() == before.len() + 1
            &&& after.drop_last() == before
            &&& after.last().content == visible_text(line)
            &&& after.last().entry_type matches EntryTypeView::ToolUse { tool_name, status, .. }
            &&& Some(tool_name) == started_tool(visible_text(line))
            &&& status == ToolStatus::Created
        }),
{
    let event = LogEvent::Stdout { line, category };
    events_keep_step(first, events);
    assert(events.push(event).drop_last() == events);
    start_adds_an_entry(state_after(first, events), visible_text(line), category);
}

/// A line that reports the end of a shell command changes the entry of the latest `shell` that has
/// started, and no other, whatever has come in between but a further start of `shell` or another
/// end.
pub proof fn end_is_shown(
    first: usize,
    events: Seq<LogEvent>,
    start_line: Seq<char>,
    start_category: CommandCategory,
    between: Seq<LogEvent>,
    line: Seq<char>,
    code: i32,
    category: CommandCategory,
)
    requires
        first + events.len() + between.len() + 2 <= usize::MAX,
        contains_spec(visible_text(start_line), "(using tool:"@),
        started_tool(visible_text(start_line)) == Some("shell"@),
        forall|i: int|
            0 <= i < between.len() ==> !reports_end(#[trigger] between[i]) && !(between[i] matches
                LogEvent::Stdout { line: other, .. } && started_tool(visible_text(other)) == Some(
                "shell"@,
            )),
        !contains_spec(visible_text(line), "(using tool:"@),
        visible_text(line).len() > 0,
        completion_code(visible_text(line)) == Some(code),
    ensures
        ({
            let start = LogEvent::Stdout { line: start_line, category: start_category };
            let end = LogEvent::Stdout { line, category };
            let position = conversation(first, events)->0.len();
            let before = conversation(first, events.push(start) + between)->0;
            let after = conversation(first, (events.push(start) + between).push(end))->0;
            &&& after.len() == before.len()
            &&& position < before.len()
            &&& forall|k: int|
                0 <= k < before.len() && k != position ==> #[trigger] after[k] == before[k]
            &&& before[position as int].entry_type matches EntryTypeView::ToolUse {
                status: started,
                ..
            }
            &&& started == ToolStatus::Created
            &&& after[position as int].content == visible_text(line)
            &&& after[position as int].entry_type matches EntryTypeView::ToolUse {
                tool_name,
                status,
                ..
            }
            &&& tool_name == "shell"@
            &&& status == if code == 0 {
                ToolStatus::Success
            } else {
                ToolStatus::Failed
            }
        }),
{
    let start = LogEvent::Stdout { line: start_line, category: start_category };
    let end = LogEvent::Stdout { line, category };
    let all = events.push(start) + between;
    events_keep_step(first, events);
    events_keep_step(first, all);
    shell_is_remembered(first, events, start_line, start_category, between);
    assert(all.push(end).drop_last() == all);
    end_replaces_the_entry(state_after(first, all), visible_text(line), code, category);
}

/// The index of a `shell` that has started is remembered until it ends or another starts.
proof fn shell_is_remembered(
    first: usize,
    events: Seq<LogEvent>,
    start_line: Seq<char>,
    start_category: CommandCategory,
    between: Seq<LogEvent>,
)
    requires
        first + events.len() + between.len() + 1 <= usize::MAX,
        contains_spec(visible_text(start_line), "(using tool:"@),
        started_tool(visible_text(start_line)) == Some("shell"@),
        forall|i: int|
            0 <= i < between.len() ==> !reports_end(#[trigger] between[i]) && !(between[i] matches
                LogEvent::Stdout { line: other, .. } && started_tool(visible_text(other)) == Some(
                "shell"@,
            )),
    ensures
        ({
            let start = LogEvent::Stdout { line: start_line, category: start_category };
            let state = state_after(first, events.push(start) + between);
            &&& state.tool_entries.contains_key("shell"@)
            &&& state.tool_entries["shell"@] == first + conversation(first, events)->0.len()
        }),
    decreases between.len(),
{
    let start = LogEvent::Stdout { line: start_line, category: start_category };
    let all = events.push(start) + between;
    if between.len() == 0 {
        assert(all.drop_last() == events);
        events_keep_step(first, events);
        start_adds_an_entry(state_after(first, events), visible_text(start_line), start_category);
    } else {
        let earlier = between.drop_last();
        assert forall|i: int| 0 <= i < earlier.len() implies !reports_end(#[trigger] earlier[i])
            && !(earlier[i] matches LogEvent::Stdout { line: other, .. } && started_tool(
            visible_text(other),
        ) == Some("shell"@)) by {
            assert(earlier[i] == between[i]);
        }
        shell_is_remembered(first, events, start_line, start_category, earlier);
        assert(all.drop_last() == events.push(start) + earlier);
        assert(all.last() == between[between.len() - 1]);
        if let LogEvent::Stdout { line, .. } = all.last() {
            start_needs_the_marker(visible_text(line));
        }
    }
}

/// Every line with visible text is shown: behind any events it leads to one patch, and the entry in
/// that patch holds the visible text, alone or behind a line feed at its end.
pub proof fn every_line_is_shown(
    first: usize,
    events: Seq<LogEvent>,
    line: Seq<char>,
    category: CommandCategory,
)
    requires
        first + events.len() <= usize::MAX,
        visible_text(line).len() > 0,
    ensures
        ({
            let text = visible_text(line);
            let patch = state_after(first, events).after(LogEvent::Stdout { line, category }).1;
            match patch {
                Some(PatchView::AddNormalizedEntry { entry, .. }) => entry.content == text,
                Some(PatchView::Replace { entry, .. }) => {
                    ||| entry.content == text
                    ||| entry.content == entry.content.take(
                        entry.content.len() - text.len() - 1,
                    ) + seq!['\n'] + text
                },
                None => false,
            }
        }),
{
    let text = visible_text(line);
    let state = state_after(first, events);
    let lines = assistant_lines(first, events);
    events_keep_step(first, events);
    trimmed_text_is_tidy(stripped(line));
    start_needs_the_marker(text);
    if contains_spec(text, "(using tool:"@) {
        start_adds_an_entry(state, text, category);
    } else if completion_code(text) is Some && state.tool_entries.contains_key("shell"@) {
        end_replaces_the_entry(state, text, completion_code(text)->0, category);
    } else {
        assistant_entry_grows(state, text, category);
        let whole = state.assistant_buffer + text;
        if lines.len() > 0 {
            let kept = joined(lines, seq!['\n']);
            assert(whole == kept + seq!['\n'] + text);
            assert(whole.take(whole.len() - text.len() - 1) == kept);
        } else {
            assert(whole == text);
        }
    }
}

} // verus!
