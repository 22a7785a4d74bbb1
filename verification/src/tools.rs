//! The lines by which Kiro reports its tools.

use crate::entries::{
    ActionType, ActionView, CommandCategory, CommandExitStatus, CommandRunResult,
    CommandRunResultView,
};
use crate::text::{
    all_are, all_white, character_is_contained, contained_pattern_is_surrounded, contains,
    contains_spec, holds_no, is_tidy, is_white_space, no_copy_across, parts_make_the_whole,
    pattern_is_contained, piece_behind_the_first, prefix_and_rest, same_text, second_piece,
    second_piece_spec, starts_with, starts_with_spec, trim, trim_end_matches,
    trim_end_matches_spec, trim_end_matches_undoes_copies, trim_spec, trim_undoes_white_space,
    trimming_twice_is_trimming_once,
};
use vstd::prelude::*;

verus! {

/// The tool that a line reports the start of: what stands behind the first `(using tool:`, as far
/// as the next one, without the closing brackets at its end and without white space around it.
pub open spec fn started_tool(line: Seq<char>) -> Option<Seq<char>> {
    match second_piece_spec(line, "(using tool:"@) {
        Some(piece) => Some(trim_spec(trim_end_matches_spec(piece, ')'))),
        None => None,
    }
}

/// The exit code in a line that reports the end of a shell command.
pub open spec fn completion_code(line: Seq<char>) -> Option<i32> {
    if starts_with_spec(line, "-"@) && contains_spec(line, "Completed in"@) {
        Some(0)
    } else if starts_with_spec(line, "[ok]"@) {
        Some(0)
    } else if starts_with_spec(line, "[error]"@) {
        Some(1)
    } else {
        None
    }
}

/// The path in a line that reports the reading of a file: what stands between the first colon and
/// the next, without white space around it, or the whole line where there is no colon.
pub open spec fn path_read(line: Seq<char>) -> Seq<char> {
    match second_piece_spec(line, ":"@) {
        Some(piece) => trim_spec(piece),
        None => line,
    }
}

/// What a tool does, as its name and the line that reports it show.
pub open spec fn tool_action(
    tool_name: Seq<char>,
    content: Seq<char>,
    exit_code: Option<i32>,
    category: CommandCategory,
) -> ActionView {
    if tool_name == "read"@ {
        ActionView::FileRead { path: path_read(content) }
    } else if tool_name == "shell"@ || tool_name == "run_shell_command"@ {
        ActionView::CommandRun {
            command: content,
            result: Some(
                CommandRunResultView {
                    exit_status: match exit_code {
                        Some(code) => Some(CommandExitStatus::ExitCode { code }),
                        None => None,
                    },
                    output: None,
                },
            ),
            category,
        }
    } else if tool_name == "web_fetch"@ {
        ActionView::WebFetch { url: content }
    } else if tool_name == "grep"@ || tool_name == "glob"@ {
        ActionView::Search { query: content }
    } else {
        ActionView::Tool { tool_name, arguments: None, result: None }
    }
}

/// The tool that `line` reports the start of, and the line itself.
pub fn detect_kiro_tool_start(line: &str) -> (found: Option<(String, &str)>)
    ensures
        match started_tool(line@) {
            Some(tool_name) => found matches Some((name, content)) && name@ == tool_name && content
                == line,
            None => found is None,
        },
{
    match second_piece(line, "(using tool:") {
        Some(piece) => {
            let tool_name = trim(trim_end_matches(piece, ')')).to_string();
            Some((tool_name, line))
        },
        None => None,
    }
}

/// The tool and the exit code in a line that reports an end. The tool is always the shell.
pub fn detect_kiro_tool_completion(line: &str) -> (found: Option<(String, Option<i32>)>)
    ensures
        match completion_code(line@) {
            Some(code) => found matches Some((name, exit_code)) && name@ == "shell"@ && exit_code
                == Some(code),
            None => found is None,
        },
{
    if starts_with(line, "-") && contains(line, "Completed in") {
        return Some(("shell".to_string(), Some(0)));
    }
    if starts_with(line, "[ok]") {
        return Some(("shell".to_string(), Some(0)));
    }
    if starts_with(line, "[error]") {
        return Some(("shell".to_string(), Some(1)));
    }
    None
}

/// What a tool does when it starts. `category` is the category of the command `content`, which
/// counts only where the tool is the shell.
pub fn kiro_tool_action(tool_name: &str, content: &str, category: CommandCategory) -> (action:
    ActionType)
    ensures
        action@ == tool_action(tool_name@, content@, Some(0), category),
{
    kiro_tool_action_with_exit_code(tool_name, content, Some(0), category)
}

/// What a tool does, with the exit code of a shell command. `category` is the category of the
/// command `content`, which counts only where the tool is the shell.
pub fn kiro_tool_action_with_exit_code(
    tool_name: &str,
    content: &str,
    exit_code: Option<i32>,
    category: CommandCategory,
) -> (action: ActionType)
    ensures
        action@ == tool_action(tool_name@, content@, exit_code, category),
        tool_name@ == "read"@ ==> (action matches ActionType::FileRead { path } && path@ == path_read(
            content@,
        )),
        tool_name@ == "shell"@ || tool_name@ == "run_shell_command"@ ==> (action matches
            ActionType::CommandRun { command, result: Some(result), category: kept }
            && command@ == content@ && kept == category && result.output is None
            && match exit_code {
                Some(code) => result.exit_status == Some(CommandExitStatus::ExitCode { code }),
                None => result.exit_status is None,
            }),
        tool_name@ == "web_fetch"@ ==> (action matches ActionType::WebFetch { url } && url@
            == content@),
        tool_name@ == "grep"@ || tool_name@ == "glob"@ ==> (action matches ActionType::Search {
            query,
        } && query@ == content@),
        tool_name@ != "read"@ && tool_name@ != "shell"@ && tool_name@ != "run_shell_command"@
            && tool_name@ != "web_fetch"@ && tool_name@ != "grep"@ && tool_name@ != "glob"@ ==> (
        action matches ActionType::Tool { tool_name: kept, arguments: None, result: None }
            && kept@ == tool_name@),
{
    proof {
        tool_names_differ();
    }
    if same_text(tool_name, "read") {
        let path = match second_piece(content, ":") {
            Some(piece) => trim(piece),
            None => content,
        };
        ActionType::FileRead { path: path.to_string() }
    } else if same_text(tool_name, "shell") || same_text(tool_name, "run_shell_command") {
        let exit_status = match exit_code {
            Some(code) => Some(CommandExitStatus::ExitCode { code }),
            None => None,
        };
        ActionType::CommandRun {
            command: content.to_string(),
            result: Some(CommandRunResult { exit_status, output: None }),
            category,
        }
    } else if same_text(tool_name, "web_fetch") {
        ActionType::WebFetch { url: content.to_string() }
    } else if same_text(tool_name, "grep") || same_text(tool_name, "glob") {
        ActionType::Search { query: content.to_string() }
    } else {
        ActionType::Tool { tool_name: tool_name.to_string(), arguments: None, result: None }
    }
}

/// The exit code and the category count for shell commands only.
pub proof fn only_commands_have_code_and_category(
    tool_name: Seq<char>,
    content: Seq<char>,
    exit_code: Option<i32>,
    category: CommandCategory,
    other_code: Option<i32>,
    other_category: CommandCategory,
)
    requires
        tool_name != "shell"@,
        tool_name != "run_shell_command"@,
    ensures
        tool_action(tool_name, content, exit_code, category) == tool_action(
            tool_name,
            content,
            other_code,
            other_category,
        ),
{
}

/// The name of a tool has no white space around it.
pub proof fn tool_names_are_trimmed(line: Seq<char>)
    requires
        started_tool(line) is Some,
    ensures
        trim_spec(started_tool(line)->0) == started_tool(line)->0,
{
    trimming_twice_is_trimming_once(
        trim_end_matches_spec(second_piece_spec(line, "(using tool:"@)->0, ')'),
    );
}

/// The names of the tools that are told apart are all different.
pub(crate) proof fn tool_names_differ()
    ensures
        "read"@ != "shell"@,
        "read"@ != "run_shell_command"@,
        "read"@ != "web_fetch"@,
        "read"@ != "grep"@,
        "read"@ != "glob"@,
        "shell"@ != "run_shell_command"@,
        "shell"@ != "web_fetch"@,
        "shell"@ != "grep"@,
        "shell"@ != "glob"@,
        "run_shell_command"@ != "web_fetch"@,
        "run_shell_command"@ != "grep"@,
        "run_shell_command"@ != "glob"@,
        "web_fetch"@ != "grep"@,
        "web_fetch"@ != "glob"@,
        "grep"@ != "glob"@,
{
    reveal_strlit("read");
    reveal_strlit("shell");
    reveal_strlit("run_shell_command");
    reveal_strlit("web_fetch");
    reveal_strlit("grep");
    reveal_strlit("glob");
    assert("read"@[0] == 'r' && "grep"@[0] == 'g' && "glob"@[0] == 'g');
    assert("grep"@[1] == 'r' && "glob"@[1] == 'l');
    assert("read"@.len() == 4 && "shell"@.len() == 5 && "run_shell_command"@.len() == 17);
    assert("web_fetch"@.len() == 9 && "grep"@.len() == 4 && "glob"@.len() == 4);
}

/// A text without colons has no second piece at colons, and one around a colon has.
proof fn colon_parts(a: Seq<char>, b: Seq<char>, c: Seq<char>)
    requires
        holds_no(a, ':'),
        holds_no(b, ':'),
    ensures
        ":"@ == seq![':'],
        second_piece_spec(a, ":"@) is None,
        second_piece_spec(a + seq![':'] + b, ":"@) == Some(b),
        second_piece_spec(a + seq![':'] + b + seq![':'] + c, ":"@) == Some(b),
{
    reveal_strlit(":");
    let colon = seq![':'];
    assert(":"@ == colon);
    character_is_contained(a, ':');
    character_is_contained(b, ':');
    assert(a + colon.drop_last() == a);
    assert(b + colon.drop_last() == b);
    piece_behind_the_first(a, colon, b, c);
}

/// The path of a file that is read is what stands between the first colon of the report and the next
/// one, or the end: the white space around it is left out and every other character is kept. A report
/// without a colon is the path. Neither exit code nor category counts.
pub proof fn path_between_the_colons(
    a: Seq<char>,
    lead: Seq<char>,
    path: Seq<char>,
    tail: Seq<char>,
    c: Seq<char>,
    exit_code: Option<i32>,
    category: CommandCategory,
)
    requires
        holds_no(a, ':'),
        all_white(lead),
        holds_no(path, ':'),
        path.len() == 0 || is_tidy(path),
        all_white(tail),
    ensures
        tool_action("read"@, a + seq![':'] + (lead + path + tail), exit_code, category) == (
        ActionView::FileRead { path }),
        tool_action(
            "read"@,
            a + seq![':'] + (lead + path + tail) + seq![':'] + c,
            exit_code,
            category,
        ) == (ActionView::FileRead { path }),
        tool_action("read"@, a, exit_code, category) == (ActionView::FileRead { path: a }),
        path_read(a + seq![':'] + (lead + path + tail)) == path,
        path_read(a + seq![':'] + (lead + path + tail) + seq![':'] + c) == path,
        path_read(a) == a,
{
    assert(!is_white_space(':'));
    let b = lead + path + tail;
    assert forall|i: int| 0 <= i < b.len() implies #[trigger] b[i] != ':' by {
        if i < lead.len() {
            assert(b[i] == lead[i]);
        } else if i < lead.len() + path.len() {
            assert(b[i] == path[i - lead.len()]);
        } else {
            assert(b[i] == tail[i - lead.len() - path.len()]);
        }
    }
    colon_parts(a, b, c);
    trim_undoes_white_space(lead, path, tail);
}

/// The path in any report around a colon is the text behind it, trimmed.
pub proof fn path_is_the_trimmed_piece(a: Seq<char>, b: Seq<char>, c: Seq<char>)
    requires
        holds_no(a, ':'),
        holds_no(b, ':'),
    ensures
        path_read(a + seq![':'] + b) == trim_spec(b),
        path_read(a + seq![':'] + b + seq![':'] + c) == trim_spec(b),
{
    colon_parts(a, b, c);
}

/// A shell command, an address that is fetched and a search are the report as it stands; of a shell
/// command the exit code and the category are kept too. Any other tool shows its name and nothing
/// else.
pub proof fn reports_are_kept_whole(
    content: Seq<char>,
    exit_code: Option<i32>,
    category: CommandCategory,
    other: Seq<char>,
)
    requires
        other != "read"@,
        other != "shell"@,
        other != "run_shell_command"@,
        other != "web_fetch"@,
        other != "grep"@,
        other != "glob"@,
    ensures
        forall|name: Seq<char>|
            name == "shell"@ || name == "run_shell_command"@ ==> {
                &&& #[trigger] tool_action(name, content, exit_code, category) matches
                    ActionView::CommandRun { command, result: Some(result), category: kept }
                &&& command == content
                &&& kept == category
                &&& result.output is None
                &&& exit_code is None <==> result.exit_status is None
                &&& exit_code matches Some(code) ==> result.exit_status == Some(
                    CommandExitStatus::ExitCode { code },
                )
            },
        tool_action("web_fetch"@, content, exit_code, category) == (ActionView::WebFetch {
            url: content,
        }),
        tool_action("grep"@, content, exit_code, category) == (ActionView::Search {
            query: content,
        }),
        tool_action("glob"@, content, exit_code, category) == (ActionView::Search {
            query: content,
        }),
        tool_action(other, content, exit_code, category) == (ActionView::Tool {
            tool_name: other,
            arguments: None,
            result: None,
        }),
{
    tool_names_differ();
}

/// The marker of a start begins with the only bracket in it.
proof fn marker_begins_once()
    ensures
        "(using tool:"@.len() == 12,
        "(using tool:"@[0] == '(',
        holds_no("(using tool:"@.drop_first(), '('),
{
    reveal_strlit("(using tool:");
    let marker = "(using tool:"@;
    assert forall|i: int| 0 <= i < marker.drop_first().len() implies #[trigger] marker.drop_first()[i]
        != '(' by {
        assert(marker.drop_first()[i] == marker[i + 1]);
        assert(i + 1 == 1 || i + 1 == 2 || i + 1 == 3 || i + 1 == 4 || i + 1 == 5 || i + 1 == 6 || i
            + 1 == 7 || i + 1 == 8 || i + 1 == 9 || i + 1 == 10 || i + 1 == 11);
    }
}

/// The name of the tool in any report of a start is found: it stands behind the first marker, as far
/// as the next one or the end, and the closing brackets at the end and the white space around the
/// name are left out. Every other character of the name is kept.
pub proof fn name_behind_the_marker(
    before: Seq<char>,
    lead: Seq<char>,
    name: Seq<char>,
    tail: Seq<char>,
    brackets: Seq<char>,
    rest: Seq<char>,
)
    requires
        !contains_spec(before, "(using tool:"@),
        all_white(lead),
        name.len() == 0 || is_tidy(name),
        all_white(tail),
        tail.len() == 0 && name.len() > 0 ==> name.last() != ')',
        all_are(brackets, ')'),
        !contains_spec(lead + name + tail + brackets, "(using tool:"@),
    ensures
        started_tool(before + "(using tool:"@ + (lead + name + tail + brackets)) == Some(name),
        started_tool(
            before + "(using tool:"@ + (lead + name + tail + brackets) + "(using tool:"@ + rest,
        ) == Some(name),
{
    let marker = "(using tool:"@;
    let piece = lead + name + tail + brackets;
    marker_begins_once();
    no_copy_across(before, marker);
    no_copy_across(piece, marker);
    piece_behind_the_first(before, marker, piece, rest);
    let kept = lead + name + tail;
    assert(!is_white_space(')'));
    if kept.len() > 0 {
        if tail.len() > 0 {
            assert(kept.last() == tail[tail.len() - 1]);
        } else if name.len() > 0 {
            assert(kept.last() == name.last());
        } else {
            assert(kept.last() == lead[lead.len() - 1]);
        }
    }
    trim_end_matches_undoes_copies(kept, brackets, ')');
    trim_undoes_white_space(lead, name, tail);
}

/// A start is reported exactly where the marker stands in the line.
pub proof fn start_needs_the_marker(line: Seq<char>)
    ensures
        started_tool(line) is Some <==> contains_spec(line, "(using tool:"@),
{
    marker_begins_once();
    parts_make_the_whole(line, "(using tool:"@);
}

/// A line reports an end in three ways: with a dash in front and the words `Completed in` somewhere
/// behind it, or with `[ok]` in front, both with the code zero, or with `[error]` in front, with the
/// code one.
pub proof fn ends_are_found(between: Seq<char>, rest: Seq<char>)
    ensures
        completion_code(seq!['-'] + between + "Completed in"@ + rest) == Some(0i32),
        completion_code("[ok]"@ + rest) == Some(0i32),
        completion_code("[error]"@ + rest) == Some(1i32),
{
    reveal_strlit("-");
    reveal_strlit("[ok]");
    reveal_strlit("[error]");
    assert("-"@ == seq!['-']);
    let dashed = seq!['-'] + between + "Completed in"@ + rest;
    pattern_is_contained(seq!['-'] + between, "Completed in"@, rest);
    pattern_is_contained(Seq::empty(), "-"@, between + "Completed in"@ + rest);
    assert(dashed == "-"@ + (between + "Completed in"@ + rest));
    pattern_is_contained(Seq::empty(), "[ok]"@, rest);
    pattern_is_contained(Seq::empty(), "[error]"@, rest);
    let failed = "[error]"@ + rest;
    assert(failed[0] == '[' && failed[1] == 'e');
    assert(failed.subrange(0, 1)[0] == failed[0]);
    assert(failed.subrange(0, 4)[1] == failed[1]);
    assert("[ok]"@[1] == 'o');
    let good = "[ok]"@ + rest;
    assert(good[0] == '[');
    assert(good.subrange(0, 1)[0] == good[0]);
}

/// A line that reports an end is built in one of the three ways.
pub proof fn nothing_else_is_an_end(line: Seq<char>)
    ensures
        completion_code(line) matches Some(code) ==> {
            ||| code == 0 && line.len() > 0 && line[0] == '-' && exists|
                between: Seq<char>,
                rest: Seq<char>,
            | line == #[trigger] (between + "Completed in"@ + rest)
            ||| code == 0 && line.len() >= 4 && line == "[ok]"@ + line.skip(4)
            ||| code == 1 && line.len() >= 7 && line == "[error]"@ + line.skip(7)
        },
{
    reveal_strlit("-");
    reveal_strlit("[ok]");
    reveal_strlit("[error]");
    prefix_and_rest(line, "-"@);
    prefix_and_rest(line, "[ok]"@);
    prefix_and_rest(line, "[error]"@);
    if starts_with_spec(line, "-"@) && contains_spec(line, "Completed in"@) {
        assert(line[0] == "-"@[0]);
        let (between, rest) = contained_pattern_is_surrounded(line, "Completed in"@);
        assert(line == between + "Completed in"@ + rest);
    }
}

} // verus!
