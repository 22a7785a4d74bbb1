use kiro_executor::entries::{
    ActionType, CommandCategory, CommandExitStatus, CommandRunResult, ConversationPatch,
    NormalizedEntry, NormalizedEntryError, NormalizedEntryType, ToolStatus,
};
use kiro_executor::normalizer::{auth_required, LogNormalizer};

fn entry(entry_type: NormalizedEntryType, content: &str) -> NormalizedEntry {
    NormalizedEntry {
        timestamp: None,
        entry_type,
        content: content.to_string(),
        metadata: None,
    }
}

fn added(index: usize, entry: NormalizedEntry) -> Option<ConversationPatch> {
    Some(ConversationPatch::AddNormalizedEntry { index, entry })
}

fn replaced(index: usize, entry: NormalizedEntry) -> Option<ConversationPatch> {
    Some(ConversationPatch::Replace { index, entry })
}

fn said(content: &str) -> NormalizedEntry {
    entry(NormalizedEntryType::AssistantMessage, content)
}

fn shell(content: &str, code: i32, status: ToolStatus) -> NormalizedEntry {
    entry(
        NormalizedEntryType::ToolUse {
            tool_name: "shell".to_string(),
            action_type: ActionType::CommandRun {
                command: content.to_string(),
                result: Some(CommandRunResult {
                    exit_status: Some(CommandExitStatus::ExitCode { code }),
                    output: None,
                }),
                category: CommandCategory::Read,
            },
            status,
        },
        content,
    )
}

fn error(content: &str, error_type: NormalizedEntryError) -> NormalizedEntry {
    entry(NormalizedEntryType::ErrorMessage { error_type }, content)
}

fn out(log: &mut LogNormalizer, line: &str) -> Option<ConversationPatch> {
    log.stdout_line(line, |_: &str| CommandCategory::Read)
}

#[test]
fn lines_of_the_assistant_grow_one_entry() {
    let mut log = LogNormalizer::start_from(3);
    assert_eq!(out(&mut log, "  > Hello\r\n"), added(3, said("> Hello")));
    assert_eq!(out(&mut log, "\u{1b}[32m\u{1b}[0m  "), None);
    assert_eq!(
        out(&mut log, "\u{1b}[32mWorld\u{1b}[0m  "),
        replaced(3, said("> Hello\nWorld"))
    );
    assert_eq!(
        out(&mut log, "!"),
        replaced(3, said("> Hello\nWorld\n!"))
    );
}

#[test]
fn a_shell_command_starts_and_ends() {
    let mut log = LogNormalizer::start_from(0);
    let start = "I will run: ls (using tool: shell)";
    assert_eq!(
        out(&mut log, start),
        added(0, shell(start, 0, ToolStatus::Created))
    );
    assert_eq!(out(&mut log, "a.txt"), added(1, said("a.txt")));
    let end = " - Completed in 0.1s";
    assert_eq!(
        out(&mut log, end),
        replaced(0, shell("- Completed in 0.1s", 0, ToolStatus::Success))
    );
    assert_eq!(
        out(&mut log, end),
        replaced(1, said("a.txt\n- Completed in 0.1s"))
    );
    assert_eq!(
        out(&mut log, start),
        added(2, shell(start, 0, ToolStatus::Created))
    );
    assert_eq!(
        out(&mut log, "[error] failed"),
        replaced(2, shell("[error] failed", 1, ToolStatus::Failed))
    );
}

#[test]
fn only_the_latest_shell_command_ends() {
    let mut log = LogNormalizer::start_from(0);
    let start = "x (using tool: shell)";
    assert_eq!(
        out(&mut log, start),
        added(0, shell(start, 0, ToolStatus::Created))
    );
    assert_eq!(
        out(&mut log, start),
        added(1, shell(start, 0, ToolStatus::Created))
    );
    assert_eq!(
        out(&mut log, "[ok]"),
        replaced(1, shell("[ok]", 0, ToolStatus::Success))
    );
    assert_eq!(out(&mut log, "[ok]"), added(2, said("[ok]")));
}

#[test]
fn other_tools_do_not_end() {
    let mut log = LogNormalizer::start_from(0);
    let read = "Reading file: Cargo.toml (using tool: read)";
    assert_eq!(
        out(&mut log, read),
        added(
            0,
            entry(
                NormalizedEntryType::ToolUse {
                    tool_name: "read".to_string(),
                    action_type: ActionType::FileRead {
                        path: "Cargo.toml (using tool".to_string(),
                    },
                    status: ToolStatus::Created,
                },
                read,
            )
        )
    );
    assert_eq!(out(&mut log, "[ok] read"), added(1, said("[ok] read")));
}

#[test]
fn the_category_is_that_of_the_visible_text() {
    let mut log = LogNormalizer::start_from(0);
    let patch = log.stdout_line(" \u{1b}[1mls\u{1b}[0m (using tool: shell) ", |text: &str| {
        if text == "ls (using tool: shell)" {
            CommandCategory::Search
        } else {
            CommandCategory::Other
        }
    });
    match patch {
        Some(ConversationPatch::AddNormalizedEntry { entry, .. }) => match entry.entry_type {
            NormalizedEntryType::ToolUse {
                action_type: ActionType::CommandRun { category, .. },
                ..
            } => assert_eq!(category, CommandCategory::Search),
            _ => panic!("no shell command"),
        },
        _ => panic!("no new entry"),
    }
}

#[test]
fn standard_error_becomes_error_messages() {
    let mut log = LogNormalizer::start_from(7);
    assert_eq!(log.stderr_chunk(" \n\u{1b}[31m\u{1b}[0m"), None);
    assert_eq!(
        log.stderr_chunk("\u{1b}[31mpanic\u{1b}[0m\n"),
        added(7, error("panic", NormalizedEntryError::Other))
    );
    for text in [
        "Not logged in",
        "run kiro-cli login first",
        "401: Authentication required!",
    ] {
        assert!(auth_required(text));
        let mut log = LogNormalizer::start_from(0);
        assert_eq!(
            log.stderr_chunk(text),
            added(0, error(text, NormalizedEntryError::SetupRequired))
        );
    }
    assert!(!auth_required("not logged in"));
    assert_eq!(out(&mut log, "a"), added(8, said("a")));
    assert_eq!(
        log.stderr_text("b"),
        added(9, error("b", NormalizedEntryError::Other))
    );
    assert_eq!(out(&mut log, "c"), replaced(8, said("a\nc")));
    assert_eq!(log.stderr_text(""), None);
}

#[test]
fn patches_apply_in_order() {
    let first = 5;
    let mut log = LogNormalizer::start_from(first);
    let mut entries: Vec<NormalizedEntry> = vec![];
    let lines = [
        "hi",
        "",
        "(using tool: shell)",
        "ho",
        "(using tool: grep)",
        "[ok]",
        "[ok]",
        "(using tool: shell)",
        "(using tool: shell)",
        "[error]",
    ];
    for (i, line) in lines.iter().enumerate() {
        let patches = [
            log.stdout_text(line, CommandCategory::Other),
            if i % 3 == 0 {
                log.stderr_text("warning")
            } else {
                None
            },
        ];
        for patch in patches {
            match patch {
                None => {}
                Some(ConversationPatch::AddNormalizedEntry { index, entry }) => {
                    assert_eq!(index, first + entries.len());
                    entries.push(entry);
                }
                Some(ConversationPatch::Replace { index, entry }) => {
                    assert!(index >= first);
                    let old = &entries[index - first];
                    assert_eq!(
                        old.entry_type == NormalizedEntryType::AssistantMessage,
                        entry.entry_type == NormalizedEntryType::AssistantMessage
                    );
                    entries[index - first] = entry;
                }
            }
        }
    }
    assert!(entries
        .iter()
        .all(|e| !e.content.is_empty() && e.content == e.content.trim()));
    let said: Vec<&NormalizedEntry> = entries
        .iter()
        .filter(|e| e.entry_type == NormalizedEntryType::AssistantMessage)
        .collect();
    assert_eq!(said.len(), 1);
    assert_eq!(said[0].content, "hi\nho\n[ok]");
}

#[test]
fn indices_wrap_at_the_greatest() {
    let mut log = LogNormalizer::start_from(usize::MAX);
    assert_eq!(
        log.stderr_text("a"),
        added(usize::MAX, error("a", NormalizedEntryError::Other))
    );
    assert_eq!(
        log.stderr_text("b"),
        added(0, error("b", NormalizedEntryError::Other))
    );
}

#[test]
fn only_shell_commands_are_classified() {
    let asked = std::cell::RefCell::new(Vec::<String>::new());
    let mut log = LogNormalizer::start_from(0);
    for line in [
        "",
        "hello",
        "[ok]",
        "x (using tool: grep)",
        "y (using tool: shell)",
        "[ok] y",
        "[ok] z",
        "z (using tool: run_shell_command)",
    ] {
        log.stdout_line(line, |text: &str| {
            asked.borrow_mut().push(text.to_string());
            CommandCategory::Other
        });
    }
    assert_eq!(
        asked.into_inner(),
        vec![
            "y (using tool: shell)".to_string(),
            "[ok] y".to_string(),
            "z (using tool: run_shell_command)".to_string(),
        ]
    );
}

#[test]
fn colours_and_blanks_around_a_line_do_not_count() {
    let plain = ["hello", "ls (using tool: shell)", "[ok] done", "bye"];
    let coloured = [
        "\u{1b}[1mhello\u{1b}[0m",
        "  ls (using \u{1b}[32mtool\u{1b}[0m: shell)\t",
        "\u{1b}[32m[ok]\u{1b}[0m done\r\n",
        "\u{3000}bye ",
    ];
    let run = |lines: [&str; 4]| -> Vec<Option<ConversationPatch>> {
        let mut log = LogNormalizer::start_from(2);
        lines.iter().map(|line| out(&mut log, line)).collect()
    };
    assert_eq!(run(plain), run(coloured));

    let mut log = LogNormalizer::start_from(0);
    let mut other = LogNormalizer::start_from(0);
    assert_eq!(
        log.stderr_chunk("oops"),
        other.stderr_chunk(" \u{1b}[31moops\u{1b}[0m\n")
    );
}
