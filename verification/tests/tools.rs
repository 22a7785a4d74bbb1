use kiro_executor::entries::{ActionType, CommandCategory, CommandExitStatus, CommandRunResult};
use kiro_executor::tools::{
    detect_kiro_tool_completion, detect_kiro_tool_start, kiro_tool_action,
    kiro_tool_action_with_exit_code,
};

#[test]
fn detects_tool_start_from_plain_text_logs() {
    let parsed = detect_kiro_tool_start("Reading file: Cargo.toml (using tool: read)");
    assert_eq!(
        parsed,
        Some((
            "read".to_string(),
            "Reading file: Cargo.toml (using tool: read)",
        ))
    );
}

#[test]
fn odd_reports_of_a_start() {
    let name = |line: &str| detect_kiro_tool_start(line).map(|found| found.0);
    assert_eq!(name("no tool here"), None);
    assert_eq!(name("using tool: read)"), None);
    assert_eq!(name("(using tool:)"), Some("".to_string()));
    assert_eq!(name("x (using tool: grep))"), Some("grep".to_string()));
    assert_eq!(name("(using tool: grep"), Some("grep".to_string()));
    assert_eq!(name("(using tool: grep) now"), Some("grep) now".to_string()));
    assert_eq!(
        name("(using tool: a) (using tool: b)"),
        Some("a)".to_string())
    );
    assert_eq!(name("(using tool: a )"), Some("a".to_string()));
}

#[test]
fn reports_of_an_end() {
    let shell = |code: i32| Some(("shell".to_string(), Some(code)));
    assert_eq!(detect_kiro_tool_completion("- Completed in 1.2s"), shell(0));
    assert_eq!(detect_kiro_tool_completion("[ok] done"), shell(0));
    assert_eq!(detect_kiro_tool_completion("[error] no"), shell(1));
    assert_eq!(detect_kiro_tool_completion("Completed in 1.2s"), None);
    assert_eq!(detect_kiro_tool_completion("- item"), None);
    assert_eq!(detect_kiro_tool_completion(" [ok]"), None);
    assert_eq!(detect_kiro_tool_completion(""), None);
}

#[test]
fn what_each_tool_does() {
    let other = CommandCategory::Other;
    assert_eq!(
        kiro_tool_action("read", "Reading file: a.rs : b", other),
        ActionType::FileRead {
            path: "a.rs".to_string()
        }
    );
    assert_eq!(
        kiro_tool_action("read", "a.rs", other),
        ActionType::FileRead {
            path: "a.rs".to_string()
        }
    );
    for name in ["shell", "run_shell_command"] {
        assert_eq!(
            kiro_tool_action(name, "ls -l", CommandCategory::Read),
            ActionType::CommandRun {
                command: "ls -l".to_string(),
                result: Some(CommandRunResult {
                    exit_status: Some(CommandExitStatus::ExitCode { code: 0 }),
                    output: None,
                }),
                category: CommandCategory::Read,
            }
        );
    }
    assert_eq!(
        kiro_tool_action("web_fetch", "https://kiro.dev", other),
        ActionType::WebFetch {
            url: "https://kiro.dev".to_string()
        }
    );
    for name in ["grep", "glob"] {
        assert_eq!(
            kiro_tool_action(name, "*.rs", other),
            ActionType::Search {
                query: "*.rs".to_string()
            }
        );
    }
    assert_eq!(
        kiro_tool_action("Read", "x", other),
        ActionType::Tool {
            tool_name: "Read".to_string(),
            arguments: None,
            result: None,
        }
    );
}

#[test]
fn a_missing_exit_code_leaves_the_status_open() {
    assert_eq!(
        kiro_tool_action_with_exit_code("shell", "c", None, CommandCategory::Edit),
        ActionType::CommandRun {
            command: "c".to_string(),
            result: Some(CommandRunResult {
                exit_status: None,
                output: None,
            }),
            category: CommandCategory::Edit,
        }
    );
    assert_eq!(
        kiro_tool_action_with_exit_code("grep", "c", Some(1), CommandCategory::Edit),
        kiro_tool_action_with_exit_code("grep", "c", None, CommandCategory::Other)
    );
}
