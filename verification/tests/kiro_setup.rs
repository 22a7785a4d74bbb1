use kiro_executor::actions::{
    ExecutorAction, ExecutorActionType, ScriptContext, ScriptRequest, ScriptRequestLanguage,
};
use kiro_executor::kiro_setup::{
    begin_setup, get_setup_helper_action, setup_action, ApiError, ExecutionProcessRunReason,
    ExecutorError, HostShell, SetupEvent, SetupRequest, SetupStage, WorkspaceError,
};

type Action = ExecutorAction<u32>;
type Refusal = ApiError<String>;
type Event = SetupEvent<u32, char, bool, String>;
type Request = SetupRequest<u32, char, bool, String>;

const INSTALL: &str = "#!/bin/bash\nset -e\n\necho \"Installing Kiro CLI...\"\n\nif ! command -v kiro-cli &> /dev/null; then\n    curl -fsSL https://cli.kiro.dev/install | bash\n    echo \"Kiro CLI installed successfully\"\nelse\n    echo \"Kiro CLI already installed\"\nfi\n";
const LOGIN: &str = "#!/bin/bash\nset -e\nexport PATH=\"$HOME/.local/bin:$PATH\"\nkiro-cli login\nkiro-cli whoami --format json || true\n";

fn unix(config_file: Option<&str>) -> HostShell {
    HostShell::Unix {
        config_file: config_file.map(|f| f.to_string()),
    }
}

fn script(text: &str) -> ExecutorActionType<u32> {
    ExecutorActionType::ScriptRequest(ScriptRequest {
        script: text.to_string(),
        language: ScriptRequestLanguage::Bash,
        context: ScriptContext::ToolInstallScript,
        working_dir: None,
    })
}

fn chain(mut steps: Vec<ExecutorActionType<u32>>) -> Action {
    let mut action = ExecutorAction::new(steps.pop().unwrap(), None);
    while let Some(step) = steps.pop() {
        action = ExecutorAction::new(step, Some(Box::new(action)));
    }
    action
}

fn agent(n: u32) -> ExecutorActionType<u32> {
    ExecutorActionType::AgentRequest(n)
}

#[test]
fn without_a_config_file_the_path_is_left_alone() {
    let action: Result<Action, Refusal> = get_setup_helper_action(&unix(None));
    assert_eq!(action, Ok(chain(vec![script(INSTALL), script(LOGIN)])));
}

#[test]
fn the_config_file_is_written_as_one_word() {
    for (file, quoted) in [
        ("/home/kim/.zshrc", "/home/kim/.zshrc"),
        ("/home/kim lee/.bashrc", "'/home/kim lee/.bashrc'"),
        ("/home/o'neil/.bashrc", "\"/home/o'neil/.bashrc\""),
        ("", "''"),
    ] {
        let install = format!(
            "{INSTALL}\necho \"Ensuring Kiro CLI is on PATH...\"\necho 'export PATH=\"$HOME/.local/bin:$PATH\"' >> {quoted}\n"
        );
        let action: Result<Action, Refusal> = get_setup_helper_action(&unix(Some(file)));
        assert_eq!(action, Ok(chain(vec![script(&install), script(LOGIN)])));
        assert_eq!(shlex::split(quoted), Some(vec![file.to_string()]));
    }
}

#[test]
fn a_config_file_that_cannot_be_written_is_refused() {
    let action: Result<Action, Refusal> = get_setup_helper_action(&unix(Some("a\0b")));
    assert_eq!(
        action,
        Err(ApiError::Workspace(WorkspaceError::ValidationError(
            "cannot shell-quote string containing nul byte".to_string()
        )))
    );
}

#[test]
fn only_unix_is_supported() {
    let action: Result<Action, Refusal> = get_setup_helper_action(&HostShell::Other);
    assert_eq!(
        action,
        Err(ApiError::Executor(ExecutorError::SetupHelperNotSupported))
    );
}

#[test]
fn the_latest_action_comes_last() {
    let latest = chain(vec![agent(1), agent(2)]);
    let action: Result<Action, Refusal> = setup_action(&unix(None), Some(Ok(latest)));
    assert_eq!(
        action,
        Ok(chain(vec![
            script(INSTALL),
            script(LOGIN),
            agent(1),
            agent(2)
        ]))
    );
}

#[test]
fn a_latest_action_that_cannot_be_read_is_refused_first() {
    let action: Result<Action, Refusal> =
        setup_action(&HostShell::Other, Some(Err("bad json".to_string())));
    assert_eq!(
        action,
        Err(ApiError::Workspace(WorkspaceError::ValidationError(
            "bad json".to_string()
        )))
    );
}

#[test]
fn appending_keeps_the_order() {
    let joined = chain(vec![agent(1), agent(2)])
        .append_action(chain(vec![agent(3)]))
        .append_action(chain(vec![agent(4), agent(5)]));
    assert_eq!(
        joined,
        chain(vec![agent(1), agent(2), agent(3), agent(4), agent(5)])
    );
}

fn start_of_a_setup() -> SetupStage<u32> {
    let (stage, request): (SetupStage<u32>, Request) = begin_setup();
    assert!(matches!(
        request,
        SetupRequest::FindLatestProcess {
            run_reason: ExecutionProcessRunReason::CodingAgent
        }
    ));
    stage
}

fn answer(stage: SetupStage<u32>, event: Event) -> (SetupStage<u32>, Request) {
    assert!(stage.awaits(&event));
    stage.advance(&unix(None), event)
}

fn is_started(request: Request, in_session: char) {
    match request {
        SetupRequest::StartExecution {
            session,
            action,
            run_reason,
        } => {
            assert_eq!(session, in_session);
            assert_eq!(run_reason, ExecutionProcessRunReason::SetupScript);
            assert_eq!(
                action,
                chain(vec![script(INSTALL), script(LOGIN), agent(9)])
            );
        }
        _ => panic!("nothing is started"),
    }
}

#[test]
fn a_setup_in_a_session_that_is_there() {
    let stage = start_of_a_setup();
    let latest = Some(Ok(chain(vec![agent(9)])));
    let (stage, request) = answer(stage, SetupEvent::LatestProcess(latest));
    assert!(matches!(request, SetupRequest::EnsureContainerExists));
    let (stage, request) = answer(stage, SetupEvent::ContainerReady);
    assert!(matches!(request, SetupRequest::FindLatestSession));
    let (stage, request) = answer(stage, SetupEvent::LatestSession(Some('s')));
    is_started(request, 's');
    let (stage, request) = answer(stage, SetupEvent::Started(true));
    assert!(matches!(request, SetupRequest::Finish(Ok(true))));
    assert!(!stage.awaits(&Event::ContainerReady));
    assert!(!stage.awaits(&Event::Failed("late".to_string())));
}

#[test]
fn a_setup_in_a_session_that_is_created() {
    let stage = start_of_a_setup();
    let latest = Some(Ok(chain(vec![agent(9)])));
    let (stage, _) = answer(stage, SetupEvent::LatestProcess(latest));
    let (stage, _) = answer(stage, SetupEvent::ContainerReady);
    let (stage, request) = answer(stage, SetupEvent::LatestSession(None));
    match request {
        SetupRequest::CreateSession { executor } => assert_eq!(executor.as_deref(), Some("kiro")),
        _ => panic!("no session is created"),
    }
    let (stage, request) = answer(stage, SetupEvent::SessionCreated('n'));
    is_started(request, 'n');
    let (_, request) = answer(stage, SetupEvent::Started(false));
    assert!(matches!(request, SetupRequest::Finish(Ok(false))));
}

#[test]
fn a_failure_ends_a_setup() {
    let stage = start_of_a_setup();
    let (stage, request) = answer(stage, SetupEvent::Failed("down".to_string()));
    match request {
        SetupRequest::Finish(Err(ApiError::Service(text))) => assert_eq!(text, "down"),
        _ => panic!("the setup goes on"),
    }
    assert!(!stage.awaits(&Event::LatestProcess(None)));

    let (stage, _) = answer(start_of_a_setup(), SetupEvent::LatestProcess(None));
    let (_, request) = answer(stage, SetupEvent::Failed("gone".to_string()));
    assert!(matches!(
        request,
        SetupRequest::Finish(Err(ApiError::Service(_)))
    ));
}

#[test]
fn an_unsupported_shell_ends_a_setup_at_once() {
    let (stage, request): (SetupStage<u32>, Request) =
        start_of_a_setup().advance(&HostShell::Other, SetupEvent::LatestProcess(None));
    assert!(matches!(
        request,
        SetupRequest::Finish(Err(ApiError::Executor(
            ExecutorError::SetupHelperNotSupported
        )))
    ));
    assert!(!stage.awaits(&Event::ContainerReady));
}
