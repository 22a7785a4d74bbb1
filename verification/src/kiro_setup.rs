//! Installs the Kiro command line tool, logs it in, and goes on with what the agent did last.

use crate::actions::{
    ExecutorAction, ExecutorActionType, ScriptContext, ScriptRequest, ScriptRequestLanguage,
    ScriptView, StepView,
};
use crate::outside::{
    is_shell_safe_word, quote_error_text, quote_word, shell_quoted, shell_words,
};
use crate::text::text_of;
use vstd::prelude::*;

verus! {

/// Installs the tool where it is missing.
pub const INSTALL_SCRIPT: &'static str = r#"#!/bin/bash
set -e

echo "Installing Kiro CLI..."

if ! command -v kiro-cli &> /dev/null; then
    curl -fsSL https://cli.kiro.dev/install | bash
    echo "Kiro CLI installed successfully"
else
    echo "Kiro CLI already installed"
fi
"#;

/// Adds the directory of the tool to the search path, up to the name of the file that is changed.
pub const PATH_SCRIPT: &'static str = r#"
echo "Ensuring Kiro CLI is on PATH..."
echo 'export PATH="$HOME/.local/bin:$PATH"' >> "#;

/// Logs in and shows who is logged in.
pub const LOGIN_SCRIPT: &'static str = r#"#!/bin/bash
set -e
export PATH="$HOME/.local/bin:$PATH"
kiro-cli login
kiro-cli whoami --format json || true
"#;

/// The shell of the user, which decides whether and how the tool can be set up.
pub enum HostShell {
    /// A Unix shell, and the file that it reads when it starts, if there is one.
    Unix { config_file: Option<String> },
    /// No Unix shell.
    Other,
}

/// The values that a `HostShell` holds.
pub enum ShellView {
    Unix { config_file: Option<Seq<char>> },
    Other,
}

impl View for HostShell {
    type V = ShellView;

    open spec fn view(&self) -> ShellView {
        match self {
            HostShell::Unix { config_file } => ShellView::Unix { config_file: text_of(*config_file) },
            HostShell::Other => ShellView::Other,
        }
    }
}

/// An error of a workspace.
#[derive(Clone, Debug, PartialEq, Eq)]
pub enum WorkspaceError {
    ValidationError(String),
}

/// An error of an executor.
#[derive(Clone, Copy, Debug, PartialEq, Eq, Structural)]
pub enum ExecutorError {
    SetupHelperNotSupported,
}

/// Why a setup ended early. `E` is the error of a service that was asked for something.
#[derive(Clone, Debug, PartialEq, Eq)]
pub enum ApiError<E> {
    Workspace(WorkspaceError),
    Executor(ExecutorError),
    Service(E),
}

/// The values that an `ApiError` holds.
pub enum ErrorView<E> {
    Validation(Seq<char>),
    SetupHelperNotSupported,
    Service(E),
}

impl<E> View for ApiError<E> {
    type V = ErrorView<E>;

    open spec fn view(&self) -> ErrorView<E> {
        match self {
            ApiError::Workspace(WorkspaceError::ValidationError(text)) => ErrorView::Validation(
                text@,
            ),
            ApiError::Executor(ExecutorError::SetupHelperNotSupported) =>
                ErrorView::SetupHelperNotSupported,
            ApiError::Service(error) => ErrorView::Service(*error),
        }
    }
}

/// The script that installs the tool and, where the shell has a file that it reads when it starts,
/// adds to that file the directory of the tool.
pub open spec fn install_script(config_file: Option<Seq<char>>) -> Seq<char> {
    match config_file {
        Some(file) => INSTALL_SCRIPT@ + PATH_SCRIPT@ + shell_quoted(file) + seq!['\n'],
        None => INSTALL_SCRIPT@,
    }
}

/// A Bash script that is run to install a tool.
pub open spec fn tool_script<A>(script: Seq<char>) -> StepView<A> {
    StepView::ScriptRequest(
        ScriptView {
            script,
            language: ScriptRequestLanguage::Bash,
            context: ScriptContext::ToolInstallScript,
            working_dir: None,
        },
    )
}

/// The actions that install the tool and log it in, or why there are none.
pub open spec fn helper_steps<A, E>(shell: ShellView) -> Result<Seq<StepView<A>>, ErrorView<E>> {
    match shell {
        ShellView::Other => Err(ErrorView::SetupHelperNotSupported),
        ShellView::Unix { config_file } => if config_file is Some && config_file->0.contains('\0') {
            Err(ErrorView::Validation("cannot shell-quote string containing nul byte"@))
        } else {
            Ok(seq![tool_script(install_script(config_file)), tool_script(LOGIN_SCRIPT@)])
        },
    }
}

/// What is known of how the name of the file is written in the script: it is read as that one word,
/// and stands as it is where a shell takes every character as it stands.
pub open spec fn file_is_one_word(shell: ShellView) -> bool {
    shell matches ShellView::Unix { config_file: Some(file) } ==> {
        &&& shell_words(shell_quoted(file)) == Some(seq![file])
        &&& is_shell_safe_word(file) ==> shell_quoted(file) == file
    }
}

/// The chain of actions of an optional chain that could be had, or the text of why it could not.
pub open spec fn latest_view<A>(latest: Option<Result<ExecutorAction<A>, String>>) -> Option<
    Result<Seq<StepView<A>>, Seq<char>>,
> {
    match latest {
        Some(Ok(action)) => Some(Ok(action.steps())),
        Some(Err(text)) => Some(Err(text@)),
        None => None,
    }
}

/// The actions of a setup: the tool is installed and logged in, and what the agent did last, if it
/// did anything, comes behind that.
pub open spec fn setup_steps<A, E>(
    shell: ShellView,
    latest: Option<Result<Seq<StepView<A>>, Seq<char>>>,
) -> Result<Seq<StepView<A>>, ErrorView<E>> {
    match latest {
        Some(Err(text)) => Err(ErrorView::Validation(text)),
        Some(Ok(steps)) => match helper_steps::<A, E>(shell) {
            Ok(helper) => Ok(helper + steps),
            Err(error) => Err(error),
        },
        None => helper_steps(shell),
    }
}

/// A Bash script that is run to install a tool.
fn tool_action<A>(script: String, next_action: Option<Box<ExecutorAction<A>>>) -> (action:
    ExecutorAction<A>)
    ensures
        action.typ@ == tool_script::<A>(script@),
        action.next_action == next_action,
{
    ExecutorAction::new(
        ExecutorActionType::ScriptRequest(
            ScriptRequest {
                script,
                language: ScriptRequestLanguage::Bash,
                context: ScriptContext::ToolInstallScript,
                working_dir: None,
            },
        ),
        next_action,
    )
}

/// The actions that install the tool and log it in.
pub fn get_setup_helper_action<A, E>(shell: &HostShell) -> (result: Result<
    ExecutorAction<A>,
    ApiError<E>,
>)
    ensures
        match helper_steps::<A, E>(shell@) {
            Ok(steps) => result matches Ok(action) && action.steps() == steps,
            Err(error) => result matches Err(e) && e@ == error,
        },
        result is Ok <==> (shell matches HostShell::Unix { config_file } && !(config_file matches
            Some(file) && file@.contains('\0'))),
        result matches Ok(action) ==> {
            let script = match *shell {
                HostShell::Unix { config_file: Some(file) } => INSTALL_SCRIPT@ + PATH_SCRIPT@
                    + shell_quoted(file@) + seq!['\n'],
                _ => INSTALL_SCRIPT@,
            };
            &&& action.steps().len() == 2
            &&& action.steps()[0] == StepView::<A>::ScriptRequest(
                ScriptView {
                    script,
                    language: ScriptRequestLanguage::Bash,
                    context: ScriptContext::ToolInstallScript,
                    working_dir: None,
                },
            )
            &&& action.steps()[1] == StepView::<A>::ScriptRequest(
                ScriptView {
                    script: LOGIN_SCRIPT@,
                    language: ScriptRequestLanguage::Bash,
                    context: ScriptContext::ToolInstallScript,
                    working_dir: None,
                },
            )
        },
        result is Ok ==> file_is_one_word(shell@),
{
    let config_file = match shell {
        HostShell::Unix { config_file } => config_file,
        HostShell::Other => {
            return Err(ApiError::Executor(ExecutorError::SetupHelperNotSupported));
        },
    };
    let mut script = INSTALL_SCRIPT.to_string();
    if let Some(file) = config_file {
        let quoted = match quote_word(file.as_str()) {
            Ok(quoted) => quoted,
            Err(error) => {
                return Err(
                    ApiError::Workspace(WorkspaceError::ValidationError(quote_error_text(&error))),
                );
            },
        };
        script.append(PATH_SCRIPT);
        script.append(quoted.as_str());
        proof {
            reveal_strlit("\n");
            assert("\n"@ == seq!['\n']);
        }
        script.append("\n");
    }
    let login = tool_action(LOGIN_SCRIPT.to_string(), None);
    let action = tool_action(script, Some(Box::new(login)));
    proof {
        reveal_with_fuel(ExecutorAction::steps, 3);
        assert(action.steps() == seq![
            tool_script::<A>(install_script(text_of(*config_file))),
            tool_script::<A>(LOGIN_SCRIPT@),
        ]);
    }
    Ok(action)
}

/// The actions of a setup, given what the agent did last: nothing, a chain of actions, or one that
/// cannot be read, with the text of why not.
pub fn setup_action<A, E>(
    shell: &HostShell,
    latest: Option<Result<ExecutorAction<A>, String>>,
) -> (result: Result<ExecutorAction<A>, ApiError<E>>)
    ensures
        match setup_steps::<A, E>(shell@, latest_view(latest)) {
            Ok(steps) => result matches Ok(action) && action.steps() == steps,
            Err(error) => result matches Err(e) && e@ == error,
        },
        result is Ok <==> (!(latest matches Some(Err(_))) && (shell matches HostShell::Unix {
            config_file,
        } && !(config_file matches Some(file) && file@.contains('\0')))),
        result matches Ok(chain) ==> ({
            &&& chain.steps().len() >= 2
            &&& match latest {
                Some(Ok(action)) => chain.steps().skip(2) == action.steps(),
                _ => chain.steps().len() == 2,
            }
        }),
        latest matches Some(Err(text)) ==> (result matches Err(e) && e@ == ErrorView::<
            E,
        >::Validation(text@)),
        result is Ok ==> file_is_one_word(shell@),
{
    match latest {
        Some(Err(text)) => Err(ApiError::Workspace(WorkspaceError::ValidationError(text))),
        Some(Ok(action)) => match get_setup_helper_action(shell) {
            Ok(helper) => Ok(helper.append_action(action)),
            Err(error) => Err(error),
        },
        None => get_setup_helper_action(shell),
    }
}

/// Why a process is run.
#[derive(Clone, Copy, Debug, PartialEq, Eq, Structural)]
pub enum ExecutionProcessRunReason {
    SetupScript,
    CodingAgent,
}

/// What a setup asks its host to do. `S` is a session, `P` a process.
pub enum SetupRequest<A, S, P, E> {
    /// Find the latest process of the workspace that was run for the given reason.
    FindLatestProcess { run_reason: ExecutionProcessRunReason },
    /// See that the container of the workspace is there.
    EnsureContainerExists,
    /// Find the latest session of the workspace.
    FindLatestSession,
    /// Create a session of the workspace under a new identifier.
    CreateSession { executor: Option<String> },
    /// Start the actions in the session.
    StartExecution {
        session: S,
        action: ExecutorAction<A>,
        run_reason: ExecutionProcessRunReason,
    },
    /// The setup is over.
    Finish(Result<P, ApiError<E>>),
}

/// The values that a `SetupRequest` holds.
pub enum RequestView<A, S, P, E> {
    FindLatestProcess { run_reason: ExecutionProcessRunReason },
    EnsureContainerExists,
    FindLatestSession,
    CreateSession { executor: Option<Seq<char>> },
    StartExecution {
        session: S,
        steps: Seq<StepView<A>>,
        run_reason: ExecutionProcessRunReason,
    },
    Finish(Result<P, ErrorView<E>>),
}

impl<A, S, P, E> View for SetupRequest<A, S, P, E> {
    type V = RequestView<A, S, P, E>;

    open spec fn view(&self) -> RequestView<A, S, P, E> {
        match self {
            SetupRequest::FindLatestProcess { run_reason } => RequestView::FindLatestProcess {
                run_reason: *run_reason,
            },
            SetupRequest::EnsureContainerExists => RequestView::EnsureContainerExists,
            SetupRequest::FindLatestSession => RequestView::FindLatestSession,
            SetupRequest::CreateSession { executor } => RequestView::CreateSession {
                executor: text_of(*executor),
            },
            SetupRequest::StartExecution { session, action, run_reason } =>
                RequestView::StartExecution {
                    session: *session,
                    steps: action.steps(),
                    run_reason: *run_reason,
                },
            SetupRequest::Finish(Ok(process)) => RequestView::Finish(Ok(*process)),
            SetupRequest::Finish(Err(error)) => RequestView::Finish(Err(error@)),
        }
    }
}

/// What the host answers.
pub enum SetupEvent<A, S, P, E> {
    /// What the agent did last: nothing, a chain of actions, or one that cannot be read, with the
    /// text of why not.
    LatestProcess(Option<Result<ExecutorAction<A>, String>>),
    /// The container is there.
    ContainerReady,
    /// The latest session, if there is one.
    LatestSession(Option<S>),
    /// The session that was created.
    SessionCreated(S),
    /// The process that was started.
    Started(P),
    /// The host could not do what it was asked for.
    Failed(E),
}

/// The values that a `SetupEvent` holds.
pub enum EventView<A, S, P, E> {
    LatestProcess(Option<Result<Seq<StepView<A>>, Seq<char>>>),
    ContainerReady,
    LatestSession(Option<S>),
    SessionCreated(S),
    Started(P),
    Failed(E),
}

impl<A, S, P, E> View for SetupEvent<A, S, P, E> {
    type V = EventView<A, S, P, E>;

    open spec fn view(&self) -> EventView<A, S, P, E> {
        match self {
            SetupEvent::LatestProcess(latest) => EventView::LatestProcess(latest_view(*latest)),
            SetupEvent::ContainerReady => EventView::ContainerReady,
            SetupEvent::LatestSession(session) => EventView::LatestSession(*session),
            SetupEvent::SessionCreated(session) => EventView::SessionCreated(*session),
            SetupEvent::Started(process) => EventView::Started(*process),
            SetupEvent::Failed(error) => EventView::Failed(*error),
        }
    }
}

/// How far a setup has come: what it waits for, and the actions that it will start.
pub enum SetupStage<A> {
    FindProcess,
    EnsureContainer(ExecutorAction<A>),
    FindSession(ExecutorAction<A>),
    CreateSession(ExecutorAction<A>),
    StartExecution,
    Over,
}

/// The values that a `SetupStage` holds.
pub enum StageView<A> {
    FindProcess,
    EnsureContainer(Seq<StepView<A>>),
    FindSession(Seq<StepView<A>>),
    CreateSession(Seq<StepView<A>>),
    StartExecution,
    Over,
}

impl<A> View for SetupStage<A> {
    type V = StageView<A>;

    open spec fn view(&self) -> StageView<A> {
        match self {
            SetupStage::FindProcess => StageView::FindProcess,
            SetupStage::EnsureContainer(action) => StageView::EnsureContainer(action.steps()),
            SetupStage::FindSession(action) => StageView::FindSession(action.steps()),
            SetupStage::CreateSession(action) => StageView::CreateSession(action.steps()),
            SetupStage::StartExecution => StageView::StartExecution,
            SetupStage::Over => StageView::Over,
        }
    }
}

/// The request that starts the actions of a setup in a session.
pub open spec fn start_request<A, S, P, E>(session: S, steps: Seq<StepView<A>>) -> RequestView<
    A,
    S,
    P,
    E,
> {
    RequestView::StartExecution {
        session,
        steps,
        run_reason: ExecutionProcessRunReason::SetupScript,
    }
}

impl<A> StageView<A> {
    /// The event answers what was asked for at this stage.
    pub open spec fn awaits<S, P, E>(self, event: EventView<A, S, P, E>) -> bool {
        match event {
            EventView::LatestProcess(_) => self is FindProcess,
            EventView::ContainerReady => self is EnsureContainer,
            EventView::LatestSession(_) => self is FindSession,
            EventView::SessionCreated(_) => self is CreateSession,
            EventView::Started(_) => self is StartExecution,
            EventView::Failed(_) => !(self is Over),
        }
    }

    /// The stage behind an event that answers what was asked for, and what is asked for next.
    pub open spec fn after<S, P, E>(self, shell: ShellView, event: EventView<A, S, P, E>) -> (
        StageView<A>,
        RequestView<A, S, P, E>,
    )
        recommends
            self.awaits(event),
    {
        match event {
            EventView::LatestProcess(latest) => match setup_steps::<A, E>(shell, latest) {
                Ok(steps) => (
                    StageView::EnsureContainer(steps),
                    RequestView::EnsureContainerExists,
                ),
                Err(error) => (StageView::Over, RequestView::Finish(Err(error))),
            },
            EventView::ContainerReady => (
                StageView::FindSession(self->EnsureContainer_0),
                RequestView::FindLatestSession,
            ),
            EventView::LatestSession(Some(session)) => (
                StageView::StartExecution,
                start_request(session, self->FindSession_0),
            ),
            EventView::LatestSession(None) => (
                StageView::CreateSession(self->FindSession_0),
                RequestView::CreateSession { executor: Some("kiro"@) },
            ),
            EventView::SessionCreated(session) => (
                StageView::StartExecution,
                start_request(session, self->CreateSession_0),
            ),
            EventView::Started(process) => (StageView::Over, RequestView::Finish(Ok(process))),
            EventView::Failed(error) => (
                StageView::Over,
                RequestView::Finish(Err(ErrorView::Service(error))),
            ),
        }
    }
}

/// The beginning of a setup: the latest process of the agent is looked for.
pub fn begin_setup<A, S, P, E>() -> (first: (SetupStage<A>, SetupRequest<A, S, P, E>))
    ensures
        first.0@ == StageView::<A>::FindProcess,
        first.1@ == (RequestView::<A, S, P, E>::FindLatestProcess {
            run_reason: ExecutionProcessRunReason::CodingAgent,
        }),
{
    (
        SetupStage::FindProcess,
        SetupRequest::FindLatestProcess { run_reason: ExecutionProcessRunReason::CodingAgent },
    )
}

impl<A> SetupStage<A> {
    /// Whether the event answers what was asked for at this stage.
    pub fn awaits<S, P, E>(&self, event: &SetupEvent<A, S, P, E>) -> (yes: bool)
        ensures
            yes == self@.awaits(event@),
    {
        match (self, event) {
            (SetupStage::FindProcess, SetupEvent::LatestProcess(_)) => true,
            (SetupStage::EnsureContainer(_), SetupEvent::ContainerReady) => true,
            (SetupStage::FindSession(_), SetupEvent::LatestSession(_)) => true,
            (SetupStage::CreateSession(_), SetupEvent::SessionCreated(_)) => true,
            (SetupStage::StartExecution, SetupEvent::Started(_)) => true,
            (SetupStage::Over, _) => false,
            (_, SetupEvent::Failed(_)) => true,
            _ => false,
        }
    }

    /// Takes the answer to what was asked for last. Returns how far the setup has come and what is
    /// asked for next.
    pub fn advance<S, P, E>(self, shell: &HostShell, event: SetupEvent<A, S, P, E>) -> (next: (
        SetupStage<A>,
        SetupRequest<A, S, P, E>,
    ))
        requires
            self@.awaits(event@),
        ensures
            (next.0@, next.1@) == self@.after(shell@, event@),
            next.0 is EnsureContainer ==> file_is_one_word(shell@),
    {
        match (self, event) {
            (_, SetupEvent::Failed(error)) => {
                (SetupStage::Over, SetupRequest::Finish(Err(ApiError::Service(error))))
            },
            (SetupStage::FindProcess, SetupEvent::LatestProcess(latest)) => {
                match setup_action(shell, latest) {
                    Ok(action) => {
                        (SetupStage::EnsureContainer(action), SetupRequest::EnsureContainerExists)
                    },
                    Err(error) => (SetupStage::Over, SetupRequest::Finish(Err(error))),
                }
            },
            (SetupStage::EnsureContainer(action), SetupEvent::ContainerReady) => {
                (SetupStage::FindSession(action), SetupRequest::FindLatestSession)
            },
            (SetupStage::FindSession(action), SetupEvent::LatestSession(Some(session))) => {
                (
                    SetupStage::StartExecution,
                    SetupRequest::StartExecution {
                        session,
                        action,
                        run_reason: ExecutionProcessRunReason::SetupScript,
                    },
                )
            },
            (SetupStage::FindSession(action), SetupEvent::LatestSession(None)) => {
                (
                    SetupStage::CreateSession(action),
                    SetupRequest::CreateSession { executor: Some("kiro".to_string()) },
                )
            },
            (SetupStage::CreateSession(action), SetupEvent::SessionCreated(session)) => {
                (
                    SetupStage::StartExecution,
                    SetupRequest::StartExecution {
                        session,
                        action,
                        run_reason: ExecutionProcessRunReason::SetupScript,
                    },
                )
            },
            (SetupStage::StartExecution, SetupEvent::Started(process)) => {
                (SetupStage::Over, SetupRequest::Finish(Ok(process)))
            },
            _ => unreached(),
        }
    }
}

/// Each event answers what was asked for at its turn, from `stage` on.
pub open spec fn all_awaited<A, S, P, E>(
    stage: StageView<A>,
    shell: ShellView,
    events: Seq<EventView<A, S, P, E>>,
) -> bool
    decreases events.len(),
{
    events.len() > 0 ==> {
        &&& stage.awaits(events.first())
        &&& all_awaited(stage.after(shell, events.first()).0, shell, events.drop_first())
    }
}

/// What is asked for behind each event, from `stage` on.
pub open spec fn requests_after<A, S, P, E>(
    stage: StageView<A>,
    shell: ShellView,
    events: Seq<EventView<A, S, P, E>>,
) -> Seq<RequestView<A, S, P, E>>
    decreases events.len(),
{
    if events.len() == 0 {
        Seq::empty()
    } else {
        let (next, request) = stage.after(shell, events.first());
        seq![request] + requests_after(next, shell, events.drop_first())
    }
}

/// How many of the requests start an execution.
pub open spec fn starts<A, S, P, E>(requests: Seq<RequestView<A, S, P, E>>) -> nat
    decreases requests.len(),
{
    if requests.len() == 0 {
        0
    } else {
        starts(requests.drop_first()) + if requests.first() is StartExecution {
            1nat
        } else {
            0
        }
    }
}

/// How many answers a setup still waits for at the most.
pub open spec fn answers_left<A>(stage: StageView<A>) -> nat {
    match stage {
        StageView::FindProcess => 5,
        StageView::EnsureContainer(_) => 4,
        StageView::FindSession(_) => 3,
        StageView::CreateSession(_) => 2,
        StageView::StartExecution => 1,
        StageView::Over => 0,
    }
}

/// A setup ends: each answer leaves fewer to wait for, a setup asks to finish exactly when it is
/// over, and then it waits for nothing.
pub proof fn setup_comes_to_an_end<A, S, P, E>(
    stage: StageView<A>,
    shell: ShellView,
    event: EventView<A, S, P, E>,
)
    requires
        stage.awaits(event),
    ensures
        ({
            let (next, request) = stage.after(shell, event);
            &&& answers_left(next) < answers_left(stage)
            &&& request is Finish <==> next is Over
            &&& next is Over ==> forall|later: EventView<A, S, P, E>| !next.awaits(later)
        }),
{
}

/// Whatever the host could not do, the setup ends with its error and asks for nothing more.
pub proof fn failure_ends_a_setup<A, S, P, E>(stage: StageView<A>, shell: ShellView, error: E)
    requires
        !(stage is Over),
    ensures
        stage.awaits(EventView::<A, S, P, E>::Failed(error)),
        stage.after(shell, EventView::<A, S, P, E>::Failed(error)) == (
            StageView::<A>::Over,
            RequestView::<A, S, P, E>::Finish(Err(ErrorView::Service(error))),
        ),
{
}

/// Where the actions cannot be put together, the setup ends before it asks for a container.
pub proof fn no_container_without_actions<A, S, P, E>(
    shell: ShellView,
    latest: Option<Result<Seq<StepView<A>>, Seq<char>>>,
)
    requires
        setup_steps::<A, E>(shell, latest) is Err,
    ensures
        StageView::<A>::FindProcess.after(
            shell,
            EventView::<A, S, P, E>::LatestProcess(latest),
        ) == (
            StageView::<A>::Over,
            RequestView::<A, S, P, E>::Finish(Err(setup_steps::<A, E>(shell, latest)->Err_0)),
        ),
{
}

/// A setup starts one execution at the most.
pub proof fn one_execution_is_started<A, S, P, E>(
    stage: StageView<A>,
    shell: ShellView,
    events: Seq<EventView<A, S, P, E>>,
)
    requires
        all_awaited(stage, shell, events),
    ensures
        starts(requests_after(stage, shell, events)) <= 1,
        stage is StartExecution || stage is Over ==> starts(requests_after(stage, shell, events))
            == 0,
    decreases events.len(),
{
    if events.len() > 0 {
        let (next, request) = stage.after(shell, events.first());
        let rest = requests_after(next, shell, events.drop_first());
        one_execution_is_started(next, shell, events.drop_first());
        assert((seq![request] + rest).drop_first() == rest);
    }
}

/// A setup that nothing stops: the container is seen to, a session is created only where there was
/// none, and the actions that install the tool and log it in, with what the agent did last behind
/// them, are started in that session.
pub proof fn setup_that_succeeds<A, S, P, E>(
    shell: ShellView,
    latest: Option<Result<Seq<StepView<A>>, Seq<char>>>,
    found: Option<S>,
    created: S,
    process: P,
)
    requires
        setup_steps::<A, E>(shell, latest) is Ok,
    ensures
        ({
            let steps = setup_steps::<A, E>(shell, latest)->Ok_0;
            let events = match found {
                Some(session) => seq![
                    EventView::<A, S, P, E>::LatestProcess(latest),
                    EventView::ContainerReady,
                    EventView::LatestSession(Some(session)),
                    EventView::Started(process),
                ],
                None => seq![
                    EventView::<A, S, P, E>::LatestProcess(latest),
                    EventView::ContainerReady,
                    EventView::LatestSession(None),
                    EventView::SessionCreated(created),
                    EventView::Started(process),
                ],
            };
            let requests = match found {
                Some(session) => seq![
                    RequestView::<A, S, P, E>::EnsureContainerExists,
                    RequestView::FindLatestSession,
                    RequestView::StartExecution {
                        session,
                        steps,
                        run_reason: ExecutionProcessRunReason::SetupScript,
                    },
                    RequestView::Finish(Ok(process)),
                ],
                None => seq![
                    RequestView::<A, S, P, E>::EnsureContainerExists,
                    RequestView::FindLatestSession,
                    RequestView::CreateSession { executor: Some("kiro"@) },
                    RequestView::StartExecution {
                        session: created,
                        steps,
                        run_reason: ExecutionProcessRunReason::SetupScript,
                    },
                    RequestView::Finish(Ok(process)),
                ],
            };
            &&& all_awaited(StageView::<A>::FindProcess, shell, events)
            &&& requests_after(StageView::<A>::FindProcess, shell, events) == requests
        }),
{
    reveal_with_fuel(all_awaited, 6);
    reveal_with_fuel(requests_after, 6);
    let ready = EventView::<A, S, P, E>::ContainerReady;
    let started = EventView::<A, S, P, E>::Started(process);
    let first = EventView::<A, S, P, E>::LatestProcess(latest);
    match found {
        Some(session) => {
            let seen = EventView::<A, S, P, E>::LatestSession(Some(session));
            let events = seq![first, ready, seen, started];
            assert(events.drop_first() =~= seq![ready, seen, started]);
            assert(events.drop_first().drop_first() =~= seq![seen, started]);
            assert(events.drop_first().drop_first().drop_first() =~= seq![started]);
        },
        None => {
            let seen = EventView::<A, S, P, E>::LatestSession(None);
            let made = EventView::<A, S, P, E>::SessionCreated(created);
            let events = seq![first, ready, seen, made, started];
            assert(events.drop_first() =~= seq![ready, seen, made, started]);
            assert(events.drop_first().drop_first() =~= seq![seen, made, started]);
            assert(events.drop_first().drop_first().drop_first() =~= seq![made, started]);
            assert(events.drop_first().drop_first().drop_first().drop_first() =~= seq![started]);
        },
    }
}

/// Where a setup has actions and the latest chain could be read, the actions end with all the steps
/// of that chain in order. What stands before them, and stands alone where there is no latest chain,
/// is the script that installs the tool and then the script that logs it in.
pub proof fn setup_keeps_the_latest_chain<A, E>(
    config_file: Option<Seq<char>>,
    latest: Seq<StepView<A>>,
)
    requires
        config_file matches Some(file) ==> !file.contains('\0'),
    ensures
        ({
            let shell = ShellView::Unix { config_file };
            let script = match config_file {
                Some(file) => INSTALL_SCRIPT@ + PATH_SCRIPT@ + shell_quoted(file) + seq!['\n'],
                None => INSTALL_SCRIPT@,
            };
            let install = StepView::<A>::ScriptRequest(
                ScriptView {
                    script,
                    language: ScriptRequestLanguage::Bash,
                    context: ScriptContext::ToolInstallScript,
                    working_dir: None,
                },
            );
            let login = StepView::<A>::ScriptRequest(
                ScriptView {
                    script: LOGIN_SCRIPT@,
                    language: ScriptRequestLanguage::Bash,
                    context: ScriptContext::ToolInstallScript,
                    working_dir: None,
                },
            );
            &&& setup_steps::<A, E>(shell, Some(Ok(latest))) == Ok::<_, ErrorView<E>>(
                seq![install, login] + latest,
            )
            &&& setup_steps::<A, E>(shell, None) == Ok::<_, ErrorView<E>>(seq![install, login])
        }),
        ({
            let shell = ShellView::Unix { config_file };
            let steps = setup_steps::<A, E>(shell, Some(Ok(latest)))->Ok_0;
            &&& steps.len() == latest.len() + 2
            &&& steps.skip(2) == latest
            &&& forall|i: int|
                0 <= i < latest.len() ==> #[trigger] latest[i] == steps[i + 2]
        }),
{
}

/// The file that the shell reads when it starts has influence on the first script alone.
pub proof fn config_file_changes_the_first_script_only<A, E>(
    one: Option<Seq<char>>,
    other: Option<Seq<char>>,
    latest: Option<Result<Seq<StepView<A>>, Seq<char>>>,
)
    requires
        setup_steps::<A, E>(ShellView::Unix { config_file: one }, latest) is Ok,
        setup_steps::<A, E>(ShellView::Unix { config_file: other }, latest) is Ok,
    ensures
        setup_steps::<A, E>(ShellView::Unix { config_file: one }, latest)->Ok_0.skip(1)
            == setup_steps::<A, E>(ShellView::Unix { config_file: other }, latest)->Ok_0.skip(1),
{
}

/// A setup has actions exactly with a Unix shell whose file, if there is one, has no nul character
/// in its name, and with a latest chain, if there is one, that could be read. A chain that could
/// not be read is the error that is told first, with its own text.
pub proof fn when_a_setup_has_actions<A, E>(
    shell: ShellView,
    latest: Option<Result<Seq<StepView<A>>, Seq<char>>>,
)
    ensures
        setup_steps::<A, E>(shell, latest) is Ok <==> ({
            &&& !(latest matches Some(Err(_)))
            &&& shell matches ShellView::Unix { config_file }
            &&& config_file matches Some(file) ==> !file.contains('\0')
        }),
        latest matches Some(Err(text)) ==> setup_steps::<A, E>(shell, latest) == Err::<
            Seq<StepView<A>>,
            _,
        >(ErrorView::<E>::Validation(text)),
        !(latest matches Some(Err(_))) && shell is Other ==> setup_steps::<A, E>(shell, latest)
            == Err::<Seq<StepView<A>>, _>(ErrorView::<E>::SetupHelperNotSupported),
        !(latest matches Some(Err(_))) && (shell matches ShellView::Unix { config_file: Some(file) }
            && file.contains('\0')) ==> setup_steps::<A, E>(shell, latest) == Err::<
            Seq<StepView<A>>,
            _,
        >(ErrorView::<E>::Validation("cannot shell-quote string containing nul byte"@)),
{
}

/// At each stage a setup waits for the answer to what it has asked for, or for a failure, and for
/// nothing else.
pub proof fn only_the_answer_is_awaited<A, S, P, E>(
    steps: Seq<StepView<A>>,
    event: EventView<A, S, P, E>,
)
    ensures
        StageView::<A>::FindProcess.awaits(event) <==> event is LatestProcess || event is Failed,
        StageView::EnsureContainer(steps).awaits(event) <==> event is ContainerReady || event
            is Failed,
        StageView::FindSession(steps).awaits(event) <==> event is LatestSession || event is Failed,
        StageView::CreateSession(steps).awaits(event) <==> event is SessionCreated || event
            is Failed,
        StageView::<A>::StartExecution.awaits(event) <==> event is Started || event is Failed,
        !StageView::<A>::Over.awaits(event),
{
}

/// The actions that a stage will start.
pub open spec fn steps_ahead<A>(stage: StageView<A>) -> Option<Seq<StepView<A>>> {
    match stage {
        StageView::EnsureContainer(steps) => Some(steps),
        StageView::FindSession(steps) => Some(steps),
        StageView::CreateSession(steps) => Some(steps),
        _ => None,
    }
}

/// Whatever the answers, what a setup starts are the actions that it was to start, all of them and
/// for the reason `SetupScript`, and the session that it creates, if it creates one, is for Kiro.
pub proof fn what_is_started_was_planned<A, S, P, E>(
    stage: StageView<A>,
    shell: ShellView,
    events: Seq<EventView<A, S, P, E>>,
    i: int,
)
    requires
        all_awaited(stage, shell, events),
        steps_ahead(stage) is Some,
        0 <= i < events.len(),
    ensures
        requests_after(stage, shell, events).len() == events.len(),
        requests_after(stage, shell, events)[i] matches RequestView::StartExecution {
            steps,
            run_reason,
            ..
        } ==> steps_ahead(stage) == Some(steps) && run_reason
            == ExecutionProcessRunReason::SetupScript,
        requests_after(stage, shell, events)[i] matches RequestView::CreateSession { executor }
            ==> executor == Some("kiro"@),
    decreases events.len(),
{
    let (next, request) = stage.after(shell, events.first());
    let rest = requests_after(next, shell, events.drop_first());
    requests_match_events(next, shell, events.drop_first());
    assert(requests_after(stage, shell, events) == seq![request] + rest);
    if i > 0 {
        assert(requests_after(stage, shell, events)[i] == rest[i - 1]);
        if steps_ahead(next) is Some {
            what_is_started_was_planned(next, shell, events.drop_first(), i - 1);
        } else {
            late_requests_finish(next, shell, events.drop_first(), i - 1);
        }
    }
}

/// There is one request behind each event.
proof fn requests_match_events<A, S, P, E>(
    stage: StageView<A>,
    shell: ShellView,
    events: Seq<EventView<A, S, P, E>>,
)
    ensures
        requests_after(stage, shell, events).len() == events.len(),
    decreases events.len(),
{
    if events.len() > 0 {
        requests_match_events(stage.after(shell, events.first()).0, shell, events.drop_first());
    }
}

/// Once the execution is started, or the setup is over, all that is left to ask for is to finish.
proof fn late_requests_finish<A, S, P, E>(
    stage: StageView<A>,
    shell: ShellView,
    events: Seq<EventView<A, S, P, E>>,
    i: int,
)
    requires
        all_awaited(stage, shell, events),
        stage is StartExecution || stage is Over,
        0 <= i < events.len(),
    ensures
        requests_after(stage, shell, events)[i] is Finish,
    decreases events.len(),
{
    if i > 0 {
        let next = stage.after(shell, events.first()).0;
        requests_match_events(next, shell, events.drop_first());
        late_requests_finish(next, shell, events.drop_first(), i - 1);
    }
}

/// What is asked for, in its view, is what is asked for: no value is lost or changed.
pub proof fn requests_show_their_values<A, S, P, E>(request: SetupRequest<A, S, P, E>)
    ensures
        request matches SetupRequest::FindLatestProcess { run_reason } ==> (request@ matches
            RequestView::FindLatestProcess { run_reason: shown } && shown == run_reason),
        request is EnsureContainerExists <==> request@ is EnsureContainerExists,
        request is FindLatestSession <==> request@ is FindLatestSession,
        request matches SetupRequest::CreateSession { executor } ==> (request@ matches
            RequestView::CreateSession { executor: shown } && (executor is None <==> shown is None)
            && (executor matches Some(text) ==> shown == Some(text@))),
        request matches SetupRequest::StartExecution { session, action, run_reason } ==> ({
            &&& request@ matches RequestView::StartExecution {
                session: shown,
                steps,
                run_reason: shown_reason,
            }
            &&& shown == session
            &&& steps == action.steps()
            &&& shown_reason == run_reason
        }),
        request matches SetupRequest::Finish(Ok(process)) ==> (request@ matches RequestView::Finish(
            Ok(shown),
        ) && shown == process),
        request matches SetupRequest::Finish(Err(error)) ==> (request@ matches RequestView::Finish(
            Err(shown),
        ) && shown == error@),
{
}

/// What is answered, and the shell and the errors that a setup knows, show their values too.
pub proof fn answers_show_their_values<A, S, P, E>(
    event: SetupEvent<A, S, P, E>,
    shell: HostShell,
    error: ApiError<E>,
)
    ensures
        event matches SetupEvent::LatestProcess(latest) ==> (event@ matches EventView::LatestProcess(
            shown,
        ) && match latest {
            None => shown is None,
            Some(Ok(action)) => shown matches Some(Ok(steps)) && steps == action.steps(),
            Some(Err(text)) => shown matches Some(Err(shown_text)) && shown_text == text@,
        }),
        event is ContainerReady <==> event@ is ContainerReady,
        event matches SetupEvent::LatestSession(session) ==> (event@ matches
            EventView::LatestSession(shown) && shown == session),
        event matches SetupEvent::SessionCreated(session) ==> (event@ matches
            EventView::SessionCreated(shown) && shown == session),
        event matches SetupEvent::Started(process) ==> (event@ matches EventView::Started(shown)
            && shown == process),
        event matches SetupEvent::Failed(failure) ==> (event@ matches EventView::Failed(shown)
            && shown == failure),
        shell is Other <==> shell@ is Other,
        shell matches HostShell::Unix { config_file } ==> (shell@ matches ShellView::Unix {
            config_file: shown,
        } && (config_file is None <==> shown is None) && (config_file matches Some(file) ==> shown
            == Some(file@))),
        error matches ApiError::Workspace(WorkspaceError::ValidationError(text)) ==> (error@
            matches ErrorView::Validation(shown) && shown == text@),
        error is Executor <==> error@ is SetupHelperNotSupported,
        error matches ApiError::Service(failure) ==> (error@ matches ErrorView::Service(shown)
            && shown == failure),
{
}

/// How far a setup has come shows in its view.
pub proof fn stages_show_their_values<A>(stage: SetupStage<A>)
    ensures
        stage is FindProcess <==> stage@ is FindProcess,
        stage matches SetupStage::EnsureContainer(action) ==> (stage@ matches
            StageView::EnsureContainer(steps) && steps == action.steps()),
        stage matches SetupStage::FindSession(action) ==> (stage@ matches StageView::FindSession(
            steps,
        ) && steps == action.steps()),
        stage matches SetupStage::CreateSession(action) ==> (stage@ matches
            StageView::CreateSession(steps) && steps == action.steps()),
        stage is StartExecution <==> stage@ is StartExecution,
        stage is Over <==> stage@ is Over,
{
}

/// The script that logs in, line by line.
pub proof fn login_script_line_by_line()
    ensures
        LOGIN_SCRIPT@ == "#!/bin/bash\n"@ + "set -e\n"@ + "export PATH=\"$HOME/.local/bin:$PATH\"\n"@
            + "kiro-cli login\n"@ + "kiro-cli whoami --format json || true\n"@,
{
    reveal_strlit(
        "#!/bin/bash\nset -e\nexport PATH=\"$HOME/.local/bin:$PATH\"\nkiro-cli login\nkiro-cli whoami --format json || true\n",
    );
    reveal_strlit("#!/bin/bash\n");
    reveal_strlit("set -e\n");
    reveal_strlit("export PATH=\"$HOME/.local/bin:$PATH\"\n");
    reveal_strlit("kiro-cli login\n");
    reveal_strlit("kiro-cli whoami --format json || true\n");
    assert(LOGIN_SCRIPT@ =~= "#!/bin/bash\n"@ + "set -e\n"@
        + "export PATH=\"$HOME/.local/bin:$PATH\"\n"@ + "kiro-cli login\n"@
        + "kiro-cli whoami --format json || true\n"@);
}

/// The script that installs the tool, line by line, and what it says to change the search path.
pub proof fn install_script_line_by_line()
    ensures
        INSTALL_SCRIPT@ == "#!/bin/bash\n"@
            + "set -e\n"@
            + "\n"@
            + "echo \"Installing Kiro CLI...\"\n"@
            + "\n"@
            + "if ! command -v kiro-cli &> /dev/null; then\n"@
            + "    curl -fsSL https://cli.kiro.dev/install | bash\n"@
            + "    echo \"Kiro CLI installed successfully\"\n"@
            + "else\n"@
            + "    echo \"Kiro CLI already installed\"\n"@
            + "fi\n"@,
        PATH_SCRIPT@ == "\n"@
            + "echo \"Ensuring Kiro CLI is on PATH...\"\n"@
            + "echo 'export PATH=\"$HOME/.local/bin:$PATH\"' >> "@,
{
    reveal_strlit("#!/bin/bash\nset -e\n\necho \"Installing Kiro CLI...\"\n\nif ! command -v kiro-cli &> /dev/null; then\n    curl -fsSL https://cli.kiro.dev/install | bash\n    echo \"Kiro CLI installed successfully\"\nelse\n    echo \"Kiro CLI already installed\"\nfi\n");
    reveal_strlit("\necho \"Ensuring Kiro CLI is on PATH...\"\necho 'export PATH=\"$HOME/.local/bin:$PATH\"' >> ");
    reveal_strlit("#!/bin/bash\n");
    reveal_strlit("set -e\n");
    reveal_strlit("\n");
    reveal_strlit("echo \"Installing Kiro CLI...\"\n");
    reveal_strlit("if ! command -v kiro-cli &> /dev/null; then\n");
    reveal_strlit("    curl -fsSL https://cli.kiro.dev/install | bash\n");
    reveal_strlit("    echo \"Kiro CLI installed successfully\"\n");
    reveal_strlit("else\n");
    reveal_strlit("    echo \"Kiro CLI already installed\"\n");
    reveal_strlit("fi\n");
    reveal_strlit("echo \"Ensuring Kiro CLI is on PATH...\"\n");
    reveal_strlit("echo 'export PATH=\"$HOME/.local/bin:$PATH\"' >> ");
    assert(INSTALL_SCRIPT@ =~= "#!/bin/bash\n"@
        + "set -e\n"@
        + "\n"@
        + "echo \"Installing Kiro CLI...\"\n"@
        + "\n"@
        + "if ! command -v kiro-cli &> /dev/null; then\n"@
        + "    curl -fsSL https://cli.kiro.dev/install | bash\n"@
        + "    echo \"Kiro CLI installed successfully\"\n"@
        + "else\n"@
        + "    echo \"Kiro CLI already installed\"\n"@
        + "fi\n"@);
    assert(PATH_SCRIPT@ =~= "\n"@
        + "echo \"Ensuring Kiro CLI is on PATH...\"\n"@
        + "echo 'export PATH=\"$HOME/.local/bin:$PATH\"' >> "@);
}

} // verus!
