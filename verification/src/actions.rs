//! Chains of actions that are executed one after the other.

use crate::text::text_of;
use vstd::prelude::*;

verus! {

/// The language of a script.
#[derive(Clone, Copy, Debug, PartialEq, Eq, Structural)]
pub enum ScriptRequestLanguage {
    Bash,
}

/// What a script is run for.
#[derive(Clone, Copy, Debug, PartialEq, Eq, Structural)]
pub enum ScriptContext {
    ToolInstallScript,
}

/// A script to run.
#[derive(Clone, Debug, PartialEq, Eq)]
pub struct ScriptRequest {
    pub script: String,
    pub language: ScriptRequestLanguage,
    pub context: ScriptContext,
    pub working_dir: Option<String>,
}

/// The values that a `ScriptRequest` holds.
pub struct ScriptView {
    pub script: Seq<char>,
    pub language: ScriptRequestLanguage,
    pub context: ScriptContext,
    pub working_dir: Option<Seq<char>>,
}

impl View for ScriptRequest {
    type V = ScriptView;

    open spec fn view(&self) -> ScriptView {
        ScriptView {
            script: self.script@,
            language: self.language,
            context: self.context,
            working_dir: text_of(self.working_dir),
        }
    }
}

/// One action: a script, or a request `A` to an agent.
#[derive(Clone, Debug, PartialEq, Eq)]
pub enum ExecutorActionType<A> {
    ScriptRequest(ScriptRequest),
    AgentRequest(A),
}

/// The values that an `ExecutorActionType` holds.
pub enum StepView<A> {
    ScriptRequest(ScriptView),
    AgentRequest(A),
}

impl<A> View for ExecutorActionType<A> {
    type V = StepView<A>;

    open spec fn view(&self) -> StepView<A> {
        match self {
            ExecutorActionType::ScriptRequest(request) => StepView::ScriptRequest(request@),
            ExecutorActionType::AgentRequest(request) => StepView::AgentRequest(*request),
        }
    }
}

/// An action and the one that follows it.
#[derive(Debug, PartialEq, Eq)]
pub struct ExecutorAction<A> {
    pub typ: ExecutorActionType<A>,
    pub next_action: Option<Box<ExecutorAction<A>>>,
}

impl<A> ExecutorAction<A> {
    /// The actions of the chain in order.
    pub open spec fn steps(self) -> Seq<StepView<A>>
        decreases self,
    {
        match self.next_action {
            Some(next) => seq![self.typ@] + next.steps(),
            None => seq![self.typ@],
        }
    }

    /// An action, and the chain that follows it.
    pub fn new(typ: ExecutorActionType<A>, next_action: Option<Box<ExecutorAction<A>>>) -> (action:
        Self)
        ensures
            action.typ == typ,
            action.next_action == next_action,
            action.steps().len() > 0,
            action.steps()[0] == typ@,
            match next_action {
                Some(next) => action.steps().skip(1) == next.steps(),
                None => action.steps().len() == 1,
            },
    {
        ExecutorAction { typ, next_action }
    }

    /// The chain with `action` behind its last action.
    pub fn append_action(self, action: ExecutorAction<A>) -> (chain: Self)
        ensures
            chain.steps() == self.steps() + action.steps(),
            chain.steps().len() == self.steps().len() + action.steps().len(),
            chain.typ == self.typ,
            self.next_action is None ==> (chain.next_action matches Some(next) && *next == action),
        decreases self,
    {
        match self.next_action {
            Some(next) => {
                let rest = (*next).append_action(action);
                let chain = ExecutorAction { typ: self.typ, next_action: Some(Box::new(rest)) };
                assert(chain.steps() == self.steps() + action.steps());
                chain
            },
            None => {
                let chain = ExecutorAction { typ: self.typ, next_action: Some(Box::new(action)) };
                assert(chain.steps() == self.steps() + action.steps());
                chain
            },
        }
    }
}

/// The steps of a chain are its first action and then the steps of the chain that follows, if one
/// follows.
pub proof fn steps_go_down_the_chain<A>(action: ExecutorAction<A>)
    ensures
        action.steps().len() > 0,
        action.steps()[0] == action.typ@,
        match action.next_action {
            Some(next) => {
                &&& action.steps().len() == next.steps().len() + 1
                &&& action.steps().skip(1) == next.steps()
            },
            None => action.steps().len() == 1,
        },
{
}

/// No value of a script is lost or changed in its view.
pub proof fn scripts_show_their_values<A>(request: ScriptRequest, agent_request: A)
    ensures
        request@.script == request.script@,
        request@.language == request.language,
        request@.context == request.context,
        request.working_dir is None <==> request@.working_dir is None,
        request.working_dir matches Some(text) ==> request@.working_dir == Some(text@),
        ExecutorActionType::<A>::ScriptRequest(request)@ matches StepView::ScriptRequest(shown)
            && shown == request@,
        ExecutorActionType::AgentRequest(agent_request)@ matches StepView::AgentRequest(shown)
            && shown == agent_request,
{
}

} // verus!
