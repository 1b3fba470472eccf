//! The managing agent: it derives the goal of the project from the words of
//! the user and runs the role agents, one after the other, on the one project
//! document.

use vstd::prelude::*;
use vstd::string::*;
use crate::agent_architect::{AgentSolutionArchitect, ArchitectView};
use crate::agent_backend::{
    record_api_endpoints, schema_request, with_api_endpoints, AgentBackendDeveloper, BackendView,
};
use crate::agent_traits::{
    optional_response_view, outcome_view, AgentError, FactSheet, FactSheetView, Request,
    RequestView, Response, ResponseView, SpecialFunctions, StepView,
};
use crate::ai_functions::AiFunction;
use crate::basic_agent::{AgentState, BasicAgent, BasicAgentView};
use crate::generals::{
    ai_task_request, task_request, Answer, AnswerView, Decoding, PhaseView, Progress, TaskRequest,
    TaskRequestView,
};

verus! {

/// A role agent of the pipeline, whichever role it has.
#[derive(Debug)]
pub enum RoleAgent {
    Architect(AgentSolutionArchitect),
    Backend(AgentBackendDeveloper),
}

/// A role agent as a mathematical value.
pub enum RoleAgentView {
    Architect(ArchitectView),
    Backend(BackendView),
}

impl View for RoleAgent {
    type V = RoleAgentView;

    open spec fn view(&self) -> RoleAgentView {
        match self {
            RoleAgent::Architect(agent) => RoleAgentView::Architect(agent@),
            RoleAgent::Backend(agent) => RoleAgentView::Backend(agent@),
        }
    }
}

/// What one call of a role agent's `execute` leaves behind.
pub struct RoleStep {
    pub agent: RoleAgentView,
    pub factsheet: FactSheetView,
    pub outcome: Result<Option<RequestView>, AgentError>,
}

impl RoleAgentView {
    /// The base attributes of the agent.
    pub open spec fn attributes(self) -> BasicAgentView {
        match self {
            RoleAgentView::Architect(agent) => agent.attributes,
            RoleAgentView::Backend(agent) => agent.attributes,
        }
    }

    /// The agent is well formed, as its role defines it.
    pub open spec fn wf(self) -> bool {
        match self {
            RoleAgentView::Architect(agent) => agent.wf(),
            RoleAgentView::Backend(agent) => agent.wf(),
        }
    }

    /// The fatal error that has ended the work of the agent, if any.
    pub open spec fn failure(self) -> Option<AgentError> {
        match self {
            RoleAgentView::Architect(agent) => agent.failure(),
            RoleAgentView::Backend(agent) => agent.failure(),
        }
    }

    /// The bound of the role on the work that is left.
    pub open spec fn rank(self, factsheet: FactSheetView) -> (nat, nat) {
        match self {
            RoleAgentView::Architect(agent) => agent.rank(factsheet),
            RoleAgentView::Backend(agent) => agent.rank(),
        }
    }

    /// One call of `execute`, as the role of the agent defines it.
    #[verifier::opaque]
    pub open spec fn execute(self, factsheet: FactSheetView, response: Option<ResponseView>)
        -> RoleStep {
        match self {
            RoleAgentView::Architect(agent) => {
                let step = agent.execute(factsheet, response);
                RoleStep {
                    agent: RoleAgentView::Architect(step.agent),
                    factsheet: step.factsheet,
                    outcome: step.outcome,
                }
            },
            RoleAgentView::Backend(agent) => {
                let step = agent.execute(factsheet, response);
                RoleStep {
                    agent: RoleAgentView::Backend(step.agent),
                    factsheet: step.factsheet,
                    outcome: step.outcome,
                }
            },
        }
    }
}

impl SpecialFunctions for RoleAgent {
    open spec fn attributes(&self) -> BasicAgentView {
        self@.attributes()
    }

    open spec fn failure(&self) -> Option<AgentError> {
        self@.failure()
    }

    open spec fn rank(&self, factsheet: FactSheetView) -> (nat, nat) {
        self@.rank(factsheet)
    }

    open spec fn step(&self, factsheet: FactSheetView, response: Option<ResponseView>) -> StepView {
        let step = self@.execute(factsheet, response);
        StepView {
            attributes: step.agent.attributes(),
            factsheet: step.factsheet,
            outcome: step.outcome,
        }
    }

    fn get_attributes_from_agent(&self) -> (attributes: &BasicAgent) {
        match self {
            RoleAgent::Architect(agent) => agent.get_attributes_from_agent(),
            RoleAgent::Backend(agent) => agent.get_attributes_from_agent(),
        }
    }

    /// Runs the agent up to its next request, as its role defines it.
    fn execute(&mut self, factsheet: &mut FactSheet, response: Option<Response>) -> (outcome:
        Result<Option<Request>, AgentError>)
        ensures
            final(self)@ == old(self)@.execute(
                old(factsheet)@,
                optional_response_view(response),
            ).agent,
    {
        reveal(RoleAgentView::execute);
        match self {
            RoleAgent::Architect(agent) => agent.execute(factsheet, response),
            RoleAgent::Backend(agent) => agent.execute(factsheet, response),
        }
    }
}

/// The role agents of a pipeline as a sequence of mathematical values.
pub open spec fn agents_view(agents: Seq<RoleAgent>) -> Seq<RoleAgentView> {
    agents.map_values(|agent: RoleAgent| agent@)
}

/// What the managing agent is doing.
#[derive(Debug)]
enum Stage {
    Goal(TaskRequest),
    Running(usize),
    Halted(AgentError),
}

/// What the managing agent is doing, as a mathematical value.
pub enum ManagerStageView {
    /// The goal of the project has been asked for.
    Goal(TaskRequestView),
    /// The role agents run: those before this index have finished.
    Running(nat),
    /// A fatal error has ended the run before any role agent ran.
    Halted(AgentError),
}

impl View for Stage {
    type V = ManagerStageView;

    closed spec fn view(&self) -> ManagerStageView {
        match self {
            Stage::Goal(task) => ManagerStageView::Goal(task@),
            Stage::Running(current) => ManagerStageView::Running(*current as nat),
            Stage::Halted(error) => ManagerStageView::Halted(*error),
        }
    }
}

/// The agent that owns the project document and runs the pipeline.
#[derive(Debug)]
pub struct ManagingAgent {
    attributes: BasicAgent,
    factsheet: FactSheet,
    agents: Vec<RoleAgent>,
    stage: Stage,
}

/// The managing agent as a mathematical record.
pub struct ManagerView {
    pub attributes: BasicAgentView,
    pub factsheet: FactSheetView,
    pub agents: Seq<RoleAgentView>,
    pub stage: ManagerStageView,
}

/// What one call of `execute_project` leaves behind.
pub struct ManagerStep {
    pub manager: ManagerView,
    pub outcome: Result<Option<RequestView>, AgentError>,
}

impl View for ManagingAgent {
    type V = ManagerView;

    closed spec fn view(&self) -> ManagerView {
        ManagerView {
            attributes: self.attributes@,
            factsheet: self.factsheet@,
            agents: agents_view(self.agents@),
            stage: self.stage@,
        }
    }
}

/// The project document before anything is known of the project.
pub open spec fn blank_factsheet() -> FactSheetView {
    FactSheetView {
        project_description: Seq::empty(),
        project_scope: None,
        external_urls: None,
        backend_code: None,
        api_endpoint_schema: None,
    }
}

/// The architect before its first step.
pub open spec fn fresh_architect() -> RoleAgentView {
    RoleAgentView::Architect(
        ArchitectView {
            attributes: BasicAgentView {
                objective: "Gathers information and design solution for webserver development"@,
                position: "Solutions Architect"@,
                state: AgentState::Discovery,
                memory: Seq::empty(),
            },
            stage: crate::agent_architect::ArchitectStageView::Idle,
        },
    )
}

/// The backend developer before its first step.
pub open spec fn fresh_backend() -> RoleAgentView {
    RoleAgentView::Backend(
        BackendView {
            attributes: BasicAgentView {
                objective: "Develops the backend code for the web sever and json database"@,
                position: "Backend Developer"@,
                state: AgentState::Discovery,
                memory: Seq::empty(),
            },
            bug_errors: None,
            bug_count: 0,
            stage: crate::agent_backend::BackendStageView::Idle,
        },
    )
}

/// The request that turns the words of the user into the goal of the project.
pub open spec fn goal_task(user_request: Seq<char>) -> TaskRequestView {
    task_request(
        user_request,
        "Project Manager"@,
        AiFunction::ConvertUserInputToGoal.name_spec(),
        AiFunction::ConvertUserInputToGoal,
        Decoding::Text,
    )
}

/// The manager of a new project: the goal is yet to be derived from the words
/// of the user, the document is blank, and no role agent exists yet.
pub open spec fn new_manager(user_request: Seq<char>) -> ManagerView {
    ManagerView {
        attributes: BasicAgentView {
            objective: "Mange agents who are building an excellent website for the user"@,
            position: "Project Manager"@,
            state: AgentState::Discovery,
            memory: Seq::empty(),
        },
        factsheet: blank_factsheet(),
        agents: Seq::empty(),
        stage: ManagerStageView::Goal(goal_task(user_request)),
    }
}

impl ManagerStep {
    /// The call of `execute_project` that follows this one, with `response`
    /// handed in.
    pub open spec fn given(self, response: ResponseView) -> ManagerStep {
        self.manager.execute_project(Some(response))
    }
}

impl ManagerView {
    /// The manager at another point of its work.
    pub open spec fn at(self, stage: ManagerStageView) -> ManagerView {
        ManagerView { stage, ..self }
    }

    /// The manager in another state.
    pub open spec fn in_state(self, state: AgentState) -> ManagerView {
        ManagerView { attributes: self.attributes.in_state(state), ..self }
    }

    /// A fatal error ends the run.
    pub open spec fn halt(self, error: AgentError) -> ManagerStep {
        ManagerStep { manager: self.at(ManagerStageView::Halted(error)), outcome: Err(error) }
    }

    /// The role agents run in their order, each on the document as the one
    /// before it left it. The agent at `current` takes the response; when it
    /// has finished, the next agent starts. The first request or error of an
    /// agent ends the call, and the manager has finished when the last agent
    /// has.
    pub open spec fn run(self, current: nat, response: Option<ResponseView>) -> ManagerStep
        decreases self.agents.len() - current,
    {
        if current >= self.agents.len() {
            ManagerStep {
                manager: self.in_state(AgentState::Finished).at(ManagerStageView::Running(current)),
                outcome: Ok(None),
            }
        } else {
            let step = self.agents[current as int].execute(self.factsheet, response);
            let next = ManagerView {
                factsheet: step.factsheet,
                agents: self.agents.update(current as int, step.agent),
                ..self
            };
            if step.outcome == Ok::<Option<RequestView>, AgentError>(None) {
                next.run(current + 1, None)
            } else {
                ManagerStep {
                    manager: next.at(ManagerStageView::Running(current)),
                    outcome: step.outcome,
                }
            }
        }
    }

    /// The manager with the role agents of the pipeline added in their fixed
    /// order, the solution architect and then the backend developer, behind
    /// the agents that it holds.
    pub open spec fn staffed(self) -> ManagerView {
        ManagerView {
            agents: self.agents.push(fresh_architect()).push(fresh_backend()),
            ..self
        }
    }

    /// Where the run starts: the goal that has arrived is the description of
    /// the project, the role agents have been created, and none has run.
    pub open spec fn started(self, goal: Seq<char>) -> ManagerView {
        ManagerView {
            factsheet: FactSheetView { project_description: goal, ..self.factsheet },
            ..self
        }.in_state(AgentState::Working).at(ManagerStageView::Running(0)).staffed()
    }

    /// The goal has arrived: it becomes the description of the project, the
    /// role agents are created, and the first of them starts.
    pub open spec fn seeded(self, goal: Seq<char>) -> ManagerStep {
        self.started(goal).run(0, None)
    }

    /// The pipeline is in order: every agent is well formed, the agents
    /// before the one that runs have finished, and the manager has finished
    /// only if every agent has.
    pub open spec fn wf(self) -> bool {
        &&& forall|i: int| 0 <= i < self.agents.len() ==> (#[trigger] self.agents[i]).wf()
        &&& match self.stage {
            ManagerStageView::Goal(_) => self.attributes.state != AgentState::Finished,
            ManagerStageView::Running(current) => {
                &&& current <= self.agents.len()
                &&& forall|i: int|
                    0 <= i < current ==> (#[trigger] self.agents[i]).attributes().state
                        == AgentState::Finished
                &&& self.attributes.state == AgentState::Finished ==> current == self.agents.len()
            },
            ManagerStageView::Halted(_) => self.attributes.state != AgentState::Finished,
        }
    }

    /// One call of `execute_project`. A finished manager does nothing and a
    /// halted one repeats its error. While the goal is open the manager sees
    /// to the request for it; afterwards it runs the role agents.
    pub open spec fn execute_project(self, response: Option<ResponseView>) -> ManagerStep {
        if self.attributes.state == AgentState::Finished {
            ManagerStep { manager: self, outcome: Ok(None) }
        } else {
            match self.stage {
                ManagerStageView::Halted(error) => ManagerStep { manager: self, outcome: Err(error) },
                ManagerStageView::Running(current) => self.run(current, response),
                ManagerStageView::Goal(task) => {
                    let task = match response {
                        Some(response) => task.accept(response),
                        None => task,
                    };
                    match task.phase {
                        PhaseView::Done(AnswerView::Text(goal)) => self.seeded(goal),
                        PhaseView::Done(_) => self.halt(AgentError::UnexpectedResponse),
                        PhaseView::Failed(error) => self.halt(error),
                        _ => ManagerStep {
                            manager: self.at(ManagerStageView::Goal(task)),
                            outcome: Ok(task.pending()),
                        },
                    }
                },
            }
        }
    }
}

/// What every role agent keeps to, whichever role it has. A call of
/// `execute` leaves the agent well formed and the goal of the project as it
/// was. An agent that asks for nothing more has finished. An agent that
/// returns an error has been halted by it before it finished, and a halted
/// agent repeats its error and changes nothing.
pub proof fn lemma_role_agent_contract(
    agent: RoleAgentView,
    factsheet: FactSheetView,
    response: Option<ResponseView>,
)
    requires
        agent.wf(),
    ensures
        ({
            let step = agent.execute(factsheet, response);
            &&& step.agent.wf()
            &&& step.factsheet.project_description == factsheet.project_description
            &&& step.outcome == Ok::<Option<RequestView>, AgentError>(None)
                ==> step.agent.attributes().state == AgentState::Finished
            &&& step.outcome matches Err(error) ==> {
                &&& step.agent.failure() == Some(error)
                &&& step.agent.attributes().state != AgentState::Finished
            }
            &&& agent.failure() matches Some(error) ==> (agent.attributes().state
                != AgentState::Finished ==> step == (RoleStep {
                agent,
                factsheet,
                outcome: Err(error),
            }))
        }),
{
    reveal(RoleAgentView::execute);
}

/// The role agents run in order. A call of `execute_project` leaves the
/// pipeline in order: no agent has started before the agents in front of it
/// have finished. When the call asks for nothing more, every agent has
/// finished and so has the manager. Role agents are created when the goal
/// arrives and at no other time, and once the goal is set, no call changes
/// it.
pub proof fn lemma_pipeline_stays_in_order(manager: ManagerView, response: Option<ResponseView>)
    requires
        manager.wf(),
    ensures
        ({
            let step = manager.execute_project(response);
            &&& step.manager.wf()
            &&& step.outcome == Ok::<Option<RequestView>, AgentError>(None) ==> {
                &&& step.manager.attributes.state == AgentState::Finished
                &&& forall|i: int|
                    0 <= i < step.manager.agents.len() ==> (
                    #[trigger] step.manager.agents[i]).attributes().state == AgentState::Finished
            }
            &&& manager.stage is Running ==> {
                &&& step.manager.agents.len() == manager.agents.len()
                &&& step.manager.factsheet.project_description
                    == manager.factsheet.project_description
            }
            &&& !(step.manager.stage is Running) ==> step.manager.agents == manager.agents
            &&& manager.stage is Goal && step.manager.stage is Running
                ==> step.manager.agents.len() == manager.agents.len() + 2
        }),
{
    if manager.attributes.state != AgentState::Finished {
        match manager.stage {
            ManagerStageView::Running(current) => {
                lemma_run_stays_in_order(manager, current, response);
            },
            ManagerStageView::Goal(task) => {
                let task = match response {
                    Some(response) => task.accept(response),
                    None => task,
                };
                if let PhaseView::Done(AnswerView::Text(goal)) = task.phase {
                    lemma_run_stays_in_order(manager.started(goal), 0, None);
                }
            },
            ManagerStageView::Halted(_) => {},
        }
    }
}

/// The run of the agents from `current` on leaves the pipeline in order.
proof fn lemma_run_stays_in_order(
    manager: ManagerView,
    current: nat,
    response: Option<ResponseView>,
)
    requires
        manager.at(ManagerStageView::Running(current)).wf(),
        manager.attributes.state != AgentState::Finished,
    ensures
        ({
            let step = manager.run(current, response);
            &&& step.manager.wf()
            &&& step.manager.agents.len() == manager.agents.len()
            &&& step.manager.factsheet.project_description
                == manager.factsheet.project_description
            &&& step.manager.stage is Running
            &&& step.manager.stage->Running_0 >= current
            &&& step.outcome == Ok::<Option<RequestView>, AgentError>(None) ==> {
                &&& step.manager.attributes.state == AgentState::Finished
                &&& step.manager.stage == ManagerStageView::Running(manager.agents.len())
            }
            &&& !(step.outcome == Ok::<Option<RequestView>, AgentError>(None))
                ==> step.manager.attributes.state != AgentState::Finished
            &&& step.outcome matches Err(error) ==> {
                let at = step.manager.stage->Running_0 as int;
                &&& at < step.manager.agents.len()
                &&& step.manager.agents[at].failure() == Some(error)
                &&& step.manager.agents[at].attributes().state != AgentState::Finished
            }
        }),
    decreases manager.agents.len() - current,
{
    if current < manager.agents.len() {
        let agent = manager.agents[current as int];
        lemma_role_agent_contract(agent, manager.factsheet, response);
        let step = agent.execute(manager.factsheet, response);
        let next = ManagerView {
            factsheet: step.factsheet,
            agents: manager.agents.update(current as int, step.agent),
            ..manager
        };
        assert forall|i: int| 0 <= i < next.agents.len() implies (
        #[trigger] next.agents[i]).wf() by {}
        if step.outcome == Ok::<Option<RequestView>, AgentError>(None) {
            assert forall|i: int| 0 <= i < current + 1 implies (
            #[trigger] next.agents[i]).attributes().state == AgentState::Finished by {}
            lemma_run_stays_in_order(next, current + 1, None);
        } else {
            assert forall|i: int| 0 <= i < current implies (
            #[trigger] next.agents[i]).attributes().state == AgentState::Finished by {}
        }
    }
}

/// An error ends the run for every agent: once a call of `execute_project`
/// has returned an error, every later call returns the same error and changes
/// nothing. No agent is run again, and none is run in place of the one that
/// failed.
pub proof fn lemma_error_ends_the_run(
    manager: ManagerView,
    response: Option<ResponseView>,
    later: Option<ResponseView>,
)
    requires
        manager.wf(),
        manager.execute_project(response).outcome is Err,
    ensures
        ({
            let failed = manager.execute_project(response);
            failed.manager.execute_project(later) == (ManagerStep {
                manager: failed.manager,
                outcome: failed.outcome,
            })
        }),
{
    let failed = manager.execute_project(response);
    lemma_pipeline_stays_in_order(manager, response);
    match manager.stage {
        ManagerStageView::Running(current) => {
            lemma_run_stays_in_order(manager, current, response);
            lemma_failed_agent_stops_the_pipeline(failed.manager, later);
        },
        ManagerStageView::Goal(task) => {
            let task = match response {
                Some(response) => task.accept(response),
                None => task,
            };
            if let PhaseView::Done(AnswerView::Text(goal)) = task.phase {
                lemma_run_stays_in_order(manager.started(goal), 0, None);
                lemma_failed_agent_stops_the_pipeline(failed.manager, later);
            }
        },
        ManagerStageView::Halted(_) => {},
    }
}

/// A pipeline whose running agent has been halted repeats the error of that
/// agent and changes nothing.
proof fn lemma_failed_agent_stops_the_pipeline(manager: ManagerView, later: Option<ResponseView>)
    requires
        manager.wf(),
        manager.attributes.state != AgentState::Finished,
        manager.stage is Running,
        manager.stage->Running_0 < manager.agents.len(),
        manager.agents[manager.stage->Running_0 as int].failure() is Some,
        manager.agents[manager.stage->Running_0 as int].attributes().state
            != AgentState::Finished,
    ensures
        manager.execute_project(later) == (ManagerStep {
            manager,
            outcome: Err(manager.agents[manager.stage->Running_0 as int].failure()->0),
        }),
{
    let current = manager.stage->Running_0;
    let agent = manager.agents[current as int];
    lemma_role_agent_contract(agent, manager.factsheet, later);
    assert(manager.agents.update(current as int, agent) =~= manager.agents);
}

/// The pipeline of a new manager is in order, and it holds no role agent.
pub proof fn lemma_new_manager_is_in_order(user_request: Seq<char>)
    ensures
        new_manager(user_request).wf(),
        new_manager(user_request).agents.len() == 0,
{
}

/// The manager once the goal has arrived, the role agents have been created
/// and the architect has asked for the scope.
pub open spec fn seeded_manager(user_request: Seq<char>, goal: Seq<char>) -> ManagerView {
    let start = new_manager(user_request);
    let factsheet = FactSheetView { project_description: goal, ..blank_factsheet() };
    let architect = fresh_architect()->Architect_0;
    ManagerView {
        attributes: start.attributes.in_state(AgentState::Working),
        factsheet,
        agents: seq![
            RoleAgentView::Architect(
                architect.at(
                    crate::agent_architect::ArchitectStageView::Scope(architect.scope_task(factsheet)),
                ),
            ),
            fresh_backend(),
        ],
        stage: ManagerStageView::Running(0),
    }
}

/// The first two calls of a run. The manager asks for the goal, once, from
/// the words of the user: no role agent exists, and the document stays
/// blank. The answer becomes the description of the project; only then are
/// the architect and the backend developer created, in this order, and the
/// architect asks for the scope of the project that the goal describes.
pub proof fn lemma_goal_seeds_the_project(user_request: Seq<char>, goal: Seq<char>)
    ensures
        new_manager(user_request).execute_project(None) == (ManagerStep {
            manager: new_manager(user_request),
            outcome: Ok(goal_task(user_request).pending()),
        }),
        new_manager(user_request).execute_project(Some(ResponseView::Completion(Some(goal))))
            == (ManagerStep {
            manager: seeded_manager(user_request, goal),
            outcome: Ok(
                (fresh_architect()->Architect_0).scope_task(
                    seeded_manager(user_request, goal).factsheet,
                ).pending(),
            ),
        }),
{
    reveal(RoleAgentView::execute);
    let started = new_manager(user_request).started(goal);
    assert(started.agents =~= seq![fresh_architect(), fresh_backend()]);
    let step = started.agents[0].execute(started.factsheet, None);
    assert(started.agents.update(0, step.agent) =~= seeded_manager(user_request, goal).agents);
}

/// The architect that waits for the scope, as a role agent.
pub open spec fn waiting_architect(task: TaskRequestView) -> RoleAgentView {
    RoleAgentView::Architect(
        (fresh_architect()->Architect_0).at(
            crate::agent_architect::ArchitectStageView::Scope(task),
        ),
    )
}

/// The architect hands the answer of the model on to be decoded as a scope.
proof fn lemma_architect_has_the_scope_decoded(factsheet: FactSheetView, answer: Seq<char>)
    ensures
        ({
            let task = (fresh_architect()->Architect_0).scope_task(factsheet);
            let response = ResponseView::Completion(Some(answer));
            waiting_architect(task).execute(factsheet, Some(response)) == (RoleStep {
                agent: waiting_architect(task.accept(response)),
                factsheet,
                outcome: Ok(task.accept(response).pending()),
            })
        }),
{
    reveal(RoleAgentView::execute);
}

/// The architect finishes on a scope that asks for no external URLs.
proof fn lemma_architect_finishes_without_urls(
    factsheet: FactSheetView,
    answer: Seq<char>,
    scope: crate::agent_traits::ProjectScope,
)
    requires
        !scope.is_external_urls_required,
    ensures
        ({
            let task = (fresh_architect()->Architect_0).scope_task(factsheet).accept(
                ResponseView::Completion(Some(answer)),
            );
            let step = waiting_architect(task).execute(
                factsheet,
                Some(ResponseView::Scope(Some(scope))),
            );
            &&& step.outcome == Ok::<Option<RequestView>, AgentError>(None)
            &&& step.agent.attributes().state == AgentState::Finished
            &&& step.factsheet == (FactSheetView { project_scope: Some(scope), ..factsheet })
        }),
{
    reveal(RoleAgentView::execute);
}

/// The backend developer starts by asking for the code template.
proof fn lemma_backend_starts_with_the_template(factsheet: FactSheetView)
    ensures
        fresh_backend().execute(factsheet, None).factsheet == factsheet,
        fresh_backend().execute(factsheet, None).outcome == Ok::<Option<RequestView>, AgentError>(
            Some(crate::agent_backend::template_request()),
        ),
{
    reveal(RoleAgentView::execute);
}

/// A project that needs no external URLs. When the scope arrives and asks
/// for no external URLs, the architect has finished: the scope is stored, the
/// document holds no URLs, and the backend developer starts by asking for
/// the code template.
pub proof fn lemma_project_without_urls(
    user_request: Seq<char>,
    goal: Seq<char>,
    answer: Seq<char>,
    scope: crate::agent_traits::ProjectScope,
)
    requires
        !scope.is_external_urls_required,
    ensures
        ({
            let scoped = seeded_manager(user_request, goal).execute_project(
                Some(ResponseView::Completion(Some(answer))),
            ).given(ResponseView::Scope(Some(scope)));
            &&& scoped.manager.factsheet == (FactSheetView {
                project_description: goal,
                project_scope: Some(scope),
                ..blank_factsheet()
            })
            &&& scoped.manager.agents.len() == 2
            &&& scoped.manager.agents[0].attributes().state == AgentState::Finished
            &&& scoped.outcome == Ok::<Option<RequestView>, AgentError>(
                Some(crate::agent_backend::template_request()),
            )
        }),
{
    let seeded = seeded_manager(user_request, goal);
    let task = (fresh_architect()->Architect_0).scope_task(seeded.factsheet);
    assert(seeded.agents[0] == waiting_architect(task));
    lemma_architect_has_the_scope_decoded(seeded.factsheet, answer);
    let waiting = seeded.execute_project(Some(ResponseView::Completion(Some(answer)))).manager;
    assert(waiting.agents =~= seq![
        waiting_architect(task.accept(ResponseView::Completion(Some(answer)))),
        fresh_backend(),
    ]);
    assert(waiting.factsheet == seeded.factsheet);
    lemma_architect_finishes_without_urls(seeded.factsheet, answer, scope);
    let finished = waiting.agents[0].execute(
        waiting.factsheet,
        Some(ResponseView::Scope(Some(scope))),
    );
    let next = ManagerView {
        factsheet: finished.factsheet,
        agents: waiting.agents.update(0, finished.agent),
        ..waiting
    };
    assert(next.agents[1] == fresh_backend());
    lemma_backend_starts_with_the_template(next.factsheet);
    let started = next.agents[1].execute(next.factsheet, None);
    assert(next.run(1, None) == (ManagerStep {
        manager: ManagerView {
            factsheet: started.factsheet,
            agents: next.agents.update(1, started.agent),
            ..next
        }.at(ManagerStageView::Running(1)),
        outcome: started.outcome,
    }));
    assert(waiting.run(0, Some(ResponseView::Scope(Some(scope)))) == next.run(1, None));
}

impl ManagingAgent {
    /// The manager of a new project, whose goal is yet to be derived from
    /// `user_request`. It holds no role agent: `execute_project` creates the
    /// agents when the goal has arrived.
    pub fn new(user_request: String) -> (manager: Self)
        ensures
            manager@ == new_manager(user_request@),
    {
        let position = "Project Manager";
        let attributes = BasicAgent::new(
            String::from_str("Mange agents who are building an excellent website for the user"),
            String::from_str(position),
        );
        let goal = ai_task_request(
            user_request,
            position,
            AiFunction::ConvertUserInputToGoal.name(),
            AiFunction::ConvertUserInputToGoal,
        );
        let factsheet = FactSheet {
            project_description: String::new(),
            project_scope: None,
            external_urls: None,
            backend_code: None,
            api_endpoint_schema: None,
        };
        let manager = ManagingAgent {
            attributes,
            factsheet,
            agents: Vec::new(),
            stage: Stage::Goal(goal),
        };
        assert(manager@.agents =~= Seq::empty());
        manager
    }

    /// Adds `agent` behind the agents that the pipeline holds.
    pub fn add_agent(&mut self, agent: RoleAgent)
        ensures
            final(self)@ == (ManagerView {
                agents: old(self)@.agents.push(agent@),
                ..old(self)@
            }),
    {
        let ghost before = self.agents@;
        self.agents.push(agent);
        assert(agents_view(self.agents@) =~= agents_view(before).push(agent@));
    }

    /// Adds the role agents of the pipeline in their fixed order: the
    /// solution architect, then the backend developer.
    pub fn create_agents(&mut self)
        ensures
            final(self)@ == old(self)@.staffed(),
    {
        self.add_agent(RoleAgent::Architect(AgentSolutionArchitect::new()));
        self.add_agent(RoleAgent::Backend(AgentBackendDeveloper::new()));
    }

    /// The base attributes of the manager, for diagnostics.
    pub fn get_attributes(&self) -> (attributes: &BasicAgent)
        ensures
            attributes@ == self@.attributes,
    {
        &self.attributes
    }

    /// The project document.
    pub fn get_factsheet(&self) -> (factsheet: &FactSheet)
        ensures
            factsheet@ == self@.factsheet,
    {
        &self.factsheet
    }

    /// Stores the endpoints that the model listed in the project document,
    /// and asks for the schema to be written to its place. An answer that
    /// holds no list of endpoints changes nothing.
    pub fn store_api_endpoints(&mut self, answer: Answer) -> (outcome: Result<Request, AgentError>)
        ensures
            match answer@ {
                AnswerView::Routes(schema, _) => {
                    &&& final(self)@ == (ManagerView {
                        factsheet: with_api_endpoints(old(self)@.factsheet, schema),
                        ..old(self)@
                    })
                    &&& outcome matches Ok(request) && request@ == schema_request(schema)
                },
                _ => {
                    &&& final(self)@ == old(self)@
                    &&& outcome matches Err(error) && error == AgentError::UnexpectedResponse
                },
            },
    {
        record_api_endpoints(&mut self.factsheet, answer)
    }

    /// The role agents of the pipeline, for diagnostics.
    pub fn get_agents(&self) -> (agents: &Vec<RoleAgent>)
        ensures
            agents_view(agents@) == self@.agents,
    {
        &self.agents
    }

    /// Runs the role agents from the one at `current` on.
    #[verifier::loop_isolation(false)]
    fn run(&mut self, current: usize, response: Option<Response>) -> (outcome: Result<
        Option<Request>,
        AgentError,
    >)
        ensures
            (ManagerStep { manager: final(self)@, outcome: outcome_view(outcome) }) == old(
                self,
            )@.run(current as nat, optional_response_view(response)),
    {
        let ghost whole = old(self)@.run(current as nat, optional_response_view(response));
        let mut current = current;
        let mut response = response;
        while current < self.agents.len()
            invariant
                self@.run(current as nat, optional_response_view(response)) == whole,
            decreases self.agents.len() - current,
        {
            let ghost before = self@;
            let ghost handed = optional_response_view(response);
            let outcome = self.agents[current].execute(&mut self.factsheet, response);
            assert(agents_view(self.agents@) =~= before.agents.update(
                current as int,
                before.agents[current as int].execute(before.factsheet, handed).agent,
            ));
            match outcome {
                Ok(None) => {
                    current = current + 1;
                    response = None;
                },
                outcome => {
                    self.stage = Stage::Running(current);
                    return outcome;
                },
            }
        }
        self.attributes.state = AgentState::Finished;
        self.stage = Stage::Running(current);
        Ok(None)
    }

    /// Runs the pipeline up to its next request.
    ///
    /// The first call takes no response. Each later call takes the response
    /// to the request that the call before it returned. `Ok(None)` says that
    /// every agent has finished, and an error ends the run for good.
    pub fn execute_project(&mut self, response: Option<Response>) -> (outcome: Result<
        Option<Request>,
        AgentError,
    >)
        ensures
            (ManagerStep { manager: final(self)@, outcome: outcome_view(outcome) }) == old(
                self,
            )@.execute_project(optional_response_view(response)),
    {
        if self.attributes.state == AgentState::Finished {
            return Ok(None);
        }
        let mut stage = Stage::Running(0);
        core::mem::swap(&mut self.stage, &mut stage);
        match stage {
            Stage::Halted(error) => {
                self.stage = Stage::Halted(error);
                Err(error)
            },
            Stage::Running(current) => {
                self.stage = Stage::Running(current);
                self.run(current, response)
            },
            Stage::Goal(task) => {
                let mut task = task;
                match response {
                    Some(response) => {
                        task.accept(response);
                    },
                    None => {},
                }
                match task.progress() {
                    Progress::Open(task) => {
                        let request = task.pending();
                        self.stage = Stage::Goal(task);
                        Ok(request)
                    },
                    Progress::Answered(Answer::Text(goal)) => {
                        self.factsheet.project_description = goal;
                        self.attributes.state = AgentState::Working;
                        self.create_agents();
                        self.run(0, None)
                    },
                    Progress::Answered(_) => {
                        self.stage = Stage::Halted(AgentError::UnexpectedResponse);
                        Err(AgentError::UnexpectedResponse)
                    },
                    Progress::Failed(error) => {
                        self.stage = Stage::Halted(error);
                        Err(error)
                    },
                }
            },
        }
    }
}

} // verus!
