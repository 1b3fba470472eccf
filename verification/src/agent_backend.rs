//! The backend developer: it has backend code written from a template, has it
//! improved, and has it built. Code that does not build goes back to the
//! model together with what the compiler said, as long as the repair budget
//! lasts.

use vstd::prelude::*;
use vstd::string::*;
use crate::agent_traits::{
    optional_response_view, optional_text_view, outcome_view, AgentError, BuildReport,
    BuildReportView, FactSheet, FactSheetView, Request, RequestView, Response, ResponseView,
    SpecialFunctions, StepView, Work, WorkView,
};
use crate::ai_functions::AiFunction;
use crate::basic_agent::{AgentState, BasicAgent, BasicAgentView};
use crate::command_line::{NoticeView, PrintCommand};
use crate::factsheet_text::{
    factsheet_debug, optional_text_debug, show_factsheet, show_optional_text,
};
use crate::generals::{
    ai_task_request, ai_task_request_decoded, lemma_request_makes_progress, task_request, Answer, AnswerView, Decoding,
    PhaseView, Progress, TaskRequest, TaskRequestView,
};

verus! {

/// How many failed builds in a row the agent repairs. One more ends the run.
pub const REPAIR_BUDGET: u8 = 2;

/// What the backend developer is waiting for.
#[derive(Debug)]
enum Stage {
    Idle,
    Template,
    Code(TaskRequest),
    Saving(String),
    Approval,
    Building,
    Halted(AgentError),
}

/// What the backend developer is waiting for, as a mathematical value.
pub enum BackendStageView {
    /// Nothing has been asked for.
    Idle,
    /// The code template has been asked for.
    Template,
    /// Backend code has been asked for.
    Code(TaskRequestView),
    /// This code is being written to its place.
    Saving(Seq<char>),
    /// A person has been asked whether the code may be built.
    Approval,
    /// The code is being built.
    Building,
    /// A fatal error has ended the work of the agent.
    Halted(AgentError),
}

impl View for Stage {
    type V = BackendStageView;

    closed spec fn view(&self) -> BackendStageView {
        match self {
            Stage::Idle => BackendStageView::Idle,
            Stage::Template => BackendStageView::Template,
            Stage::Code(task) => BackendStageView::Code(task@),
            Stage::Saving(code) => BackendStageView::Saving(code@),
            Stage::Approval => BackendStageView::Approval,
            Stage::Building => BackendStageView::Building,
            Stage::Halted(error) => BackendStageView::Halted(*error),
        }
    }
}

/// The agent that writes, improves and repairs the backend code.
#[derive(Debug)]
pub struct AgentBackendDeveloper {
    attributes: BasicAgent,
    bug_errors: Option<String>,
    bug_count: u8,
    stage: Stage,
}

/// The backend developer as a mathematical record.
pub struct BackendView {
    pub attributes: BasicAgentView,
    /// What the compiler said of the build that failed last.
    pub bug_errors: Option<Seq<char>>,
    /// How many builds have failed in a row.
    pub bug_count: nat,
    pub stage: BackendStageView,
}

/// What one call of the backend developer's `execute` leaves behind.
pub struct BackendStep {
    pub agent: BackendView,
    pub factsheet: FactSheetView,
    pub outcome: Result<Option<RequestView>, AgentError>,
}

/// What the model is told when it writes the first version of the code: the
/// code template and the description of the project.
pub open spec fn initial_context(template: Seq<char>, project_description: Seq<char>) -> Seq<char> {
    "CODE TEMPLATE: "@ + template + " \n PROJEC_DESCRIPTION: "@ + project_description + " \n"@
}

/// What the model is told when it improves the code: the code and the whole
/// project document, each as `{:?}` shows it.
pub open spec fn improved_context(backend_code: Seq<char>, factsheet: Seq<char>) -> Seq<char> {
    "CODE TEMPLATE: "@ + backend_code + " \n PROJEC_DESCRIPTION: "@ + factsheet + " \n"@
}

/// What the model is told when it repairs the code: the code and what the
/// compiler said of it, each as `{:?}` shows it.
pub open spec fn fixed_context(backend_code: Seq<char>, bug_errors: Seq<char>) -> Seq<char> {
    "BROKEN_CODE: "@ + backend_code + " \n ERROR_BUGS: "@ + bug_errors
        + " \n\n            THIS FUNCTION ONLY OUTPUTS CODE. JUST OUTPUT THE CODE."@
}

/// What the model is told when it lists the endpoints of the code.
pub open spec fn endpoints_context(backend_code: Seq<char>) -> Seq<char> {
    "CODE_INPUT: "@ + backend_code
}

/// The context of the request for the first version of the code.
pub fn initial_code_context(template: &str, project_description: &str) -> (context: String)
    ensures
        context@ == initial_context(template@, project_description@),
{
    let mut context = String::from_str("CODE TEMPLATE: ");
    context.append(template);
    context.append(" \n PROJEC_DESCRIPTION: ");
    context.append(project_description);
    context.append(" \n");
    context
}

/// The context of the request for improved code, from the code and the
/// project document as `{:?}` shows them.
pub fn improved_code_context(backend_code: &str, factsheet: &str) -> (context: String)
    ensures
        context@ == improved_context(backend_code@, factsheet@),
{
    let mut context = String::from_str("CODE TEMPLATE: ");
    context.append(backend_code);
    context.append(" \n PROJEC_DESCRIPTION: ");
    context.append(factsheet);
    context.append(" \n");
    context
}

/// The context of the request for repaired code, from the code and the
/// diagnostics as `{:?}` shows them.
pub fn fixed_code_context(backend_code: &str, bug_errors: &str) -> (context: String)
    ensures
        context@ == fixed_context(backend_code@, bug_errors@),
{
    let mut context = String::from_str("BROKEN_CODE: ");
    context.append(backend_code);
    context.append(" \n ERROR_BUGS: ");
    context.append(bug_errors);
    context.append(" \n\n            THIS FUNCTION ONLY OUTPUTS CODE. JUST OUTPUT THE CODE.");
    context
}

/// The context of the request for the endpoints of the code.
pub fn rest_api_endpoints_context(backend_code: &str) -> (context: String)
    ensures
        context@ == endpoints_context(backend_code@),
{
    let mut context = String::from_str("CODE_INPUT: ");
    context.append(backend_code);
    context
}

/// The request to write the endpoint schema to its place.
pub open spec fn schema_request(schema: Seq<char>) -> RequestView {
    RequestView { notice: None, work: WorkView::SaveSchema(schema) }
}

/// The document once the endpoints have been stored: the answer that held
/// them is the endpoint schema, and nothing else has changed.
pub open spec fn with_api_endpoints(factsheet: FactSheetView, schema: Seq<char>) -> FactSheetView {
    FactSheetView { api_endpoint_schema: Some(schema), ..factsheet }
}

/// Stores the endpoints that the model listed. An answer that holds a list
/// of endpoints becomes the endpoint schema of the document, as the text in
/// which the model listed them in their order, and the schema is to be
/// written to its place. Any other answer changes nothing.
pub fn record_api_endpoints(factsheet: &mut FactSheet, answer: Answer) -> (outcome: Result<
    Request,
    AgentError,
>)
    ensures
        match answer@ {
            AnswerView::Routes(schema, _) => {
                &&& final(factsheet)@ == with_api_endpoints(old(factsheet)@, schema)
                &&& outcome matches Ok(request) && request@ == schema_request(schema)
            },
            _ => {
                &&& final(factsheet)@ == old(factsheet)@
                &&& outcome matches Err(error) && error == AgentError::UnexpectedResponse
            },
        },
{
    match answer {
        Answer::Routes(schema, _) => {
            factsheet.api_endpoint_schema = Some(schema.clone());
            Ok(Request { notice: None, work: Work::SaveSchema(schema) })
        },
        _ => Err(AgentError::UnexpectedResponse),
    }
}

/// The request to read the code template.
pub open spec fn template_request() -> RequestView {
    RequestView { notice: None, work: WorkView::ReadTemplate }
}

/// The request to write the code to its place.
pub open spec fn save_request(code: Seq<char>) -> RequestView {
    RequestView { notice: None, work: WorkView::SaveCode(code) }
}

/// The request for the approval of a person.
pub open spec fn confirm_request(position: Seq<char>) -> RequestView {
    RequestView {
        notice: Some(
            NoticeView {
                category: PrintCommand::UnitTest,
                position,
                statement: "Backend code unit testing: Requesting user input"@,
            },
        ),
        work: WorkView::Confirm,
    }
}

/// The request to build the generated project.
pub open spec fn build_request(position: Seq<char>) -> RequestView {
    RequestView {
        notice: Some(
            NoticeView {
                category: PrintCommand::UnitTest,
                position,
                statement: "Backend Code Unit Testing: building project..."@,
            },
        ),
        work: WorkView::Build,
    }
}

impl BackendView {
    /// The backend developer cannot stand like this unless its repair budget
    /// is kept while it works, it waits for an open request only, and each
    /// thing it waits for belongs to its state.
    pub open spec fn wf(self) -> bool {
        &&& !(self.stage is Halted) ==> self.bug_count <= REPAIR_BUDGET
        &&& match self.stage {
            BackendStageView::Template => self.attributes.state == AgentState::Discovery,
            BackendStageView::Code(task) => task.is_open() && (self.attributes.state
                == AgentState::Discovery || self.attributes.state == AgentState::Working),
            BackendStageView::Saving(_) => self.attributes.state == AgentState::Discovery
                || self.attributes.state == AgentState::Working,
            BackendStageView::Approval => self.attributes.state == AgentState::UnitTesting,
            BackendStageView::Building => self.attributes.state == AgentState::UnitTesting,
            _ => true,
        }
    }

    /// The request for the first version of the code.
    pub open spec fn initial_task(self, template: Seq<char>, factsheet: FactSheetView)
        -> TaskRequestView {
        task_request(
            initial_context(template, factsheet.project_description),
            self.attributes.position,
            AiFunction::PrintBackendWebserverCode.name_spec(),
            AiFunction::PrintBackendWebserverCode,
            Decoding::Text,
        )
    }

    /// The request for improved code.
    pub open spec fn improved_task(self, factsheet: FactSheetView) -> TaskRequestView {
        task_request(
            improved_context(
                optional_text_debug(factsheet.backend_code),
                factsheet_debug(factsheet),
            ),
            self.attributes.position,
            AiFunction::PrintImprovedWebserverCode.name_spec(),
            AiFunction::PrintImprovedWebserverCode,
            Decoding::Text,
        )
    }

    /// The request for repaired code.
    pub open spec fn fixed_task(self, factsheet: FactSheetView) -> TaskRequestView {
        task_request(
            fixed_context(
                optional_text_debug(factsheet.backend_code),
                optional_text_debug(self.bug_errors),
            ),
            self.attributes.position,
            AiFunction::PrintFixedCode.name_spec(),
            AiFunction::PrintFixedCode,
            Decoding::Text,
        )
    }

    /// The request for the endpoints that `backend_code` serves.
    pub open spec fn endpoints_task(self, backend_code: Seq<char>) -> TaskRequestView {
        task_request(
            endpoints_context(backend_code),
            self.attributes.position,
            AiFunction::PrintRestApiEndpoints.name_spec(),
            AiFunction::PrintRestApiEndpoints,
            Decoding::Routes,
        )
    }

    /// The backend developer in another stage.
    pub open spec fn at(self, stage: BackendStageView) -> BackendView {
        BackendView { stage, ..self }
    }

    /// The backend developer in another state.
    pub open spec fn in_state(self, state: AgentState) -> BackendView {
        BackendView { attributes: self.attributes.in_state(state), ..self }
    }

    /// A fatal error ends the work: the document stays, and the error is
    /// kept.
    pub open spec fn halt(self, factsheet: FactSheetView, error: AgentError) -> BackendStep {
        BackendStep {
            agent: self.at(BackendStageView::Halted(error)),
            factsheet,
            outcome: Err(error),
        }
    }

    /// The agent asks for `request` and waits at `stage`.
    pub open spec fn ask(self, factsheet: FactSheetView, stage: BackendStageView, request:
        RequestView) -> BackendStep {
        BackendStep { agent: self.at(stage), factsheet, outcome: Ok(Some(request)) }
    }

    /// The agent opens `task` and waits for the code.
    pub open spec fn ask_model(self, factsheet: FactSheetView, task: TaskRequestView)
        -> BackendStep {
        BackendStep {
            agent: self.at(BackendStageView::Code(task)),
            factsheet,
            outcome: Ok(task.pending()),
        }
    }

    /// Working: the code is improved where no build has failed since the last
    /// success, and repaired where one has.
    pub open spec fn rework(self, factsheet: FactSheetView) -> BackendStep {
        if self.bug_count == 0 {
            self.ask_model(factsheet, self.improved_task(factsheet))
        } else {
            self.ask_model(factsheet, self.fixed_task(factsheet))
        }
    }

    /// Testing: generated code is built only once a person has approved.
    pub open spec fn test(self, factsheet: FactSheetView) -> BackendStep {
        self.ask(
            factsheet,
            BackendStageView::Approval,
            confirm_request(self.attributes.position),
        )
    }

    /// The code has arrived: it becomes the backend code of the document and
    /// is written to its place.
    pub open spec fn store_code(self, factsheet: FactSheetView, code: Seq<char>) -> BackendStep {
        self.ask(
            FactSheetView { backend_code: Some(code), ..factsheet },
            BackendStageView::Saving(code),
            save_request(code),
        )
    }

    /// The code has been written: after discovery the agent works on it,
    /// after working it tests it.
    pub open spec fn saved(self, factsheet: FactSheetView) -> BackendStep {
        if self.attributes.state == AgentState::Discovery {
            self.in_state(AgentState::Working).rework(factsheet)
        } else {
            self.in_state(AgentState::UnitTesting).test(factsheet)
        }
    }

    /// The build has ended. A success resets the count of failures and
    /// finishes the agent. A failure is counted and its diagnostics are kept:
    /// within the repair budget the agent goes back to work, beyond it the
    /// run ends.
    pub open spec fn built(self, factsheet: FactSheetView, report: BuildReportView)
        -> BackendStep {
        if report.success {
            BackendStep {
                agent: BackendView { bug_count: 0, ..self }.in_state(AgentState::Finished).at(
                    BackendStageView::Idle,
                ),
                factsheet,
                outcome: Ok(None),
            }
        } else {
            let counted = BackendView {
                bug_count: self.bug_count + 1,
                bug_errors: Some(report.diagnostics),
                ..self
            };
            if counted.bug_count > REPAIR_BUDGET {
                counted.halt(factsheet, AgentError::RepairBudgetExceeded)
            } else {
                counted.in_state(AgentState::Working).rework(factsheet)
            }
        }
    }

    /// What the agent asks for when it is handed nothing: the request that it
    /// waits on, or the first request of its state.
    pub open spec fn issue(self, factsheet: FactSheetView) -> BackendStep {
        match self.stage {
            BackendStageView::Idle => match self.attributes.state {
                AgentState::Discovery => self.ask(
                    factsheet,
                    BackendStageView::Template,
                    template_request(),
                ),
                AgentState::Working => self.rework(factsheet),
                AgentState::UnitTesting => self.test(factsheet),
                AgentState::Finished => BackendStep { agent: self, factsheet, outcome: Ok(None) },
            },
            BackendStageView::Template => self.ask(factsheet, self.stage, template_request()),
            BackendStageView::Code(task) => self.ask_model(factsheet, task),
            BackendStageView::Saving(code) => self.ask(factsheet, self.stage, save_request(code)),
            BackendStageView::Approval => self.test(factsheet),
            BackendStageView::Building => self.ask(
                factsheet,
                self.stage,
                build_request(self.attributes.position),
            ),
            BackendStageView::Halted(error) => BackendStep {
                agent: self,
                factsheet,
                outcome: Err(error),
            },
        }
    }

    /// What the agent does with a response.
    pub open spec fn absorb(self, factsheet: FactSheetView, response: ResponseView)
        -> BackendStep {
        match self.stage {
            BackendStageView::Idle => self.halt(factsheet, AgentError::UnexpectedResponse),
            BackendStageView::Template => match response {
                ResponseView::Template(template) => self.ask_model(
                    factsheet,
                    self.initial_task(template, factsheet),
                ),
                _ => self.halt(factsheet, AgentError::UnexpectedResponse),
            },
            BackendStageView::Code(task) => {
                let task = task.accept(response);
                match task.phase {
                    PhaseView::Done(AnswerView::Text(code)) => self.store_code(factsheet, code),
                    PhaseView::Done(_) => self.halt(factsheet, AgentError::UnexpectedResponse),
                    PhaseView::Failed(error) => self.halt(factsheet, error),
                    _ => self.ask_model(factsheet, task),
                }
            },
            BackendStageView::Saving(_) => match response {
                ResponseView::Saved => self.saved(factsheet),
                _ => self.halt(factsheet, AgentError::UnexpectedResponse),
            },
            BackendStageView::Approval => match response {
                ResponseView::Approval(approved) => if approved {
                    self.ask(
                        factsheet,
                        BackendStageView::Building,
                        build_request(self.attributes.position),
                    )
                } else {
                    self.halt(factsheet, AgentError::SafetyAbort)
                },
                _ => self.halt(factsheet, AgentError::UnexpectedResponse),
            },
            BackendStageView::Building => match response {
                ResponseView::Build(report) => self.built(factsheet, report),
                _ => self.halt(factsheet, AgentError::UnexpectedResponse),
            },
            BackendStageView::Halted(error) => BackendStep {
                agent: self,
                factsheet,
                outcome: Err(error),
            },
        }
    }

    /// The fatal error that has ended the work of the agent, if any.
    pub open spec fn failure(self) -> Option<AgentError> {
        match self.stage {
            BackendStageView::Halted(error) => Some(error),
            _ => None,
        }
    }

    /// A bound on the responses that the agent takes after the build that is
    /// to come has failed: one round of work for each failure that the repair
    /// budget still covers.
    pub open spec fn repairs_left(self) -> nat {
        if self.bug_count <= REPAIR_BUDGET {
            ((REPAIR_BUDGET - self.bug_count) * 6) as nat
        } else {
            0
        }
    }

    /// A bound on the responses that the agent still takes: what is left of
    /// the round at hand, the round of work that follows discovery, and the
    /// repairs that the budget still covers.
    pub open spec fn responses_left(self) -> nat {
        let discovering: nat = if self.attributes.state == AgentState::Discovery {
            6
        } else {
            0
        };
        match self.stage {
            BackendStageView::Idle => 8 + discovering + self.repairs_left(),
            BackendStageView::Template => 7 + discovering + self.repairs_left(),
            BackendStageView::Code(task) => task.rank() + 3 + discovering + self.repairs_left(),
            BackendStageView::Saving(_) => 3 + discovering + self.repairs_left(),
            BackendStageView::Approval => 2 + self.repairs_left(),
            BackendStageView::Building => 1 + self.repairs_left(),
            BackendStageView::Halted(_) => 0,
        }
    }

    /// The bound on the work that is left.
    pub open spec fn rank(self) -> (nat, nat) {
        (0, self.responses_left())
    }

    /// One call of `execute`. A finished agent does nothing and a halted
    /// agent repeats its error; any other agent takes the response, if there
    /// is one, and says what it needs next.
    pub open spec fn execute(self, factsheet: FactSheetView, response: Option<ResponseView>)
        -> BackendStep {
        if self.attributes.state == AgentState::Finished {
            BackendStep { agent: self, factsheet, outcome: Ok(None) }
        } else if let BackendStageView::Halted(error) = self.stage {
            BackendStep { agent: self, factsheet, outcome: Err(error) }
        } else {
            match response {
                Some(response) => self.absorb(factsheet, response),
                None => self.issue(factsheet),
            }
        }
    }
}

impl BackendStep {
    /// The call of `execute` that follows this one, with `response` handed
    /// in.
    #[verifier::opaque]
    pub open spec fn given(self, response: ResponseView) -> BackendStep {
        self.agent.execute(self.factsheet, Some(response))
    }
}

impl View for AgentBackendDeveloper {
    type V = BackendView;

    closed spec fn view(&self) -> BackendView {
        BackendView {
            attributes: self.attributes@,
            bug_errors: optional_text_view(self.bug_errors),
            bug_count: self.bug_count as nat,
            stage: self.stage@,
        }
    }
}

impl AgentBackendDeveloper {
    #[verifier::type_invariant]
    spec fn well_formed(self) -> bool {
        self@.wf()
    }

    /// The backend developer before its first step: it discovers, no build
    /// has failed, and it waits for nothing.
    pub fn new() -> (agent: Self)
        ensures
            agent@ == (BackendView {
                attributes: BasicAgentView {
                    objective: "Develops the backend code for the web sever and json database"@,
                    position: "Backend Developer"@,
                    state: AgentState::Discovery,
                    memory: Seq::empty(),
                },
                bug_errors: None,
                bug_count: 0,
                stage: BackendStageView::Idle,
            }),
    {
        let attributes = BasicAgent::new(
            String::from_str("Develops the backend code for the web sever and json database"),
            String::from_str("Backend Developer"),
        );
        AgentBackendDeveloper { attributes, bug_errors: None, bug_count: 0, stage: Stage::Idle }
    }

    /// How many builds have failed in a row.
    pub fn get_bug_count(&self) -> (bug_count: u8)
        ensures
            bug_count == self@.bug_count,
    {
        self.bug_count
    }

    /// What the compiler said of the build that failed last.
    pub fn get_bug_errors(&self) -> (bug_errors: &Option<String>)
        ensures
            optional_text_view(*bug_errors) == self@.bug_errors,
    {
        &self.bug_errors
    }

    /// Ends the work of the agent with a fatal error.
    fn halt(&mut self, error: AgentError) -> (outcome: Result<Option<Request>, AgentError>)
        ensures
            final(self)@ == old(self)@.at(BackendStageView::Halted(error)),
            outcome == Err::<Option<Request>, AgentError>(error),
    {
        self.stage = Stage::Halted(error);
        Err(error)
    }

    /// Opens `task` and waits for the code that it brings.
    fn ask_model(&mut self, task: TaskRequest) -> (outcome: Result<Option<Request>, AgentError>)
        requires
            task@.is_open(),
            old(self)@.attributes.state == AgentState::Discovery || old(self)@.attributes.state
                == AgentState::Working,
            old(self)@.bug_count <= REPAIR_BUDGET,
        ensures
            final(self)@ == old(self)@.at(BackendStageView::Code(task@)),
            outcome_view(outcome) == Ok::<Option<RequestView>, AgentError>(task@.pending()),
    {
        let request = task.pending();
        self.stage = Stage::Code(task);
        Ok(request)
    }

    /// Asks for the first version of the backend code, written from the code
    /// template and the project description.
    fn call_initial_backend_code(&mut self, factsheet: &FactSheet, template: String) -> (outcome:
        Result<Option<Request>, AgentError>)
        requires
            old(self)@.attributes.state == AgentState::Discovery,
            old(self)@.bug_count <= REPAIR_BUDGET,
        ensures
            (BackendStep {
                agent: final(self)@,
                factsheet: factsheet@,
                outcome: outcome_view(outcome),
            }) == old(self)@.ask_model(factsheet@, old(self)@.initial_task(template@, factsheet@)),
    {
        let msg_context = initial_code_context(
            template.as_str(),
            factsheet.project_description.as_str(),
        );
        let task = ai_task_request(
            msg_context,
            self.attributes.position.as_str(),
            AiFunction::PrintBackendWebserverCode.name(),
            AiFunction::PrintBackendWebserverCode,
        );
        self.ask_model(task)
    }

    /// Asks for an improved version of the backend code, in the light of the
    /// whole project document.
    fn call_improved_backend_code(&mut self, factsheet: &FactSheet) -> (outcome: Result<
        Option<Request>,
        AgentError,
    >)
        requires
            old(self)@.attributes.state == AgentState::Working,
            old(self)@.bug_count <= REPAIR_BUDGET,
        ensures
            (BackendStep {
                agent: final(self)@,
                factsheet: factsheet@,
                outcome: outcome_view(outcome),
            }) == old(self)@.ask_model(factsheet@, old(self)@.improved_task(factsheet@)),
    {
        let msg_context = improved_code_context(
            show_optional_text(&factsheet.backend_code).as_str(),
            show_factsheet(factsheet).as_str(),
        );
        let task = ai_task_request(
            msg_context,
            self.attributes.position.as_str(),
            AiFunction::PrintImprovedWebserverCode.name(),
            AiFunction::PrintImprovedWebserverCode,
        );
        self.ask_model(task)
    }

    /// Asks for a repaired version of the backend code, in the light of what
    /// the compiler said of the build that failed last.
    fn call_fixed_code_bugs(&mut self, factsheet: &FactSheet) -> (outcome: Result<
        Option<Request>,
        AgentError,
    >)
        requires
            old(self)@.attributes.state == AgentState::Working,
            old(self)@.bug_count <= REPAIR_BUDGET,
        ensures
            (BackendStep {
                agent: final(self)@,
                factsheet: factsheet@,
                outcome: outcome_view(outcome),
            }) == old(self)@.ask_model(factsheet@, old(self)@.fixed_task(factsheet@)),
    {
        let msg_context = fixed_code_context(
            show_optional_text(&factsheet.backend_code).as_str(),
            show_optional_text(&self.bug_errors).as_str(),
        );
        let task = ai_task_request(
            msg_context,
            self.attributes.position.as_str(),
            AiFunction::PrintFixedCode.name(),
            AiFunction::PrintFixedCode,
        );
        self.ask_model(task)
    }

    /// Opens the request for the endpoints that `backend_code` serves, to be
    /// decoded as a list of endpoints. The operation stands beside the state
    /// machine: it leaves the agent as it is.
    pub fn call_extract_rest_api_endpoints(&self, backend_code: &str) -> (task: TaskRequest)
        ensures
            task@ == self@.endpoints_task(backend_code@),
    {
        ai_task_request_decoded(
            rest_api_endpoints_context(backend_code),
            self.attributes.position.as_str(),
            AiFunction::PrintRestApiEndpoints.name(),
            AiFunction::PrintRestApiEndpoints,
            Decoding::Routes,
        )
    }

    /// Has the code improved, or repaired where a build has failed.
    fn rework(&mut self, factsheet: &FactSheet) -> (outcome: Result<Option<Request>, AgentError>)
        requires
            old(self)@.attributes.state == AgentState::Working,
            old(self)@.bug_count <= REPAIR_BUDGET,
        ensures
            (BackendStep {
                agent: final(self)@,
                factsheet: factsheet@,
                outcome: outcome_view(outcome),
            }) == old(self)@.rework(factsheet@),
    {
        if self.bug_count == 0 {
            self.call_improved_backend_code(factsheet)
        } else {
            self.call_fixed_code_bugs(factsheet)
        }
    }

    /// Asks a person whether the code may be built.
    fn test(&mut self) -> (outcome: Result<Option<Request>, AgentError>)
        requires
            old(self)@.attributes.state == AgentState::UnitTesting,
            old(self)@.bug_count <= REPAIR_BUDGET,
        ensures
            final(self)@ == old(self)@.at(BackendStageView::Approval),
            outcome_view(outcome) == Ok::<Option<RequestView>, AgentError>(
                Some(confirm_request(old(self)@.attributes.position)),
            ),
    {
        let notice = PrintCommand::UnitTest.print_agent_message(
            self.attributes.position.as_str(),
            "Backend code unit testing: Requesting user input",
        );
        self.stage = Stage::Approval;
        Ok(Some(Request { notice: Some(notice), work: Work::Confirm }))
    }

    /// Asks for the build of the generated project.
    fn build(&mut self) -> (outcome: Result<Option<Request>, AgentError>)
        requires
            old(self)@.attributes.state == AgentState::UnitTesting,
            old(self)@.bug_count <= REPAIR_BUDGET,
        ensures
            final(self)@ == old(self)@.at(BackendStageView::Building),
            outcome_view(outcome) == Ok::<Option<RequestView>, AgentError>(
                Some(build_request(old(self)@.attributes.position)),
            ),
    {
        let notice = PrintCommand::UnitTest.print_agent_message(
            self.attributes.position.as_str(),
            "Backend Code Unit Testing: building project...",
        );
        self.stage = Stage::Building;
        Ok(Some(Request { notice: Some(notice), work: Work::Build }))
    }

    /// Stores the code in the document and asks for it to be written.
    fn store_code(&mut self, factsheet: &mut FactSheet, code: String) -> (outcome: Result<
        Option<Request>,
        AgentError,
    >)
        requires
            old(self)@.attributes.state == AgentState::Discovery || old(self)@.attributes.state
                == AgentState::Working,
            old(self)@.bug_count <= REPAIR_BUDGET,
        ensures
            (BackendStep {
                agent: final(self)@,
                factsheet: final(factsheet)@,
                outcome: outcome_view(outcome),
            }) == old(self)@.store_code(old(factsheet)@, code@),
    {
        factsheet.backend_code = Some(code.clone());
        self.stage = Stage::Saving(code.clone());
        Ok(Some(Request { notice: None, work: Work::SaveCode(code) }))
    }

    /// Goes on once the code has been written.
    fn saved(&mut self, factsheet: &FactSheet) -> (outcome: Result<Option<Request>, AgentError>)
        requires
            old(self)@.stage is Idle,
            old(self)@.bug_count <= REPAIR_BUDGET,
        ensures
            (BackendStep {
                agent: final(self)@,
                factsheet: factsheet@,
                outcome: outcome_view(outcome),
            }) == old(self)@.saved(factsheet@),
    {
        if self.attributes.state == AgentState::Discovery {
            self.attributes.state = AgentState::Working;
            self.rework(factsheet)
        } else {
            self.attributes.state = AgentState::UnitTesting;
            self.test()
        }
    }

    /// Takes the report of a build.
    fn built(&mut self, factsheet: &FactSheet, report: BuildReport) -> (outcome: Result<
        Option<Request>,
        AgentError,
    >)
        requires
            old(self)@.stage is Idle,
            old(self)@.bug_count <= REPAIR_BUDGET,
        ensures
            (BackendStep {
                agent: final(self)@,
                factsheet: factsheet@,
                outcome: outcome_view(outcome),
            }) == old(self)@.built(factsheet@, report@),
    {
        if report.success {
            self.bug_count = 0;
            self.attributes.state = AgentState::Finished;
            Ok(None)
        } else if self.bug_count >= REPAIR_BUDGET {
            self.stage = Stage::Halted(AgentError::RepairBudgetExceeded);
            self.bug_count = self.bug_count + 1;
            self.bug_errors = Some(report.diagnostics);
            Err(AgentError::RepairBudgetExceeded)
        } else {
            self.bug_count = self.bug_count + 1;
            self.bug_errors = Some(report.diagnostics);
            self.attributes.state = AgentState::Working;
            self.rework(factsheet)
        }
    }

    /// Says what the agent needs when it has been handed nothing.
    fn issue(&mut self, factsheet: &FactSheet) -> (outcome: Result<Option<Request>, AgentError>)
        requires
            old(self)@.wf(),
            !(old(self)@.stage is Halted),
        ensures
            (BackendStep {
                agent: final(self)@,
                factsheet: factsheet@,
                outcome: outcome_view(outcome),
            }) == old(self)@.issue(factsheet@),
    {
        let mut stage = Stage::Idle;
        core::mem::swap(&mut self.stage, &mut stage);
        match stage {
            Stage::Idle => match self.attributes.state {
                AgentState::Discovery => {
                    self.stage = Stage::Template;
                    Ok(Some(Request { notice: None, work: Work::ReadTemplate }))
                },
                AgentState::Working => self.rework(factsheet),
                AgentState::UnitTesting => self.test(),
                AgentState::Finished => Ok(None),
            },
            Stage::Template => {
                self.stage = Stage::Template;
                Ok(Some(Request { notice: None, work: Work::ReadTemplate }))
            },
            Stage::Code(task) => self.ask_model(task),
            Stage::Saving(code) => {
                let request = Request { notice: None, work: Work::SaveCode(code.clone()) };
                self.stage = Stage::Saving(code);
                Ok(Some(request))
            },
            Stage::Approval => self.test(),
            Stage::Building => self.build(),
            Stage::Halted(error) => {
                self.stage = Stage::Halted(error);
                Err(error)
            },
        }
    }

    /// Takes a response of the driver.
    fn absorb(&mut self, factsheet: &mut FactSheet, response: Response) -> (outcome: Result<
        Option<Request>,
        AgentError,
    >)
        requires
            old(self)@.wf(),
            !(old(self)@.stage is Halted),
        ensures
            (BackendStep {
                agent: final(self)@,
                factsheet: final(factsheet)@,
                outcome: outcome_view(outcome),
            }) == old(self)@.absorb(old(factsheet)@, response@),
    {
        let mut stage = Stage::Idle;
        core::mem::swap(&mut self.stage, &mut stage);
        match stage {
            Stage::Idle => self.halt(AgentError::UnexpectedResponse),
            Stage::Template => match response {
                Response::Template(template) => self.call_initial_backend_code(
                    factsheet,
                    template,
                ),
                _ => self.halt(AgentError::UnexpectedResponse),
            },
            Stage::Code(task) => {
                let mut task = task;
                task.accept(response);
                match task.progress() {
                    Progress::Open(task) => self.ask_model(task),
                    Progress::Answered(Answer::Text(code)) => self.store_code(factsheet, code),
                    Progress::Answered(_) => self.halt(AgentError::UnexpectedResponse),
                    Progress::Failed(error) => self.halt(error),
                }
            },
            Stage::Saving(_) => match response {
                Response::Saved => self.saved(factsheet),
                _ => self.halt(AgentError::UnexpectedResponse),
            },
            Stage::Approval => match response {
                Response::Approval(approved) => {
                    if approved {
                        self.build()
                    } else {
                        self.halt(AgentError::SafetyAbort)
                    }
                },
                _ => self.halt(AgentError::UnexpectedResponse),
            },
            Stage::Building => match response {
                Response::Build(report) => self.built(factsheet, report),
                _ => self.halt(AgentError::UnexpectedResponse),
            },
            Stage::Halted(error) => {
                self.stage = Stage::Halted(error);
                Err(error)
            },
        }
    }
}

impl SpecialFunctions for AgentBackendDeveloper {
    open spec fn attributes(&self) -> BasicAgentView {
        self@.attributes
    }

    open spec fn failure(&self) -> Option<AgentError> {
        self@.failure()
    }

    open spec fn rank(&self, factsheet: FactSheetView) -> (nat, nat) {
        self@.rank()
    }

    open spec fn step(&self, factsheet: FactSheetView, response: Option<ResponseView>) -> StepView {
        let step = self@.execute(factsheet, response);
        StepView {
            attributes: step.agent.attributes,
            factsheet: step.factsheet,
            outcome: step.outcome,
        }
    }

    fn get_attributes_from_agent(&self) -> (attributes: &BasicAgent) {
        &self.attributes
    }

    /// Runs the backend developer up to its next request.
    ///
    /// While it discovers, the agent reads the code template and has the
    /// first version of the code written. While it works, it has the code
    /// improved, or repaired where the build before failed. While it tests,
    /// it asks a person for approval and has the code built: a refusal ends
    /// the run, a build that succeeds finishes the agent, and a build that
    /// fails sends the agent back to work unless the repair budget is used
    /// up, which ends the run. Code that arrives is stored in the document
    /// and written to its place before the agent goes on.
    fn execute(&mut self, factsheet: &mut FactSheet, response: Option<Response>) -> (outcome:
        Result<Option<Request>, AgentError>)
        ensures
            final(self)@ == old(self)@.execute(
                old(factsheet)@,
                optional_response_view(response),
            ).agent,
    {
        proof {
            use_type_invariant(&*self);
            if response is Some && self@.attributes.state != AgentState::Finished
                && self@.failure() is None {
                lemma_backend_makes_progress(self@, factsheet@, response->0@);
            }
        }
        if self.attributes.state == AgentState::Finished {
            return Ok(None);
        }
        match &self.stage {
            Stage::Halted(error) => {
                return Err(*error);
            },
            _ => {},
        }
        match response {
            Some(response) => self.absorb(factsheet, response),
            None => self.issue(factsheet),
        }
    }
}

/// A call of `execute` keeps the backend developer well formed: the count of
/// failed builds stays within the repair budget for as long as the agent has
/// not been halted.
pub proof fn lemma_backend_stays_well_formed(
    agent: BackendView,
    factsheet: FactSheetView,
    response: Option<ResponseView>,
)
    requires
        agent.wf(),
    ensures
        agent.execute(factsheet, response).agent.wf(),
{
}

/// Every response brings the backend developer closer to its end: the agent
/// has finished or has been halted, or it takes fewer responses than before.
/// The repair budget is what bounds the way back from testing to work.
pub proof fn lemma_backend_makes_progress(
    agent: BackendView,
    factsheet: FactSheetView,
    response: ResponseView,
)
    requires
        agent.wf(),
        agent.attributes.state != AgentState::Finished,
        agent.failure() is None,
    ensures
        ({
            let step = agent.execute(factsheet, Some(response));
            ||| step.agent.attributes.state == AgentState::Finished
            ||| step.agent.failure() is Some
            ||| step.agent.responses_left() < agent.responses_left()
        }),
{
    match agent.stage {
        BackendStageView::Code(task) => {
            lemma_request_makes_progress(task, response);
        },
        _ => {},
    }
}

/// A halted agent asks for nothing more: whatever it is handed, it repeats
/// its error and changes nothing.
pub proof fn lemma_halted_backend_is_final(
    agent: BackendView,
    factsheet: FactSheetView,
    response: Option<ResponseView>,
)
    requires
        agent.stage is Halted,
        agent.attributes.state != AgentState::Finished,
    ensures
        agent.execute(factsheet, response) == (BackendStep {
            agent,
            factsheet,
            outcome: Err(agent.stage->Halted_0),
        }),
{
}

/// A build that fails is counted, and what the compiler said is kept. Within
/// the repair budget the agent goes back to work and asks the model to repair
/// the code in the light of these diagnostics. Beyond the budget the run
/// ends.
pub proof fn lemma_failed_build(
    agent: BackendView,
    factsheet: FactSheetView,
    diagnostics: Seq<char>,
)
    requires
        agent.wf(),
        agent.stage is Building,
    ensures
        ({
            let report = BuildReportView { success: false, diagnostics };
            let step = agent.execute(factsheet, Some(ResponseView::Build(report)));
            let counted = BackendView {
                bug_count: agent.bug_count + 1,
                bug_errors: Some(diagnostics),
                ..agent
            };
            &&& step.factsheet == factsheet
            &&& step.agent.bug_count == agent.bug_count + 1
            &&& step.agent.bug_errors == Some(diagnostics)
            &&& agent.bug_count == REPAIR_BUDGET ==> {
                &&& step.outcome == Err::<Option<RequestView>, AgentError>(
                    AgentError::RepairBudgetExceeded,
                )
                &&& step.agent.stage == BackendStageView::Halted(AgentError::RepairBudgetExceeded)
            }
            &&& agent.bug_count < REPAIR_BUDGET ==> {
                &&& step.outcome == Ok::<Option<RequestView>, AgentError>(
                    counted.fixed_task(factsheet).pending(),
                )
                &&& step.agent.attributes.state == AgentState::Working
                &&& step.agent.stage == BackendStageView::Code(counted.fixed_task(factsheet))
            }
        }),
{
}

/// A build that succeeds resets the count of failed builds and finishes the
/// agent.
pub proof fn lemma_passed_build(agent: BackendView, factsheet: FactSheetView, diagnostics: Seq<char>)
    requires
        agent.wf(),
        agent.stage is Building,
    ensures
        ({
            let report = BuildReportView { success: true, diagnostics };
            let step = agent.execute(factsheet, Some(ResponseView::Build(report)));
            &&& step.outcome == Ok::<Option<RequestView>, AgentError>(None)
            &&& step.agent.bug_count == 0
            &&& step.agent.attributes.state == AgentState::Finished
            &&& step.factsheet == factsheet
        }),
{
}

/// What `given` stands for.
proof fn lemma_given(step: BackendStep, response: ResponseView)
    ensures
        step.given(response) == step.agent.execute(step.factsheet, Some(response)),
{
    reveal(BackendStep::given);
}

/// One round of repair: the repaired code arrives, is written to its place
/// and approved. The agent then waits for the build of this code, and has
/// counted no build in the meantime.
proof fn lemma_repair_round(step: BackendStep, repaired: Seq<char>)
    requires
        step.agent.wf(),
        step.agent.attributes.state == AgentState::Working,
        step.agent.stage matches BackendStageView::Code(task) && task.phase is Calling
            && task.decoding == Decoding::Text,
    ensures
        ({
            let round = step.given(ResponseView::Completion(Some(repaired))).given(
                ResponseView::Saved,
            ).given(ResponseView::Approval(true));
            &&& round.agent == BackendView {
                attributes: step.agent.attributes.in_state(AgentState::UnitTesting),
                stage: BackendStageView::Building,
                ..step.agent
            }
            &&& round.agent.wf()
            &&& round.factsheet == (FactSheetView {
                backend_code: Some(repaired),
                ..step.factsheet
            })
        }),
{
    reveal(BackendStep::given);
    let stored = step.given(ResponseView::Completion(Some(repaired)));
    assert(stored.agent.stage == BackendStageView::Saving(repaired));
    let saved = stored.given(ResponseView::Saved);
    assert(saved.agent.stage is Approval);
}

/// Three builds that fail in a row end the run at the third failure. The
/// count of failed builds goes from 1 to 2 to 3, the agent repairs the code
/// after the first and the second failure, and after the third it asks for
/// nothing more: there is no fourth build.
pub proof fn lemma_three_failed_builds_exhaust_the_budget(
    agent: BackendView,
    factsheet: FactSheetView,
    first: Seq<char>,
    second: Seq<char>,
    third: Seq<char>,
    repaired_once: Seq<char>,
    repaired_twice: Seq<char>,
    later: Option<ResponseView>,
)
    requires
        agent.wf(),
        agent.stage is Building,
        agent.bug_count == 0,
    ensures
        ({
            let failed_once = agent.execute(
                factsheet,
                Some(ResponseView::Build(BuildReportView { success: false, diagnostics: first })),
            );
            let failed_twice = failed_once.given(ResponseView::Completion(Some(repaired_once))).given(
                ResponseView::Saved,
            ).given(ResponseView::Approval(true)).given(
                ResponseView::Build(BuildReportView { success: false, diagnostics: second }),
            );
            let failed_thrice = failed_twice.given(
                ResponseView::Completion(Some(repaired_twice)),
            ).given(ResponseView::Saved).given(ResponseView::Approval(true)).given(
                ResponseView::Build(BuildReportView { success: false, diagnostics: third }),
            );
            &&& failed_once.agent.bug_count == 1
            &&& failed_once.agent.attributes.state == AgentState::Working
            &&& failed_twice.agent.bug_count == 2
            &&& failed_twice.agent.attributes.state == AgentState::Working
            &&& failed_twice.factsheet.backend_code == Some(repaired_once)
            &&& failed_thrice.agent.bug_count == 3
            &&& failed_thrice.agent.bug_errors == Some(third)
            &&& failed_thrice.outcome == Err::<Option<RequestView>, AgentError>(
                AgentError::RepairBudgetExceeded,
            )
            &&& failed_thrice.agent.execute(failed_thrice.factsheet, later).outcome == Err::<
                Option<RequestView>,
                AgentError,
            >(AgentError::RepairBudgetExceeded)
        }),
{
    let failed_once = agent.execute(
        factsheet,
        Some(ResponseView::Build(BuildReportView { success: false, diagnostics: first })),
    );
    lemma_failed_build(agent, factsheet, first);
    lemma_repair_round(failed_once, repaired_once);
    let built_again = failed_once.given(ResponseView::Completion(Some(repaired_once))).given(
        ResponseView::Saved,
    ).given(ResponseView::Approval(true));
    lemma_failed_build(built_again.agent, built_again.factsheet, second);
    lemma_given(
        built_again,
        ResponseView::Build(BuildReportView { success: false, diagnostics: second }),
    );
    let failed_twice = built_again.given(
        ResponseView::Build(BuildReportView { success: false, diagnostics: second }),
    );
    lemma_repair_round(failed_twice, repaired_twice);
    let built_last = failed_twice.given(ResponseView::Completion(Some(repaired_twice))).given(
        ResponseView::Saved,
    ).given(ResponseView::Approval(true));
    lemma_failed_build(built_last.agent, built_last.factsheet, third);
    lemma_given(
        built_last,
        ResponseView::Build(BuildReportView { success: false, diagnostics: third }),
    );
    let failed_thrice = built_last.given(
        ResponseView::Build(BuildReportView { success: false, diagnostics: third }),
    );
    lemma_halted_backend_is_final(failed_thrice.agent, failed_thrice.factsheet, later);
}

/// One build that fails and one that succeeds after the repair reset the
/// count of failed builds to 0 and finish the agent.
pub proof fn lemma_repaired_build_finishes(
    agent: BackendView,
    factsheet: FactSheetView,
    diagnostics: Seq<char>,
    repaired: Seq<char>,
    report: Seq<char>,
)
    requires
        agent.wf(),
        agent.stage is Building,
        agent.bug_count == 0,
    ensures
        ({
            let failed = agent.execute(
                factsheet,
                Some(ResponseView::Build(BuildReportView { success: false, diagnostics })),
            );
            let passed = failed.given(ResponseView::Completion(Some(repaired))).given(
                ResponseView::Saved,
            ).given(ResponseView::Approval(true)).given(
                ResponseView::Build(BuildReportView { success: true, diagnostics: report }),
            );
            &&& failed.agent.bug_count == 1
            &&& failed.agent.bug_errors == Some(diagnostics)
            &&& passed.agent.bug_count == 0
            &&& passed.agent.attributes.state == AgentState::Finished
            &&& passed.outcome == Ok::<Option<RequestView>, AgentError>(None)
            &&& passed.factsheet.backend_code == Some(repaired)
        }),
{
    let failed = agent.execute(
        factsheet,
        Some(ResponseView::Build(BuildReportView { success: false, diagnostics })),
    );
    lemma_failed_build(agent, factsheet, diagnostics);
    lemma_repair_round(failed, repaired);
    let built_again = failed.given(ResponseView::Completion(Some(repaired))).given(
        ResponseView::Saved,
    ).given(ResponseView::Approval(true));
    lemma_passed_build(built_again.agent, built_again.factsheet, report);
    lemma_given(
        built_again,
        ResponseView::Build(BuildReportView { success: true, diagnostics: report }),
    );
}

/// Generated code is built only on approval: the agent asks for a build
/// either in answer to an approval, or again while the build that it asked
/// for is under way. A refusal ends the run.
pub proof fn lemma_no_build_without_approval(
    agent: BackendView,
    factsheet: FactSheetView,
    response: Option<ResponseView>,
)
    requires
        agent.wf(),
    ensures
        ({
            let step = agent.execute(factsheet, response);
            &&& (step.outcome matches Ok(Some(request)) && request.work is Build) ==> {
                ||| agent.stage is Approval && response == Some(ResponseView::Approval(true))
                ||| agent.stage is Building && response is None
            }
            &&& step.agent.stage is Building ==> {
                ||| agent.stage is Approval && response == Some(ResponseView::Approval(true))
                ||| agent.stage is Building && response is None
            }
            &&& agent.stage is Approval && agent.attributes.state != AgentState::Finished
                && response == Some(ResponseView::Approval(false)) ==> {
                &&& step.outcome == Err::<Option<RequestView>, AgentError>(AgentError::SafetyAbort)
                &&& step.agent.stage == BackendStageView::Halted(AgentError::SafetyAbort)
            }
        }),
{
}

/// The endpoints are asked for once and decoded once. The request carries
/// the source after its label; the answer of the model goes out to be decoded
/// as a list of endpoints; the decoded list, in the order in which the driver
/// hands it in, is the answer together with the text that held it; and text
/// that holds no list fails the request. Storing the answer sets the endpoint
/// schema and leaves the backend code as it is.
pub proof fn lemma_endpoints_are_decoded_once(
    agent: BackendView,
    factsheet: FactSheetView,
    backend_code: Seq<char>,
    text: Seq<char>,
    routes: Seq<crate::agent_traits::RouteObjectView>,
)
    ensures
        ({
            let task = agent.endpoints_task(backend_code);
            let answered = task.accept(ResponseView::Completion(Some(text)));
            &&& task.message.content == crate::generals::extended_prompt(
                AiFunction::PrintRestApiEndpoints.description_spec(),
                "CODE_INPUT: "@ + backend_code,
            )
            &&& answered.pending() == Some(
                RequestView { notice: None, work: WorkView::DecodeRoutes(text) },
            )
            &&& answered.accept(ResponseView::Routes(Some(routes))).phase == PhaseView::Done(
                AnswerView::Routes(text, routes),
            )
            &&& answered.accept(ResponseView::Routes(None)).phase == PhaseView::Failed(
                AgentError::Decode,
            )
            &&& answered.accept(ResponseView::Routes(None)).pending() is None
            &&& with_api_endpoints(factsheet, text).backend_code == factsheet.backend_code
            &&& with_api_endpoints(factsheet, text).api_endpoint_schema == Some(text)
        }),
{
}

/// The backend developer writes the backend code of the document and nothing
/// else.
pub proof fn lemma_backend_keeps_to_its_fields(
    agent: BackendView,
    factsheet: FactSheetView,
    response: Option<ResponseView>,
)
    ensures
        ({
            let after = agent.execute(factsheet, response).factsheet;
            after == (FactSheetView { backend_code: after.backend_code, ..factsheet })
        }),
{
}

} // verus!
