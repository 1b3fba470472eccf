//! The project document that the agents share, the requests that an agent
//! hands to its driver, and the contract that every role agent keeps.

use vstd::prelude::*;
use crate::basic_agent::{AgentState, BasicAgent, BasicAgentView};
use crate::command_line::{Notice, NoticeView};
use crate::llm::{conversation_view, Message, MessageView};

verus! {

/// What a project needs, as the architect derives it from the description.
#[derive(Clone, Copy, Debug, PartialEq, Eq, Structural)]
pub struct ProjectScope {
    pub is_crud_required: bool,
    pub is_user_login_and_logout: bool,
    pub is_external_urls_required: bool,
}

/// One endpoint that the generated backend serves.
#[derive(Clone, Debug, PartialEq, Eq)]
pub struct RouteObject {
    /// Whether the path holds a parameter, as the model says it: `true` or
    /// `false`.
    pub is_route_dynamic: String,
    /// The HTTP method.
    pub method: String,
    /// The body of a request, as JSON text.
    pub request_body: String,
    /// The body of the response, as JSON text.
    pub response: String,
    /// The path of the endpoint.
    pub path: String,
}

/// An endpoint as a mathematical record.
pub struct RouteObjectView {
    pub is_route_dynamic: Seq<char>,
    pub method: Seq<char>,
    pub request_body: Seq<char>,
    pub response: Seq<char>,
    pub path: Seq<char>,
}

impl View for RouteObject {
    type V = RouteObjectView;

    open spec fn view(&self) -> RouteObjectView {
        RouteObjectView {
            is_route_dynamic: self.is_route_dynamic@,
            method: self.method@,
            request_body: self.request_body@,
            response: self.response@,
            path: self.path@,
        }
    }
}

/// A list of endpoints as a sequence of mathematical records, in its order.
pub open spec fn routes_view(routes: Seq<RouteObject>) -> Seq<RouteObjectView> {
    routes.map_values(|route: RouteObject| route@)
}

/// An optional list of endpoints as an optional sequence of mathematical
/// records.
pub open spec fn optional_routes_view(routes: Option<Vec<RouteObject>>) -> Option<
    Seq<RouteObjectView>,
> {
    match routes {
        Some(routes) => Some(routes_view(routes@)),
        None => None,
    }
}

/// The project document: everything the pipeline has found out so far.
///
/// One document exists per run. The managing agent owns it and lends it to
/// the agent that is running.
#[derive(Debug, PartialEq, Eq)]
pub struct FactSheet {
    /// The goal of the project.
    pub project_description: String,
    /// What the project needs. Set before any external URL is asked for.
    pub project_scope: Option<ProjectScope>,
    /// The external endpoints to fetch from. After discovery the list only
    /// shrinks.
    pub external_urls: Option<Vec<String>>,
    /// The generated backend source.
    pub backend_code: Option<String>,
    /// The endpoints that the generated backend serves.
    pub api_endpoint_schema: Option<String>,
}

/// The project document as a mathematical record.
pub struct FactSheetView {
    pub project_description: Seq<char>,
    pub project_scope: Option<ProjectScope>,
    pub external_urls: Option<Seq<Seq<char>>>,
    pub backend_code: Option<Seq<char>>,
    pub api_endpoint_schema: Option<Seq<char>>,
}

/// A list of texts as a sequence of character sequences.
pub open spec fn texts_view(texts: Seq<String>) -> Seq<Seq<char>> {
    texts.map_values(|text: String| text@)
}

/// An optional text as an optional character sequence.
pub open spec fn optional_text_view(text: Option<String>) -> Option<Seq<char>> {
    match text {
        Some(text) => Some(text@),
        None => None,
    }
}

/// An optional list of texts as an optional sequence of character sequences.
pub open spec fn optional_texts_view(texts: Option<Vec<String>>) -> Option<Seq<Seq<char>>> {
    match texts {
        Some(texts) => Some(texts_view(texts@)),
        None => None,
    }
}

impl View for FactSheet {
    type V = FactSheetView;

    open spec fn view(&self) -> FactSheetView {
        FactSheetView {
            project_description: self.project_description@,
            project_scope: self.project_scope,
            external_urls: optional_texts_view(self.external_urls),
            backend_code: optional_text_view(self.backend_code),
            api_endpoint_schema: optional_text_view(self.api_endpoint_schema),
        }
    }
}

/// Why a pipeline run ended without success. Every error is fatal.
#[derive(Clone, Copy, Debug, PartialEq, Eq, Structural)]
pub enum AgentError {
    /// The language model could not be reached, twice in a row.
    Transport,
    /// The language model answered with text of another structure than the
    /// one asked for.
    Decode,
    /// The person asked declined to have generated code built.
    SafetyAbort,
    /// Generated code failed to build more often than the repair budget
    /// allows.
    RepairBudgetExceeded,
    /// The driver answered a request that the agent had not made.
    UnexpectedResponse,
}

/// What an external build reported.
#[derive(Debug, PartialEq, Eq)]
pub struct BuildReport {
    /// Whether the build succeeded.
    pub success: bool,
    /// What the build tool printed about its errors.
    pub diagnostics: String,
}

/// A build report as a mathematical record.
pub struct BuildReportView {
    pub success: bool,
    pub diagnostics: Seq<char>,
}

impl View for BuildReport {
    type V = BuildReportView;

    open spec fn view(&self) -> BuildReportView {
        BuildReportView { success: self.success, diagnostics: self.diagnostics@ }
    }
}

/// Work that only the world outside the library can do.
#[derive(Debug, PartialEq, Eq)]
pub enum Work {
    /// Send the conversation to the language model and return its answer.
    Complete(Vec<Message>),
    /// Decode the text as a project scope.
    DecodeScope(String),
    /// Decode the text as a list of endpoints.
    DecodeRoutes(String),
    /// Read the code template.
    ReadTemplate,
    /// Write the generated backend source to its place.
    SaveCode(String),
    /// Write the endpoint schema to its place.
    SaveSchema(String),
    /// Probe the URL with a GET request that times out after 5 seconds.
    Probe(String),
    /// Ask a person whether generated code may be built.
    Confirm,
    /// Build the generated project.
    Build,
}

/// Outside work as a mathematical value.
pub enum WorkView {
    Complete(Seq<MessageView>),
    DecodeScope(Seq<char>),
    DecodeRoutes(Seq<char>),
    ReadTemplate,
    SaveCode(Seq<char>),
    SaveSchema(Seq<char>),
    Probe(Seq<char>),
    Confirm,
    Build,
}

impl View for Work {
    type V = WorkView;

    open spec fn view(&self) -> WorkView {
        match self {
            Work::Complete(messages) => WorkView::Complete(conversation_view(messages@)),
            Work::DecodeScope(text) => WorkView::DecodeScope(text@),
            Work::DecodeRoutes(text) => WorkView::DecodeRoutes(text@),
            Work::ReadTemplate => WorkView::ReadTemplate,
            Work::SaveCode(code) => WorkView::SaveCode(code@),
            Work::SaveSchema(schema) => WorkView::SaveSchema(schema@),
            Work::Probe(url) => WorkView::Probe(url@),
            Work::Confirm => WorkView::Confirm,
            Work::Build => WorkView::Build,
        }
    }
}

/// What an agent asks of its driver: to tell the diagnostic sink what is
/// about to happen, where there is something to tell, and then to do the
/// work.
#[derive(Debug, PartialEq, Eq)]
pub struct Request {
    pub notice: Option<Notice>,
    pub work: Work,
}

/// A request as a mathematical record.
pub struct RequestView {
    pub notice: Option<NoticeView>,
    pub work: WorkView,
}

/// An optional notification as an optional mathematical record.
pub open spec fn optional_notice_view(notice: Option<Notice>) -> Option<NoticeView> {
    match notice {
        Some(notice) => Some(notice@),
        None => None,
    }
}

impl View for Request {
    type V = RequestView;

    open spec fn view(&self) -> RequestView {
        RequestView { notice: optional_notice_view(self.notice), work: self.work@ }
    }
}

/// The outcome of outside work, as the driver hands it back.
#[derive(Debug, PartialEq, Eq)]
pub enum Response {
    /// The answer of the language model, or `None` where it could not be
    /// reached.
    Completion(Option<String>),
    /// The decoded project scope, or `None` where the text does not hold one.
    Scope(Option<ProjectScope>),
    /// The decoded endpoints in the order of the text, or `None` where the
    /// text does not hold a list of endpoints.
    Routes(Option<Vec<RouteObject>>),
    /// The code template.
    Template(String),
    /// The generated source, or the endpoint schema, has been written.
    Saved,
    /// The status code that a probe met, or `None` where the probe failed.
    Status(Option<u16>),
    /// Whether the person asked approved.
    Approval(bool),
    /// What the build reported.
    Build(BuildReport),
}

/// A response as a mathematical value.
pub enum ResponseView {
    Completion(Option<Seq<char>>),
    Scope(Option<ProjectScope>),
    Routes(Option<Seq<RouteObjectView>>),
    Template(Seq<char>),
    Saved,
    Status(Option<u16>),
    Approval(bool),
    Build(BuildReportView),
}

impl View for Response {
    type V = ResponseView;

    open spec fn view(&self) -> ResponseView {
        match self {
            Response::Completion(text) => ResponseView::Completion(optional_text_view(*text)),
            Response::Scope(scope) => ResponseView::Scope(*scope),
            Response::Routes(routes) => ResponseView::Routes(optional_routes_view(*routes)),
            Response::Template(text) => ResponseView::Template(text@),
            Response::Saved => ResponseView::Saved,
            Response::Status(status) => ResponseView::Status(*status),
            Response::Approval(approved) => ResponseView::Approval(*approved),
            Response::Build(report) => ResponseView::Build(report@),
        }
    }
}

/// An optional response as an optional mathematical value.
pub open spec fn optional_response_view(response: Option<Response>) -> Option<ResponseView> {
    match response {
        Some(response) => Some(response@),
        None => None,
    }
}

/// An optional request as an optional mathematical record.
pub open spec fn optional_request_view(request: Option<Request>) -> Option<RequestView> {
    match request {
        Some(request) => Some(request@),
        None => None,
    }
}

/// What a call of `execute` returns, as a mathematical value.
pub open spec fn outcome_view(outcome: Result<Option<Request>, AgentError>) -> Result<
    Option<RequestView>,
    AgentError,
> {
    match outcome {
        Ok(request) => Ok(optional_request_view(request)),
        Err(error) => Err(error),
    }
}

/// What one call of `execute` leaves behind.
pub struct StepView {
    /// The base attributes of the agent after the call.
    pub attributes: BasicAgentView,
    /// The project document after the call.
    pub factsheet: FactSheetView,
    /// What the call returned.
    pub outcome: Result<Option<RequestView>, AgentError>,
}

/// The order of ranks: the first part decides, and the second where the
/// first parts are equal. No rank has infinitely many ranks below it that
/// follow one another.
pub open spec fn precedes(lower: (nat, nat), upper: (nat, nat)) -> bool {
    lower.0 < upper.0 || (lower.0 == upper.0 && lower.1 < upper.1)
}

/// The contract of a role agent.
///
/// A driver runs an agent by calling `execute` until it returns `Ok(None)`:
/// the first call takes no response, and each later call takes the response
/// to the request that the call before it returned.
pub trait SpecialFunctions {
    /// The base attributes of the agent.
    spec fn attributes(&self) -> BasicAgentView;

    /// The fatal error that has ended the work of the agent, if any.
    spec fn failure(&self) -> Option<AgentError>;

    /// The bound of the role on the work that is left: every response that
    /// the agent takes lowers its rank, so that no agent runs for ever.
    spec fn rank(&self, factsheet: FactSheetView) -> (nat, nat);

    /// What a call of `execute` will do, given the project document and the
    /// response.
    spec fn step(&self, factsheet: FactSheetView, response: Option<ResponseView>) -> StepView;

    /// The base attributes of the agent, for diagnostics.
    fn get_attributes_from_agent(&self) -> (attributes: &BasicAgent)
        ensures
            attributes@ == self.attributes(),
    ;

    /// Takes the response to the request made last, if any, and returns the
    /// next request, `Ok(None)` when the agent has finished, or the error that
    /// ends the run.
    fn execute(&mut self, factsheet: &mut FactSheet, response: Option<Response>) -> (outcome:
        Result<Option<Request>, AgentError>)
        ensures
            final(self).attributes() == old(self).step(
                old(factsheet)@,
                optional_response_view(response),
            ).attributes,
            final(factsheet)@ == old(self).step(
                old(factsheet)@,
                optional_response_view(response),
            ).factsheet,
            outcome_view(outcome) == old(self).step(
                old(factsheet)@,
                optional_response_view(response),
            ).outcome,
            // A finished agent stays finished and does nothing.
            old(self).attributes().state == AgentState::Finished ==> {
                &&& outcome == Ok::<Option<Request>, AgentError>(None)
                &&& final(self).attributes() == old(self).attributes()
                &&& final(factsheet)@ == old(factsheet)@
            },
            // A fatal error is final: the agent repeats it and does nothing more.
            outcome matches Err(error) ==> final(self).failure() == Some(error),
            old(self).attributes().state != AgentState::Finished ==> (old(self).failure() matches Some(
                error,
            ) ==> {
                &&& outcome == Err::<Option<Request>, AgentError>(error)
                &&& final(self).attributes() == old(self).attributes()
                &&& final(self).failure() == old(self).failure()
                &&& final(factsheet)@ == old(factsheet)@
            }),
            // Every response brings the agent closer to its end.
            response is Some && old(self).attributes().state != AgentState::Finished && old(
                self,
            ).failure() is None ==> {
                ||| final(self).attributes().state == AgentState::Finished
                ||| final(self).failure() is Some
                ||| precedes(final(self).rank(final(factsheet)@), old(self).rank(old(factsheet)@))
            },
            // An agent that asks for nothing more has finished.
            outcome matches Ok(None) ==> final(self).attributes().state == AgentState::Finished,
            // An agent keeps its objective, its position and what it has logged.
            final(self).attributes().objective == old(self).attributes().objective,
            final(self).attributes().position == old(self).attributes().position,
            old(self).attributes().memory.is_prefix_of(final(self).attributes().memory),
            // No agent rewrites the goal of the project.
            final(factsheet)@.project_description == old(factsheet)@.project_description,
    ;
}

} // verus!
