//! The solution architect: it derives the scope of the project, asks for the
//! external endpoints that the project should fetch from, and keeps those
//! that can be reached.

use vstd::prelude::*;
use vstd::string::*;
use crate::agent_traits::{
    optional_request_view, optional_response_view, outcome_view, precedes, texts_view, AgentError,
    FactSheet,
    FactSheetView, ProjectScope, Request, RequestView, Response, ResponseView, SpecialFunctions,
    StepView, Work, WorkView,
};
use crate::ai_functions::AiFunction;
use crate::basic_agent::{AgentState, BasicAgent, BasicAgentView};
use crate::command_line::{NoticeView, PrintCommand};
use crate::generals::{
    ai_task_request_decoded, lemma_request_makes_progress, task_request, Answer, AnswerView,
    Decoding, PhaseView, Progress, TaskRequest, TaskRequestView,
};

verus! {

/// What the architect is waiting for.
#[derive(Debug)]
enum Stage {
    Idle,
    Scope(TaskRequest),
    Urls(TaskRequest),
    Probing { next: usize, exclude_urls: Vec<String> },
    Halted(AgentError),
}

/// What the architect is waiting for, as a mathematical value.
pub enum ArchitectStageView {
    /// Nothing has been asked for.
    Idle,
    /// The project scope has been asked for.
    Scope(TaskRequestView),
    /// The external URLs have been asked for.
    Urls(TaskRequestView),
    /// The stored URLs are probed one by one: the URLs before `next` have
    /// been probed, and `exclude_urls` holds those that could not be reached.
    Probing { next: nat, exclude_urls: Seq<Seq<char>> },
    /// A fatal error has ended the work of the agent.
    Halted(AgentError),
}

impl View for Stage {
    type V = ArchitectStageView;

    closed spec fn view(&self) -> ArchitectStageView {
        match self {
            Stage::Idle => ArchitectStageView::Idle,
            Stage::Scope(task) => ArchitectStageView::Scope(task@),
            Stage::Urls(task) => ArchitectStageView::Urls(task@),
            Stage::Probing { next, exclude_urls } => ArchitectStageView::Probing {
                next: *next as nat,
                exclude_urls: texts_view(exclude_urls@),
            },
            Stage::Halted(error) => ArchitectStageView::Halted(*error),
        }
    }
}

/// The agent that derives the scope of a project and validates its external
/// URLs.
#[derive(Debug)]
pub struct AgentSolutionArchitect {
    attributes: BasicAgent,
    stage: Stage,
}

/// The architect as a mathematical record.
pub struct ArchitectView {
    pub attributes: BasicAgentView,
    pub stage: ArchitectStageView,
}

/// What one call of the architect's `execute` leaves behind.
pub struct ArchitectStep {
    pub agent: ArchitectView,
    pub factsheet: FactSheetView,
    pub outcome: Result<Option<RequestView>, AgentError>,
}

/// A probe met a reachable endpoint: it returned the status code 200.
pub open spec fn is_reachable(status: Option<u16>) -> bool {
    status == Some(200u16)
}

/// The URLs that stay when those in `exclude_urls` leave, in their order.
pub open spec fn surviving_urls(urls: Seq<Seq<char>>, exclude_urls: Seq<Seq<char>>) -> Seq<
    Seq<char>,
> {
    urls.filter(|url: Seq<char>| !exclude_urls.contains(url))
}

/// The request to probe `url`.
pub open spec fn probe_request(position: Seq<char>, url: Seq<char>) -> RequestView {
    RequestView {
        notice: Some(
            NoticeView {
                category: PrintCommand::UnitTest,
                position,
                statement: "Testing URL Endpoint: "@ + url,
            },
        ),
        work: WorkView::Probe(url),
    }
}

/// The stored URLs of the document: none where the list is unset.
pub open spec fn stored_urls(factsheet: FactSheetView) -> Seq<Seq<char>> {
    match factsheet.external_urls {
        Some(urls) => urls,
        None => Seq::empty(),
    }
}

impl ArchitectView {
    /// The architect cannot stand like this unless it waits for an open
    /// request while it discovers, and probes only while it tests.
    pub open spec fn wf(self) -> bool {
        match self.stage {
            ArchitectStageView::Scope(task) => task.is_open() && self.attributes.state
                == AgentState::Discovery,
            ArchitectStageView::Urls(task) => task.is_open() && self.attributes.state
                == AgentState::Discovery,
            ArchitectStageView::Probing { .. } => self.attributes.state == AgentState::UnitTesting,
            _ => true,
        }
    }

    /// The request for the project scope, made from the project description.
    pub open spec fn scope_task(self, factsheet: FactSheetView) -> TaskRequestView {
        task_request(
            factsheet.project_description,
            self.attributes.position,
            AiFunction::PrintProjectScope.name_spec(),
            AiFunction::PrintProjectScope,
            Decoding::Scope,
        )
    }

    /// The request for the external URLs, made from the project description.
    pub open spec fn urls_task(self, factsheet: FactSheetView) -> TaskRequestView {
        task_request(
            factsheet.project_description,
            self.attributes.position,
            AiFunction::PrintSiteUrls.name_spec(),
            AiFunction::PrintSiteUrls,
            Decoding::UrlList,
        )
    }

    /// The architect in another stage.
    pub open spec fn at(self, stage: ArchitectStageView) -> ArchitectView {
        ArchitectView { stage, ..self }
    }

    /// The architect in another state.
    pub open spec fn in_state(self, state: AgentState) -> ArchitectView {
        ArchitectView { attributes: self.attributes.in_state(state), ..self }
    }

    /// A fatal error ends the work: the document stays, and the error is
    /// kept.
    pub open spec fn halt(self, factsheet: FactSheetView, error: AgentError) -> ArchitectStep {
        ArchitectStep {
            agent: self.at(ArchitectStageView::Halted(error)),
            factsheet,
            outcome: Err(error),
        }
    }

    /// Testing: the next stored URL is probed. Once all have been probed the
    /// unreachable ones leave the list, if there are any, and the agent has
    /// finished.
    pub open spec fn probe_or_finish(
        self,
        factsheet: FactSheetView,
        next: nat,
        exclude_urls: Seq<Seq<char>>,
    ) -> ArchitectStep {
        let urls = stored_urls(factsheet);
        if next < urls.len() {
            ArchitectStep {
                agent: self.at(ArchitectStageView::Probing { next, exclude_urls }),
                factsheet,
                outcome: Ok(Some(probe_request(self.attributes.position, urls[next as int]))),
            }
        } else {
            ArchitectStep {
                agent: self.in_state(AgentState::Finished).at(ArchitectStageView::Idle),
                factsheet: if factsheet.external_urls is Some && exclude_urls.len() > 0 {
                    FactSheetView {
                        external_urls: Some(surviving_urls(urls, exclude_urls)),
                        ..factsheet
                    }
                } else {
                    factsheet
                },
                outcome: Ok(None),
            }
        }
    }

    /// The scope has arrived: it is stored, and the agent has finished unless
    /// the project needs external URLs, which are then asked for.
    pub open spec fn store_scope(self, factsheet: FactSheetView, scope: ProjectScope)
        -> ArchitectStep {
        let stored = FactSheetView { project_scope: Some(scope), ..factsheet };
        if scope.is_external_urls_required {
            let task = self.urls_task(stored);
            ArchitectStep {
                agent: self.at(ArchitectStageView::Urls(task)),
                factsheet: stored,
                outcome: Ok(task.pending()),
            }
        } else {
            ArchitectStep {
                agent: self.in_state(AgentState::Finished).at(ArchitectStageView::Idle),
                factsheet: stored,
                outcome: Ok(None),
            }
        }
    }

    /// The URLs have arrived: they are stored, and testing begins.
    pub open spec fn store_urls(self, factsheet: FactSheetView, urls: Seq<Seq<char>>)
        -> ArchitectStep {
        self.in_state(AgentState::UnitTesting).probe_or_finish(
            FactSheetView { external_urls: Some(urls), ..factsheet },
            0,
            Seq::empty(),
        )
    }

    /// What the agent asks for when it is handed nothing: the request that it
    /// waits on, or the first request of its state.
    pub open spec fn issue(self, factsheet: FactSheetView) -> ArchitectStep {
        match self.stage {
            ArchitectStageView::Idle => match self.attributes.state {
                AgentState::Discovery => {
                    let task = self.scope_task(factsheet);
                    ArchitectStep {
                        agent: self.at(ArchitectStageView::Scope(task)),
                        factsheet,
                        outcome: Ok(task.pending()),
                    }
                },
                AgentState::UnitTesting => self.probe_or_finish(factsheet, 0, Seq::empty()),
                _ => ArchitectStep {
                    agent: self.in_state(AgentState::Finished),
                    factsheet,
                    outcome: Ok(None),
                },
            },
            ArchitectStageView::Scope(task) => ArchitectStep {
                agent: self,
                factsheet,
                outcome: Ok(task.pending()),
            },
            ArchitectStageView::Urls(task) => ArchitectStep {
                agent: self,
                factsheet,
                outcome: Ok(task.pending()),
            },
            ArchitectStageView::Probing { next, exclude_urls } => self.probe_or_finish(
                factsheet,
                next,
                exclude_urls,
            ),
            ArchitectStageView::Halted(error) => ArchitectStep {
                agent: self,
                factsheet,
                outcome: Err(error),
            },
        }
    }

    /// The probe of the URL at `next` has ended: an unreachable URL is noted
    /// for exclusion, and the next one is probed.
    pub open spec fn probed(
        self,
        factsheet: FactSheetView,
        next: nat,
        exclude_urls: Seq<Seq<char>>,
        status: Option<u16>,
    ) -> ArchitectStep {
        let urls = stored_urls(factsheet);
        if next < urls.len() {
            self.probe_or_finish(
                factsheet,
                next + 1,
                if is_reachable(status) {
                    exclude_urls
                } else {
                    exclude_urls.push(urls[next as int])
                },
            )
        } else {
            self.probe_or_finish(factsheet, next, exclude_urls)
        }
    }

    /// What the agent does with a response.
    pub open spec fn absorb(self, factsheet: FactSheetView, response: ResponseView)
        -> ArchitectStep {
        match self.stage {
            ArchitectStageView::Idle => self.halt(factsheet, AgentError::UnexpectedResponse),
            ArchitectStageView::Scope(task) => {
                let task = task.accept(response);
                match task.phase {
                    PhaseView::Done(AnswerView::Scope(scope)) => self.store_scope(factsheet, scope),
                    PhaseView::Done(_) => self.halt(factsheet, AgentError::UnexpectedResponse),
                    PhaseView::Failed(error) => self.halt(factsheet, error),
                    _ => ArchitectStep {
                        agent: self.at(ArchitectStageView::Scope(task)),
                        factsheet,
                        outcome: Ok(task.pending()),
                    },
                }
            },
            ArchitectStageView::Urls(task) => {
                let task = task.accept(response);
                match task.phase {
                    PhaseView::Done(AnswerView::Urls(urls)) => self.store_urls(factsheet, urls),
                    PhaseView::Done(_) => self.halt(factsheet, AgentError::UnexpectedResponse),
                    PhaseView::Failed(error) => self.halt(factsheet, error),
                    _ => ArchitectStep {
                        agent: self.at(ArchitectStageView::Urls(task)),
                        factsheet,
                        outcome: Ok(task.pending()),
                    },
                }
            },
            ArchitectStageView::Probing { next, exclude_urls } => match response {
                ResponseView::Status(status) => self.probed(factsheet, next, exclude_urls, status),
                _ => self.halt(factsheet, AgentError::UnexpectedResponse),
            },
            ArchitectStageView::Halted(error) => ArchitectStep {
                agent: self,
                factsheet,
                outcome: Err(error),
            },
        }
    }

    /// One call of `execute`. A finished agent does nothing and a halted
    /// agent repeats its error; any other agent takes the response, if there
    /// is one, and says what it needs next.
    pub open spec fn execute(self, factsheet: FactSheetView, response: Option<ResponseView>)
        -> ArchitectStep {
        if self.attributes.state == AgentState::Finished {
            ArchitectStep { agent: self, factsheet, outcome: Ok(None) }
        } else if let ArchitectStageView::Halted(error) = self.stage {
            ArchitectStep { agent: self, factsheet, outcome: Err(error) }
        } else {
            match response {
                Some(response) => self.absorb(factsheet, response),
                None => self.issue(factsheet),
            }
        }
    }

    /// The fatal error that has ended the work of the architect, if any.
    pub open spec fn failure(self) -> Option<AgentError> {
        match self.stage {
            ArchitectStageView::Halted(error) => Some(error),
            _ => None,
        }
    }

    /// The bound on the work that is left. An architect that waits for the
    /// scope may yet have to ask for the URLs, and one that waits for the
    /// URLs may yet have to probe them; an open request is bounded by its own
    /// rank, and the probing by the number of stored URLs that have not been
    /// probed.
    pub open spec fn rank(self, factsheet: FactSheetView) -> (nat, nat) {
        match self.stage {
            ArchitectStageView::Idle => (3, 0),
            ArchitectStageView::Scope(task) => (2, task.rank()),
            ArchitectStageView::Urls(task) => (1, task.rank()),
            ArchitectStageView::Probing { next, .. } => (
                0,
                if next < stored_urls(factsheet).len() {
                    (stored_urls(factsheet).len() - next) as nat
                } else {
                    0
                },
            ),
            ArchitectStageView::Halted(_) => (0, 0),
        }
    }

    /// The architect once the probes that are still to come have ended with
    /// `statuses`, one after the other.
    pub open spec fn probe_all(self, factsheet: FactSheetView, statuses: Seq<Option<u16>>)
        -> ArchitectStep
        decreases statuses.len(),
    {
        if statuses.len() == 0 {
            self.execute(factsheet, None)
        } else {
            let step = self.execute(factsheet, Some(ResponseView::Status(statuses[0])));
            if statuses.len() == 1 {
                step
            } else {
                step.agent.probe_all(step.factsheet, statuses.drop_first())
            }
        }
    }
}

impl View for AgentSolutionArchitect {
    type V = ArchitectView;

    closed spec fn view(&self) -> ArchitectView {
        ArchitectView { attributes: self.attributes@, stage: self.stage@ }
    }
}

/// Whether `text` is one of `list`.
fn contains_text(list: &Vec<String>, text: &String) -> (found: bool)
    ensures
        found == texts_view(list@).contains(text@),
{
    let mut i: usize = 0;
    while i < list.len()
        invariant
            i <= list.len(),
            forall|j: int| 0 <= j < i ==> texts_view(list@)[j] != text@,
        decreases list.len() - i,
    {
        if list[i] == *text {
            assert(texts_view(list@)[i as int] == text@);
            return true;
        }
        i = i + 1;
    }
    false
}

/// The URLs that are not in `exclude_urls`, in their order.
fn keep_reachable(urls: &Vec<String>, exclude_urls: &Vec<String>) -> (kept: Vec<String>)
    ensures
        texts_view(kept@) == surviving_urls(texts_view(urls@), texts_view(exclude_urls@)),
{
    let ghost all = texts_view(urls@);
    let ghost stays = |url: Seq<char>| !texts_view(exclude_urls@).contains(url);
    let mut kept: Vec<String> = Vec::new();
    let mut i: usize = 0;
    assert(texts_view(kept@) =~= all.take(0).filter(stays)) by {
        reveal(Seq::filter);
    }
    while i < urls.len()
        invariant
            i <= urls.len(),
            all == texts_view(urls@),
            stays == |url: Seq<char>| !texts_view(exclude_urls@).contains(url),
            texts_view(kept@) == all.take(i as int).filter(stays),
        decreases urls.len() - i,
    {
        assert(all.take(i as int + 1).drop_last() =~= all.take(i as int));
        assert(all.take(i as int + 1).filter(stays) == if stays(all[i as int]) {
            all.take(i as int).filter(stays).push(all[i as int])
        } else {
            all.take(i as int).filter(stays)
        }) by {
            reveal(Seq::filter);
        }
        if !contains_text(exclude_urls, &urls[i]) {
            kept.push(urls[i].clone());
        }
        i = i + 1;
    }
    assert(all.take(i as int) =~= all);
    kept
}

impl AgentSolutionArchitect {
    #[verifier::type_invariant]
    spec fn well_formed(self) -> bool {
        self@.wf()
    }

    /// The architect before its first step: it discovers, and waits for
    /// nothing.
    pub fn new() -> (agent: Self)
        ensures
            agent@ == (ArchitectView {
                attributes: BasicAgentView {
                    objective: "Gathers information and design solution for webserver development"@,
                    position: "Solutions Architect"@,
                    state: AgentState::Discovery,
                    memory: Seq::empty(),
                },
                stage: ArchitectStageView::Idle,
            }),
    {
        let attributes = BasicAgent::new(
            String::from_str("Gathers information and design solution for webserver development"),
            String::from_str("Solutions Architect"),
        );
        AgentSolutionArchitect { attributes, stage: Stage::Idle }
    }

    /// Ends the work of the agent with a fatal error.
    fn halt(&mut self, error: AgentError) -> (outcome: Result<Option<Request>, AgentError>)
        ensures
            final(self)@ == old(self)@.at(ArchitectStageView::Halted(error)),
            outcome == Err::<Option<Request>, AgentError>(error),
    {
        self.stage = Stage::Halted(error);
        Err(error)
    }

    /// Asks for the scope of the project.
    fn call_project_scope(&mut self, factsheet: &FactSheet) -> (request: Option<Request>)
        requires
            old(self)@.attributes.state == AgentState::Discovery,
        ensures
            final(self)@ == old(self)@.at(
                ArchitectStageView::Scope(old(self)@.scope_task(factsheet@)),
            ),
            optional_request_view(request) == old(self)@.scope_task(factsheet@).pending(),
    {
        let task = ai_task_request_decoded(
            factsheet.project_description.clone(),
            self.attributes.position.as_str(),
            AiFunction::PrintProjectScope.name(),
            AiFunction::PrintProjectScope,
            Decoding::Scope,
        );
        let request = task.pending();
        self.stage = Stage::Scope(task);
        request
    }

    /// Asks for the external URLs that the project should fetch from.
    fn call_determine_extenal_urls(&mut self, factsheet: &FactSheet) -> (request: Option<Request>)
        requires
            old(self)@.attributes.state == AgentState::Discovery,
        ensures
            final(self)@ == old(self)@.at(
                ArchitectStageView::Urls(old(self)@.urls_task(factsheet@)),
            ),
            optional_request_view(request) == old(self)@.urls_task(factsheet@).pending(),
    {
        let task = ai_task_request_decoded(
            factsheet.project_description.clone(),
            self.attributes.position.as_str(),
            AiFunction::PrintSiteUrls.name(),
            AiFunction::PrintSiteUrls,
            Decoding::UrlList,
        );
        let request = task.pending();
        self.stage = Stage::Urls(task);
        request
    }

    /// Stores the scope and goes on as the scope says.
    fn record_project_scope(&mut self, factsheet: &mut FactSheet, scope: ProjectScope) -> (outcome:
        Result<Option<Request>, AgentError>)
        requires
            old(self)@.attributes.state == AgentState::Discovery,
            old(self)@.stage is Idle,
        ensures
            (ArchitectStep {
                agent: final(self)@,
                factsheet: final(factsheet)@,
                outcome: outcome_view(outcome),
            }) == old(self)@.store_scope(old(factsheet)@, scope),
    {
        factsheet.project_scope = Some(scope);
        if scope.is_external_urls_required {
            let request = self.call_determine_extenal_urls(factsheet);
            Ok(request)
        } else {
            self.attributes.state = AgentState::Finished;
            Ok(None)
        }
    }

    /// Probes the stored URL at `next`, or ends the testing when none is
    /// left.
    fn probe_or_finish(
        &mut self,
        factsheet: &mut FactSheet,
        next: usize,
        exclude_urls: Vec<String>,
    ) -> (outcome: Result<Option<Request>, AgentError>)
        requires
            old(self)@.attributes.state == AgentState::UnitTesting,
            old(self)@.stage is Idle,
        ensures
            (ArchitectStep {
                agent: final(self)@,
                factsheet: final(factsheet)@,
                outcome: outcome_view(outcome),
            }) == old(self)@.probe_or_finish(
                old(factsheet)@,
                next as nat,
                texts_view(exclude_urls@),
            ),
    {
        let total = match &factsheet.external_urls {
            Some(urls) => urls.len(),
            None => 0,
        };
        if next < total {
            let url = match &factsheet.external_urls {
                Some(urls) => urls[next].clone(),
                None => String::new(),
            };
            let mut statement = String::from_str("Testing URL Endpoint: ");
            statement.append(url.as_str());
            let notice = PrintCommand::UnitTest.print_agent_message(
                self.attributes.position.as_str(),
                statement.as_str(),
            );
            self.stage = Stage::Probing { next, exclude_urls };
            Ok(Some(Request { notice: Some(notice), work: Work::Probe(url) }))
        } else {
            if exclude_urls.len() > 0 {
                let kept = match &factsheet.external_urls {
                    Some(urls) => Some(keep_reachable(urls, &exclude_urls)),
                    None => None,
                };
                factsheet.external_urls = kept;
            }
            self.attributes.state = AgentState::Finished;
            Ok(None)
        }
    }

    /// Takes the outcome of the probe of the stored URL at `next`.
    fn record_probe(
        &mut self,
        factsheet: &mut FactSheet,
        next: usize,
        exclude_urls: Vec<String>,
        status: Option<u16>,
    ) -> (outcome: Result<Option<Request>, AgentError>)
        requires
            old(self)@.attributes.state == AgentState::UnitTesting,
            old(self)@.stage is Idle,
        ensures
            (ArchitectStep {
                agent: final(self)@,
                factsheet: final(factsheet)@,
                outcome: outcome_view(outcome),
            }) == old(self)@.probed(
                old(factsheet)@,
                next as nat,
                texts_view(exclude_urls@),
                status,
            ),
    {
        let total = match &factsheet.external_urls {
            Some(urls) => urls.len(),
            None => 0,
        };
        if next < total {
            let mut exclude_urls = exclude_urls;
            let reachable = match status {
                Some(code) => code == 200,
                None => false,
            };
            if !reachable {
                let ghost before = texts_view(exclude_urls@);
                let url = match &factsheet.external_urls {
                    Some(urls) => urls[next].clone(),
                    None => String::new(),
                };
                exclude_urls.push(url);
                assert(texts_view(exclude_urls@) =~= before.push(
                    stored_urls(factsheet@)[next as int],
                ));
            }
            self.probe_or_finish(factsheet, next + 1, exclude_urls)
        } else {
            self.probe_or_finish(factsheet, next, exclude_urls)
        }
    }

    /// Says what the agent needs when it has been handed nothing.
    fn issue(&mut self, factsheet: &mut FactSheet) -> (outcome: Result<Option<Request>, AgentError>)
        requires
            old(self)@.wf(),
        ensures
            (ArchitectStep {
                agent: final(self)@,
                factsheet: final(factsheet)@,
                outcome: outcome_view(outcome),
            }) == old(self)@.issue(old(factsheet)@),
    {
        let mut stage = Stage::Idle;
        core::mem::swap(&mut self.stage, &mut stage);
        match stage {
            Stage::Idle => match self.attributes.state {
                AgentState::Discovery => {
                    let request = self.call_project_scope(factsheet);
                    Ok(request)
                },
                AgentState::UnitTesting => {
                    let exclude_urls: Vec<String> = Vec::new();
                    assert(texts_view(exclude_urls@) =~= Seq::empty());
                    self.probe_or_finish(factsheet, 0, exclude_urls)
                },
                _ => {
                    self.attributes.state = AgentState::Finished;
                    Ok(None)
                },
            },
            Stage::Scope(task) => {
                let request = task.pending();
                self.stage = Stage::Scope(task);
                Ok(request)
            },
            Stage::Urls(task) => {
                let request = task.pending();
                self.stage = Stage::Urls(task);
                Ok(request)
            },
            Stage::Probing { next, exclude_urls } => self.probe_or_finish(
                factsheet,
                next,
                exclude_urls,
            ),
            Stage::Halted(error) => {
                self.stage = Stage::Halted(error);
                Err(error)
            },
        }
    }

    /// Takes a response of the driver.
    fn absorb(&mut self, factsheet: &mut FactSheet, response: Response) -> (outcome: Result<
        Option<Request>,
        AgentError,
    >)
        requires
            old(self)@.wf(),
        ensures
            (ArchitectStep {
                agent: final(self)@,
                factsheet: final(factsheet)@,
                outcome: outcome_view(outcome),
            }) == old(self)@.absorb(old(factsheet)@, response@),
    {
        let mut stage = Stage::Idle;
        core::mem::swap(&mut self.stage, &mut stage);
        match stage {
            Stage::Idle => self.halt(AgentError::UnexpectedResponse),
            Stage::Scope(task) => {
                let mut task = task;
                task.accept(response);
                match task.progress() {
                    Progress::Open(task) => {
                        let request = task.pending();
                        self.stage = Stage::Scope(task);
                        Ok(request)
                    },
                    Progress::Answered(Answer::Scope(scope)) => self.record_project_scope(
                        factsheet,
                        scope,
                    ),
                    Progress::Answered(_) => self.halt(AgentError::UnexpectedResponse),
                    Progress::Failed(error) => self.halt(error),
                }
            },
            Stage::Urls(task) => {
                let mut task = task;
                task.accept(response);
                match task.progress() {
                    Progress::Open(task) => {
                        let request = task.pending();
                        self.stage = Stage::Urls(task);
                        Ok(request)
                    },
                    Progress::Answered(Answer::Urls(urls)) => {
                        factsheet.external_urls = Some(urls);
                        self.attributes.state = AgentState::UnitTesting;
                        let exclude_urls: Vec<String> = Vec::new();
                        assert(texts_view(exclude_urls@) =~= Seq::empty());
                        self.probe_or_finish(factsheet, 0, exclude_urls)
                    },
                    Progress::Answered(_) => self.halt(AgentError::UnexpectedResponse),
                    Progress::Failed(error) => self.halt(error),
                }
            },
            Stage::Probing { next, exclude_urls } => match response {
                Response::Status(status) => self.record_probe(
                    factsheet,
                    next,
                    exclude_urls,
                    status,
                ),
                _ => self.halt(AgentError::UnexpectedResponse),
            },
            Stage::Halted(error) => {
                self.stage = Stage::Halted(error);
                Err(error)
            },
        }
    }
}

impl SpecialFunctions for AgentSolutionArchitect {
    open spec fn attributes(&self) -> BasicAgentView {
        self@.attributes
    }

    open spec fn failure(&self) -> Option<AgentError> {
        self@.failure()
    }

    open spec fn rank(&self, factsheet: FactSheetView) -> (nat, nat) {
        self@.rank(factsheet)
    }

    open spec fn step(&self, factsheet: FactSheetView, response: Option<ResponseView>) -> StepView {
        let step = self@.execute(factsheet, response);
        StepView {
            attributes: step.agent.attributes,
            factsheet: step.factsheet,
            outcome: step.outcome,
        }
    }

    fn get_attributes_from_agent(&self) -> (attributes: &BasicAgent) {
        &self.attributes
    }

    /// Runs the architect up to its next request.
    ///
    /// While it discovers, the architect asks for the project scope and
    /// stores it; it has then finished unless the scope asks for external
    /// URLs, which it asks for next and stores. While it tests, it has each
    /// stored URL probed and, once all are probed, takes those that could not
    /// be reached off the list.
    fn execute(&mut self, factsheet: &mut FactSheet, response: Option<Response>) -> (outcome:
        Result<Option<Request>, AgentError>)
        ensures
            final(self)@ == old(self)@.execute(
                old(factsheet)@,
                optional_response_view(response),
            ).agent,
    {
        proof {
            use_type_invariant(&*self);
            if response is Some && self@.attributes.state != AgentState::Finished
                && self@.failure() is None {
                lemma_architect_makes_progress(self@, factsheet@, response->0@);
            }
        }
        if self.attributes.state == AgentState::Finished {
            return Ok(None);
        }
        match &self.stage {
            Stage::Halted(error) => {
                return Err(*error);
            },
            _ => {},
        }
        match response {
            Some(response) => self.absorb(factsheet, response),
            None => self.issue(factsheet),
        }
    }
}

/// The scope of the document asks for external URLs.
pub open spec fn scope_asks_for_urls(factsheet: FactSheetView) -> bool {
    factsheet.project_scope matches Some(scope) && scope.is_external_urls_required
}

/// External URLs follow the scope: while the architect discovers, the
/// document holds no URLs, and it asks for them only once a scope that needs
/// them is stored; from then on a document that holds URLs holds a scope that
/// asked for them.
pub open spec fn urls_follow_scope(agent: ArchitectView, factsheet: FactSheetView) -> bool {
    &&& agent.wf()
    &&& match agent.attributes.state {
        AgentState::Discovery => factsheet.external_urls is None && (agent.stage is Urls
            ==> scope_asks_for_urls(factsheet)),
        AgentState::UnitTesting => scope_asks_for_urls(factsheet),
        _ => factsheet.external_urls is Some ==> scope_asks_for_urls(factsheet),
    }
}

/// A call of `execute` keeps the architect well formed.
pub proof fn lemma_architect_stays_well_formed(
    agent: ArchitectView,
    factsheet: FactSheetView,
    response: Option<ResponseView>,
)
    requires
        agent.wf(),
    ensures
        agent.execute(factsheet, response).agent.wf(),
{
}

/// Every response brings the architect closer to its end: the agent has
/// finished or has been halted, or its rank is lower than before.
pub proof fn lemma_architect_makes_progress(
    agent: ArchitectView,
    factsheet: FactSheetView,
    response: ResponseView,
)
    requires
        agent.wf(),
        agent.attributes.state != AgentState::Finished,
        agent.failure() is None,
    ensures
        ({
            let step = agent.execute(factsheet, Some(response));
            ||| step.agent.attributes.state == AgentState::Finished
            ||| step.agent.failure() is Some
            ||| precedes(step.agent.rank(step.factsheet), agent.rank(factsheet))
        }),
{
    match agent.stage {
        ArchitectStageView::Scope(task) => {
            lemma_request_makes_progress(task, response);
        },
        ArchitectStageView::Urls(task) => {
            lemma_request_makes_progress(task, response);
        },
        _ => {},
    }
}

/// Where the scope that arrives does not ask for external URLs, the
/// architect stores the scope and has finished: it asks for nothing more and
/// leaves the URLs of the document as they were, unset where they were unset.
pub proof fn lemma_no_urls_unless_required(
    agent: ArchitectView,
    factsheet: FactSheetView,
    response: ResponseView,
    scope: ProjectScope,
)
    requires
        agent.attributes.state == AgentState::Discovery,
        agent.stage matches ArchitectStageView::Scope(task) && task.accept(response).phase
            == PhaseView::Done(AnswerView::Scope(scope)),
        !scope.is_external_urls_required,
    ensures
        ({
            let step = agent.execute(factsheet, Some(response));
            &&& step.outcome == Ok::<Option<RequestView>, AgentError>(None)
            &&& step.agent.attributes.state == AgentState::Finished
            &&& step.factsheet.project_scope == Some(scope)
            &&& step.factsheet.external_urls == factsheet.external_urls
        }),
{
}

/// External URLs follow the scope through every call of `execute`, whatever
/// the driver hands in. For an architect that starts on a document without
/// URLs it follows that the document never holds URLs unless its scope asked
/// for them, and that no URL is asked for before the scope is stored.
pub proof fn lemma_urls_follow_scope(
    agent: ArchitectView,
    factsheet: FactSheetView,
    response: Option<ResponseView>,
)
    requires
        urls_follow_scope(agent, factsheet),
    ensures
        urls_follow_scope(
            agent.execute(factsheet, response).agent,
            agent.execute(factsheet, response).factsheet,
        ),
        agent.execute(factsheet, response).factsheet.external_urls is Some ==> scope_asks_for_urls(
            agent.execute(factsheet, response).factsheet,
        ),
{
}

/// After discovery the list of URLs only shrinks: a call of `execute` leaves
/// it as it was or filters it.
pub proof fn lemma_urls_only_shrink(
    agent: ArchitectView,
    factsheet: FactSheetView,
    response: Option<ResponseView>,
)
    requires
        agent.wf(),
        agent.attributes.state != AgentState::Discovery,
    ensures
        ({
            let after = agent.execute(factsheet, response).factsheet;
            ||| after.external_urls == factsheet.external_urls
            ||| exists|exclude_urls: Seq<Seq<char>>|
                after.external_urls == Some(
                    #[trigger] surviving_urls(stored_urls(factsheet), exclude_urls),
                )
        }),
{
}

/// The architect never touches the backend code nor the endpoint schema, and
/// it stores a scope only while it discovers.
pub proof fn lemma_architect_keeps_to_its_fields(
    agent: ArchitectView,
    factsheet: FactSheetView,
    response: Option<ResponseView>,
)
    requires
        agent.wf(),
    ensures
        ({
            let after = agent.execute(factsheet, response).factsheet;
            &&& after.project_description == factsheet.project_description
            &&& after.backend_code == factsheet.backend_code
            &&& after.api_endpoint_schema == factsheet.api_endpoint_schema
            &&& agent.attributes.state != AgentState::Discovery ==> after.project_scope
                == factsheet.project_scope
        }),
{
}

/// The URLs whose probes did not meet a reachable endpoint, where the probe
/// of `urls[i]` ended with `statuses[i]`.
pub open spec fn unreachable_urls(urls: Seq<Seq<char>>, statuses: Seq<Option<u16>>) -> Seq<
    Seq<char>,
>
    decreases urls.len(),
{
    if urls.len() == 0 || statuses.len() == 0 {
        Seq::empty()
    } else {
        let rest = unreachable_urls(urls.drop_first(), statuses.drop_first());
        if is_reachable(statuses[0]) {
            rest
        } else {
            seq![urls[0]] + rest
        }
    }
}

/// The list that testing leaves: the stored list where nothing is excluded,
/// and else the stored URLs that are not excluded.
pub open spec fn tested_urls(urls: Seq<Seq<char>>, exclude_urls: Seq<Seq<char>>) -> Seq<Seq<char>> {
    if exclude_urls.len() > 0 {
        surviving_urls(urls, exclude_urls)
    } else {
        urls
    }
}

/// Testing, from any point on: once the probes of the URLs from `next` on
/// have ended, the architect has finished and the document holds the stored
/// URLs without those that were excluded before or found unreachable since.
proof fn lemma_probing_from(
    agent: ArchitectView,
    factsheet: FactSheetView,
    urls: Seq<Seq<char>>,
    next: nat,
    exclude_urls: Seq<Seq<char>>,
    statuses: Seq<Option<u16>>,
)
    requires
        agent.attributes.state == AgentState::UnitTesting,
        agent.stage == (ArchitectStageView::Probing { next, exclude_urls }),
        factsheet.external_urls == Some(urls),
        next < urls.len(),
        statuses.len() == urls.len() - next,
    ensures
        ({
            let end = agent.probe_all(factsheet, statuses);
            &&& end.outcome == Ok::<Option<RequestView>, AgentError>(None)
            &&& end.agent.attributes.state == AgentState::Finished
            &&& end.factsheet == (FactSheetView {
                external_urls: Some(
                    tested_urls(
                        urls,
                        exclude_urls + unreachable_urls(urls.skip(next as int), statuses),
                    ),
                ),
                ..factsheet
            })
        }),
    decreases statuses.len(),
{
    let step = agent.execute(factsheet, Some(ResponseView::Status(statuses[0])));
    let excluded = if is_reachable(statuses[0]) {
        exclude_urls
    } else {
        exclude_urls.push(urls[next as int])
    };
    let left = urls.skip(next as int);
    assert(left.drop_first() =~= urls.skip(next as int + 1));
    assert(exclude_urls + unreachable_urls(left, statuses) =~= excluded + unreachable_urls(
        left.drop_first(),
        statuses.drop_first(),
    ));
    if statuses.len() > 1 {
        lemma_probing_from(
            step.agent,
            step.factsheet,
            urls,
            next + 1,
            excluded,
            statuses.drop_first(),
        );
    }
}

/// Every probe of `url` met a reachable endpoint.
pub open spec fn every_probe_reached(
    urls: Seq<Seq<char>>,
    statuses: Seq<Option<u16>>,
    url: Seq<char>,
) -> bool {
    forall|i: int| 0 <= i < urls.len() && urls[i] == url ==> is_reachable(#[trigger] statuses[i])
}

/// The URLs of which every probe met a reachable endpoint, in their order.
pub open spec fn reachable_urls(urls: Seq<Seq<char>>, statuses: Seq<Option<u16>>) -> Seq<Seq<char>> {
    urls.filter(|url: Seq<char>| every_probe_reached(urls, statuses, url))
}

/// A URL is among the unreachable ones exactly if one of its probes failed or
/// met another status than 200.
proof fn lemma_unreachable_urls(urls: Seq<Seq<char>>, statuses: Seq<Option<u16>>, url: Seq<char>)
    requires
        statuses.len() == urls.len(),
    ensures
        unreachable_urls(urls, statuses).contains(url) <==> !every_probe_reached(
            urls,
            statuses,
            url,
        ),
    decreases urls.len(),
{
    if urls.len() > 0 {
        let rest_urls = urls.drop_first();
        let rest_statuses = statuses.drop_first();
        let rest = unreachable_urls(rest_urls, rest_statuses);
        lemma_unreachable_urls(rest_urls, rest_statuses, url);
        let found = unreachable_urls(urls, statuses);
        if found.contains(url) {
            let at = choose|at: int| 0 <= at < found.len() && found[at] == url;
            if !is_reachable(statuses[0]) && at == 0 {
                assert(urls[0] == url && !is_reachable(statuses[0]));
            } else {
                let back = if is_reachable(statuses[0]) {
                    at
                } else {
                    at - 1
                };
                assert(rest[back] == url);
                assert(rest.contains(url));
                let i = choose|i: int|
                    0 <= i < rest_urls.len() && rest_urls[i] == url && !is_reachable(
                        #[trigger] rest_statuses[i],
                    );
                assert(urls[i + 1] == url && !is_reachable(statuses[i + 1]));
            }
        }
        if !every_probe_reached(urls, statuses, url) {
            let i = choose|i: int|
                0 <= i < urls.len() && urls[i] == url && !is_reachable(#[trigger] statuses[i]);
            if i == 0 {
                assert(found[0] == url);
            } else {
                assert(rest_urls[i - 1] == url && !is_reachable(rest_statuses[i - 1]));
                assert(rest.contains(url));
                let at = choose|at: int| 0 <= at < rest.len() && rest[at] == url;
                if is_reachable(statuses[0]) {
                    assert(found[at] == url);
                } else {
                    assert(found[at + 1] == url);
                }
            }
        }
    }
}

/// Two tests that agree on the items of a list filter it alike.
proof fn lemma_filter_alike(
    list: Seq<Seq<char>>,
    first: spec_fn(Seq<char>) -> bool,
    second: spec_fn(Seq<char>) -> bool,
)
    requires
        forall|i: int| 0 <= i < list.len() ==> first(#[trigger] list[i]) == second(list[i]),
    ensures
        list.filter(first) == list.filter(second),
    decreases list.len(),
{
    reveal(Seq::filter);
    if list.len() > 0 {
        let shorter = list.drop_last();
        assert forall|i: int| 0 <= i < shorter.len() implies first(#[trigger] shorter[i])
            == second(shorter[i]) by {}
        lemma_filter_alike(shorter, first, second);
    }
}

/// A test that every item of a list passes filters nothing out.
proof fn lemma_filter_keeps_all(list: Seq<Seq<char>>, test: spec_fn(Seq<char>) -> bool)
    requires
        forall|i: int| 0 <= i < list.len() ==> test(#[trigger] list[i]),
    ensures
        list.filter(test) == list,
    decreases list.len(),
{
    reveal(Seq::filter);
    if list.len() > 0 {
        let shorter = list.drop_last();
        assert forall|i: int| 0 <= i < shorter.len() implies test(#[trigger] shorter[i]) by {}
        lemma_filter_keeps_all(shorter, test);
    }
}

/// What testing leaves is the list of the URLs of which every probe met a
/// reachable endpoint.
proof fn lemma_tested_urls_are_the_reachable(
    urls: Seq<Seq<char>>,
    statuses: Seq<Option<u16>>,
)
    requires
        statuses.len() == urls.len(),
    ensures
        tested_urls(urls, unreachable_urls(urls, statuses)) == reachable_urls(urls, statuses),
{
    let excluded = unreachable_urls(urls, statuses);
    let stays = |url: Seq<char>| !excluded.contains(url);
    let reached = |url: Seq<char>| every_probe_reached(urls, statuses, url);
    assert forall|i: int| 0 <= i < urls.len() implies stays(#[trigger] urls[i]) == reached(
        urls[i],
    ) by {
        lemma_unreachable_urls(urls, statuses, urls[i]);
    }
    lemma_filter_alike(urls, stays, reached);
    if excluded.len() == 0 {
        assert forall|i: int| 0 <= i < urls.len() implies stays(#[trigger] urls[i]) by {
            if excluded.contains(urls[i]) {
                let at = choose|at: int| 0 <= at < excluded.len() && excluded[at] == urls[i];
            }
        }
        lemma_filter_keeps_all(urls, stays);
    }
}

/// Testing, as a whole: once every stored URL has been probed, the architect
/// has finished and the document holds, in their order, exactly the stored
/// URLs of which every probe met status 200. A URL whose probe failed or met
/// another status has left the list.
pub proof fn lemma_probing_keeps_the_reachable(
    agent: ArchitectView,
    factsheet: FactSheetView,
    urls: Seq<Seq<char>>,
    statuses: Seq<Option<u16>>,
)
    requires
        agent.attributes.state == AgentState::UnitTesting,
        agent.stage == (ArchitectStageView::Probing { next: 0, exclude_urls: Seq::empty() }),
        factsheet.external_urls == Some(urls),
        urls.len() > 0,
        statuses.len() == urls.len(),
    ensures
        ({
            let end = agent.probe_all(factsheet, statuses);
            &&& end.outcome == Ok::<Option<RequestView>, AgentError>(None)
            &&& end.agent.attributes.state == AgentState::Finished
            &&& end.factsheet == (FactSheetView {
                external_urls: Some(reachable_urls(urls, statuses)),
                ..factsheet
            })
        }),
{
    lemma_probing_from(agent, factsheet, urls, 0, Seq::empty(), statuses);
    assert(urls.skip(0) =~= urls);
    lemma_tested_urls_are_the_reachable(urls, statuses);
}

/// From the list to the tested list: once the URLs have arrived and every
/// one of them has been probed, the architect has finished and the document
/// holds exactly the URLs of which every probe met status 200, in the order
/// in which they arrived. Where no URL arrives there is nothing to probe.
pub proof fn lemma_urls_are_stored_and_tested(
    agent: ArchitectView,
    factsheet: FactSheetView,
    response: ResponseView,
    urls: Seq<Seq<char>>,
    statuses: Seq<Option<u16>>,
)
    requires
        agent.attributes.state == AgentState::Discovery,
        agent.stage matches ArchitectStageView::Urls(task) && task.accept(response).phase
            == PhaseView::Done(AnswerView::Urls(urls)),
        statuses.len() == urls.len(),
    ensures
        ({
            let stored = agent.execute(factsheet, Some(response));
            let end = if urls.len() == 0 {
                stored
            } else {
                stored.agent.probe_all(stored.factsheet, statuses)
            };
            &&& urls.len() > 0 ==> stored.factsheet.external_urls == Some(urls)
                && stored.outcome == Ok::<Option<RequestView>, AgentError>(
                Some(probe_request(agent.attributes.position, urls[0])),
            )
            &&& end.outcome == Ok::<Option<RequestView>, AgentError>(None)
            &&& end.agent.attributes.state == AgentState::Finished
            &&& end.factsheet == (FactSheetView {
                external_urls: Some(reachable_urls(urls, statuses)),
                ..factsheet
            })
        }),
{
    let stored = agent.execute(factsheet, Some(response));
    if urls.len() == 0 {
        assert(reachable_urls(urls, statuses) =~= urls) by {
            reveal(Seq::filter);
        }
    } else {
        lemma_probing_keeps_the_reachable(stored.agent, stored.factsheet, urls, statuses);
    }
}

} // verus!
