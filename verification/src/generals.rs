//! How the language model is asked: the prompt that wraps a capability and
//! its input, and the broker that retries a failed call once and decodes the
//! answer.

use vstd::prelude::*;
use vstd::string::*;
use crate::agent_traits::{
    optional_request_view, routes_view, texts_view, AgentError, ProjectScope, Request,
    RequestView, Response, ResponseView, RouteObject, RouteObjectView, Work, WorkView,
};
use crate::ai_functions::AiFunction;
use crate::command_line::{NoticeView, PrintCommand};
use crate::llm::{conversation_view, Message, MessageView};

verus! {

/// The instruction that wraps a capability and its input: the description of
/// the capability, the order to print nothing but what the function returns,
/// and the input.
pub open spec fn extended_prompt(description: Seq<char>, input: Seq<char>) -> Seq<char> {
    "FUNCTION: "@ + description
        + " \n    INSTRUCTION: You are a function printer. \n    You ONLY print the results of functions. Nothing else. No commentary. \n    Here is the input to the function: "@
        + input + ". Print out what the function will return."@
}

/// The message that asks the model to act out `function` on `input`.
pub open spec fn extended_message(function: AiFunction, input: Seq<char>) -> MessageView {
    MessageView {
        role: "system"@,
        content: extended_prompt(function.description_spec(), input),
    }
}

/// Wraps a capability and its input into the one `system` message that makes
/// the model print the output of the capability and nothing else.
pub fn extend_ai_function(ai_func: AiFunction, func_input: &str) -> (msg: Message)
    ensures
        msg@ == extended_message(ai_func, func_input@),
{
    let mut content = String::from_str("FUNCTION: ");
    content.append(ai_func.description());
    content.append(
        " \n    INSTRUCTION: You are a function printer. \n    You ONLY print the results of functions. Nothing else. No commentary. \n    Here is the input to the function: ",
    );
    content.append(func_input);
    content.append(". Print out what the function will return.");
    Message { role: String::from_str("system"), content }
}

/// The text `part` stands in `text` at position `at`.
pub open spec fn occurs_at(text: Seq<char>, part: Seq<char>, at: int) -> bool {
    &&& 0 <= at
    &&& at + part.len() <= text.len()
    &&& text.subrange(at, at + part.len()) == part
}

/// The text `part` stands somewhere in `text`.
pub open spec fn occurs_in(text: Seq<char>, part: Seq<char>) -> bool {
    exists|at: int| occurs_at(text, part, at)
}

/// The prompt is a function of the description and the input alone, and it
/// holds both of them word for word: the description right after the opening
/// label, the input between the instruction and the closing sentence.
pub proof fn lemma_prompt_holds_description_and_input(description: Seq<char>, input: Seq<char>)
    ensures
        occurs_in(extended_prompt(description, input), description),
        occurs_in(extended_prompt(description, input), input),
{
    let opening = "FUNCTION: "@;
    let instruction =
        " \n    INSTRUCTION: You are a function printer. \n    You ONLY print the results of functions. Nothing else. No commentary. \n    Here is the input to the function: "@;
    let prompt = extended_prompt(description, input);
    let first = opening.len() as int;
    let second = first + description.len() + instruction.len();
    assert(prompt.subrange(first, first + description.len()) =~= description);
    assert(occurs_at(prompt, description, first));
    assert(prompt.subrange(second, second + input.len()) =~= input);
    assert(occurs_at(prompt, input, second));
}

/// The structure that the answer of the model is decoded into.
#[derive(Clone, Copy, Debug, PartialEq, Eq, Structural)]
pub enum Decoding {
    /// The answer is taken as it is.
    Text,
    /// The answer holds a project scope, which the driver decodes.
    Scope,
    /// The answer holds a JSON array of strings.
    UrlList,
    /// The answer holds a list of endpoints, which the driver decodes.
    Routes,
}

/// An answer of the language model, decoded.
#[derive(Debug, PartialEq, Eq)]
pub enum Answer {
    Text(String),
    Scope(ProjectScope),
    Urls(Vec<String>),
    /// The text of the answer, and the endpoints that it holds in its order.
    Routes(String, Vec<RouteObject>),
}

/// A decoded answer as a mathematical value.
pub enum AnswerView {
    Text(Seq<char>),
    Scope(ProjectScope),
    Urls(Seq<Seq<char>>),
    Routes(Seq<char>, Seq<RouteObjectView>),
}

impl View for Answer {
    type V = AnswerView;

    open spec fn view(&self) -> AnswerView {
        match self {
            Answer::Text(text) => AnswerView::Text(text@),
            Answer::Scope(scope) => AnswerView::Scope(*scope),
            Answer::Urls(urls) => AnswerView::Urls(texts_view(urls@)),
            Answer::Routes(text, routes) => AnswerView::Routes(text@, routes_view(routes@)),
        }
    }
}

/// How far a request to the language model has come.
pub enum PhaseView {
    /// The model is to be called.
    Calling,
    /// The model has answered with this text, which the driver is to decode
    /// as a project scope or as a list of endpoints.
    Decoding(Seq<char>),
    /// The request has been answered.
    Done(AnswerView),
    /// The request has failed.
    Failed(AgentError),
}

#[derive(Debug)]
enum Phase {
    Calling,
    Decoding(String),
    Done(Answer),
    Failed(AgentError),
}

impl View for Phase {
    type V = PhaseView;

    closed spec fn view(&self) -> PhaseView {
        match self {
            Phase::Calling => PhaseView::Calling,
            Phase::Decoding(text) => PhaseView::Decoding(text@),
            Phase::Done(answer) => PhaseView::Done(answer@),
            Phase::Failed(error) => PhaseView::Failed(*error),
        }
    }
}

/// One request to the language model on its way through the broker.
///
/// The broker calls the model with a conversation of one message. Where the
/// call fails it makes the same call once more, and a second failure is
/// final. An answer is decoded once: text of the wrong structure is final too,
/// since the same question would be answered in the same way.
#[derive(Debug)]
pub struct TaskRequest {
    message: Message,
    position: String,
    operation: String,
    decoding: Decoding,
    failures: u8,
    phase: Phase,
}

/// A request to the language model as a mathematical record.
pub struct TaskRequestView {
    /// The message that is sent.
    pub message: MessageView,
    /// The position of the agent that asks.
    pub position: Seq<char>,
    /// The label of the operation that the agent performs.
    pub operation: Seq<char>,
    /// The structure that the answer is decoded into.
    pub decoding: Decoding,
    /// How many calls have failed.
    pub failures: nat,
    /// How far the request has come.
    pub phase: PhaseView,
}

impl View for TaskRequest {
    type V = TaskRequestView;

    closed spec fn view(&self) -> TaskRequestView {
        TaskRequestView {
            message: self.message@,
            position: self.position@,
            operation: self.operation@,
            decoding: self.decoding,
            failures: self.failures as nat,
            phase: self.phase@,
        }
    }
}

/// What the JSON text decodes to as an array of strings, or `None` where it
/// does not hold one.
pub uninterp spec fn json_string_list(text: Seq<char>) -> Option<Seq<Seq<char>>>;

/// `serde_json::Error`: why a text could not be decoded. The library hands
/// the value on and never looks into it.
#[verifier::external_type_specification]
#[verifier::external_body]
pub struct ExJsonError(serde_json::Error);

/// `serde_json::from_str` at the type `Vec<String>`. The call reads the whole
/// text as one JSON value and fails where the value is no array of strings or
/// where anything but white space follows it. What it returns depends on the
/// text alone, which is all that the contract claims: the list is the one that
/// `json_string_list` names, and the call fails exactly where that is `None`.
#[verifier::external_body]
fn parse_string_list(text: &str) -> (parsed: Result<Vec<String>, serde_json::Error>)
    ensures
        parsed is Ok <==> json_string_list(text@) is Some,
        parsed matches Ok(list) ==> json_string_list(text@) == Some(texts_view(list@)),
{
    serde_json::from_str::<Vec<String>>(text)
}

/// What a parsed list of URLs is worth to the request that asked for it: the
/// list is the answer, and text that did not parse fails the request.
pub fn decoded_urls(parsed: Result<Vec<String>, serde_json::Error>) -> (decoded: Result<
    Answer,
    AgentError,
>)
    ensures
        match parsed {
            Ok(urls) => decoded matches Ok(answer) && answer@ == AnswerView::Urls(
                texts_view(urls@),
            ),
            Err(_) => decoded matches Err(error) && error == AgentError::Decode,
        },
{
    match parsed {
        Ok(urls) => Ok(Answer::Urls(urls)),
        Err(_) => Err(AgentError::Decode),
    }
}

/// A fresh request: nothing has been sent yet.
pub open spec fn task_request(
    msg_context: Seq<char>,
    position: Seq<char>,
    operation: Seq<char>,
    function: AiFunction,
    decoding: Decoding,
) -> TaskRequestView {
    TaskRequestView {
        message: extended_message(function, msg_context),
        position,
        operation,
        decoding,
        failures: 0,
        phase: PhaseView::Calling,
    }
}

impl TaskRequestView {
    /// The request has neither been answered nor failed.
    pub open spec fn is_open(self) -> bool {
        self.phase is Calling || self.phase is Decoding
    }

    /// What the driver is to do next for this request: nothing, once the
    /// request has been answered or has failed. The diagnostic sink hears of
    /// the request once, before the first call.
    pub open spec fn pending(self) -> Option<RequestView> {
        match self.phase {
            PhaseView::Calling => Some(
                RequestView {
                    notice: if self.failures == 0 {
                        Some(
                            NoticeView {
                                category: PrintCommand::AICall,
                                position: self.position,
                                statement: self.operation,
                            },
                        )
                    } else {
                        None
                    },
                    work: WorkView::Complete(seq![self.message]),
                },
            ),
            PhaseView::Decoding(text) => Some(
                RequestView {
                    notice: None,
                    work: if self.decoding == Decoding::Routes {
                        WorkView::DecodeRoutes(text)
                    } else {
                        WorkView::DecodeScope(text)
                    },
                },
            ),
            PhaseView::Done(_) => None,
            PhaseView::Failed(_) => None,
        }
    }

    /// Where an answer of the model leads.
    pub open spec fn answered(self, text: Seq<char>) -> PhaseView {
        match self.decoding {
            Decoding::Text => PhaseView::Done(AnswerView::Text(text)),
            Decoding::Scope => PhaseView::Decoding(text),
            Decoding::Routes => PhaseView::Decoding(text),
            Decoding::UrlList => match json_string_list(text) {
                Some(urls) => PhaseView::Done(AnswerView::Urls(urls)),
                None => PhaseView::Failed(AgentError::Decode),
            },
        }
    }

    /// Where the outcome of a decoding leads: a value of the structure asked
    /// for is the answer, and text that holds none fails the request.
    pub open spec fn decoded(self, text: Seq<char>, response: ResponseView) -> PhaseView {
        match response {
            ResponseView::Scope(Some(scope)) if self.decoding != Decoding::Routes => PhaseView::Done(
                AnswerView::Scope(scope),
            ),
            ResponseView::Scope(None) if self.decoding != Decoding::Routes => PhaseView::Failed(
                AgentError::Decode,
            ),
            ResponseView::Routes(Some(routes)) if self.decoding == Decoding::Routes
                => PhaseView::Done(AnswerView::Routes(text, routes)),
            ResponseView::Routes(None) if self.decoding == Decoding::Routes => PhaseView::Failed(
                AgentError::Decode,
            ),
            _ => PhaseView::Failed(AgentError::UnexpectedResponse),
        }
    }

    /// The request after the driver has handed in `response`.
    pub open spec fn accept(self, response: ResponseView) -> TaskRequestView {
        match self.phase {
            PhaseView::Calling => match response {
                ResponseView::Completion(Some(text)) => TaskRequestView {
                    phase: self.answered(text),
                    ..self
                },
                ResponseView::Completion(None) => if self.failures == 0 {
                    TaskRequestView { failures: 1, ..self }
                } else {
                    TaskRequestView {
                        failures: 2,
                        phase: PhaseView::Failed(AgentError::Transport),
                        ..self
                    }
                },
                _ => TaskRequestView {
                    phase: PhaseView::Failed(AgentError::UnexpectedResponse),
                    ..self
                },
            },
            PhaseView::Decoding(text) => TaskRequestView {
                phase: self.decoded(text, response),
                ..self
            },
            PhaseView::Done(_) => self,
            PhaseView::Failed(_) => self,
        }
    }

    /// A bound on the number of responses that the request still takes
    /// before it has been answered or has failed: two calls and one decoding
    /// at most.
    pub open spec fn rank(self) -> nat {
        match self.phase {
            PhaseView::Calling => if self.failures == 0 {
                3
            } else {
                2
            },
            PhaseView::Decoding(_) => 1,
            PhaseView::Done(_) => 0,
            PhaseView::Failed(_) => 0,
        }
    }

    /// The request after the driver has handed in `responses` one after the
    /// other.
    pub open spec fn accept_all(self, responses: Seq<ResponseView>) -> TaskRequestView
        decreases responses.len(),
    {
        if responses.len() == 0 {
            self
        } else {
            self.accept(responses[0]).accept_all(responses.drop_first())
        }
    }

    /// How many calls of the model the driver makes for this request while it
    /// hands in `responses`: a response that arrives while a call is pending
    /// is the outcome of that call.
    pub open spec fn calls(self, responses: Seq<ResponseView>) -> nat
        decreases responses.len(),
    {
        if responses.len() == 0 {
            0
        } else {
            let call: nat = if self.phase is Calling {
                1
            } else {
                0
            };
            call + self.accept(responses[0]).calls(responses.drop_first())
        }
    }
}

/// Where a request stands, with what it has brought.
#[derive(Debug)]
pub enum Progress {
    /// The request is open: the driver has work to do for it.
    Open(TaskRequest),
    /// The model has answered.
    Answered(Answer),
    /// The request has failed.
    Failed(AgentError),
}

/// Opens a request for the output of `callback_fn` on `msg_context`, to be
/// taken as plain text.
pub fn ai_task_request(
    msg_context: String,
    agent_position: &str,
    agent_operation: &str,
    callback_fn: AiFunction,
) -> (task: TaskRequest)
    ensures
        task@ == task_request(
            msg_context@,
            agent_position@,
            agent_operation@,
            callback_fn,
            Decoding::Text,
        ),
{
    ai_task_request_decoded(
        msg_context,
        agent_position,
        agent_operation,
        callback_fn,
        Decoding::Text,
    )
}

/// Opens a request for the output of `callback_fn` on `msg_context`, to be
/// decoded as `decoding` says.
pub fn ai_task_request_decoded(
    msg_context: String,
    agent_position: &str,
    agent_operation: &str,
    callback_fn: AiFunction,
    decoding: Decoding,
) -> (task: TaskRequest)
    ensures
        task@ == task_request(
            msg_context@,
            agent_position@,
            agent_operation@,
            callback_fn,
            decoding,
        ),
{
    TaskRequest {
        message: extend_ai_function(callback_fn, msg_context.as_str()),
        position: agent_position.to_owned(),
        operation: agent_operation.to_owned(),
        decoding,
        failures: 0,
        phase: Phase::Calling,
    }
}

impl TaskRequest {
    /// What the driver is to do next for this request, if anything.
    pub fn pending(&self) -> (request: Option<Request>)
        ensures
            optional_request_view(request) == self@.pending(),
    {
        match &self.phase {
            Phase::Calling => {
                let mut messages: Vec<Message> = Vec::new();
                messages.push(self.message.clone());
                assert(conversation_view(messages@) =~= seq![self.message@]);
                let notice = if self.failures == 0 {
                    Some(
                        PrintCommand::AICall.print_agent_message(
                            self.position.as_str(),
                            self.operation.as_str(),
                        ),
                    )
                } else {
                    None
                };
                Some(Request { notice, work: Work::Complete(messages) })
            },
            Phase::Decoding(text) => Some(
                Request {
                    notice: None,
                    work: match self.decoding {
                        Decoding::Routes => Work::DecodeRoutes(text.clone()),
                        _ => Work::DecodeScope(text.clone()),
                    },
                },
            ),
            Phase::Done(_) => None,
            Phase::Failed(_) => None,
        }
    }

    /// Takes the response of the driver to the pending request. A request
    /// that has been answered or has failed takes nothing more.
    pub fn accept(&mut self, response: Response)
        ensures
            final(self)@ == old(self)@.accept(response@),
    {
        let mut phase = Phase::Calling;
        core::mem::swap(&mut self.phase, &mut phase);
        match phase {
            Phase::Calling => match response {
                Response::Completion(Some(text)) => match self.decoding {
                    Decoding::Text => {
                        self.phase = Phase::Done(Answer::Text(text));
                    },
                    Decoding::Scope => {
                        self.phase = Phase::Decoding(text);
                    },
                    Decoding::Routes => {
                        self.phase = Phase::Decoding(text);
                    },
                    Decoding::UrlList => match decoded_urls(parse_string_list(text.as_str())) {
                        Ok(answer) => {
                            self.phase = Phase::Done(answer);
                        },
                        Err(error) => {
                            self.phase = Phase::Failed(error);
                        },
                    },
                },
                Response::Completion(None) => {
                    if self.failures == 0 {
                        self.failures = 1;
                    } else {
                        self.failures = 2;
                        self.phase = Phase::Failed(AgentError::Transport);
                    }
                },
                _ => {
                    self.phase = Phase::Failed(AgentError::UnexpectedResponse);
                },
            },
            Phase::Decoding(text) => match self.decoding {
                Decoding::Routes => match response {
                    Response::Routes(Some(routes)) => {
                        self.phase = Phase::Done(Answer::Routes(text, routes));
                    },
                    Response::Routes(None) => {
                        self.phase = Phase::Failed(AgentError::Decode);
                    },
                    _ => {
                        self.phase = Phase::Failed(AgentError::UnexpectedResponse);
                    },
                },
                _ => match response {
                    Response::Scope(Some(scope)) => {
                        self.phase = Phase::Done(Answer::Scope(scope));
                    },
                    Response::Scope(None) => {
                        self.phase = Phase::Failed(AgentError::Decode);
                    },
                    _ => {
                        self.phase = Phase::Failed(AgentError::UnexpectedResponse);
                    },
                },
            },
            Phase::Done(answer) => {
                self.phase = Phase::Done(answer);
            },
            Phase::Failed(error) => {
                self.phase = Phase::Failed(error);
            },
        }
    }

    /// Ends the request if it has been answered or has failed, and hands it
    /// back if it is still open.
    pub fn progress(self) -> (progress: Progress)
        ensures
            match progress {
                Progress::Open(task) => task@ == self@ && self@.is_open(),
                Progress::Answered(answer) => self@.phase == PhaseView::Done(answer@),
                Progress::Failed(error) => self@.phase == PhaseView::Failed(error),
            },
    {
        match self.phase {
            Phase::Done(answer) => Progress::Answered(answer),
            Phase::Failed(error) => Progress::Failed(error),
            phase => Progress::Open(
                TaskRequest {
                    message: self.message,
                    position: self.position,
                    operation: self.operation,
                    decoding: self.decoding,
                    failures: self.failures,
                    phase,
                },
            ),
        }
    }
}

/// Every response brings an open request closer to its end.
pub proof fn lemma_request_makes_progress(task: TaskRequestView, response: ResponseView)
    requires
        task.is_open(),
    ensures
        task.accept(response).rank() < task.rank(),
{
}

/// A request that has left the calling phase never calls the model again,
/// whatever the driver hands in.
pub proof fn lemma_no_call_after_calling(task: TaskRequestView, responses: Seq<ResponseView>)
    requires
        !(task.phase is Calling),
    ensures
        task.calls(responses) == 0,
        !(task.accept_all(responses).phase is Calling),
    decreases responses.len(),
{
    if responses.len() > 0 {
        lemma_no_call_after_calling(task.accept(responses[0]), responses.drop_first());
    }
}

/// The model is called at most twice for one request, whatever comes back:
/// there is one retry and never a third call.
pub proof fn lemma_at_most_two_calls(task: TaskRequestView, responses: Seq<ResponseView>)
    ensures
        task.calls(responses) <= 2,
        task.failures != 0 ==> task.calls(responses) <= 1,
    decreases responses.len(),
{
    if responses.len() > 0 {
        let next = task.accept(responses[0]);
        if next.phase is Calling {
            lemma_at_most_two_calls(next, responses.drop_first());
        } else {
            lemma_no_call_after_calling(next, responses.drop_first());
        }
    }
}

/// Where the first call fails and the second succeeds, the request ends as
/// the second answer says, after two calls: the failure was retried once, with
/// the same conversation and without a second notification.
pub proof fn lemma_failure_then_answer(task: TaskRequestView, text: Seq<char>)
    requires
        task.phase is Calling,
        task.failures == 0,
    ensures
        task.accept(ResponseView::Completion(None)).pending() == Some(
            RequestView { notice: None, work: WorkView::Complete(seq![task.message]) },
        ),
        task.accept_all(
            seq![ResponseView::Completion(None), ResponseView::Completion(Some(text))],
        ).phase == task.answered(text),
        task.decoding == Decoding::Text ==> task.accept_all(
            seq![ResponseView::Completion(None), ResponseView::Completion(Some(text))],
        ).phase == PhaseView::Done(AnswerView::Text(text)),
        task.calls(seq![ResponseView::Completion(None), ResponseView::Completion(Some(text))])
            == 2,
{
    reveal_with_fuel(TaskRequestView::accept_all, 3);
    reveal_with_fuel(TaskRequestView::calls, 3);
}

/// Where both calls fail, the request fails for good: nothing is pending,
/// and whatever the driver hands in afterwards, the request stays failed and
/// the model is not called a third time.
pub proof fn lemma_two_failures_are_final(task: TaskRequestView, later: Seq<ResponseView>)
    requires
        task.phase is Calling,
        task.failures == 0,
    ensures
        ({
            let failed = task.accept(ResponseView::Completion(None)).accept(
                ResponseView::Completion(None),
            );
            &&& failed.phase == PhaseView::Failed(AgentError::Transport)
            &&& failed.pending() is None
            &&& failed.accept_all(later) == failed
            &&& failed.calls(later) == 0
        }),
{
    let failed = task.accept(ResponseView::Completion(None)).accept(
        ResponseView::Completion(None),
    );
    lemma_closed_request_is_final(failed, later);
}

/// A request that has been answered or has failed takes nothing more.
pub proof fn lemma_closed_request_is_final(task: TaskRequestView, later: Seq<ResponseView>)
    requires
        !task.is_open(),
    ensures
        task.accept_all(later) == task,
        task.calls(later) == 0,
    decreases later.len(),
{
    if later.len() > 0 {
        lemma_closed_request_is_final(task, later.drop_first());
    }
}

/// An answer is decoded once. Once the model has answered, it is not called
/// again, whatever the answer holds and whatever the driver hands in later:
/// text that does not decode fails the request at once, although the same
/// question, asked again, might have been answered with text that does.
pub proof fn lemma_answer_is_never_asked_again(
    task: TaskRequestView,
    text: Seq<char>,
    later: Seq<ResponseView>,
)
    requires
        task.phase is Calling,
    ensures
        task.accept(ResponseView::Completion(Some(text))).calls(later) == 0,
        task.decoding == Decoding::UrlList && json_string_list(text) is None ==> task.accept(
            ResponseView::Completion(Some(text)),
        ).accept_all(later).phase == PhaseView::Failed(AgentError::Decode),
        task.decoding == Decoding::Scope ==> task.accept(
            ResponseView::Completion(Some(text)),
        ).accept(ResponseView::Scope(None)).accept_all(later).phase == PhaseView::Failed(
            AgentError::Decode,
        ),
        task.decoding == Decoding::Routes ==> task.accept(
            ResponseView::Completion(Some(text)),
        ).accept(ResponseView::Routes(None)).accept_all(later).phase == PhaseView::Failed(
            AgentError::Decode,
        ),
{
    let answered = task.accept(ResponseView::Completion(Some(text)));
    lemma_no_call_after_calling(answered, later);
    if task.decoding == Decoding::UrlList && json_string_list(text) is None {
        lemma_closed_request_is_final(answered, later);
    }
    if task.decoding == Decoding::Scope {
        lemma_closed_request_is_final(answered.accept(ResponseView::Scope(None)), later);
    }
    if task.decoding == Decoding::Routes {
        lemma_closed_request_is_final(answered.accept(ResponseView::Routes(None)), later);
    }
}

} // verus!
