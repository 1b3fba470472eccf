use agent_pipeline::agent_traits::{
    AgentError, BuildReport, ProjectScope, Request, Response, Work,
};
use agent_pipeline::ai_functions::AiFunction;
use agent_pipeline::command_line::{Notice, PrintCommand};
use agent_pipeline::generals::{
    ai_task_request, ai_task_request_decoded, extend_ai_function, Answer, Decoding, Progress,
    TaskRequest,
};

fn goal_request() -> TaskRequest {
    ai_task_request(
        "build be a web server for making stock price api requests".to_string(),
        "Managing Agent",
        "Defining user requirements",
        AiFunction::ConvertUserInputToGoal,
    )
}

fn completion(text: &str) -> Response {
    Response::Completion(Some(text.to_string()))
}

fn calls_made(task: &mut TaskRequest, answers: Vec<Response>) -> usize {
    let mut calls = 0;
    for answer in answers {
        match task.pending() {
            Some(Request { work: Work::Complete(_), .. }) => calls += 1,
            _ => {}
        }
        task.accept(answer);
    }
    calls
}

#[test]
fn test_ai_task_request() {
    let ai_func_param = "build be a web server for making stock price api requests".to_string();

    let mut task = ai_task_request(
        ai_func_param,
        "Managing Agent",
        "Defining user requirements",
        AiFunction::ConvertUserInputToGoal,
    );
    assert!(task.pending().is_some());
    task.accept(completion(
        "build a website that serves stock prices from a public api",
    ));

    let res = match task.progress() {
        Progress::Answered(Answer::Text(text)) => text,
        other => panic!("the request was not answered: {:?}", other),
    };
    assert!(res.len() > 20);
}

#[test]
fn first_call_sends_the_extended_message_and_tells_the_sink() {
    let task = goal_request();
    let expected = extend_ai_function(
        AiFunction::ConvertUserInputToGoal,
        "build be a web server for making stock price api requests",
    );
    assert_eq!(
        task.pending(),
        Some(Request {
            notice: Some(Notice {
                category: PrintCommand::AICall,
                position: "Managing Agent".to_string(),
                statement: "Defining user requirements".to_string(),
            }),
            work: Work::Complete(vec![expected]),
        })
    );
}

#[test]
fn pending_request_does_not_change_by_asking() {
    let task = goal_request();
    assert_eq!(task.pending(), task.pending());
}

#[test]
fn one_failure_is_retried_with_the_same_message() {
    let mut task = goal_request();
    let first = task.pending().unwrap();
    task.accept(Response::Completion(None));
    let second = task.pending().unwrap();
    assert_eq!(second.work, first.work);
    assert_eq!(second.notice, None);
    task.accept(completion("the answer of the second call"));
    assert_eq!(task.pending(), None);
    match task.progress() {
        Progress::Answered(answer) => {
            assert_eq!(answer, Answer::Text("the answer of the second call".to_string()))
        }
        other => panic!("unexpected {:?}", other),
    }
}

#[test]
fn one_failure_means_exactly_two_calls() {
    let mut task = goal_request();
    let calls = calls_made(
        &mut task,
        vec![Response::Completion(None), completion("fine"), completion("never read")],
    );
    assert_eq!(calls, 2);
    match task.progress() {
        Progress::Answered(answer) => assert_eq!(answer, Answer::Text("fine".to_string())),
        other => panic!("unexpected {:?}", other),
    }
}

#[test]
fn success_at_once_means_one_call() {
    let mut task = goal_request();
    let calls = calls_made(&mut task, vec![completion("fine"), Response::Completion(None)]);
    assert_eq!(calls, 1);
    match task.progress() {
        Progress::Answered(answer) => assert_eq!(answer, Answer::Text("fine".to_string())),
        other => panic!("unexpected {:?}", other),
    }
}

#[test]
fn two_failures_are_fatal_and_there_is_no_third_call() {
    let mut task = goal_request();
    let calls = calls_made(
        &mut task,
        vec![
            Response::Completion(None),
            Response::Completion(None),
            completion("too late"),
            Response::Completion(None),
        ],
    );
    assert_eq!(calls, 2);
    assert_eq!(task.pending(), None);
    match task.progress() {
        Progress::Failed(error) => assert_eq!(error, AgentError::Transport),
        other => panic!("unexpected {:?}", other),
    }
}

#[test]
fn open_request_is_handed_back() {
    let task = goal_request();
    match task.progress() {
        Progress::Open(task) => assert!(task.pending().is_some()),
        other => panic!("unexpected {:?}", other),
    }
}

#[test]
fn url_list_is_decoded_from_json() {
    let mut task = ai_task_request_decoded(
        "a weather site".to_string(),
        "Solutions Architect",
        "print_site_urls",
        AiFunction::PrintSiteUrls,
        Decoding::UrlList,
    );
    task.accept(completion(
        " [\"https://api.example.com/a\", \"https://api.example.com/b\"] ",
    ));
    match task.progress() {
        Progress::Answered(answer) => assert_eq!(
            answer,
            Answer::Urls(vec![
                "https://api.example.com/a".to_string(),
                "https://api.example.com/b".to_string()
            ])
        ),
        other => panic!("unexpected {:?}", other),
    }
}

#[test]
fn json_escapes_are_resolved_in_urls() {
    let mut task = ai_task_request_decoded(
        "x".to_string(),
        "Solutions Architect",
        "print_site_urls",
        AiFunction::PrintSiteUrls,
        Decoding::UrlList,
    );
    task.accept(completion("[\"a\\u0041\\n\"]"));
    match task.progress() {
        Progress::Answered(answer) => assert_eq!(answer, Answer::Urls(vec!["aA\n".to_string()])),
        other => panic!("unexpected {:?}", other),
    }
}

#[test]
fn empty_url_list_is_a_list() {
    let mut task = ai_task_request_decoded(
        "x".to_string(),
        "Solutions Architect",
        "print_site_urls",
        AiFunction::PrintSiteUrls,
        Decoding::UrlList,
    );
    task.accept(completion("[]"));
    match task.progress() {
        Progress::Answered(answer) => assert_eq!(answer, Answer::Urls(vec![])),
        other => panic!("unexpected {:?}", other),
    }
}

#[test]
fn text_that_is_no_url_list_fails_without_a_retry() {
    for text in [
        "Sure! Here are the urls: [\"https://a\"]",
        "[\"https://a\"] trailing",
        "{\"urls\": []}",
        "[1, 2]",
        "[\"open",
        "",
    ] {
        let mut task = ai_task_request_decoded(
            "x".to_string(),
            "Solutions Architect",
            "print_site_urls",
            AiFunction::PrintSiteUrls,
            Decoding::UrlList,
        );
        let calls = calls_made(
            &mut task,
            vec![completion(text), completion("[\"https://a\"]")],
        );
        assert_eq!(calls, 1, "text: {:?}", text);
        assert_eq!(task.pending(), None);
        match task.progress() {
            Progress::Failed(error) => assert_eq!(error, AgentError::Decode),
            other => panic!("unexpected {:?}", other),
        }
    }
}

#[test]
fn decode_failure_after_a_retry_is_still_final() {
    let mut task = ai_task_request_decoded(
        "x".to_string(),
        "Solutions Architect",
        "print_site_urls",
        AiFunction::PrintSiteUrls,
        Decoding::UrlList,
    );
    let calls = calls_made(
        &mut task,
        vec![Response::Completion(None), completion("not json"), completion("[]")],
    );
    assert_eq!(calls, 2);
    match task.progress() {
        Progress::Failed(error) => assert_eq!(error, AgentError::Decode),
        other => panic!("unexpected {:?}", other),
    }
}

#[test]
fn scope_text_goes_out_to_be_decoded() {
    let mut task = ai_task_request_decoded(
        "a shop".to_string(),
        "Solutions Architect",
        "print_project_scope",
        AiFunction::PrintProjectScope,
        Decoding::Scope,
    );
    task.accept(completion("{\"is_crud_required\": true}"));
    assert_eq!(
        task.pending(),
        Some(Request {
            notice: None,
            work: Work::DecodeScope("{\"is_crud_required\": true}".to_string()),
        })
    );
    let scope = ProjectScope {
        is_crud_required: true,
        is_user_login_and_logout: false,
        is_external_urls_required: true,
    };
    task.accept(Response::Scope(Some(scope)));
    assert_eq!(task.pending(), None);
    match task.progress() {
        Progress::Answered(answer) => assert_eq!(answer, Answer::Scope(scope)),
        other => panic!("unexpected {:?}", other),
    }
}

#[test]
fn scope_that_does_not_decode_fails_without_a_retry() {
    let mut task = ai_task_request_decoded(
        "a shop".to_string(),
        "Solutions Architect",
        "print_project_scope",
        AiFunction::PrintProjectScope,
        Decoding::Scope,
    );
    let calls = calls_made(
        &mut task,
        vec![
            completion("no scope in here"),
            Response::Scope(None),
            completion("{\"is_crud_required\": true}"),
        ],
    );
    assert_eq!(calls, 1);
    assert_eq!(task.pending(), None);
    match task.progress() {
        Progress::Failed(error) => assert_eq!(error, AgentError::Decode),
        other => panic!("unexpected {:?}", other),
    }
}

#[test]
fn response_of_another_kind_fails_the_request() {
    let others = vec![
        Response::Saved,
        Response::Template("t".to_string()),
        Response::Status(Some(200)),
        Response::Approval(true),
        Response::Scope(None),
        Response::Routes(None),
        Response::Build(BuildReport { success: true, diagnostics: String::new() }),
    ];
    for other in others {
        let mut task = goal_request();
        task.accept(other);
        assert_eq!(task.pending(), None);
        match task.progress() {
            Progress::Failed(error) => assert_eq!(error, AgentError::UnexpectedResponse),
            other => panic!("unexpected {:?}", other),
        }
    }
}

#[test]
fn routes_are_no_answer_to_a_request_for_the_scope() {
    let mut task = ai_task_request_decoded(
        "a shop".to_string(),
        "Solutions Architect",
        "print_project_scope",
        AiFunction::PrintProjectScope,
        Decoding::Scope,
    );
    task.accept(completion("{}"));
    task.accept(Response::Routes(Some(vec![])));
    match task.progress() {
        Progress::Failed(error) => assert_eq!(error, AgentError::UnexpectedResponse),
        other => panic!("unexpected {:?}", other),
    }
}

#[test]
fn completion_while_decoding_fails_the_request() {
    let mut task = ai_task_request_decoded(
        "a shop".to_string(),
        "Solutions Architect",
        "print_project_scope",
        AiFunction::PrintProjectScope,
        Decoding::Scope,
    );
    task.accept(completion("{}"));
    task.accept(completion("{}"));
    match task.progress() {
        Progress::Failed(error) => assert_eq!(error, AgentError::UnexpectedResponse),
        other => panic!("unexpected {:?}", other),
    }
}

#[test]
fn answered_request_takes_nothing_more() {
    let mut task = goal_request();
    task.accept(completion("first"));
    task.accept(completion("second"));
    task.accept(Response::Completion(None));
    task.accept(Response::Saved);
    match task.progress() {
        Progress::Answered(answer) => assert_eq!(answer, Answer::Text("first".to_string())),
        other => panic!("unexpected {:?}", other),
    }
}
