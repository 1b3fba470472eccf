use agent_pipeline::agent_architect::AgentSolutionArchitect;
use agent_pipeline::agent_traits::{
    AgentError, FactSheet, ProjectScope, Request, Response, SpecialFunctions, Work,
};
use agent_pipeline::ai_functions::AiFunction;
use agent_pipeline::basic_agent::AgentState;
use agent_pipeline::command_line::{Notice, PrintCommand};
use agent_pipeline::generals::extend_ai_function;

fn factsheet(description: &str) -> FactSheet {
    FactSheet {
        project_description: description.to_string(),
        project_scope: None,
        external_urls: None,
        backend_code: None,
        api_endpoint_schema: None,
    }
}

fn scope(urls: bool) -> ProjectScope {
    ProjectScope {
        is_crud_required: true,
        is_user_login_and_logout: true,
        is_external_urls_required: urls,
    }
}

fn completion(text: &str) -> Response {
    Response::Completion(Some(text.to_string()))
}

fn state(agent: &AgentSolutionArchitect) -> AgentState {
    agent.get_attributes_from_agent().state
}

fn probe(url: &str) -> Option<Request> {
    Some(Request {
        notice: Some(Notice {
            category: PrintCommand::UnitTest,
            position: "Solutions Architect".to_string(),
            statement: format!("Testing URL Endpoint: {}", url),
        }),
        work: Work::Probe(url.to_string()),
    })
}

/// Runs the architect up to the point where the URLs in `urls_json` are
/// stored, and returns the first request of the testing.
fn discover(
    agent: &mut AgentSolutionArchitect,
    factsheet: &mut FactSheet,
    urls_json: &str,
) -> Option<Request> {
    agent.execute(factsheet, None).unwrap();
    agent.execute(factsheet, Some(completion("{}"))).unwrap();
    agent.execute(factsheet, Some(Response::Scope(Some(scope(true))))).unwrap();
    agent.execute(factsheet, Some(completion(urls_json))).unwrap()
}

#[test]
fn tests_solution_architect() {
    let mut agent = AgentSolutionArchitect::new();

    let mut factsheet = FactSheet{
        project_description: "Build a full stack website with user login and logout that shows the latest Forex prices".to_string(),
        project_scope: None,
        external_urls: None,
        backend_code: None,
        api_endpoint_schema: None,
    };

    let mut outcome = agent.execute(&mut factsheet, None);
    loop {
        let request = outcome.expect("Unable to  execute Solutions Architect Agent");
        let response = match request {
            None => break,
            Some(Request { work: Work::Complete(messages), .. }) => {
                if messages[0].content.contains("fn print_project_scope(") {
                    completion("{\"is_crud_required\": false, \"is_user_login_and_logout\": true, \"is_external_urls_required\": true}")
                } else {
                    completion("[\"https://api.exchangerate.host/latest\"]")
                }
            }
            Some(Request { work: Work::DecodeScope(_), .. }) => Response::Scope(Some(ProjectScope {
                is_crud_required: false,
                is_user_login_and_logout: true,
                is_external_urls_required: true,
            })),
            Some(Request { work: Work::Probe(_), .. }) => Response::Status(Some(200)),
            Some(other) => panic!("unexpected request {:?}", other),
        };
        outcome = agent.execute(&mut factsheet, Some(response));
    }

    assert!(factsheet.project_scope.is_some());
    assert!(factsheet.external_urls.is_some());
    assert_eq!(state(&agent), AgentState::Finished);
}

#[test]
fn new_architect_discovers() {
    let agent = AgentSolutionArchitect::new();
    let attributes = agent.get_attributes_from_agent();
    assert_eq!(
        attributes.objective,
        "Gathers information and design solution for webserver development"
    );
    assert_eq!(attributes.position, "Solutions Architect");
    assert_eq!(attributes.state, AgentState::Discovery);
    assert!(attributes.memory.is_empty());
}

#[test]
fn first_request_asks_for_the_scope() {
    let mut agent = AgentSolutionArchitect::new();
    let mut doc = factsheet("build a shop");
    let request = agent.execute(&mut doc, None);
    assert_eq!(
        request,
        Ok(Some(Request {
            notice: Some(Notice {
                category: PrintCommand::AICall,
                position: "Solutions Architect".to_string(),
                statement: "print_project_scope".to_string(),
            }),
            work: Work::Complete(vec![extend_ai_function(
                AiFunction::PrintProjectScope,
                "build a shop"
            )]),
        }))
    );
    assert_eq!(state(&agent), AgentState::Discovery);
    assert_eq!(doc, factsheet("build a shop"));
}

#[test]
fn asking_again_repeats_the_request() {
    let mut agent = AgentSolutionArchitect::new();
    let mut doc = factsheet("build a shop");
    let first = agent.execute(&mut doc, None);
    let second = agent.execute(&mut doc, None);
    assert_eq!(first, second);
}

#[test]
fn no_urls_are_asked_for_unless_required() {
    let mut agent = AgentSolutionArchitect::new();
    let mut doc = factsheet("build a shop");
    agent.execute(&mut doc, None).unwrap();
    let decode = agent.execute(&mut doc, Some(completion("{\"a\": 1}")));
    assert_eq!(
        decode,
        Ok(Some(Request { notice: None, work: Work::DecodeScope("{\"a\": 1}".to_string()) }))
    );
    let end = agent.execute(&mut doc, Some(Response::Scope(Some(scope(false)))));
    assert_eq!(end, Ok(None));
    assert_eq!(state(&agent), AgentState::Finished);
    assert_eq!(doc.project_scope, Some(scope(false)));
    assert_eq!(doc.external_urls, None);
    assert_eq!(doc.backend_code, None);
    assert_eq!(doc.project_description, "build a shop");
}

#[test]
fn urls_are_asked_for_when_required() {
    let mut agent = AgentSolutionArchitect::new();
    let mut doc = factsheet("show the weather");
    agent.execute(&mut doc, None).unwrap();
    agent.execute(&mut doc, Some(completion("{}"))).unwrap();
    let request = agent.execute(&mut doc, Some(Response::Scope(Some(scope(true)))));
    assert_eq!(
        request,
        Ok(Some(Request {
            notice: Some(Notice {
                category: PrintCommand::AICall,
                position: "Solutions Architect".to_string(),
                statement: "print_site_urls".to_string(),
            }),
            work: Work::Complete(vec![extend_ai_function(
                AiFunction::PrintSiteUrls,
                "show the weather"
            )]),
        }))
    );
    assert_eq!(doc.project_scope, Some(scope(true)));
    assert_eq!(doc.external_urls, None);
    assert_eq!(state(&agent), AgentState::Discovery);
}

#[test]
fn only_the_url_with_status_200_survives() {
    let mut agent = AgentSolutionArchitect::new();
    let mut doc = factsheet("show the weather");
    let first = discover(
        &mut agent,
        &mut doc,
        "[\"https://a.example\", \"https://b.example\", \"https://c.example\"]",
    );
    assert_eq!(first, probe("https://a.example"));
    assert_eq!(state(&agent), AgentState::UnitTesting);
    assert_eq!(
        doc.external_urls,
        Some(vec![
            "https://a.example".to_string(),
            "https://b.example".to_string(),
            "https://c.example".to_string()
        ])
    );
    let second = agent.execute(&mut doc, Some(Response::Status(Some(200))));
    assert_eq!(second, Ok(probe("https://b.example")));
    let third = agent.execute(&mut doc, Some(Response::Status(Some(404))));
    assert_eq!(third, Ok(probe("https://c.example")));
    let end = agent.execute(&mut doc, Some(Response::Status(None)));
    assert_eq!(end, Ok(None));
    assert_eq!(state(&agent), AgentState::Finished);
    assert_eq!(doc.external_urls, Some(vec!["https://a.example".to_string()]));
}

#[test]
fn survivors_keep_their_order() {
    let mut agent = AgentSolutionArchitect::new();
    let mut doc = factsheet("x");
    discover(&mut agent, &mut doc, "[\"u1\", \"u2\", \"u3\", \"u4\", \"u5\"]");
    for status in [Some(200), Some(500), Some(200), None, Some(200)] {
        agent.execute(&mut doc, Some(Response::Status(status))).unwrap();
    }
    assert_eq!(
        doc.external_urls,
        Some(vec!["u1".to_string(), "u3".to_string(), "u5".to_string()])
    );
    assert_eq!(state(&agent), AgentState::Finished);
}

#[test]
fn reachable_urls_stay_as_they_are() {
    let mut agent = AgentSolutionArchitect::new();
    let mut doc = factsheet("x");
    discover(&mut agent, &mut doc, "[\"u1\", \"u2\"]");
    agent.execute(&mut doc, Some(Response::Status(Some(200)))).unwrap();
    let end = agent.execute(&mut doc, Some(Response::Status(Some(200))));
    assert_eq!(end, Ok(None));
    assert_eq!(doc.external_urls, Some(vec!["u1".to_string(), "u2".to_string()]));
}

#[test]
fn no_url_may_survive() {
    let mut agent = AgentSolutionArchitect::new();
    let mut doc = factsheet("x");
    discover(&mut agent, &mut doc, "[\"u1\", \"u2\"]");
    agent.execute(&mut doc, Some(Response::Status(Some(301)))).unwrap();
    let end = agent.execute(&mut doc, Some(Response::Status(Some(199))));
    assert_eq!(end, Ok(None));
    assert_eq!(doc.external_urls, Some(vec![]));
    assert_eq!(state(&agent), AgentState::Finished);
}

#[test]
fn url_that_failed_once_leaves_everywhere() {
    let mut agent = AgentSolutionArchitect::new();
    let mut doc = factsheet("x");
    discover(&mut agent, &mut doc, "[\"same\", \"other\", \"same\"]");
    agent.execute(&mut doc, Some(Response::Status(Some(200)))).unwrap();
    agent.execute(&mut doc, Some(Response::Status(Some(200)))).unwrap();
    let end = agent.execute(&mut doc, Some(Response::Status(Some(503))));
    assert_eq!(end, Ok(None));
    assert_eq!(doc.external_urls, Some(vec!["other".to_string()]));
}

#[test]
fn empty_url_list_needs_no_probe() {
    let mut agent = AgentSolutionArchitect::new();
    let mut doc = factsheet("x");
    let end = discover(&mut agent, &mut doc, "[]");
    assert_eq!(end, None);
    assert_eq!(state(&agent), AgentState::Finished);
    assert_eq!(doc.external_urls, Some(vec![]));
}

#[test]
fn finished_architect_does_nothing() {
    let mut agent = AgentSolutionArchitect::new();
    let mut doc = factsheet("x");
    discover(&mut agent, &mut doc, "[]");
    let before = FactSheet {
        project_description: doc.project_description.clone(),
        project_scope: doc.project_scope,
        external_urls: doc.external_urls.clone(),
        backend_code: doc.backend_code.clone(),
        api_endpoint_schema: doc.api_endpoint_schema.clone(),
    };
    assert_eq!(agent.execute(&mut doc, None), Ok(None));
    assert_eq!(agent.execute(&mut doc, Some(Response::Status(Some(404)))), Ok(None));
    assert_eq!(agent.execute(&mut doc, Some(completion("[\"more\"]"))), Ok(None));
    assert_eq!(doc, before);
    assert_eq!(state(&agent), AgentState::Finished);
}

#[test]
fn transport_failure_is_retried_once_and_then_fatal() {
    let mut agent = AgentSolutionArchitect::new();
    let mut doc = factsheet("x");
    let first = agent.execute(&mut doc, None).unwrap().unwrap();
    let retry = agent.execute(&mut doc, Some(Response::Completion(None))).unwrap().unwrap();
    assert_eq!(retry.work, first.work);
    assert_eq!(retry.notice, None);
    let failed = agent.execute(&mut doc, Some(Response::Completion(None)));
    assert_eq!(failed, Err(AgentError::Transport));
    assert_eq!(agent.execute(&mut doc, None), Err(AgentError::Transport));
    assert_eq!(agent.execute(&mut doc, Some(completion("{}"))), Err(AgentError::Transport));
    assert_eq!(doc, factsheet("x"));
    assert_eq!(state(&agent), AgentState::Discovery);
}

#[test]
fn retry_that_succeeds_goes_on() {
    let mut agent = AgentSolutionArchitect::new();
    let mut doc = factsheet("x");
    agent.execute(&mut doc, None).unwrap();
    agent.execute(&mut doc, Some(Response::Completion(None))).unwrap();
    let decode = agent.execute(&mut doc, Some(completion("scope text")));
    assert_eq!(
        decode,
        Ok(Some(Request { notice: None, work: Work::DecodeScope("scope text".to_string()) }))
    );
}

#[test]
fn scope_that_does_not_decode_is_fatal() {
    let mut agent = AgentSolutionArchitect::new();
    let mut doc = factsheet("x");
    agent.execute(&mut doc, None).unwrap();
    agent.execute(&mut doc, Some(completion("I cannot say"))).unwrap();
    let failed = agent.execute(&mut doc, Some(Response::Scope(None)));
    assert_eq!(failed, Err(AgentError::Decode));
    assert_eq!(agent.execute(&mut doc, None), Err(AgentError::Decode));
    assert_eq!(doc.project_scope, None);
    assert_eq!(doc.external_urls, None);
}

#[test]
fn urls_that_do_not_decode_are_fatal() {
    let mut agent = AgentSolutionArchitect::new();
    let mut doc = factsheet("x");
    agent.execute(&mut doc, None).unwrap();
    agent.execute(&mut doc, Some(completion("{}"))).unwrap();
    agent.execute(&mut doc, Some(Response::Scope(Some(scope(true))))).unwrap();
    let failed = agent.execute(&mut doc, Some(completion("https://a.example")));
    assert_eq!(failed, Err(AgentError::Decode));
    assert_eq!(doc.project_scope, Some(scope(true)));
    assert_eq!(doc.external_urls, None);
    assert_eq!(state(&agent), AgentState::Discovery);
}

#[test]
fn response_without_a_request_is_fatal() {
    let mut agent = AgentSolutionArchitect::new();
    let mut doc = factsheet("x");
    let failed = agent.execute(&mut doc, Some(completion("{}")));
    assert_eq!(failed, Err(AgentError::UnexpectedResponse));
    assert_eq!(agent.execute(&mut doc, None), Err(AgentError::UnexpectedResponse));
}

#[test]
fn response_of_another_kind_is_fatal_while_probing() {
    let mut agent = AgentSolutionArchitect::new();
    let mut doc = factsheet("x");
    discover(&mut agent, &mut doc, "[\"u1\"]");
    let failed = agent.execute(&mut doc, Some(Response::Approval(true)));
    assert_eq!(failed, Err(AgentError::UnexpectedResponse));
    assert_eq!(doc.external_urls, Some(vec!["u1".to_string()]));
}

#[test]
fn probe_is_repeated_when_asked_again() {
    let mut agent = AgentSolutionArchitect::new();
    let mut doc = factsheet("x");
    let first = discover(&mut agent, &mut doc, "[\"u1\", \"u2\"]");
    assert_eq!(agent.execute(&mut doc, None), Ok(first));
    agent.execute(&mut doc, Some(Response::Status(Some(200)))).unwrap();
    assert_eq!(agent.execute(&mut doc, None), Ok(probe("u2")));
}
