use agent_pipeline::agent_traits::{
    AgentError, BuildReport, FactSheet, ProjectScope, Request, Response, SpecialFunctions, Work,
};
use agent_pipeline::ai_functions::AiFunction;
use agent_pipeline::basic_agent::AgentState;
use agent_pipeline::command_line::{Notice, PrintCommand};
use agent_pipeline::generals::extend_ai_function;
use agent_pipeline::managing_agent::{ManagingAgent, RoleAgent};

fn completion(text: &str) -> Response {
    Response::Completion(Some(text.to_string()))
}

fn scope(urls: bool) -> ProjectScope {
    ProjectScope {
        is_crud_required: true,
        is_user_login_and_logout: false,
        is_external_urls_required: urls,
    }
}

fn states(manager: &ManagingAgent) -> Vec<AgentState> {
    manager.get_agents().iter().map(|agent| agent.get_attributes_from_agent().state).collect()
}

#[test]
fn new_manager_holds_a_blank_document_and_no_agent() {
    let manager = ManagingAgent::new("Build a to-do list API".to_string());
    let attributes = manager.get_attributes();
    assert_eq!(
        attributes.objective,
        "Mange agents who are building an excellent website for the user"
    );
    assert_eq!(attributes.position, "Project Manager");
    assert_eq!(attributes.state, AgentState::Discovery);
    assert!(attributes.memory.is_empty());
    assert_eq!(
        manager.get_factsheet(),
        &FactSheet {
            project_description: String::new(),
            project_scope: None,
            external_urls: None,
            backend_code: None,
            api_endpoint_schema: None,
        }
    );
    assert!(manager.get_agents().is_empty());
}

#[test]
fn agents_are_created_when_the_goal_arrives() {
    let mut manager = ManagingAgent::new("Build a to-do list API".to_string());
    manager.execute_project(None).unwrap();
    assert!(manager.get_agents().is_empty());
    manager.execute_project(Some(Response::Completion(None))).unwrap();
    assert!(manager.get_agents().is_empty());
    manager.execute_project(Some(completion("build a website that lists tasks"))).unwrap();
    let positions: Vec<String> = manager
        .get_agents()
        .iter()
        .map(|agent| agent.get_attributes_from_agent().position.clone())
        .collect();
    assert_eq!(positions, vec!["Solutions Architect".to_string(), "Backend Developer".to_string()]);
    assert_eq!(states(&manager), vec![AgentState::Discovery, AgentState::Discovery]);
    assert!(matches!(manager.get_agents()[0], RoleAgent::Architect(_)));
    assert!(matches!(manager.get_agents()[1], RoleAgent::Backend(_)));
    manager.execute_project(Some(completion("{}"))).unwrap();
    assert_eq!(manager.get_agents().len(), 2);
}

#[test]
fn manager_asks_for_the_goal_first() {
    let mut manager = ManagingAgent::new("Build a to-do list API".to_string());
    let request = manager.execute_project(None);
    assert_eq!(
        request,
        Ok(Some(Request {
            notice: Some(Notice {
                category: PrintCommand::AICall,
                position: "Project Manager".to_string(),
                statement: "convert_user_input_to_goal".to_string(),
            }),
            work: Work::Complete(vec![extend_ai_function(
                AiFunction::ConvertUserInputToGoal,
                "Build a to-do list API"
            )]),
        }))
    );
    assert_eq!(manager.execute_project(None), request);
    assert_eq!(manager.get_attributes().state, AgentState::Discovery);
}

#[test]
fn to_do_list_api_runs_the_architect_to_its_end() {
    let mut manager = ManagingAgent::new("Build a to-do list API".to_string());
    manager.execute_project(None).unwrap();
    let scope_request = manager
        .execute_project(Some(completion("build a website that serves a to-do list API")))
        .unwrap();
    assert!(!manager.get_factsheet().project_description.is_empty());
    assert_eq!(
        manager.get_factsheet().project_description,
        "build a website that serves a to-do list API"
    );
    assert_eq!(manager.get_attributes().state, AgentState::Working);
    assert_eq!(
        scope_request,
        Some(Request {
            notice: Some(Notice {
                category: PrintCommand::AICall,
                position: "Solutions Architect".to_string(),
                statement: "print_project_scope".to_string(),
            }),
            work: Work::Complete(vec![extend_ai_function(
                AiFunction::PrintProjectScope,
                "build a website that serves a to-do list API"
            )]),
        })
    );
    manager.execute_project(Some(completion("{\"is_crud_required\": true}"))).unwrap();
    let next = manager.execute_project(Some(Response::Scope(Some(scope(false))))).unwrap();

    assert_eq!(manager.get_factsheet().project_scope, Some(scope(false)));
    assert_eq!(manager.get_factsheet().external_urls, None);
    assert_eq!(states(&manager), vec![AgentState::Finished, AgentState::Discovery]);
    assert_eq!(next, Some(Request { notice: None, work: Work::ReadTemplate }));
}

/// Answers every request of a run in which nothing goes wrong.
fn answer(request: &Request) -> Response {
    match &request.work {
        Work::Complete(messages) => {
            let content = &messages[0].content;
            if content.contains("fn convert_user_input_to_goal(") {
                completion("build a website that shows the weather")
            } else if content.contains("fn print_project_scope(") {
                completion("{}")
            } else if content.contains("fn print_site_urls(") {
                completion("[\"https://good.example\", \"https://bad.example\"]")
            } else {
                completion("fn main() {}")
            }
        }
        Work::DecodeScope(_) => Response::Scope(Some(scope(true))),
        Work::DecodeRoutes(_) => Response::Routes(Some(vec![])),
        Work::ReadTemplate => Response::Template("// template".to_string()),
        Work::SaveCode(_) => Response::Saved,
        Work::SaveSchema(_) => Response::Saved,
        Work::Probe(url) => Response::Status(if url == "https://good.example" {
            Some(200)
        } else {
            Some(404)
        }),
        Work::Confirm => Response::Approval(true),
        Work::Build => Response::Build(BuildReport { success: true, diagnostics: String::new() }),
    }
}

#[test]
fn whole_run_finishes_every_agent_in_order() {
    let mut manager = ManagingAgent::new("Show me the weather".to_string());
    let mut works: Vec<String> = Vec::new();
    let mut outcome = manager.execute_project(None);
    let mut steps = 0;
    while let Some(request) = outcome.unwrap() {
        works.push(match &request.work {
            Work::Complete(_) => "complete".to_string(),
            Work::DecodeScope(_) => "decode".to_string(),
            Work::DecodeRoutes(_) => "decode routes".to_string(),
            Work::ReadTemplate => "template".to_string(),
            Work::SaveCode(_) => "save".to_string(),
            Work::SaveSchema(_) => "save schema".to_string(),
            Work::Probe(url) => format!("probe {}", url),
            Work::Confirm => "confirm".to_string(),
            Work::Build => "build".to_string(),
        });
        outcome = manager.execute_project(Some(answer(&request)));
        steps += 1;
        assert!(steps < 100);
    }
    assert_eq!(
        works,
        vec![
            "complete",
            "complete",
            "decode",
            "complete",
            "probe https://good.example",
            "probe https://bad.example",
            "template",
            "complete",
            "save",
            "complete",
            "save",
            "confirm",
            "build",
        ]
    );
    assert_eq!(manager.get_attributes().state, AgentState::Finished);
    assert_eq!(states(&manager), vec![AgentState::Finished, AgentState::Finished]);
    assert_eq!(
        manager.get_factsheet(),
        &FactSheet {
            project_description: "build a website that shows the weather".to_string(),
            project_scope: Some(scope(true)),
            external_urls: Some(vec!["https://good.example".to_string()]),
            backend_code: Some("fn main() {}".to_string()),
            api_endpoint_schema: None,
        }
    );
    assert_eq!(manager.execute_project(None), Ok(None));
    assert_eq!(manager.execute_project(Some(Response::Saved)), Ok(None));
}

#[test]
fn goal_that_cannot_be_had_ends_the_run() {
    let mut manager = ManagingAgent::new("Build a to-do list API".to_string());
    manager.execute_project(None).unwrap();
    let retry = manager.execute_project(Some(Response::Completion(None))).unwrap().unwrap();
    assert_eq!(retry.notice, None);
    assert_eq!(
        manager.execute_project(Some(Response::Completion(None))),
        Err(AgentError::Transport)
    );
    assert_eq!(manager.execute_project(None), Err(AgentError::Transport));
    assert_eq!(manager.execute_project(Some(completion("late"))), Err(AgentError::Transport));
    assert_eq!(manager.get_factsheet().project_description, "");
    assert!(manager.get_agents().is_empty());
}

#[test]
fn error_of_an_agent_ends_the_run_for_all() {
    let mut manager = ManagingAgent::new("Build a to-do list API".to_string());
    manager.execute_project(None).unwrap();
    manager.execute_project(Some(completion("build a website that lists tasks"))).unwrap();
    manager.execute_project(Some(completion("no json"))).unwrap();
    assert_eq!(manager.execute_project(Some(Response::Scope(None))), Err(AgentError::Decode));
    assert_eq!(manager.execute_project(None), Err(AgentError::Decode));
    assert_eq!(states(&manager), vec![AgentState::Discovery, AgentState::Discovery]);
    assert_eq!(manager.get_factsheet().backend_code, None);
    assert_eq!(manager.get_attributes().state, AgentState::Working);
}

#[test]
fn response_before_any_request_ends_the_run() {
    let mut manager = ManagingAgent::new("x".to_string());
    assert_eq!(
        manager.execute_project(Some(Response::Saved)),
        Err(AgentError::UnexpectedResponse)
    );
    assert_eq!(manager.execute_project(None), Err(AgentError::UnexpectedResponse));
}

#[test]
fn added_agent_runs_first() {
    let mut manager = ManagingAgent::new("x".to_string());
    manager.add_agent(RoleAgent::Backend(
        agent_pipeline::agent_backend::AgentBackendDeveloper::new(),
    ));
    assert_eq!(manager.get_agents().len(), 1);
    manager.execute_project(None).unwrap();
    let first = manager.execute_project(Some(completion("goal"))).unwrap().unwrap();
    assert_eq!(first.work, Work::ReadTemplate);
    assert_eq!(manager.get_agents().len(), 3);
    assert!(matches!(manager.get_agents()[0], RoleAgent::Backend(_)));
    assert!(matches!(manager.get_agents()[1], RoleAgent::Architect(_)));
    assert!(matches!(manager.get_agents()[2], RoleAgent::Backend(_)));
}

#[test]
fn create_agents_adds_architect_and_backend_developer() {
    let mut manager = ManagingAgent::new("x".to_string());
    manager.create_agents();
    assert_eq!(manager.get_agents().len(), 2);
    assert!(matches!(manager.get_agents()[0], RoleAgent::Architect(_)));
    assert!(matches!(manager.get_agents()[1], RoleAgent::Backend(_)));
    assert_eq!(states(&manager), vec![AgentState::Discovery, AgentState::Discovery]);
    assert_eq!(manager.get_attributes().state, AgentState::Discovery);
}

#[test]
fn goal_becomes_the_description_before_any_agent_runs() {
    let mut manager = ManagingAgent::new("x".to_string());
    manager.execute_project(None).unwrap();
    assert!(manager.get_agents().is_empty());
    assert_eq!(manager.get_factsheet().project_description, "");
    let next = manager.execute_project(Some(completion("goal"))).unwrap().unwrap();
    assert_eq!(manager.get_factsheet().project_description, "goal");
    assert_eq!(
        next.work,
        Work::Complete(vec![extend_ai_function(AiFunction::PrintProjectScope, "goal")])
    );
}
