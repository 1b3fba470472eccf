use agent_pipeline::ai_functions::{AiFunction, CONVERT_USER_INPUT_TO_GOAL, PRINT_PROJECT_SCOPE};
use agent_pipeline::generals::extend_ai_function;

#[test]
fn tests_extending_ai_function() {
    let extended_msg = extend_ai_function(AiFunction::ConvertUserInputToGoal, "dummy");

    assert_eq!(extended_msg.role, "system".to_string())
}

#[test]
fn prompt_is_the_template_around_description_and_input() {
    let msg = extend_ai_function(AiFunction::PrintProjectScope, "build a shop");
    let expected = format!(
        "FUNCTION: {} \n    INSTRUCTION: You are a function printer. \n    You ONLY print the results of functions. Nothing else. No commentary. \n    Here is the input to the function: {}. Print out what the function will return.",
        PRINT_PROJECT_SCOPE, "build a shop"
    );
    assert_eq!(msg.content, expected);
}

#[test]
fn prompt_holds_description_and_input() {
    let input = "I need a site that tracks my runs";
    let msg = extend_ai_function(AiFunction::ConvertUserInputToGoal, input);
    assert!(msg.content.contains(CONVERT_USER_INPUT_TO_GOAL));
    assert!(msg.content.contains(input));
    assert!(msg.content.starts_with("FUNCTION: fn convert_user_input_to_goal("));
    assert!(msg.content.ends_with(
        "Here is the input to the function: I need a site that tracks my runs. Print out what the function will return."
    ));
}

#[test]
fn prompt_asks_for_the_result_and_nothing_else() {
    let msg = extend_ai_function(AiFunction::PrintSiteUrls, "x");
    assert!(msg
        .content
        .contains("You ONLY print the results of functions. Nothing else. No commentary."));
}

#[test]
fn prompt_is_the_same_for_the_same_arguments() {
    let first = extend_ai_function(AiFunction::PrintFixedCode, "fn main() {}");
    let second = extend_ai_function(AiFunction::PrintFixedCode, "fn main() {}");
    assert_eq!(first, second);
    assert_eq!(first.content.as_bytes(), second.content.as_bytes());
}

#[test]
fn prompt_of_an_empty_input() {
    let msg = extend_ai_function(AiFunction::PrintFixedCode, "");
    assert!(msg
        .content
        .ends_with("Here is the input to the function: . Print out what the function will return."));
}

#[test]
fn prompts_differ_with_the_capability() {
    let scope = extend_ai_function(AiFunction::PrintProjectScope, "same");
    let urls = extend_ai_function(AiFunction::PrintSiteUrls, "same");
    assert_ne!(scope.content, urls.content);
}

#[test]
fn capabilities_have_their_names() {
    assert_eq!(AiFunction::ConvertUserInputToGoal.name(), "convert_user_input_to_goal");
    assert_eq!(AiFunction::PrintProjectScope.name(), "print_project_scope");
    assert_eq!(AiFunction::PrintSiteUrls.name(), "print_site_urls");
    assert_eq!(AiFunction::PrintBackendWebserverCode.name(), "print_backend_webserver_code");
    assert_eq!(AiFunction::PrintImprovedWebserverCode.name(), "print_improved_webserver_code");
    assert_eq!(AiFunction::PrintFixedCode.name(), "print_fixed_code");
    assert_eq!(AiFunction::PrintRestApiEndpoints.name(), "print_rest_api_endpoints");
}

#[test]
fn capabilities_describe_the_function_of_their_name() {
    let all = [
        AiFunction::ConvertUserInputToGoal,
        AiFunction::PrintProjectScope,
        AiFunction::PrintSiteUrls,
        AiFunction::PrintBackendWebserverCode,
        AiFunction::PrintImprovedWebserverCode,
        AiFunction::PrintFixedCode,
        AiFunction::PrintRestApiEndpoints,
    ];
    for function in all {
        let opening = format!("fn {}(", function.name());
        assert!(function.description().starts_with(&opening));
        assert!(function.description().ends_with("println!(OUTPUT)\n}"));
    }
    assert_eq!(AiFunction::ConvertUserInputToGoal.description(), CONVERT_USER_INPUT_TO_GOAL);
}

#[test]
fn caller_may_bring_a_capability_of_its_own() {
    let function = AiFunction::Custom {
        name: "print_haiku",
        description: "fn print_haiku(_topic: &str) {\n    /// Prints a haiku on the topic\n    println!(OUTPUT)\n}",
    };
    assert_eq!(function.name(), "print_haiku");
    let msg = extend_ai_function(function, "autumn");
    assert_eq!(msg.role, "system");
    assert_eq!(
        msg.content,
        "FUNCTION: fn print_haiku(_topic: &str) {\n    /// Prints a haiku on the topic\n    println!(OUTPUT)\n} \n    INSTRUCTION: You are a function printer. \n    You ONLY print the results of functions. Nothing else. No commentary. \n    Here is the input to the function: autumn. Print out what the function will return."
    );
}
