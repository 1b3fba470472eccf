use agent_pipeline::agent_backend::{
    fixed_code_context, improved_code_context, initial_code_context, rest_api_endpoints_context,
    REPAIR_BUDGET,
};
use agent_pipeline::agent_traits::AgentError;
use agent_pipeline::generals::{decoded_urls, Answer};

#[test]
fn initial_context_holds_template_and_description() {
    assert_eq!(
        initial_code_context("fn main() {}", "build a shop"),
        "CODE TEMPLATE: fn main() {} \n PROJEC_DESCRIPTION: build a shop \n"
    );
    assert_eq!(initial_code_context("", ""), "CODE TEMPLATE:  \n PROJEC_DESCRIPTION:  \n");
}

#[test]
fn improved_context_holds_code_and_document() {
    assert_eq!(
        improved_code_context("Some(\"code\")", "FactSheet { .. }"),
        "CODE TEMPLATE: Some(\"code\") \n PROJEC_DESCRIPTION: FactSheet { .. } \n"
    );
}

#[test]
fn fixed_context_holds_code_and_diagnostics() {
    assert_eq!(
        fixed_code_context("Some(\"code\")", "Some(\"error\")"),
        "BROKEN_CODE: Some(\"code\") \n ERROR_BUGS: Some(\"error\") \n\n            THIS FUNCTION ONLY OUTPUTS CODE. JUST OUTPUT THE CODE."
    );
    assert_eq!(
        fixed_code_context("None", "None"),
        "BROKEN_CODE: None \n ERROR_BUGS: None \n\n            THIS FUNCTION ONLY OUTPUTS CODE. JUST OUTPUT THE CODE."
    );
}

#[test]
fn endpoints_context_holds_the_source() {
    assert_eq!(rest_api_endpoints_context("fn main() {}"), "CODE_INPUT: fn main() {}");
    assert_eq!(rest_api_endpoints_context(""), "CODE_INPUT: ");
}

#[test]
fn repair_budget_is_two() {
    assert_eq!(REPAIR_BUDGET, 2);
}

#[test]
fn parsed_list_is_the_answer() {
    let parsed = serde_json::from_str::<Vec<String>>("[\"https://a.example\", \"b\"]");
    assert_eq!(
        decoded_urls(parsed),
        Ok(Answer::Urls(vec!["https://a.example".to_string(), "b".to_string()]))
    );
    assert_eq!(decoded_urls(Ok(vec![])), Ok(Answer::Urls(vec![])));
}

#[test]
fn text_that_did_not_parse_is_a_decode_error() {
    assert_eq!(
        decoded_urls(serde_json::from_str::<Vec<String>>("{\"a\": 1}")),
        Err(AgentError::Decode)
    );
    assert_eq!(
        decoded_urls(serde_json::from_str::<Vec<String>>("[\"a\",]")),
        Err(AgentError::Decode)
    );
}
