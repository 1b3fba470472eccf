//! The capabilities that the language model is asked to act out.
//!
//! A capability is a function that is described and never run: the model
//! receives the description together with an input and prints what the
//! function would return.

use vstd::prelude::*;

verus! {

pub const CONVERT_USER_INPUT_TO_GOAL: &'static str =
    "fn convert_user_input_to_goal(_user_request: &str) {\n    /// Input: Takes in a user request\n    /// Function: Converts the user request into a short summarized goal\n    /// Output: Prints the goal. All outputs start with \"build a website that ...\"\n    /// Example 1:\n    ///   user_request = \"I need a website that lets users login and logout. It needs to look fancy and accept payments.\"\n    ///   prints:\n    ///     build a website that handles users logging in and logging out and accepts payments\n    /// Example 2:\n    ///   user_request = \"Create something that stores crypto price data in a database and retrieves prices on the frontend.\"\n    ///   prints:\n    ///     build a website that fetches and stores crypto price data in a database and shows it on a frontend\n    println!(OUTPUT)\n}";

pub const PRINT_PROJECT_SCOPE: &'static str =
    "fn print_project_scope(_project_description: &str) {\n    /// Input: Takes in the description of a website project\n    /// Function: Outputs a struct as json that holds the key requirements of the project\n    /// Important: At least one of the bool results must be true\n    /// Output: Prints an object response in the following format:\n    ///   {\n    ///     \"is_crud_required\": bool, // true if the site needs CRUD functionality\n    ///     \"is_user_login_and_logout\": bool, // true if users must be able to log in and log out\n    ///     \"is_external_urls_required\": bool // true if the site needs to fetch data from third party providers\n    ///   }\n    /// Example 1:\n    ///   project_description = \"build a user login and logout system for a shop\"\n    ///   prints:\n    ///   {\n    ///     \"is_crud_required\": true,\n    ///     \"is_user_login_and_logout\": true,\n    ///     \"is_external_urls_required\": false\n    ///   }\n    /// Example 2:\n    ///   project_description = \"build a website that shows the latest weather\"\n    ///   prints:\n    ///   {\n    ///     \"is_crud_required\": false,\n    ///     \"is_user_login_and_logout\": false,\n    ///     \"is_external_urls_required\": true\n    ///   }\n    println!(OUTPUT)\n}";

pub const PRINT_SITE_URLS: &'static str =
    "fn print_site_urls(_project_description: &str) {\n    /// Input: Takes in the description of a website project\n    /// Function: Outputs a list of external public API endpoints that should be used to build the website\n    /// Important: Only selects url endpoints which do not require any API keys at all\n    /// Output: Prints a list response of external urls in the following format:\n    ///   [\"url1\", \"url2\", \"url3\", ...]\n    /// Example:\n    ///   project_description = \"build a website that tracks the price of gold\"\n    ///   prints:\n    ///   [\"https://api.example.com/v1/prices/gold\"]\n    println!(OUTPUT)\n}";

pub const PRINT_BACKEND_WEBSERVER_CODE: &'static str =
    "fn print_backend_webserver_code(_project_description_and_template: &str) {\n    /// INPUT: Takes in a PROJECT_DESCRIPTION and a CODE_TEMPLATE for the backend of a website\n    /// IMPORTANT: The code template is ONLY an example. If the project description requires it, make as many changes as you like.\n    /// IMPORTANT: You do not need to follow the code template exactly. Write functions that make sense for the request of the user.\n    /// FUNCTION: Takes the code marked as CODE_TEMPLATE and updates or rewrites it to serve the purpose in the PROJECT_DESCRIPTION\n    /// OUTPUT: Prints ONLY the code, nothing else. This function ONLY prints code.\n    println!(OUTPUT)\n}";

pub const PRINT_IMPROVED_WEBSERVER_CODE: &'static str =
    "fn print_improved_webserver_code(_project_description_and_code: &str) {\n    /// INPUT: Takes in a PROJECT_DESCRIPTION and the CODE_TEMPLATE of a website backend\n    /// FUNCTION: Performs the following tasks:\n    ///   1. Removes any bugs in the code and adds minor additional functionality\n    ///   2. Makes sure everything requested in the project description is met by the backend code\n    ///   3. ONLY writes the code. No commentary.\n    /// OUTPUT: Prints ONLY the code, nothing else. This function ONLY prints code.\n    println!(OUTPUT)\n}";

pub const PRINT_FIXED_CODE: &'static str =
    "fn print_fixed_code(_broken_code_with_bugs: &str) {\n    /// INPUT: Takes in BROKEN_CODE and the ERROR_BUGS that the compiler found in it\n    /// FUNCTION: Removes the bugs from the code\n    /// IMPORTANT: Only prints the new and improved code. No commentary or anything else\n    /// OUTPUT: Prints out the fixed code ONLY\n    println!(OUTPUT)\n}";

pub const PRINT_REST_API_ENDPOINTS: &'static str =
    "fn print_rest_api_endpoints(_code_input: &str) {\n    /// INPUT: Takes in the CODE_INPUT of a backend that is built on a web framework\n    /// FUNCTION: Prints out the json schema of the url endpoints and their respective types\n    /// IMPORTANT: Only prints the json schema. No commentary or anything else\n    /// OUTPUT: Prints the schema as a list of objects of the following format:\n    ///   [\n    ///     {\n    ///       \"path\": \"/item/{id}\",\n    ///       \"is_route_dynamic\": \"true\",\n    ///       \"method\": \"get\",\n    ///       \"request_body\": \"None\",\n    ///       \"response\": {\n    ///         \"id\": \"number\",\n    ///         \"name\": \"string\"\n    ///       }\n    ///     }\n    ///   ]\n    println!(OUTPUT)\n}";

/// A capability descriptor: a named, described function whose output the
/// language model is asked to produce.
#[derive(Clone, Copy, Debug, PartialEq, Eq)]
pub enum AiFunction {
    /// Turns the free-form request of a user into a project goal.
    ConvertUserInputToGoal,
    /// Derives the scope of a project from its description.
    PrintProjectScope,
    /// Lists external endpoints that a project should fetch from.
    PrintSiteUrls,
    /// Writes backend code from a template and a project description.
    PrintBackendWebserverCode,
    /// Improves backend code that already exists.
    PrintImprovedWebserverCode,
    /// Repairs backend code that the compiler refused.
    PrintFixedCode,
    /// Lists the endpoints that backend code serves.
    PrintRestApiEndpoints,
    /// A capability that the caller brings: its name, and the description
    /// that the model is shown.
    Custom { name: &'static str, description: &'static str },
}

impl AiFunction {
    /// The name of the capability.
    pub open spec fn name_spec(self) -> Seq<char> {
        match self {
            AiFunction::ConvertUserInputToGoal => "convert_user_input_to_goal"@,
            AiFunction::PrintProjectScope => "print_project_scope"@,
            AiFunction::PrintSiteUrls => "print_site_urls"@,
            AiFunction::PrintBackendWebserverCode => "print_backend_webserver_code"@,
            AiFunction::PrintImprovedWebserverCode => "print_improved_webserver_code"@,
            AiFunction::PrintFixedCode => "print_fixed_code"@,
            AiFunction::PrintRestApiEndpoints => "print_rest_api_endpoints"@,
            AiFunction::Custom { name, .. } => name@,
        }
    }

    /// The declarative description that the model is shown.
    pub open spec fn description_spec(self) -> Seq<char> {
        match self {
            AiFunction::ConvertUserInputToGoal => CONVERT_USER_INPUT_TO_GOAL@,
            AiFunction::PrintProjectScope => PRINT_PROJECT_SCOPE@,
            AiFunction::PrintSiteUrls => PRINT_SITE_URLS@,
            AiFunction::PrintBackendWebserverCode => PRINT_BACKEND_WEBSERVER_CODE@,
            AiFunction::PrintImprovedWebserverCode => PRINT_IMPROVED_WEBSERVER_CODE@,
            AiFunction::PrintFixedCode => PRINT_FIXED_CODE@,
            AiFunction::PrintRestApiEndpoints => PRINT_REST_API_ENDPOINTS@,
            AiFunction::Custom { description, .. } => description@,
        }
    }

    /// The name of the capability, used as the label of the operation that
    /// requests it.
    pub fn name(self) -> (name: &'static str)
        ensures
            name@ == self.name_spec(),
    {
        match self {
            AiFunction::ConvertUserInputToGoal => "convert_user_input_to_goal",
            AiFunction::PrintProjectScope => "print_project_scope",
            AiFunction::PrintSiteUrls => "print_site_urls",
            AiFunction::PrintBackendWebserverCode => "print_backend_webserver_code",
            AiFunction::PrintImprovedWebserverCode => "print_improved_webserver_code",
            AiFunction::PrintFixedCode => "print_fixed_code",
            AiFunction::PrintRestApiEndpoints => "print_rest_api_endpoints",
            AiFunction::Custom { name, .. } => name,
        }
    }

    /// Resolves the descriptor to its declarative description.
    pub fn description(self) -> (description: &'static str)
        ensures
            description@ == self.description_spec(),
    {
        match self {
            AiFunction::ConvertUserInputToGoal => CONVERT_USER_INPUT_TO_GOAL,
            AiFunction::PrintProjectScope => PRINT_PROJECT_SCOPE,
            AiFunction::PrintSiteUrls => PRINT_SITE_URLS,
            AiFunction::PrintBackendWebserverCode => PRINT_BACKEND_WEBSERVER_CODE,
            AiFunction::PrintImprovedWebserverCode => PRINT_IMPROVED_WEBSERVER_CODE,
            AiFunction::PrintFixedCode => PRINT_FIXED_CODE,
            AiFunction::PrintRestApiEndpoints => PRINT_REST_API_ENDPOINTS,
            AiFunction::Custom { description, .. } => description,
        }
    }
}

} // verus!
