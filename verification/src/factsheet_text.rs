//! How the project document is shown to the language model: as `{:?}` shows
//! it, on one line, every field by its name.

use vstd::prelude::*;
use vstd::string::*;
use crate::agent_traits::{
    optional_text_view, optional_texts_view, texts_view, FactSheet, FactSheetView, ProjectScope,
};

verus! {

/// How `{:?}` shows a text: between double quotes, with the characters
/// escaped that need it.
pub uninterp spec fn text_debug(text: Seq<char>) -> Seq<char>;

/// `format!` with `{:?}` on a `str`, that is the `Debug` impl of `str` in
/// std. The text that comes out depends on the characters of the argument
/// alone, which is all that the contract claims: it is the text that
/// `text_debug` names.
#[verifier::external_body]
fn debug_text(text: &str) -> (shown: String)
    ensures
        shown@ == text_debug(text@),
{
    format!("{:?}", text)
}

/// How a value that is there is shown, given how the value itself is shown.
pub open spec fn some_debug(shown: Seq<char>) -> Seq<char> {
    "Some("@ + shown + ")"@
}

/// How an optional text is shown.
pub open spec fn optional_text_debug(text: Option<Seq<char>>) -> Seq<char> {
    match text {
        Some(text) => some_debug(text_debug(text)),
        None => "None"@,
    }
}

/// The items of a list with a comma and a space between two of them.
pub open spec fn items_listed(items: Seq<Seq<char>>) -> Seq<char>
    decreases items.len(),
{
    if items.len() == 0 {
        Seq::empty()
    } else if items.len() == 1 {
        items[0]
    } else {
        items_listed(items.drop_last()) + ", "@ + items.last()
    }
}

/// How a list is shown, given how its items are shown.
pub open spec fn list_debug(items: Seq<Seq<char>>) -> Seq<char> {
    "["@ + items_listed(items) + "]"@
}

/// The texts of a list, each as it is shown.
pub open spec fn texts_shown(texts: Seq<Seq<char>>) -> Seq<Seq<char>> {
    texts.map_values(|text: Seq<char>| text_debug(text))
}

/// How an optional list of texts is shown.
pub open spec fn optional_texts_debug(texts: Option<Seq<Seq<char>>>) -> Seq<char> {
    match texts {
        Some(texts) => some_debug(list_debug(texts_shown(texts))),
        None => "None"@,
    }
}

/// How a flag is shown.
pub open spec fn flag_debug(flag: bool) -> Seq<char> {
    if flag {
        "true"@
    } else {
        "false"@
    }
}

/// How a project scope is shown.
pub open spec fn scope_debug(scope: ProjectScope) -> Seq<char> {
    "ProjectScope { is_crud_required: "@ + flag_debug(scope.is_crud_required)
        + ", is_user_login_and_logout: "@ + flag_debug(scope.is_user_login_and_logout)
        + ", is_external_urls_required: "@ + flag_debug(scope.is_external_urls_required) + " }"@
}

/// How an optional project scope is shown.
pub open spec fn optional_scope_debug(scope: Option<ProjectScope>) -> Seq<char> {
    match scope {
        Some(scope) => some_debug(scope_debug(scope)),
        None => "None"@,
    }
}

/// How the project document is shown.
pub open spec fn factsheet_debug(factsheet: FactSheetView) -> Seq<char> {
    "FactSheet { project_description: "@ + text_debug(factsheet.project_description)
        + ", project_scope: "@ + optional_scope_debug(factsheet.project_scope)
        + ", external_urls: "@ + optional_texts_debug(factsheet.external_urls)
        + ", backend_code: "@ + optional_text_debug(factsheet.backend_code)
        + ", api_endpoint_schema: "@ + optional_text_debug(factsheet.api_endpoint_schema) + " }"@
}

/// Shows a value that is there, given how the value itself is shown.
pub fn show_some(shown: &str) -> (text: String)
    ensures
        text@ == some_debug(shown@),
{
    let mut text = String::from_str("Some(");
    text.append(shown);
    text.append(")");
    text
}

/// Shows a list, given how its items are shown.
pub fn show_list(items: &Vec<String>) -> (shown: String)
    ensures
        shown@ == list_debug(texts_view(items@)),
{
    let ghost all = texts_view(items@);
    let mut shown = String::from_str("[");
    let mut i: usize = 0;
    while i < items.len()
        invariant
            i <= items.len(),
            all == texts_view(items@),
            shown@ == "["@ + items_listed(all.take(i as int)),
        decreases items.len() - i,
    {
        let ghost before = all.take(i as int);
        let ghost longer = all.take(i as int + 1);
        assert(longer.drop_last() =~= before);
        if i > 0 {
            shown.append(", ");
        }
        shown.append(items[i].as_str());
        assert(shown@ =~= "["@ + items_listed(longer));
        i = i + 1;
    }
    assert(all.take(i as int) =~= all);
    shown.append("]");
    shown
}

/// Shows an optional text.
pub fn show_optional_text(text: &Option<String>) -> (shown: String)
    ensures
        shown@ == optional_text_debug(optional_text_view(*text)),
{
    match text {
        Some(text) => show_some(debug_text(text.as_str()).as_str()),
        None => String::from_str("None"),
    }
}

/// Shows an optional list of texts.
pub fn show_optional_texts(texts: &Option<Vec<String>>) -> (shown: String)
    ensures
        shown@ == optional_texts_debug(optional_texts_view(*texts)),
{
    match texts {
        Some(texts) => {
            let mut items: Vec<String> = Vec::new();
            let mut i: usize = 0;
            while i < texts.len()
                invariant
                    i <= texts.len(),
                    texts_view(items@) == texts_shown(texts_view(texts@).take(i as int)),
                decreases texts.len() - i,
            {
                let ghost before = texts_view(items@);
                items.push(debug_text(texts[i].as_str()));
                assert(texts_view(items@) =~= texts_shown(texts_view(texts@).take(i as int + 1)))
                    by {
                    assert(texts_view(items@) =~= before.push(
                        text_debug(texts_view(texts@)[i as int]),
                    ));
                }
                i = i + 1;
            }
            assert(texts_view(texts@).take(i as int) =~= texts_view(texts@));
            show_some(show_list(&items).as_str())
        },
        None => String::from_str("None"),
    }
}

/// Shows a flag.
pub fn show_flag(flag: bool) -> (shown: &'static str)
    ensures
        shown@ == flag_debug(flag),
{
    if flag {
        "true"
    } else {
        "false"
    }
}

/// Shows a project scope.
pub fn show_scope(scope: &ProjectScope) -> (shown: String)
    ensures
        shown@ == scope_debug(*scope),
{
    let mut shown = String::from_str("ProjectScope { is_crud_required: ");
    shown.append(show_flag(scope.is_crud_required));
    shown.append(", is_user_login_and_logout: ");
    shown.append(show_flag(scope.is_user_login_and_logout));
    shown.append(", is_external_urls_required: ");
    shown.append(show_flag(scope.is_external_urls_required));
    shown.append(" }");
    shown
}

/// Shows an optional project scope.
pub fn show_optional_scope(scope: &Option<ProjectScope>) -> (shown: String)
    ensures
        shown@ == optional_scope_debug(*scope),
{
    match scope {
        Some(scope) => show_some(show_scope(scope).as_str()),
        None => String::from_str("None"),
    }
}

/// Shows the project document.
pub fn show_factsheet(factsheet: &FactSheet) -> (shown: String)
    ensures
        shown@ == factsheet_debug(factsheet@),
{
    let mut shown = String::from_str("FactSheet { project_description: ");
    shown.append(debug_text(factsheet.project_description.as_str()).as_str());
    shown.append(", project_scope: ");
    shown.append(show_optional_scope(&factsheet.project_scope).as_str());
    shown.append(", external_urls: ");
    shown.append(show_optional_texts(&factsheet.external_urls).as_str());
    shown.append(", backend_code: ");
    shown.append(show_optional_text(&factsheet.backend_code).as_str());
    shown.append(", api_endpoint_schema: ");
    shown.append(show_optional_text(&factsheet.api_endpoint_schema).as_str());
    shown.append(" }");
    shown
}

} // verus!
