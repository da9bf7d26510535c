//! The web search tool: the request to the Tavily API and the summary read
//! from its answer.
//!
//! The device layer does the networking; here the request is built and the
//! JSON that comes back is read.

use vstd::prelude::*;
use vstd::string::StringExecFns;

use crate::json::{
    array_text, json_array, json_object, json_string, members_view, object_text, string_value,
    text_at, text_lookup,
};
use crate::text::{chars_of, decimal, first_chars, push_decimal, string_of, trim_chars, trimmed, truncate_chars};

verus! {

/// The name of the function tool given to the session.
pub const TOOL_NAME: &'static str = "search_web";

/// Where searches go.
pub const ENDPOINT: &'static str = "https://api.tavily.com/search";

/// The most characters of a summary handed back to the model, few enough for
/// the short answers the instructions ask for.
pub const SUMMARY_LIMIT: usize = 200;

pub open spec fn property_json(description: Seq<char>) -> Seq<char> {
    json_object(seq![("description"@, json_string(description)), ("type"@, json_string("string"@))])
}

/// The JSON of a function tool that takes one string argument.
pub open spec fn function_tool_json(
    name: Seq<char>,
    description: Seq<char>,
    argument: Seq<char>,
    argument_description: Seq<char>,
) -> Seq<char> {
    json_object(
        seq![
            ("description"@, json_string(description)),
            ("name"@, json_string(name)),
            (
                "parameters"@,
                json_object(
                    seq![
                        ("properties"@, json_object(seq![(argument, property_json(argument_description))])),
                        ("required"@, json_array(seq![json_string(argument)])),
                        ("type"@, json_string("object"@)),
                    ],
                ),
            ),
            ("type"@, json_string("function"@)),
        ],
    )
}

/// Writes a function tool that takes one string argument.
pub(crate) fn function_tool(
    name: &str,
    description: &str,
    argument: &str,
    argument_description: &str,
) -> (tool: String)
    ensures
        tool@ == function_tool_json(name@, description@, argument@, argument_description@),
{
    let mut property: Vec<(&str, String)> = Vec::new();
    property.push(("description", string_value(argument_description)));
    property.push(("type", string_value("string")));
    let mut properties: Vec<(&str, String)> = Vec::new();
    properties.push((argument, object_text(&property)));
    let mut required: Vec<String> = Vec::new();
    required.push(string_value(argument));
    let mut parameters: Vec<(&str, String)> = Vec::new();
    parameters.push(("properties", object_text(&properties)));
    parameters.push(("required", array_text(&required)));
    parameters.push(("type", string_value("object")));
    let mut members: Vec<(&str, String)> = Vec::new();
    members.push(("description", string_value(description)));
    members.push(("name", string_value(name)));
    members.push(("parameters", object_text(&parameters)));
    members.push(("type", string_value("function")));
    proof {
        assert(members_view(property@) =~= seq![
            ("description"@, json_string(argument_description@)),
            ("type"@, json_string("string"@)),
        ]);
        assert(members_view(properties@) =~= seq![(argument@, property_json(argument_description@))]);
        assert(crate::text::views_of(required@) =~= seq![json_string(argument@)]);
        assert(members_view(parameters@) =~= seq![
            ("properties"@, json_object(seq![(argument@, property_json(argument_description@))])),
            ("required"@, json_array(seq![json_string(argument@)])),
            ("type"@, json_string("object"@)),
        ]);
        assert(members_view(members@) =~= seq![
            ("description"@, json_string(description@)),
            ("name"@, json_string(name@)),
            (
                "parameters"@,
                json_object(
                    seq![
                        ("properties"@, json_object(seq![(argument@, property_json(argument_description@))])),
                        ("required"@, json_array(seq![json_string(argument@)])),
                        ("type"@, json_string("object"@)),
                    ],
                ),
            ),
            ("type"@, json_string("function"@)),
        ]);
    }
    object_text(&members)
}

pub open spec fn search_tool_json() -> Seq<char> {
    function_tool_json(
        TOOL_NAME@,
        "自分が知らない、今のできごとや事実を調べたいときに使う。おしゃべりや気持ちの相談には使わない。"@,
        "query"@,
        "調べたいことを短い言葉で表したもの。"@,
    )
}

/// The function tool given to the session, as JSON text.
pub fn tool_definition() -> (tool: String)
    ensures
        tool@ == search_tool_json(),
{
    function_tool(
        TOOL_NAME,
        "自分が知らない、今のできごとや事実を調べたいときに使う。おしゃべりや気持ちの相談には使わない。",
        "query",
        "調べたいことを短い言葉で表したもの。",
    )
}

/// A request to the search API; the device layer sends it.
#[derive(Debug, Clone, PartialEq, Eq)]
pub struct SearchRequest {
    pub url: String,
    pub headers: Vec<(String, String)>,
    pub body: String,
}

/// The body of a search: a generated answer, one result, safe search.
pub open spec fn search_body(query: Seq<char>) -> Seq<char> {
    json_object(
        seq![
            ("include_answer"@, "true"@),
            ("max_results"@, "1"@),
            ("query"@, json_string(query)),
            ("safe_search"@, "true"@),
            ("search_depth"@, json_string("basic"@)),
        ],
    )
}

/// Whether `request` is the search for `query` with `api_key`: posted to the
/// endpoint with the key as a bearer token, the JSON body, and its length
/// in bytes.
pub open spec fn is_search_request(request: SearchRequest, query: Seq<char>, api_key: Seq<char>) -> bool {
    &&& request.url@ == ENDPOINT@
    &&& request.body@ == search_body(query)
    &&& request.headers@.len() == 3
    &&& request.headers@[0].0@ == "Authorization"@
    &&& request.headers@[0].1@ == "Bearer "@ + api_key
    &&& request.headers@[1].0@ == "Content-Type"@
    &&& request.headers@[1].1@ == "application/json"@
    &&& request.headers@[2].0@ == "Content-Length"@
    &&& request.headers@[2].1@ == decimal(
        (vstd::utf8::encode_utf8(request.body@).len() as usize) as nat,
    )
}

/// Builds the request for a search.
pub fn build_request(query: &str, api_key: &str) -> (request: SearchRequest)
    ensures
        is_search_request(request, query@, api_key@),
{
    let mut members: Vec<(&str, String)> = Vec::new();
    members.push(("include_answer", "true".to_owned()));
    members.push(("max_results", "1".to_owned()));
    members.push(("query", string_value(query)));
    members.push(("safe_search", "true".to_owned()));
    members.push(("search_depth", string_value("basic")));
    assert(members_view(members@) =~= seq![
        ("include_answer"@, "true"@),
        ("max_results"@, "1"@),
        ("query"@, json_string(query@)),
        ("safe_search"@, "true"@),
        ("search_depth"@, json_string("basic"@)),
    ]);
    let body = object_text(&members);
    let mut bearer = "Bearer ".to_owned();
    bearer.append(api_key);
    let mut length = String::new();
    push_decimal(&mut length, body.as_str().len() as u64);
    let mut headers: Vec<(String, String)> = Vec::new();
    headers.push(("Authorization".to_owned(), bearer));
    headers.push(("Content-Type".to_owned(), "application/json".to_owned()));
    headers.push(("Content-Length".to_owned(), length));
    SearchRequest { url: ENDPOINT.to_owned(), headers, body }
}

/// The search words in the arguments of a call: the `query` string, trimmed,
/// if it is not blank.
pub open spec fn query_of(arguments_json: Seq<char>) -> Option<Seq<char>> {
    match text_lookup(arguments_json, "/query"@) {
        Some(query) => if trimmed(query).len() > 0 {
            Some(trimmed(query))
        } else {
            None
        },
        None => None,
    }
}

/// Reads the search words from the arguments the model sent (`{"query": "..."}`).
pub fn extract_query(arguments_json: &str) -> (query: Option<String>)
    ensures
        match query {
            Some(q) => query_of(arguments_json@) == Some(q@),
            None => query_of(arguments_json@) is None,
        },
{
    let query = match text_at(arguments_json, "/query") {
        Some(query) => query,
        None => return None,
    };
    let trimmed_query = trim_chars(&chars_of(query.as_str()));
    if trimmed_query.len() == 0 {
        None
    } else {
        Some(string_of(&trimmed_query))
    }
}

/// A non-empty string at `pointer`.
pub open spec fn filled_text(body: Seq<char>, pointer: Seq<char>) -> Option<Seq<char>> {
    match text_lookup(body, pointer) {
        Some(text) => if text.len() > 0 {
            Some(text)
        } else {
            None
        },
        None => None,
    }
}

/// The summary for the model: the generated answer if there is one, else the
/// text of the first result, cut to `SUMMARY_LIMIT` characters. Nothing when
/// neither is there, so that the model can honestly say it does not know.
pub open spec fn summary_of(body: Seq<char>) -> Option<Seq<char>> {
    match filled_text(body, "/answer"@) {
        Some(answer) => Some(first_chars(answer, SUMMARY_LIMIT as nat)),
        None => match filled_text(body, "/results/0/content"@) {
            Some(content) => Some(first_chars(content, SUMMARY_LIMIT as nat)),
            None => None,
        },
    }
}

fn take_filled(body: &str, pointer: &str) -> (text: Option<String>)
    ensures
        match text {
            Some(t) => filled_text(body@, pointer@) == Some(t@),
            None => filled_text(body@, pointer@) is None,
        },
{
    match text_at(body, pointer) {
        Some(text) => {
            if text.as_str().is_empty() {
                None
            } else {
                Some(text)
            }
        },
        None => None,
    }
}

/// Reads the summary to hand back to the model from the search API's answer.
pub fn parse_response(body: &str) -> (summary: Option<String>)
    ensures
        match summary {
            Some(s) => summary_of(body@) == Some(s@),
            None => summary_of(body@) is None,
        },
{
    let text = match take_filled(body, "/answer") {
        Some(answer) => answer,
        None => match take_filled(body, "/results/0/content") {
            Some(content) => content,
            None => return None,
        },
    };
    Some(truncate_chars(&chars_of(text.as_str()), SUMMARY_LIMIT))
}

} // verus!
