//! The request that goes to the completion service, and what counts as its
//! reply.

use vstd::prelude::*;
use crate::json::{json_quoted, quoted};

verus! {

/// The completion service.
pub const SERVICE_URL: &'static str = "https://api.openai.com";

/// Where the service takes chat completions.
pub const CHAT_PATH: &'static str = "/v1/chat/completions";

/// The model that is asked.
pub const CHAT_MODEL: &'static str = "gpt-4o-mini";

/// The method of the request.
pub const METHOD: &'static str = "POST";

/// What stands before the key in the authorization header.
pub const BEARER: &'static str = "Bearer ";

/// The content type of the request's body.
pub const JSON_CONTENT: &'static str = "application/json";

/// The reply that stands for a request that could not be made.
pub const EMPTY_REPLY: &'static str = "{}";

/// The body up to the prompt.
pub const BODY_OPENING: &'static str = "{\"messages\":[{\"content\":";

/// The body between the prompt and the model.
pub const BODY_MIDDLE: &'static str = ",\"role\":\"user\"}],\"model\":";

/// The end of the body.
pub const BODY_CLOSING: &'static str = "}";

/// One request.
#[derive(Debug, Clone, PartialEq, Eq)]
pub struct CompletionRequest {
    /// The method.
    pub method: String,
    /// The address.
    pub url: String,
    /// The value of the authorization header.
    pub authorization: String,
    /// The value of the content type header.
    pub content_type: String,
    /// The body.
    pub body: String,
}

/// The body that asks the model with one message of the user, which holds
/// the prompt: a JSON object on one line, with its keys in their order.
pub open spec fn body_text(prompt: Seq<char>) -> Seq<char> {
    BODY_OPENING@ + json_quoted(prompt) + BODY_MIDDLE@ + json_quoted(CHAT_MODEL@) + BODY_CLOSING@
}

/// Whether the request is the one that carries the prompt under the key.
pub open spec fn carries(request: CompletionRequest, prompt: Seq<char>, api_key: Seq<char>) -> bool {
    &&& request.method@ == METHOD@
    &&& request.url@ == SERVICE_URL@ + CHAT_PATH@
    &&& request.authorization@ == BEARER@ + api_key
    &&& request.content_type@ == JSON_CONTENT@
    &&& request.body@ == body_text(prompt)
}

/// Builds the request that carries the prompt under the key.
pub fn build_request(prompt: &str, api_key: &str) -> (request: CompletionRequest)
    ensures
        carries(request, prompt@, api_key@),
{
    let mut url = String::from_str(SERVICE_URL);
    url.append(CHAT_PATH);
    let mut authorization = String::from_str(BEARER);
    authorization.append(api_key);
    let mut body = String::from_str(BODY_OPENING);
    body.append(quoted(prompt).as_str());
    body.append(BODY_MIDDLE);
    body.append(quoted(CHAT_MODEL).as_str());
    body.append(BODY_CLOSING);
    CompletionRequest {
        method: String::from_str(METHOD),
        url,
        authorization,
        content_type: String::from_str(JSON_CONTENT),
        body,
    }
}

/// The text that is read as the service's reply: what it sent, or the empty
/// object where the request could not be made.
pub open spec fn reply_text(sent: Option<Seq<char>>) -> Seq<char> {
    match sent {
        Some(text) => text,
        None => EMPTY_REPLY@,
    }
}

/// Takes what the service sent as its reply, and puts the empty object in
/// the place of a reply that never came.
pub fn reply_or_empty(sent: Option<String>) -> (reply: String)
    ensures
        reply@ == reply_text(
            match sent {
                Some(text) => Some(text@),
                None => None,
            },
        ),
{
    match sent {
        Some(text) => text,
        None => String::from_str(EMPTY_REPLY),
    }
}

} // verus!
