//! Requests to the VK API and the replies it gives: the address of a method,
//! the parameters every request carries, and the reading of a reply.

use vstd::prelude::*;
use crate::json::{JsonValue, find_key, field, has_key, lemma_first_key_index};
use crate::params::Params;
use crate::text::{int_decimal, i64_to_decimal};

verus! {

/// `serde_json::Error`, the error of a failed (de)serialisation; carried only.
#[verifier::external_type_specification]
#[verifier::external_body]
pub struct ExSerdeJsonError(serde_json::Error);

/// `reqwest::Error`, the error of a failed HTTP request; carried only.
#[verifier::external_type_specification]
#[verifier::external_body]
pub struct ExReqwestError(reqwest::Error);

/// The version of the VK API that every request asks for.
pub const API_VERSION: &'static str = "5.103";

/// The API method that sends a message.
pub const MESSAGES_SEND_METHOD: &'static str = "messages.send";

/// The address under which the VK API serves its methods.
pub const API_BASE_URL: &'static str = "https://api.vk.com/method/";

/// A successful reply of the API: the value under `response`.
pub struct APIResponse<T> {
    pub response: T,
}

/// An error that the API answered with.
pub struct APIError {
    pub error: APIErrorInner,
}

/// The contents of an error that the API answered with.
pub struct APIErrorInner {
    pub error_code: i32,
    pub error_msg: String,
    pub request_params: Vec<JsonValue>,
}

/// What can go wrong in talking to the API.
pub enum VkwaveError {
    /// The HTTP request failed.
    Reqwest(reqwest::Error),
    /// A value could not be (de)serialised.
    Serde(serde_json::Error),
    /// The API answered with an error.
    API(APIError),
    /// Anything else, with its description.
    Other(String),
}

impl VkwaveError {
    /// The text that describes the error.
    pub open spec fn spec_message(&self) -> Seq<char> {
        match self {
            VkwaveError::Reqwest(_) => "Error during request"@,
            VkwaveError::Serde(_) => "Error during de/serialization"@,
            VkwaveError::API(e) => "["@ + int_decimal(e.error.error_code as int) + "] "@
                + e.error.error_msg@,
            VkwaveError::Other(s) => s@,
        }
    }

    /// The text that describes the error: fixed words for a failed request or
    /// (de)serialisation, `[code] message` for an error of the API, and the
    /// description itself otherwise.
    pub fn message(&self) -> (s: String)
        ensures
            s@ == self.spec_message(),
    {
        match self {
            VkwaveError::Reqwest(_) => String::from_str("Error during request"),
            VkwaveError::Serde(_) => String::from_str("Error during de/serialization"),
            VkwaveError::API(e) => {
                let mut s = String::from_str("[");
                let code = i64_to_decimal(e.error.error_code as i64);
                s.append(code.as_str());
                s.append("] ");
                s.append(e.error.error_msg.as_str());
                s
            },
            VkwaveError::Other(m) => m.clone(),
        }
    }
}

/// The address of the API method `method`.
pub open spec fn spec_method_url(method: Seq<char>) -> Seq<char> {
    API_BASE_URL@ + method
}

/// The address to which a call of the API method `method` is posted.
pub fn method_url(method: &str) -> (url: String)
    ensures
        url@ == spec_method_url(method@),
{
    let mut url = String::from_str(API_BASE_URL);
    url.append(method);
    url
}

/// The parameters of a request as it is sent: those given, with the access
/// token and the version of the API set over any value they had.
pub fn prepare_api_params(params: Params, token: &str) -> (sent: Params)
    ensures
        sent@ == params@.insert("access_token"@, token@).insert("v"@, API_VERSION@),
{
    let mut sent = params;
    sent.insert("access_token", String::from_str(token));
    sent.insert("v", String::from_str(API_VERSION));
    sent
}

/// The parameters of `messages.send` that answer into the conversation
/// `peer_id` with the text `message`.
pub fn answer_params(peer_id: i64, message: String) -> (params: Params)
    ensures
        params@ == Map::<Seq<char>, Seq<char>>::empty()
            .insert("peer_id"@, int_decimal(peer_id as int))
            .insert("message"@, message@)
            .insert("random_id"@, "0"@),
{
    let mut params = Params::new();
    params.insert("peer_id", i64_to_decimal(peer_id));
    params.insert("message", message);
    params.insert("random_id", String::from_str("0"));
    params
}

/// A reply of the API, read as far as the library reads it.
pub enum ParsedResponse {
    /// The value under `response`.
    Response(JsonValue),
    /// The value under `error`, where there is no `response`.
    Error(JsonValue),
}

/// The description of a reply that is not a JSON object.
pub open spec fn not_an_object_message() -> Seq<char> {
    "API has returned not an object"@
}

/// The description of a reply that has neither `response` nor `error`.
pub open spec fn neither_message() -> Seq<char> {
    "API has returned neither error nor response"@
}

/// Reads a reply of the API: an object with a `response` yields it, one
/// with an `error` and no `response` yields that error, and anything else
/// is refused.
pub fn parse_response(response: JsonValue) -> (r: Result<ParsedResponse, VkwaveError>)
    ensures
        match response {
            JsonValue::Object(entries) => {
                if has_key(entries@, "response"@) {
                    r == Ok::<ParsedResponse, VkwaveError>(
                        ParsedResponse::Response(field(entries@, "response"@).unwrap()),
                    )
                } else if has_key(entries@, "error"@) {
                    r == Ok::<ParsedResponse, VkwaveError>(
                        ParsedResponse::Error(field(entries@, "error"@).unwrap()),
                    )
                } else {
                    r matches Err(VkwaveError::Other(m)) && m@ == neither_message()
                }
            },
            _ => r matches Err(VkwaveError::Other(m)) && m@ == not_an_object_message(),
        },
{
    match response {
        JsonValue::Object(mut entries) => {
            let ghost members = entries@;
            match find_key(&entries, "response") {
                Some(i) => {
                    proof {
                        lemma_first_key_index(members, "response"@, i as int);
                    }
                    let (_, value) = entries.remove(i);
                    Ok(ParsedResponse::Response(value))
                },
                None => match find_key(&entries, "error") {
                    Some(i) => {
                        proof {
                            lemma_first_key_index(members, "error"@, i as int);
                        }
                        let (_, value) = entries.remove(i);
                        Ok(ParsedResponse::Error(value))
                    },
                    None => Err(
                        VkwaveError::Other(
                            String::from_str("API has returned neither error nor response"),
                        ),
                    ),
                },
            }
        },
        _ => Err(VkwaveError::Other(String::from_str("API has returned not an object"))),
    }
}

/// A method's address is `https://api.vk.com/method/` followed by the
/// method's name, whatever the name.
pub proof fn law_method_url(method: Seq<char>)
    ensures
        spec_method_url(method) == "https://api.vk.com/method/"@ + method,
        spec_method_url(method).len() == "https://api.vk.com/method/"@.len() + method.len(),
{
}

/// The description of an error of the API is `[`, its code in decimal, `] `
/// and its message; that of any other error is its own text or fixed words.
pub proof fn law_error_message(e: VkwaveError)
    ensures
        e matches VkwaveError::API(a) ==> e.spec_message() == "["@ + int_decimal(
            a.error.error_code as int,
        ) + "] "@ + a.error.error_msg@,
        e matches VkwaveError::Other(m) ==> e.spec_message() == m@,
        e is Reqwest ==> e.spec_message() == "Error during request"@,
        e is Serde ==> e.spec_message() == "Error during de/serialization"@,
{
}

} // verus!
