//! The handlers of the greeting service, from the values that a request carries
//! to the values that the reply carries.

use crate::greeting::{greet, greeting_text};
use vstd::prelude::*;

verus! {

/// A reply that carries one greeting.
#[derive(Debug, Clone, PartialEq, Eq)]
pub struct Greeting {
    pub message: String,
}

/// The query of a greeting request: the name to greet, if one was given.
#[derive(Debug, Clone, PartialEq, Eq)]
pub struct GreetQuery {
    pub name: Option<String>,
}

/// The body of a posted greeting request: the name to greet.
#[derive(Debug, Clone, PartialEq, Eq)]
pub struct GreetBody {
    pub name: String,
}

/// What the service holds: its list of greetings, in order.
#[derive(Debug, Clone, PartialEq, Eq)]
pub struct AppState {
    pub greetings: Vec<String>,
}

impl View for AppState {
    type V = Seq<Seq<char>>;

    /// The texts of the greetings held, in order.
    open spec fn view(&self) -> Seq<Seq<char>> {
        texts_of(self.greetings@)
    }
}

/// The texts of `list`, in order.
pub open spec fn texts_of(list: Seq<String>) -> Seq<Seq<char>> {
    list.map_values(|text: String| text@)
}

/// The two greetings that the service holds when it starts.
pub open spec fn seeded_greetings() -> Seq<Seq<char>> {
    seq!["Hello, World!"@, "Hello, Rust!"@]
}

impl GreetQuery {
    /// The name that this query greets: the one it gives, else `World`.
    pub open spec fn greeted(&self) -> Seq<char> {
        match self.name {
            Some(given) => given@,
            None => "World"@,
        }
    }
}

/// The line that the log gets before a request is handled, from the request's
/// method and target as they are written: `Request: `, the method, a space, and
/// the target.
pub open spec fn request_line(method: Seq<char>, uri: Seq<char>) -> Seq<char> {
    "Request: "@ + method + " "@ + uri
}

/// The line that the log gets after a request was handled, from the status of
/// the response as it is written: `Response: ` and the status.
pub open spec fn response_line(status: Seq<char>) -> Seq<char> {
    "Response: "@ + status
}

impl AppState {
    /// The state that the service starts with.
    pub fn seeded() -> (state: AppState)
        ensures
            state@ == seeded_greetings(),
    {
        let mut greetings: Vec<String> = Vec::new();
        greetings.push("Hello, World!".to_string());
        greetings.push("Hello, Rust!".to_string());
        AppState { greetings }
    }
}

/// `StatusCode::OK` of the `http` crate, as `StatusCode::as_u16` gives it.
/// Trusted: the number is 200.
#[verifier::external_body]
fn ok_status() -> (code: u16)
    ensures
        code == 200,
{
    axum::http::StatusCode::OK.as_u16()
}

/// Answers a request for the root: the greeting for the world, as plain text.
pub fn root() -> (text: &'static str)
    ensures
        text@ == "Hello, World!"@,
{
    "Hello, World!"
}

/// Answers a request for the greeting for the world as a `Greeting`.
pub fn hello() -> (reply: Greeting)
    ensures
        reply.message@ == "Hello, World!"@,
{
    Greeting { message: "Hello, World!".to_string() }
}

/// Answers a request that names whom to greet in its path.
pub fn greet_name(name: String) -> (text: String)
    ensures
        text@ == greeting_text(name@),
{
    greet(name.as_str())
}

/// Answers a request that may name whom to greet in its query; without a name
/// the world is greeted.
pub fn greet_query(params: GreetQuery) -> (text: String)
    ensures
        text@ == greeting_text(params.greeted()),
{
    let name = match params.name {
        Some(given) => given,
        None => "World".to_string(),
    };
    greet(name.as_str())
}

/// Answers a posted request: status 200 and the greeting for the name in the
/// body. The greeting is appended to a copy of the list that lives no longer
/// than this call, so the state is left as it was.
pub fn api_greet(params: GreetBody, state: &mut AppState) -> (reply: (u16, Greeting))
    ensures
        reply.0 == 200,
        reply.1.message@ == greeting_text(params.name@),
        *final(state) == *old(state),
{
    let greeting = greet(params.name.as_str());
    let mut greetings = state.greetings.clone();
    greetings.push(greeting.clone());
    (ok_status(), Greeting { message: greeting })
}

/// Answers a request for the list: the greetings that the state holds.
pub fn get_greetings(state: AppState) -> (list: Vec<String>)
    ensures
        list == state.greetings,
{
    state.greetings
}

/// Composes the log line for a request with this method and target.
pub fn log_request(method: &str, uri: &str) -> (line: String)
    ensures
        line@ == request_line(method@, uri@),
{
    let mut line = String::from_str("Request: ");
    line.append(method);
    line.append(" ");
    line.append(uri);
    line
}

/// Composes the log line for a response with this status.
pub fn log_response(status: &str) -> (line: String)
    ensures
        line@ == response_line(status@),
{
    let mut line = String::from_str("Response: ");
    line.append(status);
    line
}

} // verus!
