use greetings::greeting::greet;
use greetings::service::{
    api_greet, get_greetings, greet_name, greet_query, hello, log_request, log_response, root,
    AppState, GreetBody, GreetQuery, Greeting,
};

#[test]
fn root_says_hello_world() {
    assert_eq!(root(), "Hello, World!");
}

#[test]
fn hello_carries_hello_world() {
    assert_eq!(hello(), Greeting { message: String::from("Hello, World!") });
}

#[test]
fn greet_name_greets_the_name_in_the_path() {
    assert_eq!(greet_name(String::from("Alice")), "Hello, Alice!");
}

#[test]
fn greet_name_agrees_with_greet() {
    assert_eq!(greet_name(String::from("a/b c")), greet("a/b c"));
}

#[test]
fn greet_query_greets_the_name_given() {
    let params = GreetQuery { name: Some(String::from("Bob")) };
    assert_eq!(greet_query(params), "Hello, Bob!");
}

#[test]
fn greet_query_without_a_name_greets_the_world() {
    assert_eq!(greet_query(GreetQuery { name: None }), "Hello, World!");
}

#[test]
fn greet_query_with_an_empty_name_greets_it() {
    let params = GreetQuery { name: Some(String::new()) };
    assert_eq!(greet_query(params), "Hello, !");
}

#[test]
fn api_greet_answers_with_200_and_the_greeting() {
    let mut state = AppState::seeded();
    let (status, greeting) = api_greet(GreetBody { name: String::from("Carol") }, &mut state);
    assert_eq!(status, 200);
    assert_eq!(greeting, Greeting { message: String::from("Hello, Carol!") });
}

#[test]
fn api_greet_answers_with_the_ok_status() {
    let mut state = AppState::seeded();
    let (status, _) = api_greet(GreetBody { name: String::from("Carol") }, &mut state);
    assert_eq!(status, axum::http::StatusCode::OK.as_u16());
    assert_eq!(axum::http::StatusCode::from_u16(status).ok(), Some(axum::http::StatusCode::OK));
}

#[test]
fn seeded_state_holds_the_two_greetings() {
    let state = AppState::seeded();
    assert_eq!(state.greetings, vec!["Hello, World!", "Hello, Rust!"]);
}

#[test]
fn get_greetings_gives_the_seeded_list() {
    assert_eq!(get_greetings(AppState::seeded()), vec!["Hello, World!", "Hello, Rust!"]);
}

#[test]
fn get_greetings_gives_what_the_state_holds() {
    let state = AppState { greetings: vec![String::from("a"), String::from(""), String::from("a")] };
    assert_eq!(get_greetings(state), vec!["a", "", "a"]);
    assert!(get_greetings(AppState { greetings: Vec::new() }).is_empty());
}

#[test]
fn api_greet_leaves_the_state_as_it_was() {
    let mut state = AppState::seeded();
    let before = state.clone();
    api_greet(GreetBody { name: String::from("Carol") }, &mut state);
    assert_eq!(state, before);
    api_greet(GreetBody { name: String::from("Dave") }, &mut state);
    assert_eq!(state, before);
}

#[test]
fn get_greetings_shows_nothing_of_earlier_posts() {
    let mut state = AppState::seeded();
    for name in ["Carol", "Dave", "World"] {
        api_greet(GreetBody { name: String::from(name) }, &mut state);
    }
    assert_eq!(get_greetings(state), vec!["Hello, World!", "Hello, Rust!"]);
}

#[test]
fn api_greet_answers_alike_whatever_the_state_holds() {
    let mut empty = AppState { greetings: Vec::new() };
    let mut seeded = AppState::seeded();
    let from_empty = api_greet(GreetBody { name: String::from("Eve") }, &mut empty);
    let from_seeded = api_greet(GreetBody { name: String::from("Eve") }, &mut seeded);
    assert_eq!(from_empty, from_seeded);
    assert!(empty.greetings.is_empty());
}

#[test]
fn log_request_writes_method_and_target() {
    assert_eq!(log_request("GET", "/"), "Request: GET /");
    assert_eq!(log_request("POST", "/api/greet"), "Request: POST /api/greet");
    assert_eq!(log_request("GET", "/greet?name=Bob"), "Request: GET /greet?name=Bob");
    assert_eq!(log_request("", ""), "Request:  ");
}

#[test]
fn log_request_writes_what_the_method_prints() {
    let method = axum::http::Method::POST.to_string();
    assert_eq!(log_request(&method, "/api/greet"), "Request: POST /api/greet");
}

#[test]
fn log_response_writes_the_status() {
    assert_eq!(log_response("200 OK"), "Response: 200 OK");
    assert_eq!(log_response(""), "Response: ");
}

#[test]
fn log_response_writes_what_the_status_prints() {
    let status = axum::http::StatusCode::OK.to_string();
    assert_eq!(log_response(&status), "Response: 200 OK");
}
