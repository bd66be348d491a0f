use statemachine::grpc::{SayRequest, SayResponse};
use statemachine::handlers::{join_names, query, Request};
use statemachine::statemachine::MySay;
use statemachine::web_api::{self, say_request, WebRequest};

#[test]
fn query_answers_with_full_name() {
    let request = Request {
        first_name: "Ada".to_string(),
        last_name: "Lovelace".to_string(),
        ip_address: Some("10.0.0.1".to_string()),
    };
    assert_eq!(query(&request).name, "Ada Lovelace");
}

#[test]
fn join_names_keeps_empty_parts() {
    assert_eq!(join_names("", ""), " ");
    assert_eq!(join_names("Ada", ""), "Ada ");
}

#[test]
fn say_request_carries_full_name() {
    let request = WebRequest { first_name: "Grace".to_string(), last_name: "Hopper".to_string(), ip_address: None };
    assert_eq!(say_request(&request).name, "Grace Hopper");
}

#[test]
fn web_query_passes_greeting_on() {
    let reply = SayResponse { message: "hello Grace Hopper".to_string() };
    assert_eq!(web_api::query(Some(reply)).message, "hello Grace Hopper");
}

#[test]
fn web_query_reports_failure() {
    assert_eq!(web_api::query(None).message, "failed");
}

#[test]
fn greeting_service_says_hello() {
    let service = MySay {};
    let reply = service.send(&SayRequest { name: "Grace Hopper".to_string() });
    assert_eq!(reply.message, "hello Grace Hopper");
    let reply = service.send(&SayRequest { name: String::new() });
    assert_eq!(reply.message, "hello ");
}

#[test]
fn web_api_greets_full_name() {
    let request = WebRequest { first_name: "Ada".to_string(), last_name: "Lovelace".to_string(), ip_address: None };
    let reply = MySay {}.send(&say_request(&request));
    assert_eq!(web_api::query(Some(reply)).message, "hello Ada Lovelace");
}
