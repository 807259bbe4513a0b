//! Tests of request construction, form encoding, response checking and the
//! retry policy, using an in-memory transport.

use std::cell::RefCell;
use std::collections::VecDeque;
use std::rc::Rc;

use metalctl::api::{boot, rdns, reset, server, traffic, vswitch};
use metalctl::client::{check_response, extract_error_message, message_or_snippet, status_error};
use metalctl::form::{encode_form, percent_encode};
use metalctl::{
    Credentials, Error, HttpRequest, HttpResponse, Method, RetryPolicy, RetryState, RobotClient,
    Step, Transport,
};

#[derive(Clone, Default)]
struct MockTransport {
    state: Rc<RefCell<State>>,
}

#[derive(Default)]
struct State {
    responses: VecDeque<metalctl::Result<HttpResponse>>,
    requests: Vec<(HttpRequest, String)>,
}

impl MockTransport {
    fn with_responses(responses: Vec<HttpResponse>) -> Self {
        let transport = Self::default();
        transport.state.borrow_mut().responses = responses.into_iter().map(Ok).collect();
        transport
    }

    fn requests(&self) -> Vec<(HttpRequest, String)> {
        self.state.borrow().requests.clone()
    }
}

impl Transport for MockTransport {
    fn execute(&self, request: &HttpRequest, authorization: &str) -> metalctl::Result<HttpResponse> {
        let mut state = self.state.borrow_mut();
        state.requests.push((request.clone(), authorization.to_owned()));
        state
            .responses
            .pop_front()
            .unwrap_or_else(|| Err(Error::Transport("no mock response queued".to_owned())))
    }
}

fn ok(body: &str) -> HttpResponse {
    HttpResponse { status: 200, body: body.to_owned() }
}

fn client_with(responses: Vec<HttpResponse>) -> (RobotClient<MockTransport>, MockTransport) {
    let transport = MockTransport::with_responses(responses);
    let credentials = Credentials::new("user", "pass").unwrap();
    let client = RobotClient::with_transport("https://robot.example", credentials, transport.clone());
    (client, transport)
}

#[test]
fn encodes_form_parameters() {
    let encoded = encode_form(&[("a b", "c&d"), ("x", "1")]);
    assert_eq!(encoded, "a+b=c%26d&x=1");
}

#[test]
fn keeps_brackets_literal_in_form_keys() {
    let encoded = encode_form(&[("server[]", "1"), ("server[]", "2")]);
    assert_eq!(encoded, "server[]=1&server[]=2");
}

#[test]
fn percent_encodes_utf8_bytes_in_upper_case_hex() {
    assert_eq!(percent_encode("ü=é"), "%C3%BC%3D%C3%A9");
    assert_eq!(percent_encode("AZaz09-_.~"), "AZaz09-_.~");
    assert_eq!(percent_encode("a/b?c"), "a%2Fb%3Fc");
    assert_eq!(encode_form(&[]), "");
}

#[test]
fn extracts_api_error_message() {
    let body = r#"{"error":{"status":401,"code":"UNAUTHORIZED","message":"unauthorized"}}"#;
    assert_eq!(extract_error_message(body), "unauthorized");
}

#[test]
fn falls_back_to_body_snippet() {
    assert_eq!(extract_error_message("  not json  "), "not json");
}

#[test]
fn snippet_is_at_most_two_hundred_characters() {
    let long = "x".repeat(250);
    assert_eq!(extract_error_message(&long), "x".repeat(200));
    assert_eq!(message_or_snippet(Some("found".to_owned()), "  body "), "found");
    assert_eq!(message_or_snippet(None, "\t body \n"), "body");
    // Valid JSON without error.message falls back to the snippet too.
    assert_eq!(extract_error_message(r#"{"error":{"code":"X"}}"#), r#"{"error":{"code":"X"}}"#);
}

#[test]
fn maps_api_errors() {
    let body = r#"{"error":{"status":401,"code":"UNAUTHORIZED","message":"unauthorized"}}"#;
    let (client, _transport) = client_with(vec![HttpResponse {
        status: 401,
        body: body.to_owned(),
    }]);

    let call = server::list_call();
    match client.send(call.method, &call.path, call.body).unwrap_err() {
        Error::Api { status, message } => {
            assert_eq!(status, 401);
            assert_eq!(message, "unauthorized");
        }
        other => panic!("expected Error::Api, got {other:?}"),
    }
}

#[test]
fn classifies_statuses() {
    let response = check_response(ok("{}")).unwrap();
    assert_eq!(response.body, "{}");
    match check_response(HttpResponse { status: 429, body: "slow down".to_owned() }) {
        Err(Error::RateLimited { message }) => assert_eq!(message, "slow down"),
        other => panic!("expected RateLimited, got {other:?}"),
    }
    match check_response(HttpResponse { status: 500, body: "boom".to_owned() }) {
        Err(Error::Api { status, message }) => {
            assert_eq!(status, 500);
            assert_eq!(message, "boom");
        }
        other => panic!("expected Api, got {other:?}"),
    }
    assert!(matches!(status_error(404, String::new()), Error::Api { status: 404, .. }));
}

#[test]
fn error_messages_read_as_documented() {
    let api = Error::Api { status: 401, message: "unauthorized".to_owned() };
    assert_eq!(api.message(), "robot API error (HTTP 401): unauthorized");
    assert_eq!(
        Error::MissingCredentials.message(),
        "missing credentials: set HETZNER_ROBOT_USER and HETZNER_ROBOT_PASSWORD"
    );
    assert_eq!(
        Error::ConfirmationRequired { action: "cancel vSwitch 5".to_owned() }.message(),
        "refusing to cancel vSwitch 5: confirmation required (pass --yes to skip the prompt)"
    );
    assert_eq!(
        Error::RateLimited { message: "later".to_owned() }.message(),
        "robot API rate limit exceeded: later"
    );
}

#[test]
fn normalises_a_trailing_slash_in_the_base_url() {
    let transport = MockTransport::with_responses(vec![HttpResponse {
        status: 200,
        body: "[]".to_owned(),
    }]);
    let credentials = Credentials::new("u", "p").unwrap();
    let client =
        RobotClient::with_transport("https://robot.example/", credentials, transport.clone());

    assert_eq!(client.base_url(), "https://robot.example");
    let call = server::list_call();
    let response = client.send(call.method, &call.path, call.body).unwrap();
    let servers: Vec<serde_json::Value> = serde_json::from_str(&response.body).unwrap();
    assert!(servers.is_empty());
    assert_eq!(
        transport.requests()[0].0.url,
        "https://robot.example/server"
    );
}

#[test]
fn normalises_repeated_slashes_between_base_and_path() {
    let (_, transport) = client_with(vec![]);
    let credentials = Credentials::new("u", "p").unwrap();
    let client = RobotClient::with_transport("https://robot.example//", credentials, transport);
    assert_eq!(client.base_url(), "https://robot.example");
    let request = client.request(Method::Get, "//server", None);
    assert_eq!(request.url, "https://robot.example/server");
    assert_eq!(request.method, "GET");
}

#[test]
fn error_message_is_read_from_error_message_only() {
    // `error` must be an object and `message` a string.
    assert_eq!(extract_error_message(r#"{"error":"boom"}"#), r#"{"error":"boom"}"#);
    assert_eq!(
        extract_error_message(r#"{"error":{"message":42}}"#),
        r#"{"error":{"message":42}}"#
    );
    assert_eq!(extract_error_message(r#"[{"error":{"message":"x"}}]"#), r#"[{"error":{"message":"x"}}]"#);
    assert_eq!(extract_error_message(r#" {"error":{"code":1,"message":"nested ok"}} "#), "nested ok");
    // A repeated key keeps its last value.
    assert_eq!(extract_error_message(r#"{"error":{"message":"a","message":"b"}}"#), "b");
}

#[test]
fn attempts_send_basic_auth_and_check_the_status() {
    let body = r#"{"error":{"status":401,"code":"UNAUTHORIZED","message":"unauthorized"}}"#;
    let (client, transport) = client_with(vec![HttpResponse { status: 401, body: body.to_owned() }]);
    let request = client.request(Method::Get, "/server", None);
    match client.attempt(&request).unwrap_err() {
        Error::Api { status, message } => {
            assert_eq!(status, 401);
            assert_eq!(message, "unauthorized");
        }
        other => panic!("expected Error::Api, got {other:?}"),
    }
    let requests = transport.requests();
    assert_eq!(requests.len(), 1);
    assert_eq!(requests[0].0.url, "https://robot.example/server");
    assert_eq!(requests[0].0.body, None);
    assert_eq!(requests[0].1, "Basic dXNlcjpwYXNz");
}

#[test]
fn endpoint_requests_are_built_as_documented() {
    let call = server::list_call();
    assert_eq!((call.method, call.path.as_str(), call.body), (Method::Get, "/server", None));
    assert_eq!(server::get_call(321).path, "/server/321");
    assert_eq!(rdns::get_call("192.0.2.1").path, "/rdns/192.0.2.1");
    let set = rdns::set_call("192.0.2.1", "new.example.com");
    assert_eq!(set.method, Method::Post);
    assert_eq!(set.body.as_deref(), Some("ptr=new.example.com"));
    let run = reset::execute_call(7, reset::ResetType::Power);
    assert_eq!(run.path, "/reset/7");
    assert_eq!(run.body.as_deref(), Some("type=power"));
    assert_eq!(reset::options_call(0).path, "/reset/0");
    let keys = vec!["ssh-ed25519 AAAA".to_owned()];
    let activate = boot::activate_rescue_call(9, "linux", "64", &keys);
    assert_eq!(activate.path, "/boot/9/rescue");
    assert_eq!(
        activate.body.as_deref(),
        Some("os=linux&arch=64&authorized_key=ssh-ed25519+AAAA")
    );
    let ips = vec!["192.0.2.1".to_owned(), "192.0.2.2".to_owned()];
    let query = traffic::query_call("month", "2023-06-01", "2023-06-30", &ips);
    assert_eq!(query.path, "/traffic");
    assert_eq!(
        query.body.as_deref(),
        Some("type=month&from=2023-06-01&to=2023-06-30&ip[]=192.0.2.1&ip[]=192.0.2.2&single_values=true")
    );
    let create = vswitch::create_call("my switch", 4000);
    assert_eq!(create.body.as_deref(), Some("name=my+switch&vlan=4000"));
    assert_eq!(vswitch::get_call(4294967295).path, "/vswitch/4294967295");
}

#[test]
fn vswitch_mutations_send_the_expected_requests() {
    let (client, transport) = client_with(vec![ok(""), ok(""), ok("")]);
    vswitch::cancel(&client, 5).unwrap();
    vswitch::connect(&client, 5, &[1, 22]).unwrap();
    vswitch::disconnect(&client, 5, &[3]).unwrap();
    let requests = transport.requests();
    assert_eq!(requests[0].0.method, "DELETE");
    assert_eq!(requests[0].0.url, "https://robot.example/vswitch/5");
    assert_eq!(requests[0].0.body.as_deref(), Some("cancellation_date=now"));
    assert_eq!(requests[1].0.method, "POST");
    assert_eq!(requests[1].0.url, "https://robot.example/vswitch/5/server");
    assert_eq!(requests[1].0.body.as_deref(), Some("server[]=1&server[]=22"));
    assert_eq!(requests[2].0.method, "DELETE");
    assert_eq!(requests[2].0.body.as_deref(), Some("server[]=3"));
}

#[test]
fn deactivating_rescue_sends_a_bodyless_delete() {
    let (client, transport) = client_with(vec![HttpResponse { status: 404, body: "gone".to_owned() }]);
    let error = boot::deactivate_rescue(&client, 12).unwrap_err();
    assert!(matches!(error, Error::Api { status: 404, .. }));
    let requests = transport.requests();
    assert_eq!(requests[0].0.method, "DELETE");
    assert_eq!(requests[0].0.url, "https://robot.example/boot/12/rescue");
    assert_eq!(requests[0].0.body, None);
}

#[test]
fn post_and_delete_are_never_retried() {
    let policy = RetryPolicy { max_attempts: 5, base_delay_ms: 10, max_delay_ms: 100 };
    for method in [Method::Post, Method::Delete] {
        let mut state = RetryState::start(policy, method);
        match state.next(Err(Error::Transport("reset".to_owned()))) {
            Step::Finish(Err(Error::Transport(_))) => {}
            _ => panic!("non-idempotent request was retried"),
        }
        assert_eq!(state.attempts, 1);
    }
}

#[test]
fn get_retries_transient_errors_with_capped_exponential_backoff() {
    let policy = RetryPolicy { max_attempts: 5, base_delay_ms: 30, max_delay_ms: 100 };
    let mut state = RetryState::start(policy, Method::Get);
    let mut delays = Vec::new();
    loop {
        match state.next(Err(Error::Transport("timeout".to_owned()))) {
            Step::Wait(ms) => delays.push(ms),
            Step::Finish(result) => {
                assert!(matches!(result, Err(Error::Transport(_))));
                break;
            }
        }
    }
    assert_eq!(delays, vec![30, 60, 100, 100]);
    assert_eq!(state.attempts, 5);
    assert_eq!(policy.delay_ms(0), 30);
    assert_eq!(policy.delay_ms(1), 60);
    assert_eq!(policy.delay_ms(40), 100);
}

#[test]
fn rate_limits_and_responses_are_not_retried() {
    let policy = RetryPolicy::default();
    assert_eq!((policy.max_attempts, policy.base_delay_ms, policy.max_delay_ms), (2, 500, 4000));
    let mut state = RetryState::start(policy, Method::Get);
    match state.next(Err(Error::RateLimited { message: String::new() })) {
        Step::Finish(Err(Error::RateLimited { .. })) => {}
        _ => panic!("rate limit was retried"),
    }
    let mut state = RetryState::start(policy, Method::Get);
    assert!(matches!(state.next(Ok(ok("[]"))), Step::Finish(Ok(_))));
    let single = RetryPolicy { max_attempts: 1, base_delay_ms: 1, max_delay_ms: 1 };
    let mut state = RetryState::start(single, Method::Get);
    assert!(matches!(state.next(Err(Error::Transport("x".to_owned()))), Step::Finish(Err(_))));
}

#[test]
fn unsupported_methods_are_refused() {
    assert_eq!(Method::parse("GET").unwrap(), Method::Get);
    assert_eq!(Method::parse("DELETE").unwrap().as_str(), "DELETE");
    match Method::parse("PATCH") {
        Err(Error::Transport(message)) => assert_eq!(message, "unsupported method: PATCH"),
        _ => panic!("PATCH accepted"),
    }
}
