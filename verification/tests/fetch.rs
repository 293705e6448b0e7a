use worker_runtime::fetch::bridge::FetchBridge;
use worker_runtime::fetch::bridge::FetchState;
use worker_runtime::fetch::bridge::PromiseState;
use worker_runtime::fetch::bridge::PromiseWait;
use worker_runtime::fetch::bridge::SettleAction;
use worker_runtime::fetch::bridge::Settlement;
use worker_runtime::fetch::bridge::SETTLE_ATTEMPTS;
use worker_runtime::fetch::bridge::SETTLE_DELAY;
use worker_runtime::fetch::host::host_response;
use worker_runtime::fetch::host::HostOutcome;
use worker_runtime::fetch::request::JsRequest;
use worker_runtime::fetch::response::construct_response;
use worker_runtime::fetch::response::ConstructorArgs;
use worker_runtime::fetch::response::Field;
use worker_runtime::fetch::response::JsResponse;
use worker_runtime::fetch::response::OptionsArg;
use worker_runtime::fetch::response::ResponseOptions;
use worker_runtime::fetch::response::ResponseValue;
use worker_runtime::protocol::ProtocolError;

fn pair(name: &str, value: &str) -> (String, String) {
    (name.to_string(), value.to_string())
}

fn object(status: Field<u32>, body: Option<&str>, headers: Field<Vec<(String, String)>>) -> ResponseValue {
    ResponseValue::Object { status, body: body.map(|b| b.to_string()), headers }
}

/// Drives one fetch: the handler answers with `settlement`, or not at all.
fn fetch(settlement: Option<Settlement>) -> JsResponse {
    let mut bridge = FetchBridge::new();
    assert!(bridge.dispatch());
    if let Some(settlement) = settlement {
        assert!(bridge.respond_with(settlement));
    }
    let outcome = match bridge.take_reply() {
        Some(reply) => HostOutcome::Replied(reply),
        None => HostOutcome::TimedOut,
    };
    host_response(outcome, "7")
}

/// Waits for a promise that shows `states` at successive looks, and is pending
/// ever after.
fn settle(states: &[PromiseState]) -> (SettleAction, u32) {
    let mut wait = PromiseWait::new();
    let mut looks = 0;
    loop {
        let state = states.get(looks as usize).copied().unwrap_or(PromiseState::Pending);
        looks += 1;
        match wait.observe(state) {
            SettleAction::Wait { delay } => assert_eq!(delay, SETTLE_DELAY),
            action => return (action, looks),
        }
    }
}

#[test]
fn new_response_is_bare() {
    let response = JsResponse::new(204);
    assert_eq!(response.status, 204);
    assert_eq!(response.body, None);
    assert!(response.headers.is_empty());
}

#[test]
fn new_request_has_no_headers() {
    let request = JsRequest::new("/a".to_string(), "POST".to_string());
    assert_eq!(request.url, "/a");
    assert_eq!(request.method, "POST");
    assert!(request.headers.is_empty());
}

#[test]
fn respond_with_a_plain_value_reaches_the_host() {
    let value = object(Field::Valid(201), Some("ok"), Field::Valid(vec![pair("x-a", "1")]));
    let response = fetch(Some(Settlement::Value(value)));
    assert_eq!(response.status, 201);
    assert_eq!(response.body.as_deref(), Some("ok"));
    assert_eq!(response.headers, vec![pair("x-a", "1")]);
}

#[test]
fn respond_with_a_resolved_promise_reaches_the_host() {
    let (action, looks) = settle(&[PromiseState::Pending, PromiseState::Fulfilled]);
    assert_eq!(action, SettleAction::Unwrap);
    assert_eq!(looks, 2);
    let value = object(Field::Valid(200), Some("late"), Field::Absent);
    let response = fetch(Some(Settlement::Value(value)));
    assert_eq!(response.status, 200);
    assert_eq!(response.body.as_deref(), Some("late"));
    assert!(response.headers.is_empty());
}

#[test]
fn handler_that_never_responds_times_out() {
    let response = fetch(None);
    assert_eq!(response.status, 504);
    assert_eq!(response.body.as_deref(), Some("Timeout"));
    assert_eq!(
        response.headers,
        vec![pair("Content-Type", "text/html; charset=utf-8"), pair("X-Worker-Id", "7")]
    );
}

#[test]
fn rejected_promise_yields_500() {
    let (action, looks) = settle(&[PromiseState::Rejected]);
    assert_eq!(action, SettleAction::Reply { status: 500 });
    assert_eq!(looks, 1);
    let (action, _) = settle(&[PromiseState::Pending, PromiseState::Pending, PromiseState::Rejected]);
    assert_eq!(action, SettleAction::Reply { status: 500 });
    let response = fetch(Some(Settlement::Rejected));
    assert_eq!(response.status, 500);
    assert_eq!(response.body, None);
}

#[test]
fn pending_promise_times_out_when_the_budget_is_spent() {
    let (action, looks) = settle(&[]);
    assert_eq!(action, SettleAction::Reply { status: 504 });
    assert_eq!(looks, SETTLE_ATTEMPTS + 1);
    assert_eq!(SETTLE_ATTEMPTS, 10);
    assert_eq!(SETTLE_DELAY, 10);
    let response = fetch(Some(Settlement::TimedOut));
    assert_eq!(response.status, 504);
    assert_eq!(response.body, None);
}

#[test]
fn promise_that_settles_at_the_last_look_is_not_timed_out() {
    let mut states = vec![PromiseState::Pending; 10];
    states.push(PromiseState::Fulfilled);
    assert_eq!(settle(&states), (SettleAction::Unwrap, 11));
}

#[test]
fn wait_counts_its_budget_down() {
    let mut wait = PromiseWait::new();
    assert_eq!(wait.remaining(), 10);
    assert_eq!(wait.observe(PromiseState::Pending), SettleAction::Wait { delay: 10 });
    assert_eq!(wait.remaining(), 9);
    assert_eq!(wait.observe(PromiseState::Fulfilled), SettleAction::Unwrap);
    assert_eq!(wait.remaining(), 9);
}

#[test]
fn malformed_answer_yields_500() {
    for value in [
        ResponseValue::Nothing,
        object(Field::Invalid, Some("x"), Field::Absent),
        object(Field::Valid(200), Some("x"), Field::Invalid),
        object(Field::Valid(65536), Some("x"), Field::Absent),
        object(Field::Valid(u32::MAX), None, Field::Absent),
    ] {
        let response = fetch(Some(Settlement::Value(value)));
        assert_eq!(response.status, 500);
        assert_eq!(response.body, None);
        assert!(response.headers.is_empty());
    }
}

#[test]
fn conversion_fills_in_what_the_script_left_out() {
    let response = JsResponse::from_value(object(Field::Absent, None, Field::Absent)).unwrap();
    assert_eq!(response.status, 200);
    assert_eq!(response.body.as_deref(), Some(""));
    assert!(response.headers.is_empty());
    let response = JsResponse::from_value(object(Field::Valid(65535), None, Field::Valid(vec![]))).unwrap();
    assert_eq!(response.status, 65535);
    let response = JsResponse::from_value(object(Field::Valid(0), Some("b"), Field::Absent)).unwrap();
    assert_eq!(response.status, 0);
    assert_eq!(response.body.as_deref(), Some("b"));
}

#[test]
fn conversion_keeps_the_headers_in_order() {
    let headers = vec![pair("b", "2"), pair("a", "1"), pair("b", "3")];
    let response =
        JsResponse::from_value(object(Field::Valid(200), None, Field::Valid(headers.clone()))).unwrap();
    assert_eq!(response.headers, headers);
}

#[test]
fn conversion_failure_is_none() {
    assert!(JsResponse::from_value(ResponseValue::Nothing).is_none());
    assert!(JsResponse::from_value(object(Field::Invalid, None, Field::Absent)).is_none());
    assert!(JsResponse::from_value(object(Field::Absent, None, Field::Invalid)).is_none());
    assert!(JsResponse::from_value(object(Field::Valid(65536), None, Field::Absent)).is_none());
    let stand_in = JsResponse::from_value_or_error(ResponseValue::Nothing);
    assert_eq!(stand_in.status, 500);
    let fine = JsResponse::from_value_or_error(object(Field::Valid(202), None, Field::Absent));
    assert_eq!(fine.status, 202);
}

#[test]
fn bridge_keeps_only_the_first_answer() {
    let mut bridge = FetchBridge::new();
    assert_eq!(bridge.state(), FetchState::Created);
    assert!(!bridge.respond_with(Settlement::Rejected));
    assert_eq!(bridge.state(), FetchState::Created);
    assert!(bridge.dispatch());
    assert_eq!(bridge.state(), FetchState::Dispatched);
    assert!(!bridge.dispatch());
    assert!(bridge.respond_with(Settlement::Value(object(Field::Valid(201), None, Field::Absent))));
    assert_eq!(bridge.state(), FetchState::Fulfilled);
    assert!(!bridge.respond_with(Settlement::Rejected));
    assert!(!bridge.respond_with(Settlement::TimedOut));
    assert_eq!(bridge.state(), FetchState::Fulfilled);
    assert_eq!(bridge.take_reply().unwrap().status, 201);
    assert!(bridge.take_reply().is_none());
    assert_eq!(bridge.state(), FetchState::Fulfilled);
}

#[test]
fn bridge_states_follow_the_settlement() {
    let mut bridge = FetchBridge::new();
    bridge.dispatch();
    bridge.respond_with(Settlement::Rejected);
    assert_eq!(bridge.state(), FetchState::Rejected);
    let mut bridge = FetchBridge::new();
    bridge.dispatch();
    bridge.respond_with(Settlement::TimedOut);
    assert_eq!(bridge.state(), FetchState::TimedOut);
    let mut bridge = FetchBridge::new();
    bridge.dispatch();
    bridge.respond_with(Settlement::Value(ResponseValue::Nothing));
    assert_eq!(bridge.state(), FetchState::Rejected);
}

#[test]
fn host_reports_failures_of_the_bridge() {
    let response = host_response(HostOutcome::NoHandler, "3");
    assert_eq!(response.status, 500);
    assert_eq!(response.body.as_deref(), Some("Cannot create event, check your response type"));
    assert_eq!(response.headers, vec![pair("Content-Type", "text/html; charset=utf-8")]);
    let response = host_response(HostOutcome::Dropped, "3");
    assert_eq!(response.status, 500);
    assert_eq!(response.body.as_deref(), Some("Error"));
    assert_eq!(
        response.headers,
        vec![pair("Content-Type", "text/html; charset=utf-8"), pair("X-Worker-Id", "3")]
    );
    let response = host_response(HostOutcome::Replied(JsResponse::new(204)), "3");
    assert_eq!(response.status, 204);
    assert!(response.headers.is_empty());
}

#[test]
fn wire_status_falls_back_to_500() {
    for (status, sent) in [(0, 500), (99, 500), (100, 100), (200, 200), (999, 999), (1000, 500), (65535, 500)] {
        assert_eq!(JsResponse::new(status).wire_status(), sent);
    }
}

#[test]
fn content_type_defaults_to_plain_text() {
    let mut response = JsResponse::new(200);
    assert_eq!(response.content_type(), "text/plain; charset=utf-8");
    assert_eq!(response.wire_body(), "");
    response.headers.push(pair("content-type", "a/b"));
    assert_eq!(response.content_type(), "text/plain; charset=utf-8");
    response.headers.push(pair("Content-Type", "text/html"));
    response.headers.push(pair("Content-Type", "text/css"));
    response.body = Some("x".to_string());
    assert_eq!(response.content_type(), "text/html");
    assert_eq!(response.header("content-type").map(|v| v.as_str()), Some("a/b"));
    assert_eq!(response.header("X-None"), None);
    assert_eq!(response.wire_body(), "x");
}

fn options(status: Field<u32>, status_text: Field<String>, headers: Option<Vec<(String, String)>>) -> OptionsArg {
    OptionsArg::Object(ResponseOptions { status, status_text, headers })
}

#[test]
fn response_constructor_has_defaults() {
    let args = ConstructorArgs { count: 0, body: None, options: OptionsArg::Absent };
    let init = construct_response(args).unwrap();
    assert_eq!((init.body.as_str(), init.status, init.status_text.as_str()), ("", 200, "OK"));
    assert!(init.headers.is_empty());
    let args = ConstructorArgs {
        count: 2,
        body: Some("hi".to_string()),
        options: options(Field::Absent, Field::Absent, None),
    };
    let init = construct_response(args).unwrap();
    assert_eq!((init.body.as_str(), init.status, init.status_text.as_str()), ("hi", 200, "OK"));
    assert!(init.headers.is_empty());
}

#[test]
fn response_constructor_takes_the_options() {
    let args = ConstructorArgs {
        count: 2,
        body: Some("gone".to_string()),
        options: options(
            Field::Valid(404),
            Field::Valid("Not Found".to_string()),
            Some(vec![pair("x-a", "1")]),
        ),
    };
    let init = construct_response(args).unwrap();
    assert_eq!(init.body, "gone");
    assert_eq!(init.status, 404);
    assert_eq!(init.status_text, "Not Found");
    assert_eq!(init.headers, vec![pair("x-a", "1")]);
    let args = ConstructorArgs { count: 2, body: None, options: options(Field::Valid(70000), Field::Absent, None) };
    assert_eq!(construct_response(args).unwrap().status, 70000);
}

#[test]
fn response_constructor_refuses_wrong_arguments() {
    let args = ConstructorArgs { count: 3, body: None, options: OptionsArg::Invalid };
    assert_eq!(construct_response(args).err(), Some(ProtocolError::ResponseArgumentCount));
    let args = ConstructorArgs { count: 2, body: None, options: OptionsArg::Invalid };
    assert_eq!(construct_response(args).err(), Some(ProtocolError::InvalidOptions));
    let args = ConstructorArgs { count: 2, body: None, options: options(Field::Invalid, Field::Invalid, None) };
    assert_eq!(construct_response(args).err(), Some(ProtocolError::InvalidStatus));
    let args = ConstructorArgs { count: 2, body: None, options: options(Field::Valid(1), Field::Invalid, None) };
    assert_eq!(construct_response(args).err(), Some(ProtocolError::InvalidStatusText));
    assert_eq!(
        ProtocolError::ResponseArgumentCount.message(),
        "Response constructor takes at most 2 arguments"
    );
    assert_eq!(ProtocolError::InvalidOptions.message(), "invalid options");
    assert_eq!(ProtocolError::InvalidStatus.message(), "invalid status");
    assert_eq!(ProtocolError::InvalidStatusText.message(), "statusText must be a string");
    assert!(ProtocolError::InvalidStatus.is_type_error());
}
