use backend_bridge::config::AppConfig;
use backend_bridge::forward::{read_response, response_of, start, step, Action, Event, Phase};
use backend_bridge::query::QueryParams;
use backend_bridge::request::{build_headers, build_request, build_url, Method, OutboundRequest};
use serde_json::{Number, Value};

fn config() -> AppConfig {
    AppConfig { backend_url: "https://api.example.com".to_string(), api_key: "key".to_string() }
}

fn sent(begun: (Phase, Action)) -> OutboundRequest {
    assert_eq!(begun.0, Phase::AwaitingResponse);
    match begun.1 {
        Action::Send(request) => request,
        other => panic!("expected a request to send, got {:?}", other),
    }
}

fn finished(moved: Option<(Phase, Action)>) -> Result<(u16, Value), String> {
    match moved {
        Some((Phase::Finished, Action::Finish(reply))) => {
            reply.map(|response| (response.status, response.data))
        }
        other => panic!("expected the result, got {:?}", other),
    }
}

fn object_a_1() -> Value {
    let mut object = serde_json::Map::new();
    object.insert("a".to_string(), Value::Number(Number::from(1)));
    Value::Object(object)
}

fn header_pairs(request: &OutboundRequest) -> Vec<(String, String)> {
    request.headers.iter().map(|header| (header.name.clone(), header.value.clone())).collect()
}

#[test]
fn url_is_base_and_path_without_parameters() {
    for name in ["GET", "POST", "PUT", "DELETE"] {
        let request = sent(start("/users/7", None, name, "t", None, &config()));
        assert_eq!(request.url, "https://api.example.com/users/7");
    }
}

#[test]
fn url_is_base_and_path_with_empty_parameters() {
    let params = QueryParams::new();
    for name in ["GET", "POST", "PUT", "DELETE"] {
        let request = sent(start("/users", Some(&params), name, "t", None, &config()));
        assert_eq!(request.url, "https://api.example.com/users");
    }
}

#[test]
fn url_joins_base_and_path_as_they_are() {
    let config =
        AppConfig { backend_url: "https://api.example.com/".to_string(), api_key: String::new() };
    let request = sent(start("/users", None, "GET", "t", None, &config));
    assert_eq!(request.url, "https://api.example.com//users");
    let request = sent(start("users", None, "GET", "t", None, &self::config()));
    assert_eq!(request.url, "https://api.example.comusers");
}

#[test]
fn url_carries_one_parameter() {
    let mut params = QueryParams::new();
    params.insert("page".to_string(), "2".to_string());
    let request = sent(start("/users", Some(&params), "GET", "t", None, &config()));
    assert_eq!(request.url, "https://api.example.com/users?page=2");
    assert_eq!(request.url.matches('?').count(), 1);
}

#[test]
fn url_carries_all_parameters() {
    let mut params = QueryParams::new();
    params.insert("page".to_string(), "2".to_string());
    params.insert("sort".to_string(), "name".to_string());
    params.insert("dir".to_string(), "asc".to_string());
    let request = sent(start("/users", Some(&params), "GET", "t", None, &config()));
    assert_eq!(request.url, "https://api.example.com/users?page=2&sort=name&dir=asc");
    assert_eq!(request.url.matches('?').count(), 1);
    assert_eq!(request.url.matches('&').count(), 2);
}

// Known defect, kept as it is: parameters go into the URL without
// percent-encoding, so `&`, `=`, `#` and `?` in a value change what the URL
// means to the backend.
#[test]
fn url_does_not_escape_parameters() {
    let mut params = QueryParams::new();
    params.insert("q".to_string(), "a&b=c?d#e f".to_string());
    let request = sent(start("/search", Some(&params), "GET", "t", None, &config()));
    assert_eq!(request.url, "https://api.example.com/search?q=a&b=c?d#e f");
}

#[test]
fn build_url_matches_start() {
    let mut params = QueryParams::new();
    params.insert("a".to_string(), "1".to_string());
    assert_eq!(build_url("http://h", "/p", Some(&params)), "http://h/p?a=1");
    assert_eq!(build_url("http://h", "/p", None), "http://h/p");
    assert_eq!(build_url("", "", None), "");
}

#[test]
fn each_method_is_read_from_its_name() {
    assert_eq!(Method::from_name("GET"), Some(Method::Get));
    assert_eq!(Method::from_name("POST"), Some(Method::Post));
    assert_eq!(Method::from_name("PUT"), Some(Method::Put));
    assert_eq!(Method::from_name("DELETE"), Some(Method::Delete));
    assert_eq!(sent(start("/", None, "GET", "t", None, &config())).method, Method::Get);
    assert_eq!(sent(start("/", None, "POST", "t", None, &config())).method, Method::Post);
    assert_eq!(sent(start("/", None, "PUT", "t", None, &config())).method, Method::Put);
    assert_eq!(sent(start("/", None, "DELETE", "t", None, &config())).method, Method::Delete);
}

#[test]
fn other_names_are_no_method() {
    for name in ["PATCH", "get", "Get", "", " GET", "GET ", "HEAD", "OPTIONS", "GETPOST"] {
        assert_eq!(Method::from_name(name), None);
    }
}

#[test]
fn unknown_method_is_refused_before_anything_is_sent() {
    for name in ["PATCH", "get", ""] {
        let (phase, action) = start("/users", None, name, "t", Some(&object_a_1()), &config());
        assert_eq!(phase, Phase::Finished);
        match action {
            Action::Finish(Err(message)) => assert_eq!(message, "Invalid method"),
            other => panic!("expected the invalid-method error, got {:?}", other),
        }
        assert!(build_request("https://h", "/users", None, name, "t", None).is_none());
    }
}

#[test]
fn finished_invocation_takes_no_event() {
    let (phase, _) = start("/users", None, "PATCH", "t", None, &config());
    assert!(step(phase, Event::Responded { status: 200 }).is_none());
    assert!(step(phase, Event::BodyRead { text: String::new() }).is_none());
}

#[test]
fn token_is_sent_as_bearer() {
    let request = sent(start("/", None, "GET", "abc.DEF-123", None, &config()));
    assert_eq!(
        header_pairs(&request),
        vec![("Authorization".to_string(), "Bearer abc.DEF-123".to_string())]
    );
}

#[test]
fn token_is_not_examined() {
    let request = sent(start("/", None, "GET", "", None, &config()));
    assert_eq!(header_pairs(&request), vec![("Authorization".to_string(), "Bearer ".to_string())]);
    let request = sent(start("/", None, "GET", " two words ", None, &config()));
    assert_eq!(
        header_pairs(&request),
        vec![("Authorization".to_string(), "Bearer  two words ".to_string())]
    );
}

#[test]
fn body_is_sent_as_compact_json() {
    let body = object_a_1();
    let request = sent(start("/users", None, "POST", "t", Some(&body), &config()));
    assert_eq!(request.body, Some("{\"a\":1}".to_string()));
    assert_eq!(
        header_pairs(&request),
        vec![
            ("Authorization".to_string(), "Bearer t".to_string()),
            ("Content-Type".to_string(), "application/json".to_string()),
        ]
    );
}

#[test]
fn nested_body_is_sent_as_compact_json() {
    let mut inner = serde_json::Map::new();
    inner.insert("tags".to_string(), Value::Array(vec![Value::from("x"), Value::Null]));
    inner.insert("ok".to_string(), Value::Bool(true));
    let mut outer = serde_json::Map::new();
    outer.insert("user".to_string(), Value::Object(inner));
    outer.insert("name".to_string(), Value::from("a \"b\"\n"));
    let body = Value::Object(outer);
    let request = sent(start("/users", None, "PUT", "t", Some(&body), &config()));
    let text = request.body.expect("a body was given");
    assert_eq!(serde_json::from_str::<Value>(&text).expect("the payload is JSON"), body);
    assert!(!text.contains(' ') || text.contains("a \\\"b\\\"\\n"));
    assert_eq!(text, body.to_string());
}

#[test]
fn null_body_is_still_a_body() {
    let request = sent(start("/users", None, "POST", "t", Some(&Value::Null), &config()));
    assert_eq!(request.body, Some("null".to_string()));
    assert_eq!(request.headers.len(), 2);
}

#[test]
fn body_goes_with_any_method() {
    let body = object_a_1();
    for name in ["GET", "DELETE"] {
        let request = sent(start("/users", None, name, "t", Some(&body), &config()));
        assert_eq!(request.body, Some("{\"a\":1}".to_string()));
        assert_eq!(request.headers.len(), 2);
    }
}

#[test]
fn no_body_means_no_payload() {
    for name in ["GET", "POST", "PUT", "DELETE"] {
        let request = sent(start("/users", None, name, "t", None, &config()));
        assert_eq!(request.body, None);
        assert_eq!(request.headers.len(), 1);
        assert_eq!(request.headers[0].name, "Authorization");
    }
}

#[test]
fn build_headers_matches_start() {
    let headers = build_headers("tok", true);
    assert_eq!(headers.len(), 2);
    assert_eq!(headers[0].name, "Authorization");
    assert_eq!(headers[0].value, "Bearer tok");
    assert_eq!(headers[1].name, "Content-Type");
    assert_eq!(headers[1].value, "application/json");
    assert_eq!(build_headers("tok", false).len(), 1);
}

#[test]
fn answer_is_awaited_then_its_body() {
    let moved = step(Phase::AwaitingResponse, Event::Responded { status: 204 });
    match moved {
        Some((Phase::AwaitingBody { status }, Action::ReadBody)) => assert_eq!(status, 204),
        other => panic!("expected the body to be read, got {:?}", other),
    }
}

#[test]
fn empty_body_is_null() {
    let text = String::new();
    let reply = finished(step(Phase::AwaitingBody { status: 204 }, Event::BodyRead { text }));
    assert_eq!(reply, Ok((204, Value::Null)));
}

#[test]
fn json_body_is_parsed() {
    let text = "{\"a\":1}".to_string();
    let reply = finished(step(Phase::AwaitingBody { status: 200 }, Event::BodyRead { text }));
    assert_eq!(reply, Ok((200, object_a_1())));
}

#[test]
fn status_is_passed_on_whatever_it_is() {
    for status in [0u16, 200, 404, 500, 599, 65535] {
        let text = "[true]".to_string();
        let reply = finished(step(Phase::AwaitingBody { status }, Event::BodyRead { text }));
        assert_eq!(reply, Ok((status, Value::Array(vec![Value::Bool(true)]))));
    }
}

#[test]
fn body_that_is_not_json_is_an_error() {
    let text = "not json".to_string();
    let reply = finished(step(Phase::AwaitingBody { status: 200 }, Event::BodyRead { text }));
    assert_eq!(reply, Err("expected ident at line 1 column 2".to_string()));
}

#[test]
fn blank_body_is_not_empty() {
    let reply = read_response(200, " ");
    match reply {
        Err(message) => assert_eq!(message, "EOF while parsing a value at line 1 column 1"),
        Ok(response) => panic!("expected an error, got {:?}", response),
    }
}

#[test]
fn json_with_something_behind_it_is_an_error() {
    let reply = read_response(200, "{\"a\":1} x");
    match reply {
        Err(message) => assert_eq!(message, "trailing characters at line 1 column 9"),
        Ok(response) => panic!("expected an error, got {:?}", response),
    }
}

#[test]
fn read_response_matches_step() {
    let response = read_response(201, "{\"a\":1}").expect("the body is JSON");
    assert_eq!(response.status, 201);
    assert_eq!(response.data, object_a_1());
    let response = read_response(201, "").expect("an empty body is no error");
    assert_eq!(response.status, 201);
    assert_eq!(response.data, Value::Null);
    let response = read_response(200, "null").expect("the body is JSON");
    assert_eq!(response.data, Value::Null);
}

#[test]
fn response_of_wraps_value_and_message() {
    let response = response_of(418, Ok(Value::from("tea"))).expect("a value was given");
    assert_eq!(response.status, 418);
    assert_eq!(response.data, Value::from("tea"));
    match response_of(418, Err("broken".to_string())) {
        Err(message) => assert_eq!(message, "broken"),
        Ok(response) => panic!("expected an error, got {:?}", response),
    }
}

#[test]
fn failed_dispatch_is_an_error() {
    let description = "connection refused".to_string();
    let reply = finished(step(Phase::AwaitingResponse, Event::DispatchFailed { description }));
    assert_eq!(reply, Err("connection refused".to_string()));
}

#[test]
fn failed_read_is_an_error() {
    let description = "connection closed before message completed".to_string();
    let reply =
        finished(step(Phase::AwaitingBody { status: 200 }, Event::ReadFailed { description }));
    assert_eq!(reply, Err("connection closed before message completed".to_string()));
}

#[test]
fn events_out_of_turn_are_refused() {
    let text = "{}".to_string();
    assert!(step(Phase::AwaitingResponse, Event::BodyRead { text }).is_none());
    let description = "x".to_string();
    assert!(step(Phase::AwaitingResponse, Event::ReadFailed { description }).is_none());
    let waiting = Phase::AwaitingBody { status: 200 };
    assert!(step(waiting, Event::Responded { status: 200 }).is_none());
    let description = "x".to_string();
    assert!(step(waiting, Event::DispatchFailed { description }).is_none());
    assert!(step(Phase::Finished, Event::Responded { status: 200 }).is_none());
}

#[test]
fn whole_invocation_runs_to_the_result() {
    let mut params = QueryParams::new();
    params.insert("id".to_string(), "7".to_string());
    let body = object_a_1();
    let (phase, action) = start("/items", Some(&params), "POST", "secret", Some(&body), &config());
    let request = match action {
        Action::Send(request) => request,
        other => panic!("expected a request to send, got {:?}", other),
    };
    assert_eq!(request.method, Method::Post);
    assert_eq!(request.url, "https://api.example.com/items?id=7");
    let (phase, action) = step(phase, Event::Responded { status: 201 }).expect("in turn");
    assert!(matches!(action, Action::ReadBody));
    let text = "{\"a\":1}".to_string();
    let reply = finished(step(phase, Event::BodyRead { text }));
    assert_eq!(reply, Ok((201, object_a_1())));
}
