use catapult::client::finish;
use catapult::client::ApiResponse;
use catapult::client::ByteResponse;
use catapult::client::Client;
use catapult::client::EmptyResponse;
use catapult::client::JsonResponse;
use catapult::client::ToBody;
use catapult::codec::DecoderError;
use catapult::environment::Environment;
use catapult::error::CatapultError;
use catapult::http::Headers;
use catapult::http::Method;
use catapult::http::Response;
use catapult::json::JsonValue;

fn client() -> Client {
    Client::new("u1", "token", "secret")
}

fn response(status: u16, headers: &[(&str, &str)], body: &[u8]) -> Response {
    let mut h = Headers::new();
    for (name, value) in headers {
        h.append_raw(name, value.as_bytes().to_vec());
    }
    Response { status, headers: h, body: body.to_vec() }
}

fn object(members: Vec<(&str, JsonValue)>) -> JsonValue {
    JsonValue::Object(members.into_iter().map(|(k, v)| (k.to_string(), v)).collect())
}

#[test]
fn new_client_is_for_production_and_v1() {
    let c = client();
    assert_eq!(c.get_user_id(), "u1");
    assert_eq!(c.get_api_token(), "token");
    assert_eq!(c.get_api_secret(), "secret");
    assert_eq!(c.create_url("users/u1/calls"), "https://api.catapult.inetwork.com/v1/users/u1/calls");
    assert_eq!(c.user_path("/calls"), "users/u1/calls");
}

#[test]
fn base_urls_of_the_environments() {
    assert_eq!(Environment::Production.get_base_url(), "https://api.catapult.inetwork.com");
    assert_eq!(Environment::Stage.get_base_url(), "https://api.stage.catapult.inetwork.com");
    assert_eq!(Environment::Custom("http://localhost:8080".to_string()).get_base_url(), "http://localhost:8080");
}

#[test]
fn environment_override_holds_for_the_next_request() {
    let mut c = client();
    let call = catapult::call::Call::get("c1");
    let before = call.load_request(&c).unwrap();
    assert_eq!(before.url, "https://api.catapult.inetwork.com/v1/users/u1/calls/c1");
    c.set_environment(Environment::Stage);
    let after = call.load_request(&c).unwrap();
    assert_eq!(after.url, "https://api.stage.catapult.inetwork.com/v1/users/u1/calls/c1");
    assert_eq!(after.username, before.username);
    assert_eq!(after.password, before.password);
    assert_eq!(before.url, "https://api.catapult.inetwork.com/v1/users/u1/calls/c1");
    c.set_environment(Environment::Custom("http://localhost:8080".to_string()));
    assert_eq!(call.load_request(&c).unwrap().url, "http://localhost:8080/v1/users/u1/calls/c1");
    assert_eq!(c.get_user_id(), "u1");
}

#[test]
fn requests_carry_verb_credentials_and_body() {
    let c = client();
    let body = b"abc".to_vec();
    let r = c.raw_put_request("users/u1/media/f", &JsonValue::Null, body).unwrap();
    assert_eq!(r.method, Method::Put);
    assert_eq!(r.url, "https://api.catapult.inetwork.com/v1/users/u1/media/f");
    assert_eq!(r.username, "token");
    assert_eq!(r.password, "secret");
    assert_eq!(r.body, b"abc".to_vec());
    assert_eq!(c.raw_get_request("p", &JsonValue::Null, ()).unwrap().method, Method::Get);
    assert_eq!(c.raw_post_request("p", &JsonValue::Null, ()).unwrap().method, Method::Post);
    assert_eq!(c.raw_head_request("p", &JsonValue::Null, ()).unwrap().method, Method::Head);
    let d = c.raw_delete_request("p", &JsonValue::Null).unwrap();
    assert_eq!(d.method, Method::Delete);
    assert!(d.body.is_empty());
    assert_eq!(c.get_request("p").unwrap().method, Method::Get);
}

#[test]
fn empty_body_is_a_valid_body() {
    let r = client().raw_post_request("users/u1/x", &JsonValue::Null, ()).unwrap();
    assert!(r.body.is_empty());
}

#[test]
fn parameters_go_into_the_query() {
    let c = client();
    let params = object(vec![("size", JsonValue::U64(25)), ("state", JsonValue::string("active")), ("skip", JsonValue::Null)]);
    let r = c.raw_get_request("users/u1/calls", &params, ()).unwrap();
    assert_eq!(r.url, "https://api.catapult.inetwork.com/v1/users/u1/calls?size=25&state=active");
}

#[test]
fn structured_parameter_is_rejected_before_any_request() {
    let c = client();
    let params = object(vec![("ids", JsonValue::Array(vec![JsonValue::U64(1)]))]);
    assert!(matches!(c.raw_get_request("users/u1/calls", &params, ()), Err(CatapultError::BadInput(_))));
}

#[test]
fn address_that_is_no_url_is_invalid() {
    let mut c = client();
    c.set_environment(Environment::Custom("nonsense".to_string()));
    assert!(matches!(c.get_request("users/u1/calls"), Err(CatapultError::InvalidUrl)));
}

#[test]
fn bodies() {
    assert_eq!(b"x".to_vec().to_body(), b"x".to_vec());
    assert_eq!("é".to_string().to_body(), vec![0xc3, 0xa9]);
    assert_eq!(().to_body(), Vec::<u8>::new());
}

#[test]
fn post_request_writes_the_document() {
    let json = object(vec![("b", JsonValue::Boolean(true)), ("a", JsonValue::string("x"))]);
    let r = client().post_request("users/u1/x", &json).unwrap();
    assert_eq!(r.method, Method::Post);
    assert_eq!(r.body, b"{\"a\":\"x\",\"b\":true}".to_vec());
    let empty = client().post_request("users/u1/x", &object(vec![])).unwrap();
    assert_eq!(empty.body, b"{}".to_vec());
}

#[test]
fn document_that_cannot_be_written_is_an_encoder_error() {
    let mut v = JsonValue::Null;
    for _ in 0..200 {
        v = JsonValue::Array(vec![v]);
    }
    match client().post_request("users/u1/x", &v) {
        Err(CatapultError::EncoderError(m)) => assert_eq!(m, "document cannot be written as JSON"),
        other => panic!("{:?}", other),
    }
}

#[test]
fn page_request_uses_the_cursor_as_it_stands() {
    let cursor = "https://elsewhere.example/v1/users/u1/calls?page=2&size=25";
    let r = client().page_request(cursor);
    assert_eq!(r.method, Method::Get);
    assert_eq!(r.url, cursor);
    assert_eq!(r.username, "token");
    assert_eq!(r.password, "secret");
    assert!(r.body.is_empty());
}

#[test]
fn status_from_200_to_399_is_success() {
    for status in [200u16, 201, 204, 302, 399] {
        assert!(EmptyResponse::new(response(status, &[], b"")).is_ok(), "{}", status);
        assert!(finish(response(status, &[], b"ignored")).is_ok(), "{}", status);
    }
    for status in [0u16, 100, 199, 400, 404, 422, 500, 599] {
        assert!(EmptyResponse::new(response(status, &[], b"{}")).is_err(), "{}", status);
        assert!(finish(response(status, &[], b"{}")).is_err(), "{}", status);
    }
}

#[test]
fn failure_with_error_body_is_an_api_error() {
    let body = b"{\"category\":\"bad-request\",\"code\":\"invalid-number\",\"message\":\"The number is invalid\"}";
    match finish(response(422, &[("Content-Type", "application/json")], body)) {
        Err(CatapultError::ApiError(e)) => {
            assert_eq!(e.category, "bad-request");
            assert_eq!(e.code, "invalid-number");
            assert_eq!(e.message, "The number is invalid");
        },
        other => panic!("{:?}", other),
    }
    assert!(matches!(JsonResponse::new(response(422, &[], body)), Err(CatapultError::ApiError(_))));
    assert!(matches!(ByteResponse::new(response(422, &[], body)), Err(CatapultError::ApiError(_))));
}

#[test]
fn failure_with_body_that_is_no_json_is_a_decode_error() {
    let r = finish(response(500, &[], b"<html>Internal Server Error</html>"));
    assert!(matches!(r, Err(CatapultError::DecoderError(DecoderError::ParseError(_)))), "{:?}", r);
    let r = finish(response(500, &[], b""));
    assert!(matches!(r, Err(CatapultError::DecoderError(DecoderError::ParseError(_)))), "{:?}", r);
    let r = finish(response(404, &[], b"{\"category\":\"not-found\"}"));
    assert!(matches!(r, Err(CatapultError::DecoderError(DecoderError::MissingFieldError(_)))), "{:?}", r);
}

#[test]
fn body_that_is_no_text_is_an_io_error() {
    match finish(response(500, &[], &[0xff, 0xfe])) {
        Err(CatapultError::IoError(m)) => assert_eq!(m, "stream did not contain valid UTF-8"),
        other => panic!("{:?}", other),
    }
    assert!(matches!(JsonResponse::new(response(200, &[], &[0xc3])), Err(CatapultError::IoError(_))));
}

#[test]
fn successful_responses_keep_headers_and_body() {
    let e = EmptyResponse::new(response(201, &[("Location", "https://h/x/1")], b"whatever")).unwrap();
    assert_eq!(e.headers.location(), Some("https://h/x/1".to_string()));
    let j = JsonResponse::new(response(200, &[("X", "y")], b"{\"a\":[1,2]}")).unwrap();
    assert_eq!(j.body.encode().unwrap(), "{\"a\":[1,2]}");
    assert_eq!(j.headers.get_raw("x"), Some(vec![b"y".to_vec()]));
    let b = ByteResponse::new(response(200, &[], &[0, 159, 146, 150])).unwrap();
    assert_eq!(b.body, vec![0, 159, 146, 150]);
}

#[test]
fn successful_response_with_body_that_is_no_json_is_a_decode_error() {
    let r = JsonResponse::new(response(200, &[], b"not json"));
    assert!(matches!(r, Err(CatapultError::DecoderError(DecoderError::ParseError(_)))));
    let r = JsonResponse::new(response(200, &[], b""));
    assert!(matches!(r, Err(CatapultError::DecoderError(DecoderError::ParseError(_)))));
}

#[test]
fn headers_are_found_whatever_the_case_of_their_name() {
    let mut h = Headers::new();
    h.append_raw("Content-Type", b"text/plain; charset=utf-8".to_vec());
    h.append_raw("content-length", b"42".to_vec());
    h.append_raw("DATE", b"Tue, 15 Nov 1994 08:12:31 GMT".to_vec());
    h.append_raw("X-Multi", b"a".to_vec());
    h.append_raw("x-multi", b"b".to_vec());
    assert_eq!(h.content_type(), Some(("text".to_string(), "plain".to_string())));
    assert_eq!(h.content_length(), Some(42));
    assert_eq!(h.date(), Some("Tue, 15 Nov 1994 08:12:31 GMT".to_string()));
    assert_eq!(h.get_raw("X-MULTI"), Some(vec![b"a".to_vec(), b"b".to_vec()]));
    assert_eq!(h.get_raw("x-mult"), None);
    assert_eq!(h.location(), None);
}

#[test]
fn typed_headers_that_are_malformed_read_as_nothing() {
    let mut h = Headers::new();
    h.append_raw("Content-Type", b"nonsense".to_vec());
    h.append_raw("Content-Length", b"12".to_vec());
    h.append_raw("Content-Length", b"13".to_vec());
    h.append_raw("Date", b"yesterday".to_vec());
    assert_eq!(h.content_type(), None);
    assert_eq!(h.content_length(), None);
    assert_eq!(h.date(), None);
    let mut same = Headers::new();
    same.append_raw("Content-Length", b"12".to_vec());
    same.append_raw("Content-Length", b"12".to_vec());
    assert_eq!(same.content_length(), Some(12));
}

#[test]
fn content_type_that_is_not_ascii_reads_as_nothing() {
    let mut h = Headers::new();
    h.append_raw("Content-Type", "text/plain; a=\"x\u{e9}\"".as_bytes().to_vec());
    assert_eq!(h.content_type(), None);
    let mut bytes = Headers::new();
    bytes.append_raw("Content-Type", vec![b't', b'/', 0xff]);
    assert_eq!(bytes.content_type(), None);
    let mut quoted = Headers::new();
    quoted.append_raw("Content-Type", b"text/plain; a=\"x y\"; charset=UTF-8".to_vec());
    assert_eq!(quoted.content_type(), Some(("text".to_string(), "plain".to_string())));
}

#[test]
fn content_length_must_be_spelled_by_every_line() {
    let mut h = Headers::new();
    h.append_raw("Content-Length", b"7".to_vec());
    h.append_raw("Content-Length", b"seven".to_vec());
    assert_eq!(h.content_length(), None);
    let mut plus = Headers::new();
    plus.append_raw("Content-Length", b"+7".to_vec());
    assert_eq!(plus.content_length(), Some(7));
    let mut spaced = Headers::new();
    spaced.append_raw("Content-Length", b" 7".to_vec());
    assert_eq!(spaced.content_length(), None);
    let mut bad = Headers::new();
    bad.append_raw("Content-Length", vec![b'7', 0xff]);
    assert_eq!(bad.content_length(), None);
}

#[test]
fn dates_in_the_old_forms_are_written_in_the_new() {
    let mut h = Headers::new();
    h.append_raw("Date", b"Sunday, 06-Nov-94 08:49:37 GMT".to_vec());
    assert_eq!(h.date(), Some("Sun, 06 Nov 1994 08:49:37 GMT".to_string()));
}
