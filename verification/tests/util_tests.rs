use catapult::error::CatapultError;
use catapult::http::Headers;
use catapult::util::expect;
use catapult::util::get_id_from_location_header;
use catapult::util::get_id_from_location_url;
use catapult::util::get_next_link_from_headers;
use catapult::util::make_url;
use catapult::util::next_link_in;
use catapult::util::query_pairs_of;
use catapult::json::JsonValue;

fn headers(lines: &[(&str, &str)]) -> Headers {
    let mut h = Headers::new();
    for (name, value) in lines {
        h.append_raw(name, value.as_bytes().to_vec());
    }
    h
}

fn unexpected(r: Result<String, CatapultError>) -> String {
    match r {
        Err(CatapultError::Unexpected(m)) => m,
        other => panic!("expected an unexpected-response error, got {:?}", other),
    }
}

#[test]
fn id_is_last_segment_of_location_url() {
    assert_eq!(get_id_from_location_url("https://host/v1/users/u1/calls/c123").unwrap(), "c123");
}

#[test]
fn id_ignores_trailing_slashes_and_dot_segments() {
    assert_eq!(get_id_from_location_url("https://host/v1/calls/c123/").unwrap(), "c123");
    assert_eq!(get_id_from_location_url("https://host/v1/calls/c123//").unwrap(), "c123");
    assert_eq!(get_id_from_location_url("a/b/.").unwrap(), "b");
    assert_eq!(get_id_from_location_url("a/./").unwrap(), "a");
    assert_eq!(get_id_from_location_url("plain").unwrap(), "plain");
    assert_eq!(get_id_from_location_url("a/..b").unwrap(), "..b");
    assert_eq!(get_id_from_location_url("a/b.").unwrap(), "b.");
}

#[test]
fn id_follows_std_path_file_name() {
    for url in ["https://host/v1/users/u1/calls/c123", "a/b/", "a/b/.", "a/./", "./a", "a//b", "x", "a/..b", "/a", "a/b/./.", "é/ü"] {
        let expected = std::path::Path::new(url).file_name().unwrap().to_str().unwrap().to_string();
        assert_eq!(get_id_from_location_url(url).unwrap(), expected, "{}", url);
    }
    for url in ["", "/", "..", "a/..", ".", "./", "//", "a/../", "/."] {
        assert!(std::path::Path::new(url).file_name().is_none(), "{}", url);
        assert!(get_id_from_location_url(url).is_err(), "{}", url);
    }
}

#[test]
fn url_without_segment_is_unexpected() {
    assert_eq!(unexpected(get_id_from_location_url("")), "failed to parse id from Location header");
    assert_eq!(unexpected(get_id_from_location_url("https://host/a/..")), "failed to parse id from Location header");
    assert_eq!(unexpected(get_id_from_location_url("///")), "failed to parse id from Location header");
}

#[test]
fn id_from_location_header() {
    let h = headers(&[("Content-Length", "0"), ("Location", "https://host/v1/users/u1/calls/c123")]);
    assert_eq!(get_id_from_location_header(&h).unwrap(), "c123");
    let lower = headers(&[("location", "https://host/v1/users/u1/bridges/b7")]);
    assert_eq!(get_id_from_location_header(&lower).unwrap(), "b7");
}

#[test]
fn missing_location_header_is_unexpected() {
    let h = headers(&[("Content-Length", "0")]);
    assert_eq!(unexpected(get_id_from_location_header(&h)), "Location header not found");
    assert_eq!(unexpected(get_id_from_location_header(&Headers::new())), "Location header not found");
}

#[test]
fn location_header_that_hyper_does_not_read_counts_as_missing() {
    let twice = headers(&[("Location", "https://host/a"), ("Location", "https://host/b")]);
    assert_eq!(unexpected(get_id_from_location_header(&twice)), "Location header not found");
    let empty = headers(&[("Location", "")]);
    assert_eq!(unexpected(get_id_from_location_header(&empty)), "Location header not found");
    let mut bad = Headers::new();
    bad.append_raw("Location", vec![0xff, 0xfe]);
    assert_eq!(unexpected(get_id_from_location_header(&bad)), "Location header not found");
}

#[test]
fn location_header_without_id_has_its_own_message() {
    let h = headers(&[("Location", "/")]);
    assert_eq!(unexpected(get_id_from_location_header(&h)), "failed to parse id from Location header");
}

#[test]
fn next_link_is_taken_from_the_entry_tagged_next() {
    let h = headers(&[(
        "Link",
        "<https://api/v1/users/u1/calls?page=0&size=25>; rel=\"first\", <https://api/v1/users/u1/calls?page=2&size=25>; rel=\"next\"",
    )]);
    assert_eq!(
        get_next_link_from_headers(&h).unwrap(),
        Some("https://api/v1/users/u1/calls?page=2&size=25".to_string())
    );
}

#[test]
fn no_next_link_without_header_or_tag() {
    assert_eq!(get_next_link_from_headers(&Headers::new()).unwrap(), None);
    let h = headers(&[("Link", "<https://api/first>; rel=\"first\", <https://api/last>; rel=\"last\"")]);
    assert_eq!(get_next_link_from_headers(&h).unwrap(), None);
    assert_eq!(next_link_in("").unwrap(), None);
    assert_eq!(next_link_in(",,,").unwrap(), None);
}

#[test]
fn next_link_scans_entries_in_order() {
    assert_eq!(next_link_in("<a>; rel=\"next\", <b>; rel=\"next\"").unwrap(), Some("a".to_string()));
    assert_eq!(next_link_in("<a>; rel=\"prev\", <b>; rel=\"next\"").unwrap(), Some("b".to_string()));
    assert_eq!(next_link_in("a; rel=\"first\",<b>;rel=\"next\",c; rel=\"next\"").unwrap(), Some("b".to_string()));
    assert_eq!(next_link_in("<>; rel=\"next\"").unwrap(), Some("".to_string()));
    assert_eq!(next_link_in("x<é>y>; rel=\"next\"").unwrap(), Some("é".to_string()));
}

#[test]
fn next_link_that_cannot_be_read_is_unexpected_and_not_the_last_page() {
    for text in [
        ">a<; rel=\"next\"",
        "rel=\"next\"",
        "<a; rel=\"next\"",
        "a>; rel=\"next\"",
        "https://api/next; rel=\"next\"",
        "<first>; rel=\"first\", <a; rel=\"next\", <b>; rel=\"next\"",
    ] {
        match next_link_in(text) {
            Err(CatapultError::Unexpected(m)) => assert_eq!(m, "failed to parse next link from Link header", "{}", text),
            other => panic!("{}: {:?}", text, other),
        }
    }
    let h = headers(&[("Link", "https://api/next; rel=\"next\"")]);
    assert!(matches!(get_next_link_from_headers(&h), Err(CatapultError::Unexpected(_))));
}

#[test]
fn only_the_first_link_header_line_is_read() {
    let h = headers(&[("link", "<a>; rel=\"prev\""), ("LINK", "<b>; rel=\"next\"")]);
    assert_eq!(get_next_link_from_headers(&h).unwrap(), None);
}

#[test]
fn link_header_that_is_not_utf8_is_read_leniently() {
    let mut h = Headers::new();
    let mut raw = b"<https://api/n".to_vec();
    raw.push(0xff);
    raw.extend_from_slice(b">; rel=\"next\"");
    h.append_raw("Link", raw);
    assert_eq!(get_next_link_from_headers(&h).unwrap(), Some("https://api/n\u{fffd}".to_string()));
}

#[test]
fn expect_gives_value_or_names_the_field() {
    assert_eq!(expect(Some("v".to_string()), "Answer::from").unwrap(), "v");
    match expect::<String>(None, "Answer::from") {
        Err(CatapultError::Unexpected(m)) => assert_eq!(m, "required field not found: Answer::from"),
        other => panic!("{:?}", other),
    }
}

fn object(members: Vec<(&str, JsonValue)>) -> JsonValue {
    JsonValue::Object(members.into_iter().map(|(k, v)| (k.to_string(), v)).collect())
}

#[test]
fn query_pairs_stringify_scalars() {
    let params = object(vec![
        ("name", JsonValue::String("a b".to_string())),
        ("size", JsonValue::U64(25)),
        ("offset", JsonValue::I64(-3)),
        ("flag", JsonValue::Boolean(true)),
        ("off", JsonValue::Boolean(false)),
        ("gone", JsonValue::Null),
    ]);
    let pairs = query_pairs_of(&params).unwrap();
    assert_eq!(
        pairs,
        vec![
            ("name".to_string(), "a b".to_string()),
            ("size".to_string(), "25".to_string()),
            ("offset".to_string(), "-3".to_string()),
            ("flag".to_string(), "true".to_string()),
            ("off".to_string(), "false".to_string()),
        ]
    );
}

#[test]
fn query_pair_of_a_number_held_as_text() {
    let fine = object(vec![("x", JsonValue::F64("1.5".to_string()))]);
    assert_eq!(query_pairs_of(&fine).unwrap(), vec![("x".to_string(), "1.5".to_string())]);
    let bad = object(vec![("x", JsonValue::F64("one".to_string()))]);
    match query_pairs_of(&bad) {
        Err(CatapultError::BadInput(m)) => assert_eq!(m, "query parameters must be values that can be written"),
        other => panic!("{:?}", other),
    }
}

#[test]
fn query_pairs_of_anything_but_an_object_are_none() {
    assert!(query_pairs_of(&JsonValue::Null).unwrap().is_empty());
    assert!(query_pairs_of(&JsonValue::String("x".to_string())).unwrap().is_empty());
    assert!(query_pairs_of(&JsonValue::Array(vec![JsonValue::U64(1)])).unwrap().is_empty());
}

#[test]
fn structured_query_parameter_is_bad_input() {
    let with_array = object(vec![("a", JsonValue::U64(1)), ("ids", JsonValue::Array(vec![]))]);
    assert!(matches!(query_pairs_of(&with_array), Err(CatapultError::BadInput(_))));
    let with_object = object(vec![("o", object(vec![]))]);
    match make_url("https://host/v1/x", &with_object) {
        Err(CatapultError::BadInput(m)) => assert_eq!(m, "query parameters must be scalar values"),
        other => panic!("{:?}", other),
    }
}

#[test]
fn make_url_appends_encoded_pairs() {
    let params = object(vec![("from", JsonValue::String("+1 919".to_string())), ("size", JsonValue::U64(5))]);
    assert_eq!(make_url("https://host/v1/calls", &params).unwrap(), "https://host/v1/calls?from=%2B1+919&size=5");
    assert_eq!(make_url("https://host/v1/calls", &JsonValue::Null).unwrap(), "https://host/v1/calls");
    assert_eq!(make_url("https://host/v1/calls", &object(vec![])).unwrap(), "https://host/v1/calls");
    assert_eq!(make_url("https://host/v1/calls?a=1#frag", &params).unwrap(), "https://host/v1/calls?a=1&from=%2B1+919&size=5#frag");
}

#[test]
fn make_url_normalises_as_the_url_crate_does() {
    assert_eq!(make_url("HTTPS://Host:443/a/../b", &JsonValue::Null).unwrap(), "https://host/b");
}

#[test]
fn text_that_is_no_url_is_invalid() {
    assert!(matches!(make_url("not a url", &JsonValue::Null), Err(CatapultError::InvalidUrl)));
    assert!(matches!(make_url("", &JsonValue::Null), Err(CatapultError::InvalidUrl)));
    assert!(matches!(make_url("/v1/relative", &JsonValue::Null), Err(CatapultError::InvalidUrl)));
}
