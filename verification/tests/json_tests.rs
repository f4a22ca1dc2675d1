use catapult::codec::get_boolean;
use catapult::codec::get_opt_boolean;
use catapult::codec::get_opt_string;
use catapult::codec::get_opt_strings;
use catapult::codec::get_opt_unsigned;
use catapult::codec::get_string;
use catapult::codec::get_unsigned;
use catapult::codec::to_texts;
use catapult::codec::DecoderError;
use catapult::error::ApiError;
use catapult::error::CatapultError;
use catapult::json::JsonValue;
use catapult::lazy::Lazy;
use catapult::lazy::LazyError;
use rustc_serialize::Decodable;
use rustc_serialize::Decoder;

fn parse(text: &str) -> JsonValue {
    JsonValue::from_str(text).unwrap()
}

#[test]
fn empty_object_is_written_as_braces() {
    assert_eq!(JsonValue::Object(vec![]).encode().unwrap(), "{}");
    assert_eq!(JsonValue::object(Vec::new()).encode().unwrap(), "{}");
}

#[test]
fn scalars_are_written_compactly() {
    assert_eq!(JsonValue::Null.encode().unwrap(), "null");
    assert_eq!(JsonValue::Boolean(true).encode().unwrap(), "true");
    assert_eq!(JsonValue::U64(18446744073709551615).encode().unwrap(), "18446744073709551615");
    assert_eq!(JsonValue::I64(-7).encode().unwrap(), "-7");
    assert_eq!(JsonValue::string("a\"b\n").encode().unwrap(), "\"a\\\"b\\n\"");
    assert_eq!(JsonValue::F64("1.5".to_string()).encode().unwrap(), "1.5");
    assert_eq!(JsonValue::F64("2".to_string()).encode().unwrap(), "2.0");
    assert_eq!(JsonValue::Array(vec![]).encode().unwrap(), "[]");
}

#[test]
fn members_are_written_by_ascending_key_and_the_last_of_equal_keys_stands() {
    let mut fields = Vec::new();
    JsonValue::put(&mut fields, "to", JsonValue::string("b"));
    JsonValue::put(&mut fields, "from", JsonValue::string("a"));
    JsonValue::put(&mut fields, "Zed", JsonValue::U64(1));
    JsonValue::put(&mut fields, "from", JsonValue::string("c"));
    assert_eq!(JsonValue::object(fields).encode().unwrap(), "{\"Zed\":1,\"from\":\"c\",\"to\":\"b\"}");
}

#[test]
fn constructors_for_optional_values() {
    assert_eq!(JsonValue::opt_string(&None).encode().unwrap(), "null");
    assert_eq!(JsonValue::opt_string(&Some("x".to_string())).encode().unwrap(), "\"x\"");
    assert_eq!(JsonValue::opt_str(Some("y")).encode().unwrap(), "\"y\"");
    assert_eq!(JsonValue::opt_str(None).encode().unwrap(), "null");
    assert_eq!(JsonValue::opt_unsigned(Some(3)).encode().unwrap(), "3");
    assert_eq!(JsonValue::opt_unsigned(None).encode().unwrap(), "null");
    assert_eq!(JsonValue::opt_boolean(Some(false)).encode().unwrap(), "false");
    assert_eq!(JsonValue::opt_boolean(None).encode().unwrap(), "null");
    assert_eq!(JsonValue::strings(&vec!["a".to_string(), "b".to_string()]).encode().unwrap(), "[\"a\",\"b\"]");
    assert!(JsonValue::some_string(&None).is_none());
    assert_eq!(JsonValue::some_string(&Some("s".to_string())).unwrap().encode().unwrap(), "\"s\"");
    assert_eq!(JsonValue::some_unsigned(Some(9)).unwrap().encode().unwrap(), "9");
}

#[test]
fn lazy_members_are_written_only_when_available() {
    let mut fields = Vec::new();
    JsonValue::put_string(&mut fields, "a", &Lazy::NotLoaded);
    JsonValue::put_string(&mut fields, "b", &Lazy::Available("x".to_string()));
    JsonValue::put_opt_string(&mut fields, "c", &Lazy::Available(None));
    JsonValue::put_opt_string(&mut fields, "d", &Lazy::NotLoaded);
    JsonValue::put_unsigned(&mut fields, "e", &Lazy::Available(5));
    JsonValue::put_opt_unsigned(&mut fields, "f", &Lazy::Available(Some(6)));
    JsonValue::put_boolean(&mut fields, "g", &Lazy::Available(true));
    JsonValue::put_opt_boolean(&mut fields, "h", &Lazy::NotLoaded);
    JsonValue::put_opt(&mut fields, "i", None);
    JsonValue::put_opt(&mut fields, "j", Some(JsonValue::Null));
    assert_eq!(
        JsonValue::object(fields).encode().unwrap(),
        "{\"b\":\"x\",\"c\":null,\"e\":5,\"f\":6,\"g\":true,\"j\":null}"
    );
}

#[test]
fn document_nested_too_deeply_is_not_written() {
    let mut v = JsonValue::U64(1);
    for _ in 0..128 {
        v = JsonValue::Array(vec![JsonValue::Null, v]);
    }
    assert!(v.encode().is_some());
    let deeper = JsonValue::Object(vec![("a".to_string(), JsonValue::Null), ("k".to_string(), v)]);
    assert!(deeper.encode().is_none());
    let wide = JsonValue::Array((0..1000).map(|i| JsonValue::Array(vec![JsonValue::U64(i)])).collect());
    assert!(wide.encode().is_some());
}

#[test]
fn number_held_as_text_that_spells_none_is_not_written() {
    for text in ["1.5", "-0", "12", "-3.25", "0.0000001", "100000000000000000000000"] {
        assert!(JsonValue::F64(text.to_string()).encode().is_some(), "{}", text);
    }
    for text in ["", "-", "1.", ".5", "1e5", "inf", "NaN", "one", "1.2.3", "+1", " 1", "1 ", "--1"] {
        assert!(JsonValue::F64(text.to_string()).encode().is_none(), "{}", text);
        assert!(JsonValue::Array(vec![JsonValue::F64(text.to_string())]).encode().is_none(), "{}", text);
    }
    assert_eq!(JsonValue::F64("-3.25".to_string()).encode().unwrap(), "-3.25");
}

#[test]
fn text_that_the_parser_cannot_take_is_refused() {
    let reason = |text: &str| match JsonValue::from_str(text) {
        Err(DecoderError::ApplicationError(m)) => m,
        other => panic!("{}: {:?}", text, other),
    };
    assert_eq!(reason("1e99999999999999999999"), "JSON holds a number with too long an exponent");
    assert_eq!(reason("[1, 2.5E-0000000001]"), "JSON holds a number with too long an exponent");
    assert_eq!(reason("{\"a\": 1e+1234567890}"), "JSON holds a number with too long an exponent");
    assert!(matches!(JsonValue::from_str("1e123456789"), Ok(JsonValue::F64(_))));
    assert!(matches!(JsonValue::from_str("\"e12345678901234567890\""), Ok(JsonValue::String(_))));
    assert!(matches!(JsonValue::from_str("[true, 12345678901234567890]"), Ok(JsonValue::Array(_))));
    let long_key = format!("{{\"{}\": 1}}", "k".repeat(121));
    assert_eq!(reason(&long_key), "JSON holds a key that is too long");
    let key = format!("{{\"{}\": \"{}\"}}", "k".repeat(120), "v".repeat(100_000));
    assert!(JsonValue::from_str(&key).is_ok());
    let wide = format!("{{\"{}\": 1}}", "\u{e9}".repeat(70_000));
    assert_eq!(reason(&wide), "JSON holds a key that is too long");
}

#[test]
fn parsing_reads_every_kind_of_value() {
    let v = parse("{\"s\":\"x\",\"n\":5,\"i\":-5,\"f\":1.25,\"b\":true,\"z\":null,\"a\":[1,\"two\"],\"o\":{\"k\":\"v\"}}");
    assert!(matches!(v.find("s"), Some(JsonValue::String(s)) if s == "x"));
    assert!(matches!(v.find("n"), Some(JsonValue::U64(5))));
    assert!(matches!(v.find("i"), Some(JsonValue::I64(-5))));
    assert!(matches!(v.find("f"), Some(JsonValue::F64(t)) if t == "1.25"));
    assert!(matches!(v.find("b"), Some(JsonValue::Boolean(true))));
    assert!(matches!(v.find("z"), Some(JsonValue::Null)));
    assert!(matches!(v.find("a"), Some(JsonValue::Array(items)) if items.len() == 2));
    assert!(matches!(v.find("o").unwrap().find("k"), Some(JsonValue::String(s)) if s == "v"));
    assert!(v.find("missing").is_none());
    assert!(JsonValue::Null.find("s").is_none());
}

#[test]
fn parse_then_write_gives_the_compact_text() {
    assert_eq!(parse(" { \"b\" : [ 1 , 2.5 , null ] , \"a\" : { } } ").encode().unwrap(), "{\"a\":{},\"b\":[1,2.5,null]}");
}

#[test]
fn find_gives_the_first_member_of_that_name() {
    let v = JsonValue::Object(vec![
        ("k".to_string(), JsonValue::U64(1)),
        ("k".to_string(), JsonValue::U64(2)),
    ]);
    assert!(matches!(v.find("k"), Some(JsonValue::U64(1))));
}

#[test]
fn text_that_is_no_json_is_a_parse_error() {
    for text in ["", "<html>", "{", "{\"a\":}", "[1,]", "nul", "{} x"] {
        assert!(matches!(JsonValue::from_str(text), Err(DecoderError::ParseError(_))), "{}", text);
    }
}

#[test]
fn json_nested_too_deeply_is_refused() {
    let deep = "[".repeat(129) + &"]".repeat(129);
    match JsonValue::from_str(&deep) {
        Err(DecoderError::ApplicationError(m)) => assert_eq!(m, "JSON is nested too deeply"),
        other => panic!("{:?}", other),
    }
    let fine = "[".repeat(128) + &"]".repeat(128);
    assert!(JsonValue::from_str(&fine).is_ok());
    let in_string = format!("\"{}\"", "[".repeat(500));
    assert!(matches!(JsonValue::from_str(&in_string), Ok(JsonValue::String(s)) if s.len() == 500));
    let escaped = format!("\"\\\"{}\"", "{".repeat(500));
    assert!(JsonValue::from_str(&escaped).is_ok());
    let very_deep = "[".repeat(200_000);
    assert!(matches!(JsonValue::from_str(&very_deep), Err(DecoderError::ApplicationError(_))));
}

fn expected(r: Result<String, DecoderError>) -> (String, String) {
    match r {
        Err(DecoderError::ExpectedError(kind, found)) => (kind, found),
        other => panic!("{:?}", other),
    }
}

#[test]
fn required_text_member() {
    let v = parse("{\"name\":\"n\",\"num\":5,\"nil\":null}");
    assert_eq!(get_string(&v, "name").unwrap(), "n");
    assert_eq!(expected(get_string(&v, "num")), ("String".to_string(), "5".to_string()));
    assert_eq!(expected(get_string(&v, "nil")), ("String".to_string(), "null".to_string()));
    assert!(matches!(get_string(&v, "absent"), Err(DecoderError::MissingFieldError(f)) if f == "absent"));
    assert_eq!(expected(get_string(&parse("[1]"), "name")), ("Object".to_string(), "[1]".to_string()));
}

#[test]
fn optional_members_read_null_and_absence_as_nothing() {
    let v = parse("{\"s\":\"x\",\"n\":7,\"b\":false,\"nil\":null,\"list\":[\"a\",\"b\"]}");
    assert_eq!(get_opt_string(&v, "s").unwrap(), Some("x".to_string()));
    assert_eq!(get_opt_string(&v, "nil").unwrap(), None);
    assert_eq!(get_opt_string(&v, "absent").unwrap(), None);
    assert!(matches!(get_opt_string(&v, "n"), Err(DecoderError::ExpectedError(k, f)) if k == "String" && f == "7"));
    assert_eq!(get_opt_unsigned(&v, "n").unwrap(), Some(7));
    assert_eq!(get_opt_unsigned(&v, "nil").unwrap(), None);
    assert_eq!(get_opt_unsigned(&v, "absent").unwrap(), None);
    assert_eq!(get_opt_boolean(&v, "b").unwrap(), Some(false));
    assert_eq!(get_opt_boolean(&v, "absent").unwrap(), None);
    assert!(matches!(get_opt_boolean(&v, "s"), Err(DecoderError::ExpectedError(k, f)) if k == "Boolean" && f == "\"x\""));
    assert_eq!(get_opt_strings(&v, "list").unwrap(), Some(vec!["a".to_string(), "b".to_string()]));
    assert_eq!(get_opt_strings(&v, "nil").unwrap(), None);
    assert_eq!(get_opt_strings(&v, "absent").unwrap(), None);
    assert!(matches!(get_opt_strings(&v, "s"), Err(DecoderError::ExpectedError(k, _)) if k == "Array"));
    assert!(matches!(get_opt_string(&JsonValue::Null, "s"), Err(DecoderError::ExpectedError(k, f)) if k == "Object" && f == "null"));
}

#[test]
fn list_of_texts_fails_at_the_first_item_that_is_none() {
    let v = parse("[\"a\", 1, true]");
    assert!(matches!(to_texts(&v), Err(DecoderError::ExpectedError(k, f)) if k == "String" && f == "1"));
    assert_eq!(to_texts(&parse("[]")).unwrap(), Vec::<String>::new());
}

#[test]
fn required_boolean_member() {
    let v = parse("{\"b\":true,\"s\":\"true\"}");
    assert!(get_boolean(&v, "b").unwrap());
    assert!(matches!(get_boolean(&v, "s"), Err(DecoderError::ExpectedError(k, f)) if k == "Boolean" && f == "\"true\""));
    assert!(matches!(get_boolean(&v, "absent"), Err(DecoderError::MissingFieldError(f)) if f == "absent"));
}

#[test]
fn unsigned_member_takes_numbers_and_texts_that_spell_one() {
    let v = parse("{\"u\":5,\"big\":18446744073709551615,\"neg\":-1,\"f\":1.5,\"s\":\"42\",\"bad\":\"4x\",\"b\":true,\"nil\":null}");
    assert_eq!(get_unsigned(&v, "u").unwrap(), 5);
    assert_eq!(get_unsigned(&v, "big").unwrap(), 18446744073709551615);
    assert_eq!(get_unsigned(&v, "s").unwrap(), 42);
    let err = |name: &str| match get_unsigned(&v, name) {
        Err(DecoderError::ExpectedError(kind, found)) => (kind, found),
        other => panic!("{:?}", other),
    };
    assert_eq!(err("neg"), ("Number".to_string(), "-1".to_string()));
    assert_eq!(err("f"), ("Integer".to_string(), "1.5".to_string()));
    assert_eq!(err("bad"), ("Number".to_string(), "4x".to_string()));
    assert_eq!(err("b"), ("Number".to_string(), "true".to_string()));
    assert_eq!(err("nil"), ("Number".to_string(), "null".to_string()));
    assert!(matches!(get_unsigned(&v, "absent"), Err(DecoderError::MissingFieldError(f)) if f == "absent"));
}

// what the derive of rustc_serialize reads for { name: String, size: Option<u64> }
fn outside(text: &str) -> Result<(String, Option<u64>), rustc_serialize::json::DecoderError> {
    let json = rustc_serialize::json::Json::from_str(text).map_err(rustc_serialize::json::DecoderError::ParseError)?;
    let mut d = rustc_serialize::json::Decoder::new(json);
    d.read_struct("T", 2, |d| {
        let name = d.read_struct_field("name", 0, |d| String::decode(d))?;
        let size = d.read_struct_field("size", 1, |d| Option::<u64>::decode(d))?;
        Ok((name, size))
    })
}

fn ours(text: &str) -> Result<(String, Option<u64>), DecoderError> {
    let json = JsonValue::from_str(text)?;
    let name = get_string(&json, "name")?;
    let size = get_opt_unsigned(&json, "size")?;
    Ok((name, size))
}

#[test]
fn reading_agrees_with_rustc_serialize_on_a_struct() {
    for text in [
        "{\"name\":\"a\",\"size\":3}", "{\"name\":\"a\"}", "{\"name\":\"a\",\"size\":null}", "{\"size\":3}", "{\"name\":5}",
        "{\"name\":\"a\",\"size\":\"12\"}", "{\"name\":\"a\",\"size\":\"x\"}", "{\"name\":\"a\",\"size\":-2}",
        "{\"name\":\"a\",\"size\":2.5}", "{\"name\":\"a\",\"size\":[1]}", "[]", "null", "{\"name\":null}", "{\"name\":\"a\",\"extra\":1}",
    ] {
        match (outside(text), ours(text)) {
            (Ok(a), Ok(b)) => assert_eq!(a, b, "{}", text),
            (Err(rustc_serialize::json::DecoderError::ExpectedError(a, b)), Err(DecoderError::ExpectedError(c, d))) => {
                assert_eq!((a, b), (c, d), "{}", text)
            },
            (Err(rustc_serialize::json::DecoderError::MissingFieldError(a)), Err(DecoderError::MissingFieldError(b))) => {
                assert_eq!(a, b, "{}", text)
            },
            (a, b) => panic!("{}: {:?} against {:?}", text, a, b),
        }
    }
}

#[test]
fn api_error_is_read_from_its_three_members() {
    let v = parse("{\"category\":\"bad-request\",\"code\":\"invalid-number\",\"message\":\"no such number\",\"more\":1}");
    let e = ApiError::decode(&v).unwrap();
    assert_eq!(e.get_category(), "bad-request");
    assert_eq!(e.get_code(), "invalid-number");
    assert_eq!(e.get_message(), "no such number");
    assert!(matches!(ApiError::decode(&parse("{\"category\":\"c\",\"message\":\"m\"}")), Err(DecoderError::MissingFieldError(f)) if f == "code"));
}

#[test]
fn error_of_a_failed_body() {
    match CatapultError::api_error("{\"category\":\"bad-request\",\"code\":\"invalid-number\",\"message\":\"m\"}") {
        CatapultError::ApiError(e) => {
            assert_eq!(e.category, "bad-request");
            assert_eq!(e.code, "invalid-number");
            assert_eq!(e.message, "m");
        },
        other => panic!("{:?}", other),
    }
    assert!(matches!(CatapultError::api_error("Internal Server Error"), CatapultError::DecoderError(DecoderError::ParseError(_))));
    assert!(matches!(CatapultError::api_error("{\"category\":1}"), CatapultError::DecoderError(DecoderError::ExpectedError(_, _))));
    assert!(matches!(CatapultError::api_error("{}"), CatapultError::DecoderError(DecoderError::MissingFieldError(f)) if f == "category"));
}

#[test]
fn error_constructors_and_conversions() {
    assert!(matches!(CatapultError::unexpected("u"), CatapultError::Unexpected(m) if m == "u"));
    assert!(matches!(CatapultError::bad_input("b"), CatapultError::BadInput(m) if m == "b"));
    assert!(matches!(CatapultError::from(LazyError), CatapultError::InternalError(m) if m == "Lazy::get() failed"));
    let d = DecoderError::MissingFieldError("f".to_string());
    assert!(matches!(CatapultError::from(d), CatapultError::DecoderError(DecoderError::MissingFieldError(f)) if f == "f"));
}

#[test]
fn lazy_cell() {
    let full = Lazy::Available(5u64);
    let empty: Lazy<u64> = Lazy::NotLoaded;
    assert!(full.available());
    assert!(!empty.available());
    assert_eq!(full.peek(), Some(&5));
    assert_eq!(empty.peek(), None);
    assert_eq!(*full.get().ok().unwrap(), 5);
    assert!(empty.get().is_err());
    assert!(matches!(Lazy::load_if_available(Some(1)), Lazy::Available(1)));
    assert!(matches!(Lazy::<u8>::load_if_available(None), Lazy::NotLoaded));
}
