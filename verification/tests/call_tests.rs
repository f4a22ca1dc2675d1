use catapult::account::Account;
use catapult::application::Application;
use catapult::bridge::Bridge;
use catapult::call::get_call_list;
use catapult::call::Call;
use catapult::call::GatherConfig;
use catapult::call::State;
use catapult::client::finish;
use catapult::client::Client;
use catapult::codec::DecoderError;
use catapult::error::CatapultError;
use catapult::http::Headers;
use catapult::http::Method;
use catapult::http::Request;
use catapult::http::Response;
use catapult::lazy::Read;
use catapult::voice::Voice;

const BASE: &str = "https://api.catapult.inetwork.com/v1/users/u1";

fn client() -> Client {
    Client::new("u1", "token", "secret")
}

fn response(status: u16, headers: &[(&str, &str)], body: &str) -> Response {
    let mut h = Headers::new();
    for (name, value) in headers {
        h.append_raw(name, value.as_bytes().to_vec());
    }
    Response { status, headers: h, body: body.as_bytes().to_vec() }
}

fn ok(body: &str) -> Response {
    response(200, &[("Content-Type", "application/json")], body)
}

fn created(location: &str) -> Response {
    response(201, &[("Location", location)], "")
}

fn text(request: &Request) -> String {
    String::from_utf8(request.body.clone()).unwrap()
}

fn value<T: std::fmt::Debug>(read: Result<Read<T>, CatapultError>) -> T {
    match read {
        Ok(Read::Value(v)) => v,
        other => panic!("expected a cached value, got {:?}", other),
    }
}

fn load<T: std::fmt::Debug>(read: Result<Read<T>, CatapultError>) -> Request {
    match read {
        Ok(Read::Load(request)) => request,
        other => panic!("expected a load, got {:?}", other),
    }
}

const CALL: &str = "{\"id\":\"c1\",\"direction\":\"out\",\"from\":\"+1919\",\"to\":\"+1920\",\"recordingEnabled\":false,\"startTime\":\"2016-01-01T00:00:00Z\",\"state\":\"active\",\"transcriptionEnabled\":true,\"bridge\":\"https://api/v1/users/u1/bridges/b9\",\"withholdCallerName\":true}";

// ---------------------------------------------------------------- account

#[test]
fn fresh_account_asks_for_one_load_then_reads_from_the_cache() {
    let c = client();
    let mut account = Account::get();
    let request = load(account.get_balance(&c));
    assert_eq!(request.method, Method::Get);
    assert_eq!(request.url, format!("{}/account", BASE));
    assert_eq!(request.username, "token");
    assert!(request.body.is_empty());
    assert_eq!(load(account.get_type(&c)).url, request.url);
    account.load(ok("{\"balance\":\"12.50\",\"accountType\":\"pre-pay\"}")).unwrap();
    assert_eq!(value(account.get_balance(&c)), "12.50");
    assert_eq!(value(account.get_type(&c)), "pre-pay");
}

#[test]
fn failed_load_leaves_the_account_unloaded() {
    let c = client();
    let mut account = Account::get();
    let r = account.load(response(404, &[], "{\"category\":\"not-found\",\"code\":\"x\",\"message\":\"m\"}"));
    assert!(matches!(r, Err(CatapultError::ApiError(_))));
    load(account.get_balance(&c));
    let r = account.load(ok("{\"balance\":\"1\"}"));
    assert!(matches!(r, Err(CatapultError::DecoderError(DecoderError::MissingFieldError(f))) if f == "accountType"));
    load(account.get_balance(&c));
    load(account.get_type(&c));
}

#[test]
fn reload_replaces_every_field() {
    let c = client();
    let mut account = Account::get();
    account.load(ok("{\"balance\":\"1\",\"accountType\":\"a\"}")).unwrap();
    account.load(ok("{\"balance\":\"2\",\"accountType\":\"b\"}")).unwrap();
    assert_eq!(value(account.get_balance(&c)), "2");
    assert_eq!(value(account.get_type(&c)), "b");
    assert!(account.load(ok("[]")).is_err());
    assert_eq!(value(account.get_balance(&c)), "2");
}

#[test]
fn read_that_still_asks_for_a_load_after_a_load_is_an_internal_error() {
    let c = client();
    let account = Account::get();
    match account.get_balance(&c).unwrap().value() {
        Err(CatapultError::InternalError(m)) => assert_eq!(m, "Lazy::get() failed"),
        other => panic!("{:?}", other),
    }
    assert_eq!(Read::Value(3u64).value().unwrap(), 3);
}

// ---------------------------------------------------------------- application

#[test]
fn save_with_nothing_set_posts_the_empty_object() {
    let c = client();
    let app = Application::get("a1");
    let first = app.save(&c).unwrap();
    assert_eq!(first.method, Method::Post);
    assert_eq!(first.url, format!("{}/applications/a1", BASE));
    assert_eq!(first.body, b"{}".to_vec());
}

#[test]
fn save_posts_only_what_was_set_and_the_same_bytes_each_time() {
    let c = client();
    let mut app = Application::get("a1");
    app.set_name("shop");
    app.set_auto_answer(Some(false));
    app.set_incoming_call_url(None);
    app.set_incoming_call_url_callback_timeout(Some(500));
    let first = app.save(&c).unwrap();
    let second = app.save(&c).unwrap();
    assert_eq!(
        text(&first),
        "{\"autoAnswer\":false,\"incomingCallUrl\":null,\"incomingCallUrlCallbackTimeout\":500,\"name\":\"shop\"}"
    );
    assert_eq!(first.body, second.body);
    assert_eq!(first.url, second.url);
}

#[test]
fn application_setters_fill_the_cache_without_a_request() {
    let c = client();
    let mut app = Application::get("a1");
    app.set_name("n");
    app.set_incoming_call_url(Some("http://call"));
    app.set_incoming_call_fallback_url(Some("http://fall"));
    app.set_incoming_message_url(Some("http://msg"));
    app.set_incoming_message_url_callback_timeout(None);
    app.set_incoming_message_fallback_url(Some("http://mfall"));
    app.set_callback_http_method(Some("GET"));
    assert_eq!(value(app.get_name(&c)), "n");
    assert_eq!(value(app.get_incoming_call_url(&c)), Some("http://call".to_string()));
    assert_eq!(value(app.get_incoming_call_fallback_url(&c)), Some("http://fall".to_string()));
    assert_eq!(value(app.get_incoming_message_url(&c)), Some("http://msg".to_string()));
    assert_eq!(value(app.get_incoming_message_url_callback_timeout(&c)), None);
    assert_eq!(value(app.get_callback_http_method(&c)), Some("GET".to_string()));
    load(app.get_auto_answer(&c));
    load(app.get_incoming_call_url_callback_timeout(&c));
    assert_eq!(app.get_id(), "a1");
}

#[test]
fn application_without_id_cannot_be_loaded() {
    let c = client();
    let app = Application::get("");
    match app.get_name(&c) {
        Err(CatapultError::BadInput(m)) => assert_eq!(m, "invalid app id"),
        other => panic!("{:?}", other),
    }
    assert!(matches!(app.load_request(&c), Err(CatapultError::BadInput(_))));
}

#[test]
fn application_is_created_from_its_builder() {
    let c = client();
    let builder = Application::build("shop", "http://call", "http://msg")
        .incoming_call_url_callback_timeout(100)
        .incoming_call_fallback_url("http://cf")
        .incoming_message_url_callback_timeout(200)
        .incoming_message_fallback_url("http://mf")
        .use_get_http_method()
        .disable_auto_answer();
    let request = builder.create_request(&c).unwrap();
    assert_eq!(request.method, Method::Post);
    assert_eq!(request.url, format!("{}/applications", BASE));
    assert_eq!(
        text(&request),
        "{\"autoAnswer\":false,\"callbackHttpMethod\":\"GET\",\"incomingCallFallbackUrl\":\"http://cf\",\"incomingCallUrl\":\"http://call\",\"incomingCallUrlCallbackTimeout\":100,\"incomingMessageFallbackUrl\":\"http://mf\",\"incomingMessageUrl\":\"http://msg\",\"incomingMessageUrlCallbackTimeout\":200,\"name\":\"shop\"}"
    );
    let app = builder.create(created("https://api/v1/users/u1/applications/a-77")).unwrap();
    assert_eq!(app.get_id(), "a-77");
    assert_eq!(value(app.get_name(&c)), "shop");
    assert_eq!(value(app.get_incoming_call_url(&c)), Some("http://call".to_string()));
    assert_eq!(value(app.get_auto_answer(&c)), Some(false));
    assert_eq!(value(app.get_callback_http_method(&c)), Some("GET".to_string()));
}

#[test]
fn application_builder_defaults() {
    let request = Application::build("n", "c", "m").create_request(&client()).unwrap();
    assert_eq!(
        text(&request),
        "{\"autoAnswer\":true,\"callbackHttpMethod\":\"POST\",\"incomingCallFallbackUrl\":null,\"incomingCallUrl\":\"c\",\"incomingCallUrlCallbackTimeout\":null,\"incomingMessageFallbackUrl\":null,\"incomingMessageUrl\":\"m\",\"incomingMessageUrlCallbackTimeout\":null,\"name\":\"n\"}"
    );
}

#[test]
fn creation_without_location_is_unexpected() {
    let r = Application::build("n", "c", "m").create(response(201, &[], ""));
    assert!(matches!(r, Err(CatapultError::Unexpected(m)) if m == "Location header not found"));
    let r = Application::build("n", "c", "m").create(response(400, &[("Location", "x/1")], "{\"category\":\"c\",\"code\":\"d\",\"message\":\"m\"}"));
    assert!(matches!(r, Err(CatapultError::ApiError(_))));
}

#[test]
fn application_load_and_delete() {
    let c = client();
    let mut app = Application::get("a1");
    assert_eq!(load(app.get_name(&c)).url, format!("{}/applications/a1", BASE));
    app.load(ok("{\"id\":\"other\",\"name\":\"n\",\"incomingCallUrl\":\"http://c\",\"autoAnswer\":true}")).unwrap();
    assert_eq!(app.get_id(), "a1");
    assert_eq!(value(app.get_name(&c)), "n");
    assert_eq!(value(app.get_incoming_call_url(&c)), Some("http://c".to_string()));
    assert_eq!(value(app.get_incoming_message_url(&c)), None);
    assert_eq!(value(app.get_auto_answer(&c)), Some(true));
    let d = app.delete(&c).unwrap();
    assert_eq!(d.method, Method::Delete);
    assert_eq!(d.url, format!("{}/applications/a1", BASE));
    assert!(finish(response(200, &[], "")).is_ok());
}

#[test]
fn three_pages_of_applications_then_none() {
    let c = client();
    let query = Application::query().size(2);
    let first = query.submit_request(&c).unwrap();
    assert_eq!(first.url, format!("{}/applications?size=2", BASE));
    let page = |ids: [&str; 2], next: Option<&str>| {
        let body = format!("[{{\"id\":\"{}\",\"name\":\"n\"}},{{\"id\":\"{}\",\"name\":\"m\"}}]", ids[0], ids[1]);
        match next {
            Some(url) => response(200, &[("Link", &format!("<https://api/first>; rel=\"first\", <{}>; rel=\"next\"", url))], &body),
            None => response(200, &[("Link", "<https://api/first>; rel=\"first\"")], &body),
        }
    };
    let page_one = query.submit(page(["a1", "a2"], Some("https://api/v1/users/u1/applications?page=1&size=2"))).unwrap();
    assert!(page_one.has_next());
    assert_eq!(page_one.get_applications().len(), 2);
    assert_eq!(page_one.get_applications()[0].get_id(), "a1");
    assert_eq!(value(page_one.get_applications()[1].get_name(&c)), "m");
    let second = page_one.next_request(&c).unwrap();
    assert_eq!(second.url, "https://api/v1/users/u1/applications?page=1&size=2");
    assert_eq!(second.method, Method::Get);
    assert_eq!(second.username, "token");
    let page_two = page_one.next(page(["a3", "a4"], Some("https://api/v1/users/u1/applications?page=2&size=2"))).unwrap().unwrap();
    assert!(page_two.has_next());
    let third = page_two.next_request(&c).unwrap();
    assert_eq!(third.url, "https://api/v1/users/u1/applications?page=2&size=2");
    let page_three = page_two.next(page(["a5", "a6"], None)).unwrap().unwrap();
    assert_eq!(page_three.get_applications()[1].get_id(), "a6");
    assert!(!page_three.has_next());
    assert!(page_three.next_request(&c).is_none());
    assert!(page_three.next(page(["x", "y"], None)).is_none());
    assert_eq!(Application::query().submit_request(&c).unwrap().url, format!("{}/applications", BASE));
}

#[test]
fn listing_that_is_no_array_is_a_decode_error() {
    let r = Application::list(ok("{\"id\":\"a\"}"));
    assert!(matches!(r, Err(CatapultError::DecoderError(DecoderError::ExpectedError(k, _))) if k == "Array"));
    let r = Application::list(ok("[{\"id\":\"a\",\"name\":\"n\"},{\"id\":\"b\"}]"));
    assert!(matches!(r, Err(CatapultError::DecoderError(DecoderError::MissingFieldError(f))) if f == "name"));
}

#[test]
fn call_bridge_or_application_without_id_is_refused_before_any_request() {
    let c = client();
    let bad = |r: Result<Request, CatapultError>, message: &str| match r {
        Err(CatapultError::BadInput(m)) => assert_eq!(m, message),
        other => panic!("{}: {:?}", message, other),
    };
    let mut call = Call::get("");
    bad(call.load_request(&c), "invalid call id");
    bad(call.hang_up(&c), "invalid call id");
    bad(call.answer_incoming(&c), "invalid call id");
    bad(call.enable_recording(&c, true), "invalid call id");
    bad(call.stop_audio(&c), "invalid call id");
    bad(call.send_dtmf(&c, "1"), "invalid call id");
    bad(call.gather_dtmf(&c, &GatherConfig::new(1, 1, "#")), "invalid call id");
    bad(call.get_events_request(&c), "invalid call id");
    bad(call.get_event_request(&c, "e1"), "invalid call id");
    bad(Call::get("c1").get_event_request(&c, ""), "invalid event id");
    bad(call.add_to_new_bridge_request(&c, true, &vec![]), "invalid call id");
    assert!(matches!(call.get_state(&c), Err(CatapultError::BadInput(m)) if m == "invalid call id"));
    assert!(matches!(call.get_bridge(&c), Err(CatapultError::BadInput(_))));
    let bridge = Bridge::get_by_id("");
    bad(bridge.load_request(&c), "invalid bridge id");
    bad(bridge.update(&c, true, &vec![]), "invalid bridge id");
    bad(bridge.remove_all_calls(&c), "invalid bridge id");
    bad(bridge.play_audio_file(&c, "u", false), "invalid bridge id");
    bad(bridge.get_calls_request(&c), "invalid bridge id");
    bad(Application::get("").save(&c), "invalid app id");
    bad(Application::get("").delete(&c), "invalid app id");
    assert!(Call::get("c1").load_request(&c).is_ok());
}

// ---------------------------------------------------------------- bridge

#[test]
fn bridge_creation_and_commands() {
    let c = client();
    let ids = vec!["c1".to_string(), "c2".to_string()];
    let request = Bridge::create_request(&c, true, &ids).unwrap();
    assert_eq!(request.url, format!("{}/bridges", BASE));
    assert_eq!(text(&request), "{\"bridgeAudio\":true,\"callIds\":[\"c1\",\"c2\"]}");
    let bridge = Bridge::create(true, created("https://api/v1/users/u1/bridges/b1")).unwrap();
    assert_eq!(bridge.get_id(), "b1");
    assert!(value(bridge.get_bridge_audio(&c)));
    assert_eq!(load(bridge.get_state(&c)).url, format!("{}/bridges/b1", BASE));
    let update = bridge.update(&c, false, &ids).unwrap();
    assert_eq!(update.url, format!("{}/bridges/b1", BASE));
    assert_eq!(text(&update), "{\"bridgeAudio\":false,\"callIds\":[\"c1\",\"c2\"]}");
    assert_eq!(text(&bridge.remove_all_calls(&c).unwrap()), "{\"callIds\":[]}");
    assert_eq!(text(&bridge.enable_audio(&c, true).unwrap()), "{\"bridgeAudio\":true}");
    let audio = bridge.play_audio_file(&c, "http://a.mp3", true).unwrap();
    assert_eq!(audio.url, format!("{}/bridges/b1/audio", BASE));
    assert_eq!(text(&audio), "{\"fileUrl\":\"http://a.mp3\",\"loopEnabled\":true}");
}

#[test]
fn bridge_load_and_calls() {
    let c = client();
    let mut bridge = Bridge::get_by_id("b1");
    load(bridge.get_created_time(&c));
    bridge.load(ok("{\"id\":\"b1\",\"state\":\"active\",\"bridgeAudio\":false,\"calls\":\"https://x/calls\",\"createdTime\":\"t0\",\"activatedTime\":\"t1\"}")).unwrap();
    assert_eq!(value(bridge.get_state(&c)), "active");
    assert!(!value(bridge.get_bridge_audio(&c)));
    assert_eq!(value(bridge.get_created_time(&c)), "t0");
    assert_eq!(value(bridge.get_activated_time(&c)), Some("t1".to_string()));
    assert_eq!(value(bridge.get_completed_time(&c)), None);
    assert_eq!(bridge.get_calls_request(&c).unwrap().url, format!("{}/bridges/b1/calls", BASE));
    assert_eq!(Call::get_calls_from_bridge_request(&bridge, &c).unwrap().url, format!("{}/bridges/b1/calls", BASE));
    let calls = Bridge::get_calls(ok(&format!("[{}]", CALL))).unwrap();
    assert_eq!(calls.len(), 1);
    assert_eq!(calls[0].get_id(), "c1");
    assert_eq!(value(calls[0].get_bridge_id(&c)), Some("b9".to_string()));
}

// ---------------------------------------------------------------- call

#[test]
fn call_state_words() {
    assert_eq!(State::Started.to_string(), "started");
    assert_eq!(State::Transferring.to_string(), "transferring");
    for s in [State::Started, State::Rejected, State::Active, State::Completed, State::Transferring] {
        assert_eq!(State::parse(s.to_string()).unwrap(), s);
    }
    match State::parse("ringing") {
        Err(CatapultError::Unexpected(m)) => assert_eq!(m, "unknown Call state: ringing"),
        other => panic!("{:?}", other),
    }
}

#[test]
fn call_load_fills_every_field() {
    let c = client();
    let mut call = Call::get("c1");
    assert_eq!(load(call.get_state(&c)).url, format!("{}/calls/c1", BASE));
    call.load(ok(CALL)).unwrap();
    assert_eq!(value(call.get_state(&c)), State::Active);
    assert_eq!(value(call.get_direction(&c)), "out");
    assert_eq!(value(call.get_from(&c)), "+1919");
    assert_eq!(value(call.get_to(&c)), "+1920");
    assert_eq!(value(call.get_start_time(&c)), "2016-01-01T00:00:00Z");
    assert_eq!(value(call.get_bridge_id(&c)), Some("b9".to_string()));
    assert!(!value(call.get_recording_enabled(&c)));
    assert!(value(call.get_transcription_enabled(&c)));
    assert_eq!(value(call.get_active_time(&c)), None);
    assert_eq!(value(call.get_end_time(&c)), None);
    assert_eq!(value(call.get_callback_url(&c)), None);
    assert_eq!(value(call.get_recording_file_format(&c)), None);
    assert_eq!(value(call.get_display_name(&c)), None);
    assert_eq!(value(call.get_preferred_id(&c)), None);
    assert_eq!(value(call.get_withhold_caller_name(&c)), Some(true));
    assert_eq!(value(call.get_withhold_caller_number(&c)), None);
    let bridge = value(call.get_bridge(&c)).unwrap();
    assert_eq!(bridge.get_id(), "b9");
}

#[test]
fn call_with_unknown_state_or_bad_bridge_is_unexpected_and_unchanged() {
    let c = client();
    let mut call = Call::get("c1");
    let bad_state = CALL.replace("\"active\"", "\"ringing\"");
    assert!(matches!(call.load(ok(&bad_state)), Err(CatapultError::Unexpected(m)) if m == "unknown Call state: ringing"));
    load(call.get_from(&c));
    let bad_bridge = CALL.replace("https://api/v1/users/u1/bridges/b9", "/").replace("\"active\"", "\"ringing\"");
    assert!(matches!(call.load(ok(&bad_bridge)), Err(CatapultError::Unexpected(m)) if m == "failed to parse id from Location header"));
    load(call.get_from(&c));
}

#[test]
fn hang_up_invalidates_state_and_end_time_only() {
    let c = client();
    let mut call = Call::get("c1");
    call.load(ok(CALL)).unwrap();
    assert_eq!(value(call.get_state(&c)), State::Active);
    let request = call.hang_up(&c).unwrap();
    assert_eq!(request.method, Method::Post);
    assert_eq!(request.url, format!("{}/calls/c1", BASE));
    assert_eq!(text(&request), "{\"state\":\"completed\"}");
    assert_eq!(load(call.get_state(&c)).url, format!("{}/calls/c1", BASE));
    load(call.get_end_time(&c));
    assert_eq!(value(call.get_from(&c)), "+1919");
    assert_eq!(value(call.get_to(&c)), "+1920");
    assert_eq!(value(call.get_active_time(&c)), None);
    call.load(ok(&CALL.replace("\"active\"", "\"completed\""))).unwrap();
    assert_eq!(value(call.get_state(&c)), State::Completed);
}

#[test]
fn answer_reject_and_recording_invalidate_what_they_touch() {
    let c = client();
    let mut call = Call::get("c1");
    call.load(ok(CALL)).unwrap();
    assert_eq!(text(&call.answer_incoming(&c).unwrap()), "{\"state\":\"active\"}");
    load(call.get_state(&c));
    load(call.get_active_time(&c));
    assert_eq!(value(call.get_end_time(&c)), None);
    call.load(ok(CALL)).unwrap();
    assert_eq!(text(&call.reject_incoming(&c).unwrap()), "{\"state\":\"rejected\"}");
    load(call.get_state(&c));
    load(call.get_active_time(&c));
    call.load(ok(CALL)).unwrap();
    assert_eq!(text(&call.enable_recording(&c, true).unwrap()), "{\"recordingEnabled\":true}");
    assert!(value(call.get_recording_enabled(&c)));
    load(call.get_recording_file_format(&c));
    load(call.get_transcription_enabled(&c));
    assert_eq!(value(call.get_state(&c)), State::Active);
}

#[test]
fn call_audio_commands() {
    let c = client();
    let call = Call::get("c1");
    let play = call.play_audio_file(&c, "http://a.mp3", false, Some("t")).unwrap();
    assert_eq!(play.url, format!("{}/calls/c1/audio", BASE));
    assert_eq!(text(&play), "{\"fileUrl\":\"http://a.mp3\",\"loopEnabled\":false,\"tag\":\"t\"}");
    assert_eq!(text(&call.play_audio_file(&c, "u", true, None).unwrap()), "{\"fileUrl\":\"u\",\"loopEnabled\":true,\"tag\":null}");
    assert_eq!(text(&call.stop_audio(&c).unwrap()), "{\"fileUrl\":\"\"}");
    let speak = call.speak_sentence(&c, "hello", true, Voice::Paul, None).unwrap();
    assert_eq!(speak.url, format!("{}/calls/c1/audio", BASE));
    assert_eq!(text(&speak), "{\"loopEnabled\":true,\"sentence\":\"hello\",\"tag\":null,\"voice\":\"Paul\"}");
    let dtmf = call.send_dtmf(&c, "12#").unwrap();
    assert_eq!(dtmf.url, format!("{}/calls/c1/dtmf", BASE));
    assert_eq!(text(&dtmf), "{\"dtmfOut\":\"12#\"}");
}

#[test]
fn gather_dtmf_describes_the_collecting() {
    let c = client();
    let call = Call::get("c1");
    let mut config = GatherConfig::new(4, 5, "#");
    let plain = call.gather_dtmf(&c, &config).unwrap();
    assert_eq!(plain.url, format!("{}/calls/c1/gather", BASE));
    assert_eq!(text(&plain), "{\"interDigitTimeout\":5,\"maxDigits\":4,\"prompt\":null,\"tag\":null,\"terminatingDigits\":\"#\"}");
    config.max_digits(2);
    config.inter_digit_timeout(9);
    config.terminating_digits("*");
    config.prompt_sentence("enter", true, false, Voice::Kate);
    assert_eq!(
        text(&call.gather_dtmf(&c, &config).unwrap()),
        "{\"interDigitTimeout\":9,\"maxDigits\":2,\"prompt\":{\"bargeable\":false,\"loopEnabled\":true,\"sentence\":\"enter\",\"voice\":\"Kate\"},\"tag\":null,\"terminatingDigits\":\"*\"}"
    );
    config.prompt_file("http://p.mp3", false, true);
    assert_eq!(
        text(&call.gather_dtmf(&c, &config).unwrap()),
        "{\"interDigitTimeout\":9,\"maxDigits\":2,\"prompt\":{\"bargeable\":true,\"fileUrl\":\"http://p.mp3\",\"loopEnabled\":false},\"tag\":null,\"terminatingDigits\":\"*\"}"
    );
}

#[test]
fn call_is_made_from_its_builder() {
    let c = client();
    let builder = Call::build("+1919", "+1920")
        .call_timeout(30)
        .callback_url("http://cb")
        .callback_timeout(1000)
        .callback_http_method("GET")
        .fallback_url("http://fb")
        .bridge_id("b1")
        .conference_id("conf1")
        .enable_recording()
        .recording_max_duration(60)
        .enable_transcription()
        .tag("t");
    let request = builder.create_request(&c).unwrap();
    assert_eq!(request.url, format!("{}/calls", BASE));
    assert_eq!(
        text(&request),
        "{\"bridgeId\":\"b1\",\"callTimeout\":30,\"callbackHttpMethod\":\"GET\",\"callbackTimeout\":1000,\"callbackUrl\":\"http://cb\",\"conferenceId\":\"conf1\",\"fallbackUrl\":\"http://fb\",\"from\":\"+1919\",\"recordingEnabled\":true,\"recordingMaxDuration\":60,\"tag\":\"t\",\"to\":\"+1920\",\"transcriptionEnabled\":true}"
    );
    let call = builder.create(created("https://api/v1/users/u1/calls/c-9")).unwrap();
    assert_eq!(call.get_id(), "c-9");
    assert_eq!(value(call.get_direction(&c)), "out");
    assert_eq!(value(call.get_from(&c)), "+1919");
    assert_eq!(value(call.get_to(&c)), "+1920");
    assert_eq!(value(call.get_callback_url(&c)), Some("http://cb".to_string()));
    load(call.get_state(&c));
    load(call.get_recording_enabled(&c));
}

#[test]
fn call_builder_defaults() {
    let request = Call::build("a", "b").create_request(&client()).unwrap();
    assert_eq!(
        text(&request),
        "{\"bridgeId\":null,\"callTimeout\":null,\"callbackHttpMethod\":null,\"callbackTimeout\":null,\"callbackUrl\":null,\"conferenceId\":null,\"fallbackUrl\":null,\"from\":\"a\",\"recordingEnabled\":false,\"recordingMaxDuration\":null,\"tag\":null,\"to\":\"b\",\"transcriptionEnabled\":false}"
    );
}

#[test]
fn call_query_puts_what_was_set_into_the_query() {
    let c = client();
    let all = Call::query().submit_request(&c).unwrap();
    assert_eq!(all.url, format!("{}/calls", BASE));
    let some = Call::query().from("+1919").to("+1920").state(State::Active).size(10).sort_desc().submit_request(&c).unwrap();
    assert_eq!(some.url, format!("{}/calls?from=%2B1919&size=10&sortOrder=desc&state=active&to=%2B1920", BASE));
    assert_eq!(some.method, Method::Get);
}

#[test]
fn call_listing_with_next_page() {
    let c = client();
    let res = response(200, &[("link", "<https://api/v1/users/u1/calls?page=1>; rel=\"next\"")], &format!("[{},{}]", CALL, CALL.replace("c1", "c2")));
    let page = Call::query().submit(res).unwrap();
    assert_eq!(page.get_calls().len(), 2);
    assert_eq!(page.get_calls()[1].get_id(), "c2");
    assert_eq!(value(page.get_calls()[0].get_state(&c)), State::Active);
    assert!(page.has_next());
    assert_eq!(page.next_request(&c).unwrap().url, "https://api/v1/users/u1/calls?page=1");
    let last = page.next(ok("[]")).unwrap().unwrap();
    assert!(last.get_calls().is_empty());
    assert!(!last.has_next());
    assert!(last.next(ok("[]")).is_none());
    let bad = get_call_list(ok(&format!("[{},{}]", CALL, CALL.replace("\"active\"", "\"odd\""))));
    assert!(matches!(bad, Err(CatapultError::Unexpected(m)) if m == "unknown Call state: odd"));
}

#[test]
fn call_events() {
    let c = client();
    let call = Call::get("c1");
    assert_eq!(call.get_events_request(&c).unwrap().url, format!("{}/calls/c1/events", BASE));
    assert_eq!(call.get_event_request(&c, "e5").unwrap().url, format!("{}/calls/c1/events/e5", BASE));
    let events = Call::get_events(ok("[{\"id\":\"e1\",\"time\":\"t\",\"name\":\"create\"},{\"id\":\"e2\",\"time\":\"u\",\"name\":\"answer\",\"data\":\"d\"}]")).unwrap();
    assert_eq!(events.len(), 2);
    assert_eq!(events[0].get_id(), "e1");
    assert_eq!(events[0].get_data(), None);
    assert_eq!(events[1].get_name(), "answer");
    assert_eq!(events[1].get_time(), "u");
    assert_eq!(events[1].get_data(), Some("d".to_string()));
    let one = Call::get_event(ok("{\"id\":\"e1\",\"time\":\"t\",\"name\":\"create\"}")).unwrap();
    assert_eq!(one.get_name(), "create");
    assert!(Call::get_event(ok("{\"id\":\"e1\"}")).is_err());
}

#[test]
fn call_joins_a_new_bridge() {
    let c = client();
    let call = Call::get("c1");
    let request = call.add_to_new_bridge_request(&c, true, &vec!["c7".to_string()]).unwrap();
    assert_eq!(request.url, format!("{}/bridges", BASE));
    assert_eq!(text(&request), "{\"bridgeAudio\":true,\"callIds\":[\"c7\",\"c1\"]}");
    let bridge = Call::add_to_new_bridge(true, created("https://api/x/bridges/b3")).unwrap();
    assert_eq!(bridge.get_id(), "b3");
}

#[test]
fn voices_have_their_names() {
    assert_eq!(Voice::Kate.get_name(), "Kate");
    assert_eq!(Voice::Esperanza.get_name(), "Esperanza");
    assert_eq!(Voice::Luca.get_name(), "Luca");
}
