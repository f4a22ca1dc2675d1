use catapult::auth_token::AuthToken;
use catapult::client::Client;
use catapult::codec::DecoderError;
use catapult::conference::member::Member;
use catapult::conference::member::MemberBuilder;
use catapult::conference::Conference;
use catapult::domain::Domain;
use catapult::endpoint::Endpoint;
use catapult::error::CatapultError;
use catapult::http::Headers;
use catapult::http::Method;
use catapult::http::Request;
use catapult::http::Response;
use catapult::lazy::Read;
use catapult::media::Media;
use catapult::media::ToBytes;
use catapult::message::get_message_list;
use catapult::message::parse_direction;
use catapult::message::Message;
use catapult::message::State;
use catapult::number::Number;
use catapult::number::Search;
use catapult::voice::Voice;

const BASE: &str = "https://api.catapult.inetwork.com/v1/users/u1";

fn client() -> Client {
    Client::new("u1", "token", "secret")
}

fn response(status: u16, headers: &[(&str, &str)], body: &str) -> Response {
    let mut h = Headers::new();
    for (name, value) in headers {
        h.append_raw(name, value.as_bytes().to_vec());
    }
    Response { status, headers: h, body: body.as_bytes().to_vec() }
}

fn ok(body: &str) -> Response {
    response(200, &[("Content-Type", "application/json")], body)
}

fn created(location: &str) -> Response {
    response(201, &[("Location", location)], "")
}

fn text(request: &Request) -> String {
    String::from_utf8(request.body.clone()).unwrap()
}

fn value<T: std::fmt::Debug>(read: Result<Read<T>, CatapultError>) -> T {
    match read {
        Ok(Read::Value(v)) => v,
        other => panic!("expected a cached value, got {:?}", other),
    }
}

fn load<T: std::fmt::Debug>(read: Result<Read<T>, CatapultError>) -> Request {
    match read {
        Ok(Read::Load(request)) => request,
        other => panic!("expected a load, got {:?}", other),
    }
}

const CONFERENCE: &str = "{\"id\":\"conf1\",\"activeMembers\":2,\"callbackHttpMethod\":\"POST\",\"callbackTimeout\":\"1500\",\"createdTime\":\"t0\",\"from\":\"+1919\",\"hold\":false,\"mute\":true,\"state\":\"active\",\"tag\":\"x\"}";
const MEMBER: &str = "{\"addedTime\":\"t1\",\"hold\":false,\"id\":\"m1\",\"mute\":true,\"state\":\"active\",\"joinTone\":true,\"leavingTone\":false}";
const MESSAGE: &str = "{\"id\":\"m1\",\"direction\":\"in\",\"from\":\"+1919\",\"to\":\"+1920\",\"state\":\"received\",\"text\":\"hi\",\"time\":\"t\",\"media\":[\"https://api/v1/users/u1/media/a.png\",\"https://api/v1/users/u1/media/b.png\"]}";

// ---------------------------------------------------------------- conference

#[test]
fn conference_load_save_and_setters() {
    let c = client();
    let mut conf = Conference::get("conf1");
    assert_eq!(load(conf.get_state(&c)).url, format!("{}/conferences/conf1", BASE));
    assert_eq!(text(&conf.save(&c).unwrap()), "{}");
    conf.load(ok(CONFERENCE)).unwrap();
    assert_eq!(value(conf.get_active_members(&c)), 2);
    assert_eq!(value(conf.get_callback_timeout(&c)), 1500);
    assert_eq!(value(conf.get_state(&c)), catapult::conference::State::Active);
    assert_eq!(value(conf.get_created_time(&c)), "t0");
    assert_eq!(value(conf.get_from(&c)), "+1919");
    assert_eq!(value(conf.get_callback_http_method(&c)), "POST");
    assert!(!value(conf.get_hold(&c)));
    assert!(value(conf.get_mute(&c)));
    assert_eq!(value(conf.get_callback_url(&c)), None);
    assert_eq!(value(conf.get_fallback_url(&c)), None);
    assert_eq!(value(conf.get_tag(&c)), Some("x".to_string()));
    let all = conf.save(&c).unwrap();
    assert_eq!(all.url, format!("{}/conferences/conf1", BASE));
    assert_eq!(
        text(&all),
        "{\"callbackHttpMethod\":\"POST\",\"callbackTimeout\":1500,\"callbackUrl\":null,\"fallbackUrl\":null,\"hold\":false,\"mute\":true,\"tag\":\"x\"}"
    );
    let mut fresh = Conference::get("conf2");
    fresh.set_mute(false);
    fresh.set_hold(true);
    fresh.set_callback_method_get();
    fresh.set_callback_timeout(7);
    fresh.set_callback_url(Some("http://cb"));
    fresh.set_fallback_url(None);
    fresh.set_tag(Some("t"));
    assert_eq!(
        text(&fresh.save(&c).unwrap()),
        "{\"callbackHttpMethod\":\"GET\",\"callbackTimeout\":7,\"callbackUrl\":\"http://cb\",\"fallbackUrl\":null,\"hold\":true,\"mute\":false,\"tag\":\"t\"}"
    );
    fresh.set_callback_method_post();
    assert_eq!(value(fresh.get_callback_http_method(&c)), "POST");
    load(fresh.get_state(&c));
}

#[test]
fn conference_with_unknown_state_is_unexpected() {
    let mut conf = Conference::get("conf1");
    let r = conf.load(ok(&CONFERENCE.replace("\"active\"", "\"paused\"")));
    assert!(matches!(r, Err(CatapultError::Unexpected(m)) if m == "unknown Conference state: paused"));
    assert_eq!(catapult::conference::State::parse("created").unwrap(), catapult::conference::State::Created);
    assert_eq!(catapult::conference::State::parse("completed").unwrap(), catapult::conference::State::Completed);
}

#[test]
fn conference_is_created_from_its_builder() {
    let c = client();
    let builder = Conference::build("+1919").callback_url("http://cb").callback_timeout(100).use_get_http_method().fallback_url("http://fb").tag("t");
    let request = builder.create_request(&c).unwrap();
    assert_eq!(request.url, format!("{}/conferences", BASE));
    assert_eq!(
        text(&request),
        "{\"callbackHttpMethod\":\"GET\",\"callbackTimeout\":100,\"callbackUrl\":\"http://cb\",\"fallbackUrl\":\"http://fb\",\"from\":\"+1919\",\"tag\":\"t\"}"
    );
    let conf = builder.create(created("https://api/v1/users/u1/conferences/conf-3")).unwrap();
    assert_eq!(conf.get_id(), "conf-3");
    assert_eq!(value(conf.get_active_members(&c)), 0);
    assert_eq!(value(conf.get_state(&c)), catapult::conference::State::Created);
    assert_eq!(value(conf.get_callback_timeout(&c)), 100);
    assert_eq!(value(conf.get_from(&c)), "+1919");
    load(conf.get_hold(&c));
    load(conf.get_created_time(&c));
    let plain = Conference::build("+1").create(created("x/conf-4")).unwrap();
    load(plain.get_callback_timeout(&c));
    assert_eq!(value(plain.get_callback_http_method(&c)), "POST");
    assert_eq!(text(&Conference::build("+1").create_request(&c).unwrap()),
        "{\"callbackHttpMethod\":\"POST\",\"callbackTimeout\":null,\"callbackUrl\":null,\"fallbackUrl\":null,\"from\":\"+1\",\"tag\":null}");
}

#[test]
fn conference_commands() {
    let c = client();
    let conf = Conference::get("conf1");
    let end = conf.end(&c).unwrap();
    assert_eq!(end.url, format!("{}/conferences/conf1", BASE));
    assert_eq!(text(&end), "{\"state\":\"completed\"}");
    let speak = conf.speak_sentence(&c, "hi", false, Voice::Jorge, Some("t")).unwrap();
    assert_eq!(speak.url, format!("{}/conferences/conf1/audio", BASE));
    assert_eq!(text(&speak), "{\"loopEnabled\":false,\"sentence\":\"hi\",\"tag\":\"t\",\"voice\":\"Jorge\"}");
    assert_eq!(text(&conf.play_audio_file(&c, "u", true, None).unwrap()), "{\"fileUrl\":\"u\",\"loopEnabled\":true,\"tag\":null}");
}

// ---------------------------------------------------------------- member

#[test]
fn members_are_listed_and_loaded() {
    let c = client();
    let conf = Conference::get("conf1");
    assert_eq!(conf.list_members_request(&c).unwrap().url, format!("{}/conferences/conf1/members", BASE));
    let members = conf.list_members(ok(&format!("[{},{}]", MEMBER, MEMBER.replace("m1", "m2")))).unwrap();
    assert_eq!(members.len(), 2);
    assert_eq!(members[1].get_id(), "m2");
    assert_eq!(value(members[0].get_added_time(&c)), "t1");
    assert_eq!(value(members[0].get_removed_time(&c)), None);
    assert!(value(members[0].get_join_tone(&c)));
    assert!(!value(members[0].get_leaving_tone(&c)));
    assert!(value(members[0].get_mute(&c)));
    assert!(!value(members[0].get_hold(&c)));
    assert_eq!(value(members[0].get_state(&c)), catapult::conference::member::State::Active);
    assert_eq!(members[0].save(&c).unwrap().url, format!("{}/conferences/conf1/members/m1", BASE));
    assert_eq!(text(&members[0].save(&c).unwrap()), "{\"hold\":false,\"joinTone\":true,\"leavingTone\":false,\"mute\":true}");
    let bad = Member::list_members_from_conference(&conf, ok(&format!("[{}]", MEMBER.replace("\"active\"", "\"gone\""))));
    assert!(matches!(bad, Err(CatapultError::Unexpected(m)) if m == "unknown member state: gone"));
    let mut one = Member::get("m1", "conf1");
    assert_eq!(load(one.get_state(&c)).url, format!("{}/conferences/conf1/members/m1", BASE));
    one.load(ok(MEMBER)).unwrap();
    assert!(value(one.get_mute(&c)));
    assert!(matches!(Member::get("", "conf1").get_state(&c), Err(CatapultError::BadInput(m)) if m == "invalid member id"));
}

#[test]
fn member_is_added_changed_and_removed() {
    let c = client();
    let conf = Conference::get("conf1");
    let builder = conf.build_member("c1").no_join_tone().no_leaving_tone().mute().hold();
    let request = builder.create_request(&c).unwrap();
    assert_eq!(request.url, format!("{}/conferences/conf1/members", BASE));
    assert_eq!(text(&request), "{\"callId\":\"c1\",\"hold\":true,\"joinTone\":false,\"leavingTone\":false,\"mute\":true}");
    let mut member = builder.create(created("https://api/v1/users/u1/conferences/conf1/members/m-5")).unwrap();
    assert_eq!(member.get_id(), "m-5");
    assert!(value(member.get_mute(&c)));
    assert!(value(member.get_hold(&c)));
    load(member.get_join_tone(&c));
    load(member.get_state(&c));
    assert_eq!(text(&MemberBuilder::new(&conf, "c2").create_request(&c).unwrap()),
        "{\"callId\":\"c2\",\"hold\":false,\"joinTone\":true,\"leavingTone\":true,\"mute\":false}");
    member.set_mute(false);
    member.set_hold(false);
    member.join_tone(true);
    member.leaving_tone(true);
    assert_eq!(text(&member.save(&c).unwrap()), "{\"hold\":false,\"joinTone\":true,\"leavingTone\":true,\"mute\":false}");
    let remove = member.remove_request(&c).unwrap();
    assert_eq!(remove.url, format!("{}/conferences/conf1/members/m-5", BASE));
    assert_eq!(text(&remove), "{\"state\":\"completed\"}");
    assert!(member.remove(response(500, &[], "oops")).is_err());
    load(member.get_state(&c));
    member.remove(response(200, &[], "")).unwrap();
    assert_eq!(value(member.get_state(&c)), catapult::conference::member::State::Completed);
    let audio = member.speak_sentence(&c, "s", false, Voice::Dave, None).unwrap();
    assert_eq!(audio.url, format!("{}/conferences/conf1/members/m-5/audio", BASE));
    assert_eq!(text(&member.play_audio_file(&c, "u", false, Some("t")).unwrap()), "{\"fileUrl\":\"u\",\"loopEnabled\":false,\"tag\":\"t\"}");
    assert_eq!(text(&member.stop_audio(&c).unwrap()), "{\"fileUrl\":\"\"}");
}

#[test]
fn empty_identifier_is_refused_before_any_request() {
    let c = client();
    let bad = |r: Result<Request, CatapultError>, message: &str| match r {
        Err(CatapultError::BadInput(m)) => assert_eq!(m, message),
        other => panic!("{}: {:?}", message, other),
    };
    bad(Conference::get("").load_request(&c), "invalid conference id");
    bad(Conference::get("").save(&c), "invalid conference id");
    bad(Conference::get("").end(&c), "invalid conference id");
    bad(Conference::get("").list_members_request(&c), "invalid conference id");
    bad(Conference::get("").build_member("c1").create_request(&c), "invalid conference id");
    bad(Member::get("", "k").save(&c), "invalid member id");
    bad(Member::get("m", "").load_request(&c), "invalid conference id");
    bad(Member::get("m", "").remove_request(&c), "invalid conference id");
    bad(Member::get("", "k").stop_audio(&c), "invalid member id");
    bad(Domain::get("").load_request(&c), "invalid app id");
    bad(Endpoint::get_by_id("", "d").load_request(&c), "invalid endpoint id");
    bad(Endpoint::get_by_id("e", "").save(&c), "invalid domain id");
    bad(Endpoint::get_by_id("", "d").create_auth_token_request(&c), "invalid endpoint id");
    bad(Endpoint::build("", "a", "n", "p").create_request(&c), "invalid domain id");
    bad(Message::get("").load_request(&c), "invalid message id");
    bad(Number::by_id("").load_request(&c), "invalid number id");
    bad(Number::by_id("").save(&c), "invalid number id");
    bad(Media::get("").load_request(&c), "invalid media name");
    bad(Media::get("").get_contents_request(&c), "invalid media name");
    bad(Media::create_request(&c, "", vec![1u8]), "invalid media name");
    assert!(matches!(Message::get("").get_text(&c), Err(CatapultError::BadInput(_))));
    assert!(matches!(Number::by_id("").get_city(&c), Err(CatapultError::BadInput(_))));
    assert!(matches!(Media::get("").get_date(&c), Err(CatapultError::BadInput(_))));
}

// ---------------------------------------------------------------- domain

#[test]
fn domains_are_created_listed_and_found_by_name() {
    let c = client();
    let request = Domain::create_request(&c, "shop").unwrap();
    assert_eq!(request.url, format!("{}/domains", BASE));
    assert_eq!(text(&request), "{\"name\":\"shop\"}");
    let domain = Domain::create("shop", created("https://api/v1/users/u1/domains/d1")).unwrap();
    assert_eq!(domain.get_id(), "d1");
    assert_eq!(value(domain.get_name(&c)), "shop");
    assert_eq!(Domain::list_request(&c).unwrap().url, format!("{}/domains", BASE));
    assert_eq!(Domain::get_by_name_request(&c).unwrap().url, format!("{}/domains", BASE));
    let list = "[{\"id\":\"d1\",\"name\":\"a\"},{\"id\":\"d2\",\"name\":\"b\"},{\"id\":\"d3\",\"name\":\"b\"}]";
    let domains = Domain::list(ok(list)).unwrap();
    assert_eq!(domains.len(), 3);
    assert_eq!(value(domains[2].get_name(&c)), "b");
    assert_eq!(Domain::get_by_name("b", ok(list)).unwrap().unwrap().get_id(), "d2");
    assert_eq!(Domain::get_by_name("a", ok(list)).unwrap().unwrap().get_id(), "d1");
    assert!(Domain::get_by_name("c", ok(list)).unwrap().is_none());
    assert!(Domain::get_by_name("a", ok("{}")).is_err());
    let mut fresh = Domain::get("d9");
    assert_eq!(load(fresh.get_name(&c)).url, format!("{}/domains/d9", BASE));
    fresh.load(ok("{\"id\":\"d9\",\"name\":\"n\"}")).unwrap();
    assert_eq!(value(fresh.get_name(&c)), "n");
    assert!(matches!(Domain::get("").get_name(&c), Err(CatapultError::BadInput(_))));
    assert_eq!(c.create_domain_request("shop").unwrap().url, format!("{}/domains", BASE));
    assert_eq!(c.get_domain("d4").get_id(), "d4");
}

// ---------------------------------------------------------------- endpoint

#[test]
fn endpoint_is_created_loaded_and_saved() {
    let c = client();
    let domain = Domain::get("d1");
    let builder = domain.build_endpoint("a1", "phone", "pw").description("desk").disable();
    let request = builder.create_request(&c).unwrap();
    assert_eq!(request.url, format!("{}/domains/d1/endpoints", BASE));
    assert_eq!(
        text(&request),
        "{\"applicationId\":\"a1\",\"credentials\":{\"password\":\"pw\"},\"description\":\"desk\",\"domainId\":\"d1\",\"enabled\":false,\"name\":\"phone\"}"
    );
    let mut endpoint = builder.create(created("https://api/v1/users/u1/domains/d1/endpoints/e1")).unwrap();
    assert_eq!(endpoint.get_id(), "e1");
    assert_eq!(endpoint.get_domain().get_id(), "d1");
    assert_eq!(value(endpoint.get_name(&c)), "phone");
    assert_eq!(value(endpoint.get_description(&c)), Some("desk".to_string()));
    assert!(!value(endpoint.get_enabled(&c)));
    assert_eq!(value(endpoint.get_application_id(&c)), "a1");
    assert_eq!(value(endpoint.get_application(&c)).get_id(), "a1");
    assert_eq!(load(endpoint.get_realm(&c)).url, format!("{}/domains/d1/endpoints/e1", BASE));
    assert_eq!(text(&endpoint.save(&c).unwrap()), "{\"applicationId\":\"a1\",\"description\":\"desk\",\"enabled\":false}");
    endpoint.set_password("new");
    endpoint.load(ok("{\"id\":\"e1\",\"name\":\"phone2\",\"domainId\":\"d1\",\"enabled\":true,\"applicationId\":\"a2\",\"credentials\":{\"realm\":\"r\",\"username\":\"u\"},\"sipUri\":\"sip:u@r\"}")).unwrap();
    assert_eq!(value(endpoint.get_name(&c)), "phone2");
    assert_eq!(value(endpoint.get_description(&c)), None);
    assert_eq!(value(endpoint.get_realm(&c)), "r");
    assert_eq!(value(endpoint.get_username(&c)), "u");
    assert_eq!(value(endpoint.get_sip_uri(&c)), "sip:u@r");
    assert_eq!(
        text(&endpoint.save(&c).unwrap()),
        "{\"applicationId\":\"a2\",\"credentials\":{\"password\":\"new\"},\"description\":null,\"enabled\":true}"
    );
    endpoint.set_description(Some("d"));
    endpoint.set_enabled(false);
    endpoint.set_application_id("a3");
    assert_eq!(value(endpoint.get_application_id(&c)), "a3");
    let fresh = domain.get_endpoint_by_id("e2");
    assert_eq!(text(&fresh.save(&c).unwrap()), "{}");
    load(fresh.get_application(&c));
    let missing = Endpoint::get_by_id("e", "d").load(ok("{\"id\":\"e1\",\"name\":\"n\",\"domainId\":\"d\",\"enabled\":true,\"applicationId\":\"a\",\"sipUri\":\"s\"}"));
    assert!(matches!(missing, Err(CatapultError::DecoderError(DecoderError::MissingFieldError(f))) if f == "credentials"));
}

#[test]
fn auth_token_for_an_endpoint() {
    let c = client();
    let endpoint = Endpoint::get_by_id("e1", "d1");
    let request = endpoint.create_auth_token_request(&c).unwrap();
    assert_eq!(request.method, Method::Post);
    assert_eq!(request.url, format!("{}/domains/d1/endpoints/e1/tokens", BASE));
    assert!(request.body.is_empty());
    let token = Endpoint::create_auth_token(ok("{\"token\":\"abc\",\"expires\":86400}")).unwrap();
    assert_eq!(token.get_token(), "abc");
    assert_eq!(token.get_expires(), 86400);
    assert!(AuthToken::create(ok("{\"token\":\"abc\"}")).is_err());
    assert!(matches!(AuthToken::create(response(403, &[], "{\"category\":\"c\",\"code\":\"forbidden\",\"message\":\"no\"}")), Err(CatapultError::ApiError(e)) if e.code == "forbidden"));
}

// ---------------------------------------------------------------- media

fn media_headers() -> Vec<(&'static str, &'static str)> {
    vec![("Content-Type", "image/png"), ("Content-Length", "3"), ("Date", "Tue, 15 Nov 1994 08:12:31 GMT")]
}

#[test]
fn media_is_stored_described_and_fetched() {
    let c = client();
    let request = Media::create_request(&c, "a.png", vec![1u8, 2, 3]).unwrap();
    assert_eq!(request.method, Method::Put);
    assert_eq!(request.url, format!("{}/media/a.png", BASE));
    assert_eq!(request.body, vec![1, 2, 3]);
    assert_eq!(Media::create_request(&c, "t.txt", "héllo").unwrap().body, "héllo".as_bytes().to_vec());
    assert_eq!(c.create_media_request("t.txt", "x".to_string()).unwrap().body, b"x".to_vec());
    let media = Media::create("a.png", response(200, &media_headers(), "")).unwrap();
    assert_eq!(media.get_filename(), "a.png");
    assert_eq!(value(media.get_content_type(&c)), "image/png");
    assert_eq!(value(media.get_content_length(&c)), 3);
    assert_eq!(value(media.get_date(&c)), "Tue, 15 Nov 1994 08:12:31 GMT");
    let mut fresh = Media::get("b.png");
    let head = load(fresh.get_content_type(&c));
    assert_eq!(head.method, Method::Head);
    assert_eq!(head.url, format!("{}/media/b.png", BASE));
    fresh.load(response(200, &media_headers(), "")).unwrap();
    assert_eq!(value(fresh.get_content_length(&c)), 3);
    let copy = fresh.clone();
    assert_eq!(copy.get_filename(), "b.png");
    assert_eq!(value(copy.get_content_type(&c)), "image/png");
    let get = fresh.get_contents_request(&c).unwrap();
    assert_eq!(get.method, Method::Get);
    assert_eq!(get.url, format!("{}/media/b.png", BASE));
    let mut res = response(200, &media_headers(), "");
    res.body = vec![0xff, 0x00, 0x01];
    assert_eq!(Media::get_contents(res).unwrap(), vec![0xff, 0x00, 0x01]);
    assert_eq!(Media::get_contents_as_string(response(200, &media_headers(), "abc")).unwrap(), "abc");
    let mut bad = response(200, &media_headers(), "");
    bad.body = vec![0xff];
    assert!(matches!(Media::get_contents_as_string(bad), Err(CatapultError::Utf8Error)));
}

#[test]
fn media_without_a_metadata_header_is_unexpected() {
    let all = media_headers();
    let expect = [
        "Content-Type header missing on media",
        "Content-Length header missing on media",
        "Date header missing on media",
    ];
    for skip in 0..3 {
        let some: Vec<(&str, &str)> = all.iter().enumerate().filter(|(i, _)| *i != skip).map(|(_, h)| *h).collect();
        let mut media = Media::get("f");
        match media.load(response(200, &some, "")) {
            Err(CatapultError::Unexpected(m)) => assert_eq!(m, expect[skip]),
            other => panic!("{:?}", other),
        }
        load(media.get_date(&client()));
        assert!(matches!(Media::create("f", response(200, &some, "")), Err(CatapultError::Unexpected(_))));
        assert!(matches!(Media::get_contents(response(200, &some, "x")), Err(CatapultError::Unexpected(_))));
    }
    assert!(matches!(Media::get_contents(response(404, &all, "nope")), Err(CatapultError::DecoderError(_))));
}

#[test]
fn bytes_of_what_can_be_stored() {
    assert_eq!(vec![1u8].to_bytes(), vec![1]);
    assert_eq!("ab".to_string().to_bytes(), b"ab".to_vec());
    assert_eq!("é".to_bytes(), vec![0xc3, 0xa9]);
}

// ---------------------------------------------------------------- message

#[test]
fn message_states_and_directions() {
    for s in [State::Received, State::Queued, State::Sending, State::Sent, State::Error] {
        assert_eq!(State::parse(s.to_string()).unwrap(), s);
    }
    assert_eq!(State::Sent.to_string(), "sent");
    assert!(matches!(State::parse("lost"), Err(CatapultError::Unexpected(m)) if m == "unknown Message state: lost"));
    assert!(parse_direction("in", "x: ").unwrap());
    assert!(!parse_direction("out", "x: ").unwrap());
    assert!(matches!(parse_direction("up", "unknown Message direction: "), Err(CatapultError::Unexpected(m)) if m == "unknown Message direction: up"));
}

#[test]
fn message_is_sent_from_its_builder() {
    let c = client();
    let builder = Message::build("+1919", "+1920", "hi")
        .media("http://m/1.png")
        .media("http://m/2.png")
        .request_receipt()
        .callback_url("http://cb")
        .use_get_http_method()
        .callback_timeout(9)
        .fallback_url("http://fb")
        .tag("t");
    let request = builder.create_request(&c).unwrap();
    assert_eq!(request.url, format!("{}/messages", BASE));
    assert_eq!(
        text(&request),
        "{\"callbackHttpMethod\":\"GET\",\"callbackTimeout\":9,\"callbackUrl\":\"http://cb\",\"fallbackUrl\":\"http://fb\",\"from\":\"+1919\",\"media\":[\"http://m/1.png\",\"http://m/2.png\"],\"receiptRequested\":true,\"tag\":\"t\",\"text\":\"hi\",\"to\":\"+1920\"}"
    );
    let message = builder.create(created("https://api/v1/users/u1/messages/m-1")).unwrap();
    assert_eq!(message.get_id(), "m-1");
    assert!(!value(message.is_inbound(&c)));
    assert!(value(message.is_outbound(&c)));
    assert_eq!(value(message.get_from(&c)), "+1919");
    assert_eq!(value(message.get_to(&c)), "+1920");
    assert_eq!(value(message.get_text(&c)), "hi");
    load(message.get_state(&c));
    load(message.get_time(&c));
    load(message.get_media(&c));
    assert_eq!(text(&Message::build("a", "b", "c").create_request(&c).unwrap()),
        "{\"callbackHttpMethod\":\"POST\",\"callbackTimeout\":null,\"callbackUrl\":null,\"fallbackUrl\":null,\"from\":\"a\",\"media\":[],\"receiptRequested\":false,\"tag\":null,\"text\":\"c\",\"to\":\"b\"}");
}

#[test]
fn message_load_reads_direction_state_and_media() {
    let c = client();
    let mut message = Message::get("m1");
    assert_eq!(load(message.is_inbound(&c)).url, format!("{}/messages/m1", BASE));
    load(message.is_outbound(&c));
    message.load(ok(MESSAGE)).unwrap();
    assert!(value(message.is_inbound(&c)));
    assert!(!value(message.is_outbound(&c)));
    assert_eq!(value(message.get_state(&c)), catapult::message::State::Received);
    assert_eq!(value(message.get_time(&c)), "t");
    let media = value(message.get_media(&c));
    assert_eq!(media.len(), 2);
    assert_eq!(media[0].get_filename(), "a.png");
    assert_eq!(media[1].get_filename(), "b.png");
    load(media[0].get_content_type(&c));
    let none = MESSAGE.replace(",\"media\":[\"https://api/v1/users/u1/media/a.png\",\"https://api/v1/users/u1/media/b.png\"]", "");
    message.load(ok(&none)).unwrap();
    assert!(value(message.get_media(&c)).is_empty());
    for (from, to, error) in [
        ("\"in\"", "\"sideways\"", "unknown Message direction: sideways"),
        ("\"received\"", "\"lost\"", "unknown Message state: lost"),
        ("https://api/v1/users/u1/media/b.png", "..", "failed to parse id from Location header"),
    ] {
        match message.load(ok(&MESSAGE.replace(from, to))) {
            Err(CatapultError::Unexpected(m)) => assert_eq!(m, error),
            other => panic!("{:?}", other),
        }
    }
    assert!(value(message.get_media(&c)).is_empty());
}

#[test]
fn message_query_and_listing() {
    let c = client();
    assert_eq!(Message::query().submit_request(&c).unwrap().url, format!("{}/messages", BASE));
    let request = Message::query()
        .from_number("+1919")
        .to_number("+1920")
        .from_time("2016-01-01")
        .size(5)
        .only_inbound()
        .state(State::Sent)
        .desc()
        .submit_request(&c)
        .unwrap();
    assert_eq!(
        request.url,
        format!("{}/messages?direction=in&from=%2B1919&fromDateTime=2016-01-01&size=5&sortOrder=desc&state=sent&to=%2B1920", BASE)
    );
    let both = Message::query().from_time("2016-01-01").to_time("2016-02-01").only_outbound().submit_request(&c).unwrap();
    assert_eq!(both.url, format!("{}/messages?direction=out&fromDateTime=2016-01-01&toDateTime=2016-02-01", BASE));
    let end = Message::query().to_time("2016-02-01").submit_request(&c).unwrap();
    assert_eq!(end.url, format!("{}/messages?toDateTime=2016-02-01", BASE));
    let page = Message::query().submit(response(200, &[("Link", "<https://api/next>; rel=\"next\"")], &format!("[{}]", MESSAGE))).unwrap();
    assert_eq!(page.get_messages().len(), 1);
    assert_eq!(page.get_messages()[0].get_id(), "m1");
    assert!(page.has_next());
    assert_eq!(page.next_request(&c).unwrap().url, "https://api/next");
    let last = page.next(ok("[]")).unwrap().unwrap();
    assert!(!last.has_next());
    assert!(last.next_request(&c).is_none());
    assert!(get_message_list(ok("[{\"id\":\"m\"}]")).is_err());
}

// ---------------------------------------------------------------- number

#[test]
fn number_load_save_and_application() {
    let c = client();
    let mut number = Number::by_id("n1");
    assert_eq!(number.get_id().unwrap(), "n1");
    assert_eq!(load(number.get_number(&c)).url, format!("{}/phoneNumbers/n1", BASE));
    assert_eq!(text(&number.save(&c).unwrap()), "{}");
    number.set_application_id(Some("a1"));
    assert_eq!(text(&number.save(&c).unwrap()), "{\"applicationId\":\"a1\"}");
    number.load(ok("{\"name\":\"home\",\"number\":\"+1919\",\"nationalNumber\":\"(919)\",\"createdTime\":\"t\",\"city\":\"CARY\",\"state\":\"NC\",\"price\":\"0.60\",\"numberState\":\"enabled\",\"application\":\"https://api/v1/users/u1/applications/a7\",\"fallbackNumber\":\"+1920\"}")).unwrap();
    assert_eq!(value(number.get_name(&c)), Some("home".to_string()));
    assert_eq!(value(number.get_number(&c)), "+1919");
    assert_eq!(value(number.get_national_number(&c)), "(919)");
    assert_eq!(value(number.get_created_time(&c)), "t");
    assert_eq!(value(number.get_city(&c)), "CARY");
    assert_eq!(value(number.get_state(&c)), "NC");
    assert_eq!(value(number.get_price(&c)), "0.60");
    assert_eq!(value(number.get_number_state(&c)), "enabled");
    assert_eq!(value(number.get_application_id(&c)), Some("a7".to_string()));
    assert_eq!(value(number.get_fallback_number(&c)), Some("+1920".to_string()));
    let save = number.save(&c).unwrap();
    assert_eq!(save.url, format!("{}/phoneNumbers/n1", BASE));
    assert_eq!(text(&save), "{\"applicationId\":\"a7\",\"fallbackNumber\":\"+1920\",\"name\":\"home\"}");
    number.set_application_id(None);
    assert_eq!(text(&number.save(&c).unwrap()), "{\"applicationId\":null,\"fallbackNumber\":\"+1920\",\"name\":\"home\"}");
    let bad = number.load(ok("{\"number\":\"+1\",\"nationalNumber\":\"1\",\"createdTime\":\"t\",\"city\":\"c\",\"state\":\"s\",\"price\":\"p\",\"numberState\":\"e\",\"application\":\"\"}"));
    assert!(matches!(bad, Err(CatapultError::Unexpected(_))));
    assert_eq!(value(number.get_city(&c)), "CARY");
}

#[test]
fn numbers_are_searched_and_allocated() {
    let c = client();
    let by_city = Search::ByCity { city: "Cary".to_string(), state: "NC".to_string() };
    let request = Number::search_and_allocate_local_request(&c, 2, &by_city).unwrap();
    assert_eq!(request.method, Method::Post);
    assert_eq!(request.url, "https://api.catapult.inetwork.com/v1/availableNumbers/local?city=Cary&state=NC&quantity=2");
    assert!(request.body.is_empty());
    let url = |s: Search| Number::search_and_allocate_local_request(&c, 1, &s).unwrap().url;
    assert_eq!(url(Search::ByState("NC".to_string())), "https://api.catapult.inetwork.com/v1/availableNumbers/local?state=NC&quantity=1");
    assert_eq!(url(Search::ByZip("27519".to_string())), "https://api.catapult.inetwork.com/v1/availableNumbers/local?zip=27519&quantity=1");
    assert_eq!(
        url(Search::ByAreaCode { area_code: "919".to_string(), local_number: "55".to_string(), in_local_calling_area: true }),
        "https://api.catapult.inetwork.com/v1/availableNumbers/local?areaCode=919&localNumber=55&inLocalCallingArea=true&quantity=1"
    );
    let body = "[{\"number\":\"+1919\",\"nationalNumber\":\"(919)\",\"price\":\"0.60\",\"location\":\"https://api/v1/users/u1/phoneNumbers/n1\"},{\"number\":\"+1920\",\"nationalNumber\":\"(920)\",\"price\":\"0.70\",\"location\":\"https://api/v1/users/u1/phoneNumbers/n2\"}]";
    let numbers = Number::search_and_allocate_local(ok(body)).unwrap();
    assert_eq!(numbers.len(), 2);
    assert_eq!(numbers[1].get_id().unwrap(), "n2");
    assert_eq!(value(numbers[0].get_number(&c)), "+1919");
    assert_eq!(value(numbers[0].get_national_number(&c)), "(919)");
    assert_eq!(value(numbers[1].get_price(&c)), "0.70");
    load(numbers[0].get_city(&c));
    let bad = body.replace("https://api/v1/users/u1/phoneNumbers/n2", "/");
    assert!(matches!(Number::search_and_allocate_local(ok(&bad)), Err(CatapultError::Unexpected(_))));
    assert!(Number::search_and_allocate_local(ok("[{\"number\":\"x\"}]")).is_err());
}

#[test]
fn client_hands_out_resources() {
    let c = client();
    assert_eq!(c.get_application("a").get_id(), "a");
    assert_eq!(c.get_conference("k").get_id(), "k");
    assert_eq!(c.get_media("f").get_filename(), "f");
    assert_eq!(c.get_message("m").get_id(), "m");
    assert_eq!(c.get_number_by_id("n").get_id().unwrap(), "n");
    assert_eq!(text(&c.build_call("a", "b").create_request(&c).unwrap()), text(&catapult::call::Call::build("a", "b").create_request(&c).unwrap()));
    assert_eq!(text(&c.build_application("n", "c", "m").create_request(&c).unwrap()), text(&catapult::application::Application::build("n", "c", "m").create_request(&c).unwrap()));
    assert_eq!(text(&c.build_conference("f").create_request(&c).unwrap()), text(&Conference::build("f").create_request(&c).unwrap()));
    assert_eq!(text(&c.build_message("a", "b", "t").create_request(&c).unwrap()), text(&Message::build("a", "b", "t").create_request(&c).unwrap()));
    assert_eq!(c.list_domains_request().unwrap().url, format!("{}/domains", BASE));
    assert_eq!(c.get_domain_by_name_request().unwrap().url, format!("{}/domains", BASE));
    assert_eq!(c.list_domains(ok("[{\"id\":\"d\",\"name\":\"n\"}]")).unwrap().len(), 1);
    assert_eq!(c.get_domain_by_name("n", ok("[{\"id\":\"d\",\"name\":\"n\"}]")).unwrap().unwrap().get_id(), "d");
    assert_eq!(c.create_domain("n", created("x/d5")).unwrap().get_id(), "d5");
    assert_eq!(c.create_media("f", response(200, &media_headers(), "")).unwrap().get_filename(), "f");
}
