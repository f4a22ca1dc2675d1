use catapult::call::Call;
use catapult::call_event::gather_event::Reason;
use catapult::call_event::hangup_event::Cause;
use catapult::call_event::CallEvent;
use catapult::call_event::EventType;
use catapult::client::Client;
use catapult::codec::DecoderError;
use catapult::error::CatapultError;
use catapult::lazy::Read;
use catapult::message::Message;
use catapult::message::State;
use catapult::message_event::MessageEvent;

fn client() -> Client {
    Client::new("u1", "token", "secret")
}

fn value<T: std::fmt::Debug>(read: Result<Read<T>, CatapultError>) -> T {
    match read {
        Ok(Read::Value(v)) => v,
        other => panic!("expected a cached value, got {:?}", other),
    }
}

fn is_load<T: std::fmt::Debug>(read: Result<Read<T>, CatapultError>) -> bool {
    matches!(read, Ok(Read::Load(_)))
}

fn event(kind: &str, rest: &str) -> String {
    format!("{{\"eventType\":\"{}\",\"callId\":\"c1\",\"callUri\":\"https://api/v1/users/u1/calls/c1\"{}}}", kind, rest)
}

fn unexpected(data: &str) -> String {
    match CallEvent::parse(data) {
        Err(CatapultError::Unexpected(m)) => m,
        other => panic!("{:?}", other),
    }
}

#[test]
fn incoming_call_event() {
    let data = event("incomingcall", ",\"from\":\"+1919\",\"to\":\"+1920\",\"time\":\"t\",\"applicationId\":\"a1\",\"tag\":\"x\",\"displayName\":\"Bob\",\"withholdCallerNumber\":true");
    let e = CallEvent::parse(&data).unwrap();
    assert_eq!(e.get_call_id(), "c1");
    assert_eq!(e.get_from(), Some("+1919".to_string()));
    assert_eq!(e.get_to(), Some("+1920".to_string()));
    assert_eq!(e.get_display_name(), Some("Bob".to_string()));
    assert_eq!(e.get_preferred_id(), None);
    assert_eq!(e.get_withhold_caller_number(), Some(true));
    assert_eq!(e.get_withhold_caller_name(), None);
    match e.get_event_type() {
        EventType::Incoming(i) => {
            assert_eq!(i.get_from(), "+1919");
            assert_eq!(i.get_to(), "+1920");
            assert_eq!(i.get_time(), "t");
            assert_eq!(i.get_aplication_id(), Some("a1".to_string()));
            assert_eq!(i.get_tag(), Some("x".to_string()));
        },
        other => panic!("{:?}", other),
    }
    let c = client();
    let call = e.get_call();
    assert_eq!(call.get_id(), "c1");
    assert_eq!(value(call.get_from(&c)), "+1919");
    assert_eq!(value(call.get_to(&c)), "+1920");
    assert_eq!(value(call.get_display_name(&c)), Some("Bob".to_string()));
    assert_eq!(value(call.get_preferred_id(&c)), None);
    assert_eq!(value(call.get_withhold_caller_number(&c)), Some(true));
    assert_eq!(value(call.get_withhold_caller_name(&c)), None);
    assert!(is_load(call.get_state(&c)));
    assert!(is_load(call.get_direction(&c)));
    assert_eq!(Call::from_call_event(&e).get_id(), "c1");
    assert_eq!(c.parse_call_event(&data).unwrap().get_call_id(), "c1");
}

#[test]
fn answer_hangup_and_timeout_events() {
    let e = CallEvent::parse(&event("answer", ",\"from\":\"a\",\"to\":\"b\",\"time\":\"t\"")).unwrap();
    match e.get_event_type() {
        EventType::Answer(a) => {
            assert_eq!((a.get_from(), a.get_to(), a.get_time(), a.get_tag()), ("a".to_string(), "b".to_string(), "t".to_string(), None));
        },
        other => panic!("{:?}", other),
    }
    assert_eq!(e.get_to(), Some("b".to_string()));
    let e = CallEvent::parse(&event("hangup", ",\"from\":\"a\",\"to\":\"b\",\"time\":\"t\",\"cause\":\"USER_BUSY\"")).unwrap();
    match e.get_event_type() {
        EventType::Hangup(h) => {
            assert_eq!(h.get_cause(), Cause::Busy);
            assert_eq!(h.get_from(), "a");
            assert_eq!(h.get_to(), "b");
            assert_eq!(h.get_time(), "t");
        },
        other => panic!("{:?}", other),
    }
    assert_eq!(e.get_from(), Some("a".to_string()));
    assert_eq!(Cause::parse("NORMAL_CLEARING").unwrap(), Cause::NormalClearing);
    assert_eq!(Cause::parse("CALL_REJECTED").unwrap(), Cause::Rejected);
    let e = CallEvent::parse(&event("timeout", ",\"from\":\"a\",\"to\":\"b\",\"time\":\"t\"")).unwrap();
    match e.get_event_type() {
        EventType::Timeout(t) => assert_eq!((t.get_time(), t.get_from(), t.get_to()), ("t".to_string(), "a".to_string(), "b".to_string())),
        other => panic!("{:?}", other),
    }
    assert_eq!(e.get_to(), Some("b".to_string()));
    assert_eq!(e.get_from(), None);
    let c = client();
    assert_eq!(value(e.get_call().get_to(&c)), "b");
    assert!(is_load(e.get_call().get_from(&c)));
}

#[test]
fn dtmf_gather_playback_recording_and_speak_events() {
    let e = CallEvent::parse(&event("dtmf", ",\"digit\":\"5\",\"time\":\"t\"")).unwrap();
    assert!(matches!(e.get_event_type(), EventType::Dtmf(d) if d.get_digit() == "5" && d.get_time() == "t"));
    assert_eq!(e.get_to(), None);
    assert_eq!(e.get_from(), None);
    let e = CallEvent::parse(&event("gather", ",\"reason\":\"max-digits\",\"digits\":\"123\",\"time\":\"t\",\"gatherId\":\"g1\"")).unwrap();
    match e.get_event_type() {
        EventType::Gather(g) => {
            assert_eq!(g.get_reason(), Reason::MaxDigits);
            assert_eq!(g.get_digits(), "123");
            assert_eq!(g.get_time(), "t");
            assert_eq!(g.get_id(), "g1");
        },
        other => panic!("{:?}", other),
    }
    for (word, reason) in [("terminating-digit", Reason::TerminatingDigit), ("inter-digit-timeout", Reason::InterDigitTimeout), ("hung-up", Reason::HungUp)] {
        assert_eq!(Reason::parse(word).unwrap(), reason);
    }
    let e = CallEvent::parse(&event("playback", ",\"status\":\"started\",\"time\":\"t\",\"tag\":\"x\"")).unwrap();
    match e.get_event_type() {
        EventType::Playback(p) => {
            assert_eq!(p.get_status(), catapult::call_event::playback_event::Status::Started);
            assert_eq!(p.get_tag(), Some("x".to_string()));
            assert_eq!(p.get_time(), "t");
        },
        other => panic!("{:?}", other),
    }
    let e = CallEvent::parse(&event("recording", ",\"status\":\"complete\",\"recordingId\":\"r1\",\"startTime\":\"s\",\"endTime\":\"e\"")).unwrap();
    match e.get_event_type() {
        EventType::Recording(r) => {
            assert_eq!(r.get_status(), catapult::call_event::recording_event::Status::Complete);
            assert_eq!((r.get_id(), r.get_start_time(), r.get_end_time()), ("r1".to_string(), "s".to_string(), "e".to_string()));
        },
        other => panic!("{:?}", other),
    }
    let e = CallEvent::parse(&event("speak", ",\"status\":\"done\",\"time\":\"t\"")).unwrap();
    match e.get_event_type() {
        EventType::Speak(s) => {
            assert_eq!(s.get_status(), catapult::call_event::speak_event::Status::Done);
            assert_eq!(s.get_tag(), None);
            assert_eq!(s.get_time(), "t");
        },
        other => panic!("{:?}", other),
    }
}

#[test]
fn call_event_errors() {
    assert_eq!(unexpected(&event("ring", "")), "unknown call event: ring");
    assert_eq!(unexpected(&event("answer", ",\"to\":\"b\",\"time\":\"t\"")), "required field not found: Answer::from");
    assert_eq!(unexpected(&event("answer", ",\"from\":\"a\",\"time\":\"t\"")), "required field not found: Answer::to");
    assert_eq!(unexpected(&event("answer", ",\"from\":\"a\",\"to\":\"b\"")), "required field not found: Answer::time");
    assert_eq!(unexpected(&event("incomingcall", "")), "required field not found: IncomingCall::from");
    assert_eq!(unexpected(&event("dtmf", ",\"time\":\"t\"")), "required field not found: DtmfEvent::digit");
    assert_eq!(unexpected(&event("gather", ",\"digits\":\"1\"")), "required field not found: GatherEvent::reason");
    assert_eq!(unexpected(&event("gather", ",\"reason\":\"odd\"")), "required field not found: GatherEvent::digits");
    assert_eq!(unexpected(&event("gather", ",\"reason\":\"odd\",\"digits\":\"1\"")), "unknown GatherEvent reason: odd");
    assert_eq!(unexpected(&event("gather", ",\"reason\":\"hung-up\",\"digits\":\"1\",\"time\":\"t\"")), "required field not found: GatherEvent::id");
    assert_eq!(unexpected(&event("hangup", ",\"from\":\"a\"")), "required field not found: HangupEvent::cause");
    assert_eq!(unexpected(&event("hangup", ",\"cause\":\"X\",\"from\":\"a\",\"to\":\"b\"")), "unknown HangupEvent status: X");
    assert_eq!(unexpected(&event("hangup", ",\"cause\":\"X\",\"from\":\"a\"")), "required field not found: HangupEvent::to");
    assert_eq!(unexpected(&event("playback", ",\"status\":\"paused\"")), "unknown PlaybackEvent status: paused");
    assert_eq!(unexpected(&event("playback", ",\"status\":\"done\"")), "required field not found: PlaybackEvent::time");
    assert_eq!(unexpected(&event("recording", ",\"status\":\"lost\"")), "unknown RecordingEvent status: lost");
    assert_eq!(unexpected(&event("recording", ",\"status\":\"error\",\"recordingId\":\"r\",\"startTime\":\"s\"")), "required field not found: RecordingEvent::end_time");
    assert_eq!(unexpected(&event("speak", ",\"status\":\"x\"")), "unknown SpeakEvent status: x");
    assert_eq!(unexpected(&event("timeout", ",\"from\":\"a\",\"to\":\"b\"")), "required field not found: TimeoutEvent::time");
    assert!(matches!(CallEvent::parse("not json"), Err(CatapultError::DecoderError(DecoderError::ParseError(_)))));
    assert!(matches!(CallEvent::parse("{\"eventType\":\"answer\"}"), Err(CatapultError::DecoderError(DecoderError::MissingFieldError(f))) if f == "callId"));
    assert!(matches!(CallEvent::parse("{\"callId\":\"c\",\"callUri\":\"u\"}"), Err(CatapultError::DecoderError(DecoderError::MissingFieldError(f))) if f == "eventType"));
    assert!(matches!(CallEvent::parse(&event("answer", ",\"from\":5")), Err(CatapultError::DecoderError(DecoderError::ExpectedError(_, _)))));
}

const SMS: &str = "{\"to\":\"+1920\",\"from\":\"+1919\",\"time\":\"t\",\"text\":\"hi\",\"direction\":\"in\",\"applicationId\":\"a1\",\"state\":\"received\",\"eventType\":\"sms\",\"messageId\":\"m1\",\"media\":[\"https://api/v1/users/u1/media/p.png\"]}";

#[test]
fn message_event() {
    let c = client();
    let e = MessageEvent::parse(SMS).unwrap();
    assert_eq!(e.get_message_id(), "m1");
    assert_eq!(e.get_to(), "+1920");
    assert_eq!(e.get_from(), "+1919");
    assert_eq!(e.get_time(), "t");
    assert_eq!(e.get_text(), "hi");
    assert!(e.is_inbound());
    assert!(!e.is_outbound());
    assert_eq!(e.get_state(), State::Received);
    assert_eq!(e.get_application().unwrap().get_id(), "a1");
    assert_eq!(e.get_media().len(), 1);
    assert_eq!(e.get_media()[0].get_filename(), "p.png");
    let message = e.get_message();
    assert_eq!(message.get_id(), "m1");
    assert!(value(message.is_inbound(&c)));
    assert_eq!(value(message.get_from(&c)), "+1919");
    assert_eq!(value(message.get_to(&c)), "+1920");
    assert_eq!(value(message.get_text(&c)), "hi");
    assert_eq!(value(message.get_time(&c)), "t");
    assert_eq!(value(message.get_media(&c)).len(), 1);
    assert!(is_load(message.get_state(&c)));
    assert_eq!(Message::from_event(&e).get_id(), "m1");
    assert_eq!(c.parse_message_event(SMS).unwrap().get_message_id(), "m1");
    let out = MessageEvent::parse(&SMS.replace("\"in\"", "\"out\"").replace(",\"applicationId\":\"a1\"", "").replace(",\"media\":[\"https://api/v1/users/u1/media/p.png\"]", "")).unwrap();
    assert!(out.is_outbound());
    assert!(out.get_application().is_none());
    assert!(out.get_media().is_empty());
}

#[test]
fn message_event_errors() {
    let err = |data: &str| match MessageEvent::parse(data) {
        Err(CatapultError::Unexpected(m)) => m,
        other => panic!("{:?}", other),
    };
    assert_eq!(err(&SMS.replace("\"in\"", "\"up\"")), "unknown MessageEvent direction: up");
    assert_eq!(err(&SMS.replace("\"received\"", "\"lost\"")), "unknown Message state: lost");
    assert_eq!(err(&SMS.replace("\"in\"", "\"up\"").replace("\"received\"", "\"lost\"")), "unknown MessageEvent direction: up");
    assert_eq!(err(&SMS.replace("https://api/v1/users/u1/media/p.png", "")), "failed to parse id from Location header");
    assert!(matches!(MessageEvent::parse("{}"), Err(CatapultError::DecoderError(DecoderError::MissingFieldError(f))) if f == "to"));
    assert!(matches!(MessageEvent::parse("["), Err(CatapultError::DecoderError(DecoderError::ParseError(_)))));
}
