pub mod answer_event;
pub mod dtmf_event;
pub mod gather_event;
pub mod hangup_event;
pub mod incoming_event;
pub mod playback_event;
pub mod recording_event;
pub mod speak_event;
pub mod timeout_event;

pub use self::answer_event::AnswerEvent;
pub use self::dtmf_event::DtmfEvent;
pub use self::gather_event::GatherEvent;
pub use self::hangup_event::HangupEvent;
pub use self::incoming_event::IncomingEvent;
pub use self::playback_event::PlaybackEvent;
pub use self::recording_event::RecordingEvent;
pub use self::speak_event::SpeakEvent;
pub use self::timeout_event::TimeoutEvent;

use vstd::prelude::*;

use crate::call::Call;
use crate::call::CallView;
use crate::call_event::answer_event::AnswerEventView;
use crate::call_event::dtmf_event::DtmfEventView;
use crate::call_event::gather_event::GatherEventView;
use crate::call_event::hangup_event::HangupEventView;
use crate::call_event::incoming_event::IncomingEventView;
use crate::call_event::playback_event::PlaybackEventView;
use crate::call_event::recording_event::RecordingEventView;
use crate::call_event::speak_event::SpeakEventView;
use crate::call_event::timeout_event::TimeoutEventView;
use crate::codec::DecoderError;
use crate::codec::DecoderErrorView;
use crate::codec::get_opt_boolean;
use crate::codec::get_opt_string;
use crate::codec::get_string;
use crate::codec::opt_boolean_field;
use crate::codec::opt_string_field;
use crate::codec::result_view;
use crate::codec::string_field;
use crate::error::CatapultError;
use crate::error::CatapultErrorView;
use crate::error::CatapultResult;
use crate::json::JsonSpec;
use crate::json::JsonValue;
use crate::json::decode_text;
use crate::text::clone_opt;
use crate::text::concat;
use crate::text::str_eq;

verus! {

/// An event of a call as the service sends it: one description for events
/// of every kind, with the members that the kind at hand does not have left
/// out.
#[derive(Debug)]
pub struct CallEventInfo {
    pub call_state: Option<String>,
    pub to: Option<String>,
    pub withhold_caller_number: Option<bool>,
    pub time: Option<String>,
    pub application_id: Option<String>,
    pub from: Option<String>,
    pub event_type: String,
    pub withhold_caller_name: Option<bool>,
    pub display_name: Option<String>,
    pub call_id: String,
    pub call_uri: String,
    pub preferred_id: Option<String>,
    pub cause: Option<String>,
    pub tag: Option<String>,
    pub bridge: Option<String>,
    pub digit: Option<String>,
    pub status: Option<String>,
    pub reason: Option<String>,
    pub digits: Option<String>,
    pub gather_id: Option<String>,
    pub recording_id: Option<String>,
    pub start_time: Option<String>,
    pub end_time: Option<String>,
}

/// The mathematical value of a [`CallEventInfo`].
pub struct CallEventInfoView {
    pub call_state: Option<Seq<char>>,
    pub to: Option<Seq<char>>,
    pub withhold_caller_number: Option<bool>,
    pub time: Option<Seq<char>>,
    pub application_id: Option<Seq<char>>,
    pub from: Option<Seq<char>>,
    pub event_type: Seq<char>,
    pub withhold_caller_name: Option<bool>,
    pub display_name: Option<Seq<char>>,
    pub call_id: Seq<char>,
    pub call_uri: Seq<char>,
    pub preferred_id: Option<Seq<char>>,
    pub cause: Option<Seq<char>>,
    pub tag: Option<Seq<char>>,
    pub bridge: Option<Seq<char>>,
    pub digit: Option<Seq<char>>,
    pub status: Option<Seq<char>>,
    pub reason: Option<Seq<char>>,
    pub digits: Option<Seq<char>>,
    pub gather_id: Option<Seq<char>>,
    pub recording_id: Option<Seq<char>>,
    pub start_time: Option<Seq<char>>,
    pub end_time: Option<Seq<char>>,
}

impl DeepView for CallEventInfo {
    type V = CallEventInfoView;

    open spec fn deep_view(&self) -> CallEventInfoView {
        CallEventInfoView {
            call_state: self.call_state.deep_view(),
            to: self.to.deep_view(),
            withhold_caller_number: self.withhold_caller_number,
            time: self.time.deep_view(),
            application_id: self.application_id.deep_view(),
            from: self.from.deep_view(),
            event_type: self.event_type@,
            withhold_caller_name: self.withhold_caller_name,
            display_name: self.display_name.deep_view(),
            call_id: self.call_id@,
            call_uri: self.call_uri@,
            preferred_id: self.preferred_id.deep_view(),
            cause: self.cause.deep_view(),
            tag: self.tag.deep_view(),
            bridge: self.bridge.deep_view(),
            digit: self.digit.deep_view(),
            status: self.status.deep_view(),
            reason: self.reason.deep_view(),
            digits: self.digits.deep_view(),
            gather_id: self.gather_id.deep_view(),
            recording_id: self.recording_id.deep_view(),
            start_time: self.start_time.deep_view(),
            end_time: self.end_time.deep_view(),
        }
    }
}

impl CallEventInfoView {
    /// The event that a JSON document describes: its members are read in the
    /// order of the fields, and the first that fails decides.
    pub open spec fn decode(json: JsonSpec) -> Result<CallEventInfoView, DecoderErrorView> {
        match opt_string_field(json, "callState"@) {
            Err(e) => Err(e),
            Ok(call_state) =>
            match opt_string_field(json, "to"@) {
                Err(e) => Err(e),
                Ok(to) =>
                match opt_boolean_field(json, "withholdCallerNumber"@) {
                    Err(e) => Err(e),
                    Ok(withhold_caller_number) =>
                    match opt_string_field(json, "time"@) {
                        Err(e) => Err(e),
                        Ok(time) =>
                        match opt_string_field(json, "applicationId"@) {
                            Err(e) => Err(e),
                            Ok(application_id) =>
                            match opt_string_field(json, "from"@) {
                                Err(e) => Err(e),
                                Ok(from) =>
                                match string_field(json, "eventType"@) {
                                    Err(e) => Err(e),
                                    Ok(event_type) =>
                                    match opt_boolean_field(json, "withholdCallerName"@) {
                                        Err(e) => Err(e),
                                        Ok(withhold_caller_name) =>
                                        match opt_string_field(json, "displayName"@) {
                                            Err(e) => Err(e),
                                            Ok(display_name) =>
                                            match string_field(json, "callId"@) {
                                                Err(e) => Err(e),
                                                Ok(call_id) =>
                                                match string_field(json, "callUri"@) {
                                                    Err(e) => Err(e),
                                                    Ok(call_uri) =>
                                                    match opt_string_field(json, "preferredId"@) {
                                                        Err(e) => Err(e),
                                                        Ok(preferred_id) =>
                                                        match opt_string_field(json, "cause"@) {
                                                            Err(e) => Err(e),
                                                            Ok(cause) =>
                                                            match opt_string_field(json, "tag"@) {
                                                                Err(e) => Err(e),
                                                                Ok(tag) =>
                                                                match opt_string_field(json, "bridge"@) {
                                                                    Err(e) => Err(e),
                                                                    Ok(bridge) =>
                                                                    match opt_string_field(json, "digit"@) {
                                                                        Err(e) => Err(e),
                                                                        Ok(digit) =>
                                                                        match opt_string_field(json, "status"@) {
                                                                            Err(e) => Err(e),
                                                                            Ok(status) =>
                                                                            match opt_string_field(json, "reason"@) {
                                                                                Err(e) => Err(e),
                                                                                Ok(reason) =>
                                                                                match opt_string_field(json, "digits"@) {
                                                                                    Err(e) => Err(e),
                                                                                    Ok(digits) =>
                                                                                    match opt_string_field(json, "gatherId"@) {
                                                                                        Err(e) => Err(e),
                                                                                        Ok(gather_id) =>
                                                                                        match opt_string_field(json, "recordingId"@) {
                                                                                            Err(e) => Err(e),
                                                                                            Ok(recording_id) =>
                                                                                            match opt_string_field(json, "startTime"@) {
                                                                                                Err(e) => Err(e),
                                                                                                Ok(start_time) =>
                                                                                                match opt_string_field(json, "endTime"@) {
                                                                                                    Err(e) => Err(e),
                                                                                                    Ok(end_time) =>
                                                                                                    Ok(CallEventInfoView { call_state, to, withhold_caller_number, time, application_id, from, event_type, withhold_caller_name, display_name, call_id, call_uri, preferred_id, cause, tag, bridge, digit, status, reason, digits, gather_id, recording_id, start_time, end_time }),
                                                                                                },
                                                                                            },
                                                                                        },
                                                                                    },
                                                                                },
                                                                            },
                                                                        },
                                                                    },
                                                                },
                                                            },
                                                        },
                                                    },
                                                },
                                            },
                                        },
                                    },
                                },
                            },
                        },
                    },
                },
            },
        }
    }
}

impl CallEventInfo {
    /// Reads the event that a JSON document describes.
    pub fn decode(json: &JsonValue) -> (r: Result<CallEventInfo, DecoderError>)
        ensures
            result_view(r) == CallEventInfoView::decode(json.deep_view()),
    {
        let call_state = match get_opt_string(json, "callState") {
            Ok(v) => v,
            Err(e) => {
                return Err(e);
            },
        };
        let to = match get_opt_string(json, "to") {
            Ok(v) => v,
            Err(e) => {
                return Err(e);
            },
        };
        let withhold_caller_number = match get_opt_boolean(json, "withholdCallerNumber") {
            Ok(v) => v,
            Err(e) => {
                return Err(e);
            },
        };
        let time = match get_opt_string(json, "time") {
            Ok(v) => v,
            Err(e) => {
                return Err(e);
            },
        };
        let application_id = match get_opt_string(json, "applicationId") {
            Ok(v) => v,
            Err(e) => {
                return Err(e);
            },
        };
        let from = match get_opt_string(json, "from") {
            Ok(v) => v,
            Err(e) => {
                return Err(e);
            },
        };
        let event_type = match get_string(json, "eventType") {
            Ok(v) => v,
            Err(e) => {
                return Err(e);
            },
        };
        let withhold_caller_name = match get_opt_boolean(json, "withholdCallerName") {
            Ok(v) => v,
            Err(e) => {
                return Err(e);
            },
        };
        let display_name = match get_opt_string(json, "displayName") {
            Ok(v) => v,
            Err(e) => {
                return Err(e);
            },
        };
        let call_id = match get_string(json, "callId") {
            Ok(v) => v,
            Err(e) => {
                return Err(e);
            },
        };
        let call_uri = match get_string(json, "callUri") {
            Ok(v) => v,
            Err(e) => {
                return Err(e);
            },
        };
        let preferred_id = match get_opt_string(json, "preferredId") {
            Ok(v) => v,
            Err(e) => {
                return Err(e);
            },
        };
        let cause = match get_opt_string(json, "cause") {
            Ok(v) => v,
            Err(e) => {
                return Err(e);
            },
        };
        let tag = match get_opt_string(json, "tag") {
            Ok(v) => v,
            Err(e) => {
                return Err(e);
            },
        };
        let bridge = match get_opt_string(json, "bridge") {
            Ok(v) => v,
            Err(e) => {
                return Err(e);
            },
        };
        let digit = match get_opt_string(json, "digit") {
            Ok(v) => v,
            Err(e) => {
                return Err(e);
            },
        };
        let status = match get_opt_string(json, "status") {
            Ok(v) => v,
            Err(e) => {
                return Err(e);
            },
        };
        let reason = match get_opt_string(json, "reason") {
            Ok(v) => v,
            Err(e) => {
                return Err(e);
            },
        };
        let digits = match get_opt_string(json, "digits") {
            Ok(v) => v,
            Err(e) => {
                return Err(e);
            },
        };
        let gather_id = match get_opt_string(json, "gatherId") {
            Ok(v) => v,
            Err(e) => {
                return Err(e);
            },
        };
        let recording_id = match get_opt_string(json, "recordingId") {
            Ok(v) => v,
            Err(e) => {
                return Err(e);
            },
        };
        let start_time = match get_opt_string(json, "startTime") {
            Ok(v) => v,
            Err(e) => {
                return Err(e);
            },
        };
        let end_time = match get_opt_string(json, "endTime") {
            Ok(v) => v,
            Err(e) => {
                return Err(e);
            },
        };
        Ok(CallEventInfo { call_state, to, withhold_caller_number, time, application_id, from, event_type, withhold_caller_name, display_name, call_id, call_uri, preferred_id, cause, tag, bridge, digit, status, reason, digits, gather_id, recording_id, start_time, end_time })
    }
}

/// What happened to the call, and what is told of it.
#[derive(Debug)]
pub enum EventType {
    Incoming(IncomingEvent),
    Answer(AnswerEvent),
    Hangup(HangupEvent),
    Dtmf(DtmfEvent),
    Playback(PlaybackEvent),
    Timeout(TimeoutEvent),
    Gather(GatherEvent),
    Recording(RecordingEvent),
    Speak(SpeakEvent),
}

/// The mathematical value of an [`EventType`].
pub enum EventTypeView {
    Incoming(IncomingEventView),
    Answer(AnswerEventView),
    Hangup(HangupEventView),
    Dtmf(DtmfEventView),
    Playback(PlaybackEventView),
    Timeout(TimeoutEventView),
    Gather(GatherEventView),
    Recording(RecordingEventView),
    Speak(SpeakEventView),
}

impl DeepView for EventType {
    type V = EventTypeView;

    open spec fn deep_view(&self) -> EventTypeView {
        match self {
            EventType::Incoming(e) => EventTypeView::Incoming(e.deep_view()),
            EventType::Answer(e) => EventTypeView::Answer(e.deep_view()),
            EventType::Hangup(e) => EventTypeView::Hangup(e.deep_view()),
            EventType::Dtmf(e) => EventTypeView::Dtmf(e.deep_view()),
            EventType::Playback(e) => EventTypeView::Playback(e.deep_view()),
            EventType::Timeout(e) => EventTypeView::Timeout(e.deep_view()),
            EventType::Gather(e) => EventTypeView::Gather(e.deep_view()),
            EventType::Recording(e) => EventTypeView::Recording(e.deep_view()),
            EventType::Speak(e) => EventTypeView::Speak(e.deep_view()),
        }
    }
}

impl EventTypeView {
    /// What a description tells, by the kind that it names. A kind that
    /// is not known is an error.
    pub open spec fn of(info: CallEventInfoView) -> Result<EventTypeView, CatapultErrorView> {
        if info.event_type == "incomingcall"@ {
            match IncomingEventView::new(info) {
                Ok(e) => Ok(EventTypeView::Incoming(e)),
                Err(e) => Err(e),
            }
        } else if info.event_type == "answer"@ {
            match AnswerEventView::new(info) {
                Ok(e) => Ok(EventTypeView::Answer(e)),
                Err(e) => Err(e),
            }
        } else if info.event_type == "hangup"@ {
            match HangupEventView::new(info) {
                Ok(e) => Ok(EventTypeView::Hangup(e)),
                Err(e) => Err(e),
            }
        } else if info.event_type == "dtmf"@ {
            match DtmfEventView::new(info) {
                Ok(e) => Ok(EventTypeView::Dtmf(e)),
                Err(e) => Err(e),
            }
        } else if info.event_type == "playback"@ {
            match PlaybackEventView::new(info) {
                Ok(e) => Ok(EventTypeView::Playback(e)),
                Err(e) => Err(e),
            }
        } else if info.event_type == "timeout"@ {
            match TimeoutEventView::new(info) {
                Ok(e) => Ok(EventTypeView::Timeout(e)),
                Err(e) => Err(e),
            }
        } else if info.event_type == "gather"@ {
            match GatherEventView::new(info) {
                Ok(e) => Ok(EventTypeView::Gather(e)),
                Err(e) => Err(e),
            }
        } else if info.event_type == "recording"@ {
            match RecordingEventView::new(info) {
                Ok(e) => Ok(EventTypeView::Recording(e)),
                Err(e) => Err(e),
            }
        } else if info.event_type == "speak"@ {
            match SpeakEventView::new(info) {
                Ok(e) => Ok(EventTypeView::Speak(e)),
                Err(e) => Err(e),
            }
        } else {
            Err(CatapultErrorView::Unexpected("unknown call event: "@ + info.event_type))
        }
    }

    /// The number that was called, where the kind of the event tells it.
    pub open spec fn to(self) -> Option<Seq<char>> {
        match self {
            EventTypeView::Incoming(e) => Some(e.to),
            EventTypeView::Answer(e) => Some(e.to),
            EventTypeView::Hangup(e) => Some(e.to),
            EventTypeView::Timeout(e) => Some(e.to),
            _ => None,
        }
    }

    /// The number that called, where the kind of the event tells it.
    pub open spec fn from(self) -> Option<Seq<char>> {
        match self {
            EventTypeView::Incoming(e) => Some(e.from),
            EventTypeView::Answer(e) => Some(e.from),
            EventTypeView::Hangup(e) => Some(e.from),
            _ => None,
        }
    }
}

impl EventType {
    /// What a description tells, by the kind that it names.
    fn of(info: &CallEventInfo) -> (r: CatapultResult<EventType>)
        ensures
            result_view(r) == EventTypeView::of(info.deep_view()),
    {
        let kind = info.event_type.as_str();
        if str_eq(kind, "incomingcall") {
            match IncomingEvent::new(info) {
                Ok(e) => Ok(EventType::Incoming(e)),
                Err(e) => Err(e),
            }
        } else if str_eq(kind, "answer") {
            match AnswerEvent::new(info) {
                Ok(e) => Ok(EventType::Answer(e)),
                Err(e) => Err(e),
            }
        } else if str_eq(kind, "hangup") {
            match HangupEvent::new(info) {
                Ok(e) => Ok(EventType::Hangup(e)),
                Err(e) => Err(e),
            }
        } else if str_eq(kind, "dtmf") {
            match DtmfEvent::new(info) {
                Ok(e) => Ok(EventType::Dtmf(e)),
                Err(e) => Err(e),
            }
        } else if str_eq(kind, "playback") {
            match PlaybackEvent::new(info) {
                Ok(e) => Ok(EventType::Playback(e)),
                Err(e) => Err(e),
            }
        } else if str_eq(kind, "timeout") {
            match TimeoutEvent::new(info) {
                Ok(e) => Ok(EventType::Timeout(e)),
                Err(e) => Err(e),
            }
        } else if str_eq(kind, "gather") {
            match GatherEvent::new(info) {
                Ok(e) => Ok(EventType::Gather(e)),
                Err(e) => Err(e),
            }
        } else if str_eq(kind, "recording") {
            match RecordingEvent::new(info) {
                Ok(e) => Ok(EventType::Recording(e)),
                Err(e) => Err(e),
            }
        } else if str_eq(kind, "speak") {
            match SpeakEvent::new(info) {
                Ok(e) => Ok(EventType::Speak(e)),
                Err(e) => Err(e),
            }
        } else {
            Err(CatapultError::Unexpected(concat("unknown call event: ", kind)))
        }
    }
}

/// What the service tells an application of a call.
#[derive(Debug)]
pub struct CallEvent {
    event_type: EventType,
    call_id: String,
    withhold_caller_number: Option<bool>,
    withhold_caller_name: Option<bool>,
    display_name: Option<String>,
    preferred_id: Option<String>,
}

/// The mathematical value of a [`CallEvent`].
pub struct CallEventView {
    pub event_type: EventTypeView,
    pub call_id: Seq<char>,
    pub withhold_caller_number: Option<bool>,
    pub withhold_caller_name: Option<bool>,
    pub display_name: Option<Seq<char>>,
    pub preferred_id: Option<Seq<char>>,
}

impl DeepView for CallEvent {
    type V = CallEventView;

    closed spec fn deep_view(&self) -> CallEventView {
        CallEventView {
            event_type: self.event_type.deep_view(),
            call_id: self.call_id@,
            withhold_caller_number: self.withhold_caller_number,
            withhold_caller_name: self.withhold_caller_name,
            display_name: self.display_name.deep_view(),
            preferred_id: self.preferred_id.deep_view(),
        }
    }
}

impl View for CallEvent {
    type V = CallEventView;

    open spec fn view(&self) -> CallEventView {
        self.deep_view()
    }
}

impl CallEventView {
    /// The event that a description stands for.
    pub open spec fn from_info(info: CallEventInfoView) -> Result<CallEventView, CatapultErrorView> {
        match EventTypeView::of(info) {
            Err(e) => Err(e),
            Ok(event_type) => Ok(
                CallEventView {
                    event_type,
                    call_id: info.call_id,
                    withhold_caller_number: info.withhold_caller_number,
                    withhold_caller_name: info.withhold_caller_name,
                    display_name: info.display_name,
                    preferred_id: info.preferred_id,
                },
            ),
        }
    }

    /// The event that a text describes in JSON.
    pub open spec fn parse(data: Seq<char>) -> Result<CallEventView, CatapultErrorView> {
        match decode_text(data) {
            Err(e) => Err(CatapultErrorView::DecoderError(e)),
            Ok(json) => match CallEventInfoView::decode(json) {
                Err(e) => Err(CatapultErrorView::DecoderError(e)),
                Ok(info) => CallEventView::from_info(info),
            },
        }
    }
}

impl CallEvent {
    /// Reads the event that a text describes in JSON.
    pub fn parse(data: &str) -> (r: CatapultResult<CallEvent>)
        ensures
            result_view(r) == CallEventView::parse(data@),
    {
        let json = match JsonValue::from_str(data) {
            Ok(json) => json,
            Err(e) => {
                return Err(CatapultError::DecoderError(e));
            },
        };
        let info = match CallEventInfo::decode(&json) {
            Ok(info) => info,
            Err(e) => {
                return Err(CatapultError::DecoderError(e));
            },
        };
        let event_type = match EventType::of(&info) {
            Ok(event_type) => event_type,
            Err(e) => {
                return Err(e);
            },
        };
        Ok(
            CallEvent {
                event_type,
                call_id: info.call_id,
                withhold_caller_number: info.withhold_caller_number,
                withhold_caller_name: info.withhold_caller_name,
                display_name: info.display_name,
                preferred_id: info.preferred_id,
            },
        )
    }

    pub fn get_event_type(&self) -> (r: &EventType)
        ensures
            r.deep_view() == self@.event_type,
    {
        &self.event_type
    }

    pub fn get_call_id(&self) -> (r: String)
        ensures
            r@ == self@.call_id,
    {
        self.call_id.clone()
    }

    pub fn get_withhold_caller_number(&self) -> (r: Option<bool>)
        ensures
            r == self@.withhold_caller_number,
    {
        self.withhold_caller_number
    }

    pub fn get_withhold_caller_name(&self) -> (r: Option<bool>)
        ensures
            r == self@.withhold_caller_name,
    {
        self.withhold_caller_name
    }

    pub fn get_display_name(&self) -> (r: Option<String>)
        ensures
            r.deep_view() == self@.display_name,
    {
        clone_opt(&self.display_name)
    }

    pub fn get_preferred_id(&self) -> (r: Option<String>)
        ensures
            r.deep_view() == self@.preferred_id,
    {
        clone_opt(&self.preferred_id)
    }

    /// The call that the event tells of, with what the event tells filled
    /// in.
    pub fn get_call(&self) -> (r: Call)
        ensures
            r@ == CallView::from_call_event(self@),
    {
        Call::from_call_event(self)
    }

    /// The number that was called, where the kind of the event tells it.
    pub fn get_to(&self) -> (r: Option<String>)
        ensures
            r.deep_view() == self@.event_type.to(),
    {
        match &self.event_type {
            EventType::Incoming(data) => Some(data.get_to()),
            EventType::Answer(data) => Some(data.get_to()),
            EventType::Hangup(data) => Some(data.get_to()),
            EventType::Timeout(data) => Some(data.get_to()),
            _ => None,
        }
    }

    /// The number that called, where the kind of the event tells it.
    pub fn get_from(&self) -> (r: Option<String>)
        ensures
            r.deep_view() == self@.event_type.from(),
    {
        match &self.event_type {
            EventType::Incoming(data) => Some(data.get_from()),
            EventType::Answer(data) => Some(data.get_from()),
            EventType::Hangup(data) => Some(data.get_from()),
            _ => None,
        }
    }
}

} // verus!
