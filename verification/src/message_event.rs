use vstd::prelude::*;

use crate::application::Application;
use crate::application::ApplicationView;
use crate::codec::DecoderError;
use crate::codec::DecoderErrorView;
use crate::codec::get_opt_string;
use crate::codec::get_opt_strings;
use crate::codec::get_string;
use crate::codec::opt_string_field;
use crate::codec::opt_strings_field;
use crate::codec::result_view;
use crate::codec::string_field;
use crate::error::CatapultError;
use crate::error::CatapultErrorView;
use crate::error::CatapultResult;
use crate::json::JsonSpec;
use crate::json::JsonValue;
use crate::json::decode_text;
use crate::media::Media;
use crate::media::MediaView;
use crate::media::clone_media;
use crate::media::media_from_urls;
use crate::media::opt_media_of;
use crate::message::Message;
use crate::message::MessageView;
use crate::message::State;
use crate::message::inbound_of;
use crate::message::parse_direction;

verus! {

/// An event of a message as the service sends it.
#[derive(Debug)]
pub struct MessageEventInfo {
    pub to: String,
    pub from: String,
    pub time: String,
    pub text: String,
    pub direction: String,
    pub application_id: Option<String>,
    pub state: String,
    pub event_type: String,
    pub message_id: String,
    pub media: Option<Vec<String>>,
}

/// The mathematical value of a [`MessageEventInfo`].
pub struct MessageEventInfoView {
    pub to: Seq<char>,
    pub from: Seq<char>,
    pub time: Seq<char>,
    pub text: Seq<char>,
    pub direction: Seq<char>,
    pub application_id: Option<Seq<char>>,
    pub state: Seq<char>,
    pub event_type: Seq<char>,
    pub message_id: Seq<char>,
    pub media: Option<Seq<Seq<char>>>,
}

impl DeepView for MessageEventInfo {
    type V = MessageEventInfoView;

    open spec fn deep_view(&self) -> MessageEventInfoView {
        MessageEventInfoView {
            to: self.to@,
            from: self.from@,
            time: self.time@,
            text: self.text@,
            direction: self.direction@,
            application_id: self.application_id.deep_view(),
            state: self.state@,
            event_type: self.event_type@,
            message_id: self.message_id@,
            media: self.media.deep_view(),
        }
    }
}

impl MessageEventInfoView {
    /// The event that a JSON document describes: its members are read in the
    /// order of the fields, and the first that fails decides.
    pub open spec fn decode(json: JsonSpec) -> Result<MessageEventInfoView, DecoderErrorView> {
        match string_field(json, "to"@) {
            Err(e) => Err(e),
            Ok(to) =>
            match string_field(json, "from"@) {
                Err(e) => Err(e),
                Ok(from) =>
                match string_field(json, "time"@) {
                    Err(e) => Err(e),
                    Ok(time) =>
                    match string_field(json, "text"@) {
                        Err(e) => Err(e),
                        Ok(text) =>
                        match string_field(json, "direction"@) {
                            Err(e) => Err(e),
                            Ok(direction) =>
                            match opt_string_field(json, "applicationId"@) {
                                Err(e) => Err(e),
                                Ok(application_id) =>
                                match string_field(json, "state"@) {
                                    Err(e) => Err(e),
                                    Ok(state) =>
                                    match string_field(json, "eventType"@) {
                                        Err(e) => Err(e),
                                        Ok(event_type) =>
                                        match string_field(json, "messageId"@) {
                                            Err(e) => Err(e),
                                            Ok(message_id) =>
                                            match opt_strings_field(json, "media"@) {
                                                Err(e) => Err(e),
                                                Ok(media) =>
                                                Ok(MessageEventInfoView { to, from, time, text, direction, application_id, state, event_type, message_id, media }),
                                            },
                                        },
                                    },
                                },
                            },
                        },
                    },
                },
            },
        }
    }
}

impl MessageEventInfo {
    /// Reads the event that a JSON document describes.
    pub fn decode(json: &JsonValue) -> (r: Result<MessageEventInfo, DecoderError>)
        ensures
            result_view(r) == MessageEventInfoView::decode(json.deep_view()),
    {
        let to = match get_string(json, "to") {
            Ok(v) => v,
            Err(e) => {
                return Err(e);
            },
        };
        let from = match get_string(json, "from") {
            Ok(v) => v,
            Err(e) => {
                return Err(e);
            },
        };
        let time = match get_string(json, "time") {
            Ok(v) => v,
            Err(e) => {
                return Err(e);
            },
        };
        let text = match get_string(json, "text") {
            Ok(v) => v,
            Err(e) => {
                return Err(e);
            },
        };
        let direction = match get_string(json, "direction") {
            Ok(v) => v,
            Err(e) => {
                return Err(e);
            },
        };
        let application_id = match get_opt_string(json, "applicationId") {
            Ok(v) => v,
            Err(e) => {
                return Err(e);
            },
        };
        let state = match get_string(json, "state") {
            Ok(v) => v,
            Err(e) => {
                return Err(e);
            },
        };
        let event_type = match get_string(json, "eventType") {
            Ok(v) => v,
            Err(e) => {
                return Err(e);
            },
        };
        let message_id = match get_string(json, "messageId") {
            Ok(v) => v,
            Err(e) => {
                return Err(e);
            },
        };
        let media = match get_opt_strings(json, "media") {
            Ok(v) => v,
            Err(e) => {
                return Err(e);
            },
        };
        Ok(MessageEventInfo { to, from, time, text, direction, application_id, state, event_type, message_id, media })
    }
}

/// What the service tells an application of a message: that it came in,
/// or what became of one that was sent.
#[derive(Debug)]
pub struct MessageEvent {
    message_id: String,
    to: String,
    from: String,
    time: String,
    text: String,
    inbound: bool,
    state: State,
    application_id: Option<String>,
    media: Vec<Media>,
}

/// The mathematical value of a [`MessageEvent`].
pub struct MessageEventView {
    pub message_id: Seq<char>,
    pub to: Seq<char>,
    pub from: Seq<char>,
    pub time: Seq<char>,
    pub text: Seq<char>,
    pub inbound: bool,
    pub state: State,
    pub application_id: Option<Seq<char>>,
    pub media: Seq<MediaView>,
}

impl DeepView for MessageEvent {
    type V = MessageEventView;

    closed spec fn deep_view(&self) -> MessageEventView {
        MessageEventView {
            message_id: self.message_id@,
            to: self.to@,
            from: self.from@,
            time: self.time@,
            text: self.text@,
            inbound: self.inbound,
            state: self.state,
            application_id: self.application_id.deep_view(),
            media: self.media.deep_view(),
        }
    }
}

impl View for MessageEvent {
    type V = MessageEventView;

    open spec fn view(&self) -> MessageEventView {
        self.deep_view()
    }
}

impl MessageEventView {
    /// The event that a description stands for. The direction and the
    /// state are told by their words, the media files by their URLs.
    pub open spec fn from_info(info: MessageEventInfoView) -> Result<MessageEventView, CatapultErrorView> {
        match inbound_of(info.direction, "unknown MessageEvent direction: "@) {
            Err(e) => Err(e),
            Ok(inbound) => match State::of_text(info.state) {
                Err(e) => Err(e),
                Ok(state) => match opt_media_of(info.media) {
                    Err(e) => Err(e),
                    Ok(media) => Ok(
                        MessageEventView {
                            message_id: info.message_id,
                            to: info.to,
                            from: info.from,
                            time: info.time,
                            text: info.text,
                            inbound,
                            state,
                            application_id: info.application_id,
                            media,
                        },
                    ),
                },
            },
        }
    }

    /// The event that a text describes in JSON.
    pub open spec fn parse(data: Seq<char>) -> Result<MessageEventView, CatapultErrorView> {
        match decode_text(data) {
            Err(e) => Err(CatapultErrorView::DecoderError(e)),
            Ok(json) => match MessageEventInfoView::decode(json) {
                Err(e) => Err(CatapultErrorView::DecoderError(e)),
                Ok(info) => MessageEventView::from_info(info),
            },
        }
    }
}

impl MessageEvent {
    /// Reads the event that a text describes in JSON.
    pub fn parse(data: &str) -> (r: CatapultResult<MessageEvent>)
        ensures
            result_view(r) == MessageEventView::parse(data@),
    {
        let json = match JsonValue::from_str(data) {
            Ok(json) => json,
            Err(e) => {
                return Err(CatapultError::DecoderError(e));
            },
        };
        let info = match MessageEventInfo::decode(&json) {
            Ok(info) => info,
            Err(e) => {
                return Err(CatapultError::DecoderError(e));
            },
        };
        let inbound = match parse_direction(info.direction.as_str(), "unknown MessageEvent direction: ") {
            Ok(inbound) => inbound,
            Err(e) => {
                return Err(e);
            },
        };
        let state = match State::parse(info.state.as_str()) {
            Ok(state) => state,
            Err(e) => {
                return Err(e);
            },
        };
        let media = match media_from_urls(&info.media) {
            Ok(media) => media,
            Err(e) => {
                return Err(e);
            },
        };
        Ok(
            MessageEvent {
                message_id: info.message_id,
                to: info.to,
                from: info.from,
                time: info.time,
                text: info.text,
                inbound,
                state,
                application_id: info.application_id,
                media,
            },
        )
    }

    pub fn get_message_id(&self) -> (r: String)
        ensures
            r@ == self@.message_id,
    {
        self.message_id.clone()
    }

    /// The message that the event tells of.
    pub fn get_message(&self) -> (r: Message)
        ensures
            r@ == MessageView::from_event(self@),
    {
        Message::from_event(self)
    }

    pub fn get_to(&self) -> (r: String)
        ensures
            r@ == self@.to,
    {
        self.to.clone()
    }

    pub fn get_from(&self) -> (r: String)
        ensures
            r@ == self@.from,
    {
        self.from.clone()
    }

    pub fn get_time(&self) -> (r: String)
        ensures
            r@ == self@.time,
    {
        self.time.clone()
    }

    pub fn get_text(&self) -> (r: String)
        ensures
            r@ == self@.text,
    {
        self.text.clone()
    }

    pub fn is_inbound(&self) -> (r: bool)
        ensures
            r == self@.inbound,
    {
        self.inbound
    }

    pub fn is_outbound(&self) -> (r: bool)
        ensures
            r == !self@.inbound,
    {
        !self.is_inbound()
    }

    pub fn get_state(&self) -> (r: State)
        ensures
            r == self@.state,
    {
        self.state
    }

    /// The application that the event was sent to, with nothing fetched
    /// yet, where the event names one.
    pub fn get_application(&self) -> (r: Option<Application>)
        ensures
            r.deep_view() == match self@.application_id {
                Some(id) => Some(ApplicationView::unloaded(id)),
                None => None,
            },
    {
        match &self.application_id {
            Some(id) => Some(Application::get(id.as_str())),
            None => None,
        }
    }

    pub fn get_media(&self) -> (r: Vec<Media>)
        ensures
            r.deep_view() == self@.media,
    {
        clone_media(&self.media)
    }
}

} // verus!
