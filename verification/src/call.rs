use vstd::prelude::*;
use vstd::string::StrSliceExecFns;

use crate::bridge::Bridge;
use crate::bridge::BridgeView;
use crate::call_event::CallEvent;
use crate::call_event::CallEventView;
use crate::client::ApiResponse;
use crate::client::Client;
use crate::client::ClientView;
use crate::client::EmptyResponse;
use crate::client::JsonResponse;
use crate::codec::DecoderError;
use crate::codec::DecoderErrorView;
use crate::codec::boolean_field;
use crate::codec::expected_error;
use crate::codec::get_boolean;
use crate::codec::get_opt_boolean;
use crate::codec::get_opt_string;
use crate::codec::get_string;
use crate::codec::lemma_read_items_fails;
use crate::codec::opt_boolean_field;
use crate::codec::opt_string_field;
use crate::codec::read_items;
use crate::codec::read_list;
use crate::codec::result_view;
use crate::codec::string_field;
use crate::error::CatapultError;
use crate::error::CatapultErrorView;
use crate::error::CatapultResult;
use crate::http::Method;
use crate::http::Request;
use crate::http::RequestView;
use crate::http::Response;
use crate::http::ResponseView;
use crate::json::JsonSpec;
use crate::json::JsonValue;
use crate::json::member;
use crate::lazy::Lazy;
use crate::lazy::Read;
use crate::lazy::asks_load;
use crate::lazy::read_field;
use crate::lazy::reads_value;
use crate::text::clone_list;
use crate::text::clone_opt;
use crate::text::concat;
use crate::text::str_eq;
use crate::util::get_id_from_location_header;
use crate::util::get_next_link_from_headers;
use crate::util::id_of_location;
use crate::util::next_link_of;
use crate::util::opt_id_from_url;
use crate::util::opt_id_of_url;
use crate::voice::Voice;

verus! {

/// Where a call stands.
#[derive(Debug, Clone, Copy, PartialEq, Eq, Structural)]
pub enum State {
    Started,
    Rejected,
    Active,
    Completed,
    Transferring,
}

impl DeepView for State {
    type V = State;

    open spec fn deep_view(&self) -> State {
        *self
    }
}

impl State {
    /// The word that the service uses for this value.
    pub open spec fn text(self) -> Seq<char> {
        match self {
            State::Started => "started"@,
            State::Rejected => "rejected"@,
            State::Active => "active"@,
            State::Completed => "completed"@,
            State::Transferring => "transferring"@,
        }
    }

    /// The value that a word of the service stands for. A word that stands
    /// for none is an error, not some value picked in its place.
    pub open spec fn of_text(text: Seq<char>) -> Result<State, CatapultErrorView> {
        if text == "started"@ {
            Ok(State::Started)
        } else if text == "rejected"@ {
            Ok(State::Rejected)
        } else if text == "active"@ {
            Ok(State::Active)
        } else if text == "completed"@ {
            Ok(State::Completed)
        } else if text == "transferring"@ {
            Ok(State::Transferring)
        } else {
            Err(CatapultErrorView::Unexpected("unknown Call state: "@ + text))
        }
    }

    /// Reads the value that a word of the service stands for.
    pub fn parse(text: &str) -> (r: CatapultResult<State>)
        ensures
            result_view(r) == State::of_text(text@),
    {
        if str_eq(text, "started") {
            Ok(State::Started)
        } else if str_eq(text, "rejected") {
            Ok(State::Rejected)
        } else if str_eq(text, "active") {
            Ok(State::Active)
        } else if str_eq(text, "completed") {
            Ok(State::Completed)
        } else if str_eq(text, "transferring") {
            Ok(State::Transferring)
        } else {
            Err(CatapultError::Unexpected(concat("unknown Call state: ", text)))
        }
    }

    /// The word that the service uses for this value.
    pub fn to_string(&self) -> (r: &'static str)
        ensures
            r@ == self.text(),
    {
        match self {
            State::Started => "started",
            State::Rejected => "rejected",
            State::Active => "active",
            State::Completed => "completed",
            State::Transferring => "transferring",
        }
    }
}

/// Each state is read back from the word that is written for it.
pub proof fn lemma_state_words(value: State)
    ensures
        State::of_text(value.text()) == Ok::<State, CatapultErrorView>(value),
{
    reveal_strlit("started");
    reveal_strlit("rejected");
    reveal_strlit("active");
    reveal_strlit("completed");
    reveal_strlit("transferring");
    match value {
        State::Started => {},
        State::Rejected => {
            assert("rejected"@[0] != "started"@[0]);
        },
        State::Active => {
            assert("active"@.len() != "started"@.len());
            assert("active"@.len() != "rejected"@.len());
        },
        State::Completed => {
            assert("completed"@.len() != "started"@.len());
            assert("completed"@.len() != "rejected"@.len());
            assert("completed"@.len() != "active"@.len());
        },
        State::Transferring => {
            assert("transferring"@.len() != "started"@.len());
            assert("transferring"@.len() != "rejected"@.len());
            assert("transferring"@.len() != "active"@.len());
            assert("transferring"@.len() != "completed"@.len());
        },
    }
}

/// A call as the service describes it.
#[derive(Debug)]
pub struct CallInfo {
    pub id: String,
    pub active_time: Option<String>,
    pub bridge: Option<String>,
    pub callback_url: Option<String>,
    pub direction: String,
    pub from: String,
    pub recording_file_format: Option<String>,
    pub recording_enabled: bool,
    pub start_time: String,
    pub state: String,
    pub to: String,
    pub transcription_enabled: bool,
    pub display_name: Option<String>,
    pub preferred_id: Option<String>,
    pub withhold_caller_name: Option<bool>,
    pub withhold_caller_number: Option<bool>,
    pub end_time: Option<String>,
}

/// The mathematical value of a [`CallInfo`].
pub struct CallInfoView {
    pub id: Seq<char>,
    pub active_time: Option<Seq<char>>,
    pub bridge: Option<Seq<char>>,
    pub callback_url: Option<Seq<char>>,
    pub direction: Seq<char>,
    pub from: Seq<char>,
    pub recording_file_format: Option<Seq<char>>,
    pub recording_enabled: bool,
    pub start_time: Seq<char>,
    pub state: Seq<char>,
    pub to: Seq<char>,
    pub transcription_enabled: bool,
    pub display_name: Option<Seq<char>>,
    pub preferred_id: Option<Seq<char>>,
    pub withhold_caller_name: Option<bool>,
    pub withhold_caller_number: Option<bool>,
    pub end_time: Option<Seq<char>>,
}

impl DeepView for CallInfo {
    type V = CallInfoView;

    open spec fn deep_view(&self) -> CallInfoView {
        CallInfoView {
            id: self.id@,
            active_time: self.active_time.deep_view(),
            bridge: self.bridge.deep_view(),
            callback_url: self.callback_url.deep_view(),
            direction: self.direction@,
            from: self.from@,
            recording_file_format: self.recording_file_format.deep_view(),
            recording_enabled: self.recording_enabled,
            start_time: self.start_time@,
            state: self.state@,
            to: self.to@,
            transcription_enabled: self.transcription_enabled,
            display_name: self.display_name.deep_view(),
            preferred_id: self.preferred_id.deep_view(),
            withhold_caller_name: self.withhold_caller_name,
            withhold_caller_number: self.withhold_caller_number,
            end_time: self.end_time.deep_view(),
        }
    }
}

impl CallInfoView {
    /// The call that a JSON document describes: its members are read in the
    /// order of the fields, and the first that fails decides.
    pub open spec fn decode(json: JsonSpec) -> Result<CallInfoView, DecoderErrorView> {
        match string_field(json, "id"@) {
            Err(e) => Err(e),
            Ok(id) =>
            match opt_string_field(json, "activeTime"@) {
                Err(e) => Err(e),
                Ok(active_time) =>
                match opt_string_field(json, "bridge"@) {
                    Err(e) => Err(e),
                    Ok(bridge) =>
                    match opt_string_field(json, "callbackUrl"@) {
                        Err(e) => Err(e),
                        Ok(callback_url) =>
                        match string_field(json, "direction"@) {
                            Err(e) => Err(e),
                            Ok(direction) =>
                            match string_field(json, "from"@) {
                                Err(e) => Err(e),
                                Ok(from) =>
                                match opt_string_field(json, "recordingFileFormat"@) {
                                    Err(e) => Err(e),
                                    Ok(recording_file_format) =>
                                    match boolean_field(json, "recordingEnabled"@) {
                                        Err(e) => Err(e),
                                        Ok(recording_enabled) =>
                                        match string_field(json, "startTime"@) {
                                            Err(e) => Err(e),
                                            Ok(start_time) =>
                                            match string_field(json, "state"@) {
                                                Err(e) => Err(e),
                                                Ok(state) =>
                                                match string_field(json, "to"@) {
                                                    Err(e) => Err(e),
                                                    Ok(to) =>
                                                    match boolean_field(json, "transcriptionEnabled"@) {
                                                        Err(e) => Err(e),
                                                        Ok(transcription_enabled) =>
                                                        match opt_string_field(json, "displayName"@) {
                                                            Err(e) => Err(e),
                                                            Ok(display_name) =>
                                                            match opt_string_field(json, "preferredId"@) {
                                                                Err(e) => Err(e),
                                                                Ok(preferred_id) =>
                                                                match opt_boolean_field(json, "withholdCallerName"@) {
                                                                    Err(e) => Err(e),
                                                                    Ok(withhold_caller_name) =>
                                                                    match opt_boolean_field(json, "withholdCallerNumber"@) {
                                                                        Err(e) => Err(e),
                                                                        Ok(withhold_caller_number) =>
                                                                        match opt_string_field(json, "endTime"@) {
                                                                            Err(e) => Err(e),
                                                                            Ok(end_time) =>
                                                                            Ok(CallInfoView { id, active_time, bridge, callback_url, direction, from, recording_file_format, recording_enabled, start_time, state, to, transcription_enabled, display_name, preferred_id, withhold_caller_name, withhold_caller_number, end_time }),
                                                                        },
                                                                    },
                                                                },
                                                            },
                                                        },
                                                    },
                                                },
                                            },
                                        },
                                    },
                                },
                            },
                        },
                    },
                },
            },
        }
    }
}

impl CallInfo {
    /// Reads the call that a JSON document describes.
    pub fn decode(json: &JsonValue) -> (r: Result<CallInfo, DecoderError>)
        ensures
            result_view(r) == CallInfoView::decode(json.deep_view()),
    {
        let id = match get_string(json, "id") {
            Ok(v) => v,
            Err(e) => {
                return Err(e);
            },
        };
        let active_time = match get_opt_string(json, "activeTime") {
            Ok(v) => v,
            Err(e) => {
                return Err(e);
            },
        };
        let bridge = match get_opt_string(json, "bridge") {
            Ok(v) => v,
            Err(e) => {
                return Err(e);
            },
        };
        let callback_url = match get_opt_string(json, "callbackUrl") {
            Ok(v) => v,
            Err(e) => {
                return Err(e);
            },
        };
        let direction = match get_string(json, "direction") {
            Ok(v) => v,
            Err(e) => {
                return Err(e);
            },
        };
        let from = match get_string(json, "from") {
            Ok(v) => v,
            Err(e) => {
                return Err(e);
            },
        };
        let recording_file_format = match get_opt_string(json, "recordingFileFormat") {
            Ok(v) => v,
            Err(e) => {
                return Err(e);
            },
        };
        let recording_enabled = match get_boolean(json, "recordingEnabled") {
            Ok(v) => v,
            Err(e) => {
                return Err(e);
            },
        };
        let start_time = match get_string(json, "startTime") {
            Ok(v) => v,
            Err(e) => {
                return Err(e);
            },
        };
        let state = match get_string(json, "state") {
            Ok(v) => v,
            Err(e) => {
                return Err(e);
            },
        };
        let to = match get_string(json, "to") {
            Ok(v) => v,
            Err(e) => {
                return Err(e);
            },
        };
        let transcription_enabled = match get_boolean(json, "transcriptionEnabled") {
            Ok(v) => v,
            Err(e) => {
                return Err(e);
            },
        };
        let display_name = match get_opt_string(json, "displayName") {
            Ok(v) => v,
            Err(e) => {
                return Err(e);
            },
        };
        let preferred_id = match get_opt_string(json, "preferredId") {
            Ok(v) => v,
            Err(e) => {
                return Err(e);
            },
        };
        let withhold_caller_name = match get_opt_boolean(json, "withholdCallerName") {
            Ok(v) => v,
            Err(e) => {
                return Err(e);
            },
        };
        let withhold_caller_number = match get_opt_boolean(json, "withholdCallerNumber") {
            Ok(v) => v,
            Err(e) => {
                return Err(e);
            },
        };
        let end_time = match get_opt_string(json, "endTime") {
            Ok(v) => v,
            Err(e) => {
                return Err(e);
            },
        };
        Ok(CallInfo { id, active_time, bridge, callback_url, direction, from, recording_file_format, recording_enabled, start_time, state, to, transcription_enabled, display_name, preferred_id, withhold_caller_name, withhold_caller_number, end_time })
    }
}

/// The calls that a JSON array describes, in its order.
pub open spec fn decode_all(json: JsonSpec) -> Result<Seq<CallInfoView>, DecoderErrorView> {
    read_list(json, |j: JsonSpec| CallInfoView::decode(j))
}

/// Reads the calls that a JSON array describes.
pub fn decode_list(json: &JsonValue) -> (r: Result<Vec<CallInfo>, DecoderError>)
    ensures
        result_view(r) == decode_all(json.deep_view()),
{
    match json {
        JsonValue::Array(items) => {
            let ghost all = json.model()->Array_0;
            let ghost read = |j: JsonSpec| CallInfoView::decode(j);
            let mut out: Vec<CallInfo> = Vec::new();
            let mut i: usize = 0;
            assert(all.take(0) =~= Seq::empty());
            assert(out.deep_view() =~= Seq::empty());
            while i < items.len()
                invariant
                    i <= items.len(),
                    all.len() == items.len(),
                    json.model() == JsonSpec::Array(all),
                    forall|k: int| 0 <= k < items.len() ==> #[trigger] all[k] == items[k].model(),
                    read == (|j: JsonSpec| CallInfoView::decode(j)),
                    read_items(all.take(i as int), read) == Ok::<Seq<CallInfoView>, DecoderErrorView>(
                        out.deep_view(),
                    ),
                decreases items.len() - i,
            {
                let ghost before = out.deep_view();
                assert(all.take(i + 1).drop_last() =~= all.take(i as int));
                assert(all.take(i + 1).last() == items[i as int].model());
                match CallInfo::decode(&items[i]) {
                    Ok(item) => {
                        let ghost v = item.deep_view();
                        out.push(item);
                        assert(out.deep_view() =~= before.push(v));
                    },
                    Err(e) => {
                        proof {
                            lemma_read_items_fails(all, read, i + 1);
                        }
                        return Err(e);
                    },
                }
                i += 1;
            }
            assert(all.take(i as int) =~= all);
            Ok(out)
        },
        _ => Err(expected_error("Array", json)),
    }
}

#[derive(Debug)]
struct Data {
    active_time: Lazy<Option<String>>,
    bridge_id: Lazy<Option<String>>,
    callback_url: Lazy<Option<String>>,
    direction: Lazy<String>,
    from: Lazy<String>,
    recording_file_format: Lazy<Option<String>>,
    recording_enabled: Lazy<bool>,
    start_time: Lazy<String>,
    state: Lazy<State>,
    to: Lazy<String>,
    transcription_enabled: Lazy<bool>,
    display_name: Lazy<Option<String>>,
    preferred_id: Lazy<Option<String>>,
    withhold_caller_name: Lazy<Option<bool>>,
    withhold_caller_number: Lazy<Option<bool>>,
    end_time: Lazy<Option<String>>,
}

impl Data {
    spec fn view_as(&self, id: Seq<char>) -> CallView {
        CallView {
            id,
            active_time: self.active_time.deep_view(),
            bridge_id: self.bridge_id.deep_view(),
            callback_url: self.callback_url.deep_view(),
            direction: self.direction.deep_view(),
            from: self.from.deep_view(),
            recording_file_format: self.recording_file_format.deep_view(),
            recording_enabled: self.recording_enabled.deep_view(),
            start_time: self.start_time.deep_view(),
            state: self.state.deep_view(),
            to: self.to.deep_view(),
            transcription_enabled: self.transcription_enabled.deep_view(),
            display_name: self.display_name.deep_view(),
            preferred_id: self.preferred_id.deep_view(),
            withhold_caller_name: self.withhold_caller_name.deep_view(),
            withhold_caller_number: self.withhold_caller_number.deep_view(),
            end_time: self.end_time.deep_view(),
        }
    }

    /// Fields of which nothing is known yet.
    fn unloaded() -> (r: Data)
        ensures
            r.active_time is NotLoaded,
            r.bridge_id is NotLoaded,
            r.callback_url is NotLoaded,
            r.direction is NotLoaded,
            r.from is NotLoaded,
            r.recording_file_format is NotLoaded,
            r.recording_enabled is NotLoaded,
            r.start_time is NotLoaded,
            r.state is NotLoaded,
            r.to is NotLoaded,
            r.transcription_enabled is NotLoaded,
            r.display_name is NotLoaded,
            r.preferred_id is NotLoaded,
            r.withhold_caller_name is NotLoaded,
            r.withhold_caller_number is NotLoaded,
            r.end_time is NotLoaded,
    {
        Data {
            active_time: Lazy::NotLoaded,
            bridge_id: Lazy::NotLoaded,
            callback_url: Lazy::NotLoaded,
            direction: Lazy::NotLoaded,
            from: Lazy::NotLoaded,
            recording_file_format: Lazy::NotLoaded,
            recording_enabled: Lazy::NotLoaded,
            start_time: Lazy::NotLoaded,
            state: Lazy::NotLoaded,
            to: Lazy::NotLoaded,
            transcription_enabled: Lazy::NotLoaded,
            display_name: Lazy::NotLoaded,
            preferred_id: Lazy::NotLoaded,
            withhold_caller_name: Lazy::NotLoaded,
            withhold_caller_number: Lazy::NotLoaded,
            end_time: Lazy::NotLoaded,
        }
    }
}

/// A call. Its fields are fetched when one is first read, and a command
/// that changes what the service knows of the call drops the fields that it
/// touches.
#[derive(Debug)]
pub struct Call {
    id: String,
    data: Data,
}

/// The mathematical value of a [`Call`].
pub struct CallView {
    pub id: Seq<char>,
    pub active_time: Lazy<Option<Seq<char>>>,
    pub bridge_id: Lazy<Option<Seq<char>>>,
    pub callback_url: Lazy<Option<Seq<char>>>,
    pub direction: Lazy<Seq<char>>,
    pub from: Lazy<Seq<char>>,
    pub recording_file_format: Lazy<Option<Seq<char>>>,
    pub recording_enabled: Lazy<bool>,
    pub start_time: Lazy<Seq<char>>,
    pub state: Lazy<State>,
    pub to: Lazy<Seq<char>>,
    pub transcription_enabled: Lazy<bool>,
    pub display_name: Lazy<Option<Seq<char>>>,
    pub preferred_id: Lazy<Option<Seq<char>>>,
    pub withhold_caller_name: Lazy<Option<bool>>,
    pub withhold_caller_number: Lazy<Option<bool>>,
    pub end_time: Lazy<Option<Seq<char>>>,
}

impl DeepView for Call {
    type V = CallView;

    closed spec fn deep_view(&self) -> CallView {
        self.data.view_as(self.id@)
    }
}

impl View for Call {
    type V = CallView;

    open spec fn view(&self) -> CallView {
        self.deep_view()
    }
}

impl CallView {
    /// A call of which only the identifier is known.
    pub open spec fn unloaded(id: Seq<char>) -> CallView {
        CallView {
            id,
            active_time: Lazy::NotLoaded,
            bridge_id: Lazy::NotLoaded,
            callback_url: Lazy::NotLoaded,
            direction: Lazy::NotLoaded,
            from: Lazy::NotLoaded,
            recording_file_format: Lazy::NotLoaded,
            recording_enabled: Lazy::NotLoaded,
            start_time: Lazy::NotLoaded,
            state: Lazy::NotLoaded,
            to: Lazy::NotLoaded,
            transcription_enabled: Lazy::NotLoaded,
            display_name: Lazy::NotLoaded,
            preferred_id: Lazy::NotLoaded,
            withhold_caller_name: Lazy::NotLoaded,
            withhold_caller_number: Lazy::NotLoaded,
            end_time: Lazy::NotLoaded,
        }
    }

    /// Whether every field holds a value.
    pub open spec fn complete(self) -> bool {
        &&& self.active_time is Available
        &&& self.bridge_id is Available
        &&& self.callback_url is Available
        &&& self.direction is Available
        &&& self.from is Available
        &&& self.recording_file_format is Available
        &&& self.recording_enabled is Available
        &&& self.start_time is Available
        &&& self.state is Available
        &&& self.to is Available
        &&& self.transcription_enabled is Available
        &&& self.display_name is Available
        &&& self.preferred_id is Available
        &&& self.withhold_caller_name is Available
        &&& self.withhold_caller_number is Available
        &&& self.end_time is Available
    }

    /// A call as a fetch or a listing describes it. The bridge is told by
    /// its URL, whose last segment is its identifier, and the state by its
    /// word.
    pub open spec fn from_info(info: CallInfoView) -> Result<CallView, CatapultErrorView> {
        match opt_id_of_url(info.bridge) {
            Err(e) => Err(e),
            Ok(bridge_id) => match State::of_text(info.state) {
                Err(e) => Err(e),
                Ok(state) => Ok(
                    CallView {
                        id: info.id,
                        active_time: Lazy::Available(info.active_time),
                        bridge_id: Lazy::Available(bridge_id),
                        callback_url: Lazy::Available(info.callback_url),
                        direction: Lazy::Available(info.direction),
                        from: Lazy::Available(info.from),
                        recording_file_format: Lazy::Available(info.recording_file_format),
                        recording_enabled: Lazy::Available(info.recording_enabled),
                        start_time: Lazy::Available(info.start_time),
                        state: Lazy::Available(state),
                        to: Lazy::Available(info.to),
                        transcription_enabled: Lazy::Available(info.transcription_enabled),
                        display_name: Lazy::Available(info.display_name),
                        preferred_id: Lazy::Available(info.preferred_id),
                        withhold_caller_name: Lazy::Available(info.withhold_caller_name),
                        withhold_caller_number: Lazy::Available(info.withhold_caller_number),
                        end_time: Lazy::Available(info.end_time),
                    },
                ),
            },
        }
    }

    /// A call as an event tells of it: its two ends where the kind of the
    /// event names them, and how the caller is shown.
    pub open spec fn from_call_event(event: CallEventView) -> CallView {
        CallView {
            from: match event.event_type.from() {
                Some(from) => Lazy::Available(from),
                None => Lazy::NotLoaded,
            },
            to: match event.event_type.to() {
                Some(to) => Lazy::Available(to),
                None => Lazy::NotLoaded,
            },
            display_name: Lazy::Available(event.display_name),
            preferred_id: Lazy::Available(event.preferred_id),
            withhold_caller_name: Lazy::Available(event.withhold_caller_name),
            withhold_caller_number: Lazy::Available(event.withhold_caller_number),
            ..CallView::unloaded(event.call_id)
        }
    }

    /// What a request that addresses the call by its identifier comes to: an
    /// empty identifier is refused before any request is made, since the
    /// path would be that of the list of all.
    pub open spec fn guarded(self, request: Result<RequestView, CatapultErrorView>) -> Result<
        RequestView,
        CatapultErrorView,
    > {
        if self.id.len() == 0 {
            Err(CatapultErrorView::BadInput("invalid call id"@))
        } else {
            request
        }
    }

    /// The path of the call.
    pub open spec fn path(self, client: ClientView) -> Seq<char> {
        client.user_path("/calls/"@ + self.id)
    }

    /// The request that fetches the call.
    pub open spec fn load_request(self, client: ClientView) -> Result<RequestView, CatapultErrorView> {
        self.guarded(client.get(self.path(client)))
    }

    /// The call after a fetch: every field as the response gives it,
    /// whatever it held before. A response that tells of a failure, or does
    /// not describe a call, gives the error instead.
    pub open spec fn loaded(self, res: ResponseView) -> Result<CallView, CatapultErrorView> {
        match res.json() {
            Err(e) => Err(e),
            Ok(json) => match CallInfoView::decode(json.body) {
                Err(e) => Err(CatapultErrorView::DecoderError(e)),
                Ok(info) => match CallView::from_info(info) {
                    Err(e) => Err(e),
                    Ok(fresh) => Ok(CallView { id: self.id, ..fresh }),
                },
            },
        }
    }

    /// The request that a command on the call posts.
    pub open spec fn command(self, client: ClientView, json: JsonSpec) -> Result<RequestView, CatapultErrorView> {
        self.guarded(client.post(self.path(client), json))
    }

    /// The request that plays, speaks or stops audio on the call.
    pub open spec fn audio(self, client: ClientView, json: JsonSpec) -> Result<RequestView, CatapultErrorView> {
        self.guarded(client.post(self.path(client) + "/audio"@, json))
    }

    /// The request that sends keypad tones into the call.
    pub open spec fn dtmf(self, client: ClientView, json: JsonSpec) -> Result<RequestView, CatapultErrorView> {
        self.guarded(client.post(self.path(client) + "/dtmf"@, json))
    }

    /// The request that starts the collecting of keypad tones.
    pub open spec fn gather(self, client: ClientView, json: JsonSpec) -> Result<RequestView, CatapultErrorView> {
        self.guarded(client.post(self.path(client) + "/gather"@, json))
    }

    /// The request that lists the events of the call.
    pub open spec fn events_request(self, client: ClientView) -> Result<RequestView, CatapultErrorView> {
        self.guarded(client.get(self.path(client) + "/events"@))
    }

    /// The request that fetches one event of the call.
    pub open spec fn event_request(self, client: ClientView, id: Seq<char>) -> Result<RequestView, CatapultErrorView> {
        if id.len() == 0 {
            Err(CatapultErrorView::BadInput("invalid event id"@))
        } else {
            self.guarded(client.get(self.path(client) + "/events/"@ + id))
        }
    }

    /// The calls that a response to a listing holds, each with every field
    /// filled.
    pub open spec fn list(res: ResponseView) -> Result<Seq<CallView>, CatapultErrorView> {
        match res.json() {
            Err(e) => Err(e),
            Ok(json) => match decode_all(json.body) {
                Err(e) => Err(CatapultErrorView::DecoderError(e)),
                Ok(infos) => calls_of(infos),
            },
        }
    }
}

impl Data {
    fn from_info(info: &CallInfo) -> (r: CatapultResult<Data>)
        ensures
            match CallView::from_info(info.deep_view()) {
                Ok(v) => r is Ok && r->Ok_0.view_as(info.id@) == v,
                Err(e) => r is Err && r->Err_0.deep_view() == e,
            },
    {
        let bridge_id = match opt_id_from_url(&info.bridge) {
            Ok(id) => id,
            Err(e) => {
                return Err(e);
            },
        };
        let state = match State::parse(info.state.as_str()) {
            Ok(state) => state,
            Err(e) => {
                return Err(e);
            },
        };
        Ok(
            Data {
                active_time: Lazy::Available(clone_opt(&info.active_time)),
                bridge_id: Lazy::Available(bridge_id),
                callback_url: Lazy::Available(clone_opt(&info.callback_url)),
                direction: Lazy::Available(info.direction.clone()),
                from: Lazy::Available(info.from.clone()),
                recording_file_format: Lazy::Available(clone_opt(&info.recording_file_format)),
                recording_enabled: Lazy::Available(info.recording_enabled),
                start_time: Lazy::Available(info.start_time.clone()),
                state: Lazy::Available(state),
                to: Lazy::Available(info.to.clone()),
                transcription_enabled: Lazy::Available(info.transcription_enabled),
                display_name: Lazy::Available(clone_opt(&info.display_name)),
                preferred_id: Lazy::Available(clone_opt(&info.preferred_id)),
                withhold_caller_name: Lazy::Available(info.withhold_caller_name),
                withhold_caller_number: Lazy::Available(info.withhold_caller_number),
                end_time: Lazy::Available(clone_opt(&info.end_time)),
            },
        )
    }
}

/// The calls that their descriptions stand for; the first description that
/// names a bridge or a state that cannot be read decides.
pub open spec fn calls_of(infos: Seq<CallInfoView>) -> Result<Seq<CallView>, CatapultErrorView>
    decreases infos.len(),
{
    if infos.len() == 0 {
        Ok(Seq::empty())
    } else {
        match calls_of(infos.drop_last()) {
            Err(e) => Err(e),
            Ok(head) => match CallView::from_info(infos.last()) {
                Err(e) => Err(e),
                Ok(item) => Ok(head.push(item)),
            },
        }
    }
}

/// Once a prefix of the descriptions fails, the whole fails in the same way.
proof fn lemma_calls_of_fails(infos: Seq<CallInfoView>, n: int)
    requires
        0 <= n <= infos.len(),
        calls_of(infos.take(n)) is Err,
    ensures
        calls_of(infos) == calls_of(infos.take(n)),
    decreases infos.len() - n,
{
    if n == infos.len() {
        assert(infos.take(n) =~= infos);
    } else {
        assert(infos.take(n + 1).drop_last() =~= infos.take(n));
        lemma_calls_of_fails(infos, n + 1);
    }
}

/// The calls that their descriptions stand for.
fn calls_from(infos: &Vec<CallInfo>) -> (r: CatapultResult<Vec<Call>>)
    ensures
        result_view(r) == calls_of(infos.deep_view()),
{
    let ghost all = infos.deep_view();
    let mut output: Vec<Call> = Vec::new();
    let mut i: usize = 0;
    assert(all.take(0) =~= Seq::empty());
    assert(output.deep_view() =~= Seq::empty());
    while i < infos.len()
        invariant
            i <= infos.len(),
            all == infos.deep_view(),
            calls_of(all.take(i as int)) == Ok::<Seq<CallView>, CatapultErrorView>(
                output.deep_view(),
            ),
        decreases infos.len() - i,
    {
        let ghost before = output.deep_view();
        assert(all.take(i + 1).drop_last() =~= all.take(i as int));
        assert(all.take(i + 1).last() == infos[i as int].deep_view());
        let data = match Data::from_info(&infos[i]) {
            Ok(data) => data,
            Err(e) => {
                proof {
                    lemma_calls_of_fails(all, i + 1);
                }
                return Err(e);
            },
        };
        let item = Call { id: infos[i].id.clone(), data };
        let ghost v = item.deep_view();
        output.push(item);
        assert(output.deep_view() =~= before.push(v));
        i += 1;
    }
    assert(all.take(i as int) =~= all);
    Ok(output)
}

/// Something that happened to a call, as the service recorded it.
#[derive(Debug)]
pub struct Event {
    id: String,
    time: String,
    name: String,
    data: Option<String>,
}

/// The mathematical value of an [`Event`].
pub struct EventView {
    pub id: Seq<char>,
    pub time: Seq<char>,
    pub name: Seq<char>,
    pub data: Option<Seq<char>>,
}

impl DeepView for Event {
    type V = EventView;

    closed spec fn deep_view(&self) -> EventView {
        EventView {
            id: self.id@,
            time: self.time@,
            name: self.name@,
            data: self.data.deep_view(),
        }
    }
}

impl View for Event {
    type V = EventView;

    open spec fn view(&self) -> EventView {
        self.deep_view()
    }
}

impl EventView {
    /// The event that a JSON document describes: its members are read in the
    /// order of the fields, and the first that fails decides.
    pub open spec fn decode(json: JsonSpec) -> Result<EventView, DecoderErrorView> {
        match string_field(json, "id"@) {
            Err(e) => Err(e),
            Ok(id) =>
            match string_field(json, "time"@) {
                Err(e) => Err(e),
                Ok(time) =>
                match string_field(json, "name"@) {
                    Err(e) => Err(e),
                    Ok(name) =>
                    match opt_string_field(json, "data"@) {
                        Err(e) => Err(e),
                        Ok(data) =>
                        Ok(EventView { id, time, name, data }),
                    },
                },
            },
        }
    }
}

impl Event {
    /// Reads the event that a JSON document describes.
    pub fn decode(json: &JsonValue) -> (r: Result<Event, DecoderError>)
        ensures
            result_view(r) == EventView::decode(json.deep_view()),
    {
        let id = match get_string(json, "id") {
            Ok(v) => v,
            Err(e) => {
                return Err(e);
            },
        };
        let time = match get_string(json, "time") {
            Ok(v) => v,
            Err(e) => {
                return Err(e);
            },
        };
        let name = match get_string(json, "name") {
            Ok(v) => v,
            Err(e) => {
                return Err(e);
            },
        };
        let data = match get_opt_string(json, "data") {
            Ok(v) => v,
            Err(e) => {
                return Err(e);
            },
        };
        Ok(Event { id, time, name, data })
    }
}

/// The events that a JSON array describes, in its order.
pub open spec fn decode_events(json: JsonSpec) -> Result<Seq<EventView>, DecoderErrorView> {
    read_list(json, |j: JsonSpec| EventView::decode(j))
}

/// Reads the events that a JSON array describes.
pub fn decode_event_list(json: &JsonValue) -> (r: Result<Vec<Event>, DecoderError>)
    ensures
        result_view(r) == decode_events(json.deep_view()),
{
    match json {
        JsonValue::Array(items) => {
            let ghost all = json.model()->Array_0;
            let ghost read = |j: JsonSpec| EventView::decode(j);
            let mut out: Vec<Event> = Vec::new();
            let mut i: usize = 0;
            assert(all.take(0) =~= Seq::empty());
            assert(out.deep_view() =~= Seq::empty());
            while i < items.len()
                invariant
                    i <= items.len(),
                    all.len() == items.len(),
                    json.model() == JsonSpec::Array(all),
                    forall|k: int| 0 <= k < items.len() ==> #[trigger] all[k] == items[k].model(),
                    read == (|j: JsonSpec| EventView::decode(j)),
                    read_items(all.take(i as int), read) == Ok::<Seq<EventView>, DecoderErrorView>(
                        out.deep_view(),
                    ),
                decreases items.len() - i,
            {
                let ghost before = out.deep_view();
                assert(all.take(i + 1).drop_last() =~= all.take(i as int));
                assert(all.take(i + 1).last() == items[i as int].model());
                match Event::decode(&items[i]) {
                    Ok(item) => {
                        let ghost v = item.deep_view();
                        out.push(item);
                        assert(out.deep_view() =~= before.push(v));
                    },
                    Err(e) => {
                        proof {
                            lemma_read_items_fails(all, read, i + 1);
                        }
                        return Err(e);
                    },
                }
                i += 1;
            }
            assert(all.take(i as int) =~= all);
            Ok(out)
        },
        _ => Err(expected_error("Array", json)),
    }
}

impl Event {
    pub fn get_id(&self) -> (r: String)
        ensures
            r@ == self@.id,
    {
        self.id.clone()
    }

    pub fn get_time(&self) -> (r: String)
        ensures
            r@ == self@.time,
    {
        self.time.clone()
    }

    pub fn get_name(&self) -> (r: String)
        ensures
            r@ == self@.name,
    {
        self.name.clone()
    }

    pub fn get_data(&self) -> (r: Option<String>)
        ensures
            r.deep_view() == self@.data,
    {
        clone_opt(&self.data)
    }
}

/// What a caller hears while keypad tones are collected.
#[derive(Debug)]
enum GatherPromptType {
    Sentence { text: String, voice: Voice },
    File { url: String },
}

#[derive(Debug)]
struct GatherPrompt {
    bargeable: bool,
    loop_audio: bool,
    prompt_type: GatherPromptType,
}

/// The mathematical value of what a caller hears while keypad tones are
/// collected: a sentence in a voice, or an audio file.
pub enum GatherPromptView {
    Sentence { text: Seq<char>, voice: Voice, bargeable: bool, loop_audio: bool },
    File { url: Seq<char>, bargeable: bool, loop_audio: bool },
}

impl GatherPrompt {
    spec fn model(&self) -> GatherPromptView {
        match self.prompt_type {
            GatherPromptType::Sentence { text, voice } => GatherPromptView::Sentence {
                text: text@,
                voice,
                bargeable: self.bargeable,
                loop_audio: self.loop_audio,
            },
            GatherPromptType::File { url } => GatherPromptView::File {
                url: url@,
                bargeable: self.bargeable,
                loop_audio: self.loop_audio,
            },
        }
    }

    /// The document that describes the prompt to the service.
    fn to_json(&self) -> (r: JsonValue)
        ensures
            r.deep_view() == self.model().body(),
    {
        let mut map: Vec<(String, JsonValue)> = Vec::new();
        match &self.prompt_type {
            GatherPromptType::Sentence { text, voice } => {
                JsonValue::put(&mut map, "sentence", JsonValue::string(text.as_str()));
                JsonValue::put(&mut map, "loopEnabled", JsonValue::Boolean(self.loop_audio));
                JsonValue::put(&mut map, "bargeable", JsonValue::Boolean(self.bargeable));
                JsonValue::put(&mut map, "voice", JsonValue::string(voice.get_name().as_str()));
            },
            GatherPromptType::File { url } => {
                JsonValue::put(&mut map, "fileUrl", JsonValue::string(url.as_str()));
                JsonValue::put(&mut map, "loopEnabled", JsonValue::Boolean(self.loop_audio));
                JsonValue::put(&mut map, "bargeable", JsonValue::Boolean(self.bargeable));
            },
        }
        assert(map.deep_view() =~= self.model().body()->Object_0);
        JsonValue::object(map)
    }
}

impl GatherPromptView {
    /// The document that describes the prompt to the service.
    pub open spec fn body(self) -> JsonSpec {
        match self {
            GatherPromptView::Sentence { text, voice, bargeable, loop_audio } => JsonSpec::Object(
                seq![
                    ("sentence"@, JsonSpec::String(text)),
                    ("loopEnabled"@, JsonSpec::Boolean(loop_audio)),
                    ("bargeable"@, JsonSpec::Boolean(bargeable)),
                    ("voice"@, JsonSpec::String(voice.name())),
                ],
            ),
            GatherPromptView::File { url, bargeable, loop_audio } => JsonSpec::Object(
                seq![
                    ("fileUrl"@, JsonSpec::String(url)),
                    ("loopEnabled"@, JsonSpec::Boolean(loop_audio)),
                    ("bargeable"@, JsonSpec::Boolean(bargeable)),
                ],
            ),
        }
    }
}

/// How keypad tones are collected from a caller.
#[derive(Debug)]
pub struct GatherConfig {
    max_digits: u32,
    inter_digit_timeout: u32,
    terminating_digits: String,
    tag: Option<String>,
    prompt: Option<GatherPrompt>,
}

/// The mathematical value of a [`GatherConfig`].
pub struct GatherConfigView {
    pub max_digits: u32,
    pub inter_digit_timeout: u32,
    pub terminating_digits: Seq<char>,
    pub tag: Option<Seq<char>>,
    pub prompt: Option<GatherPromptView>,
}

impl DeepView for GatherConfig {
    type V = GatherConfigView;

    closed spec fn deep_view(&self) -> GatherConfigView {
        GatherConfigView {
            max_digits: self.max_digits,
            inter_digit_timeout: self.inter_digit_timeout,
            terminating_digits: self.terminating_digits@,
            tag: self.tag.deep_view(),
            prompt: match self.prompt {
                Some(p) => Some(p.model()),
                None => None,
            },
        }
    }
}

impl View for GatherConfig {
    type V = GatherConfigView;

    open spec fn view(&self) -> GatherConfigView {
        self.deep_view()
    }
}

impl GatherConfigView {
    /// The document that describes the collecting to the service.
    pub open spec fn body(self) -> JsonSpec {
        JsonSpec::Object(
            seq![
                ("maxDigits"@, JsonSpec::U64(self.max_digits as u64)),
                ("interDigitTimeout"@, JsonSpec::U64(self.inter_digit_timeout as u64)),
                ("terminatingDigits"@, JsonSpec::String(self.terminating_digits)),
                ("tag"@, JsonSpec::opt_string(self.tag)),
                (
                    "prompt"@,
                    match self.prompt {
                        Some(p) => p.body(),
                        None => JsonSpec::Null,
                    },
                ),
            ],
        )
    }
}

impl GatherConfig {
    /// A collecting of at most `max_digits` tones that ends when a tone of
    /// `terminating_digits` comes or none comes for `inter_digit_timeout`
    /// seconds; without tag and without prompt.
    pub fn new(max_digits: u32, inter_digit_timeout: u32, terminating_digits: &str) -> (r: GatherConfig)
        ensures
            r@ == (GatherConfigView {
                max_digits,
                inter_digit_timeout,
                terminating_digits: terminating_digits@,
                tag: None,
                prompt: None,
            }),
    {
        GatherConfig {
            max_digits,
            inter_digit_timeout,
            terminating_digits: terminating_digits.to_owned(),
            tag: None,
            prompt: None,
        }
    }

    pub fn max_digits(&mut self, value: u32)
        ensures
            final(self)@ == (GatherConfigView { max_digits: value, ..old(self)@ }),
    {
        self.max_digits = value;
    }

    pub fn inter_digit_timeout(&mut self, value: u32)
        ensures
            final(self)@ == (GatherConfigView { inter_digit_timeout: value, ..old(self)@ }),
    {
        self.inter_digit_timeout = value;
    }

    pub fn terminating_digits(&mut self, digits: &str)
        ensures
            final(self)@ == (GatherConfigView { terminating_digits: digits@, ..old(self)@ }),
    {
        self.terminating_digits = digits.to_owned();
    }

    /// Has a sentence spoken to the caller while the tones are collected.
    pub fn prompt_sentence(&mut self, sentence: &str, loop_audio: bool, bargeable: bool, voice: Voice)
        ensures
            final(self)@ == (GatherConfigView {
                prompt: Some(
                    GatherPromptView::Sentence { text: sentence@, voice, bargeable, loop_audio },
                ),
                ..old(self)@
            }),
    {
        self.prompt = Some(
            GatherPrompt {
                prompt_type: GatherPromptType::Sentence { text: sentence.to_owned(), voice },
                bargeable,
                loop_audio,
            },
        );
    }

    /// Has an audio file played to the caller while the tones are collected.
    pub fn prompt_file(&mut self, url: &str, loop_audio: bool, bargeable: bool)
        ensures
            final(self)@ == (GatherConfigView {
                prompt: Some(GatherPromptView::File { url: url@, bargeable, loop_audio }),
                ..old(self)@
            }),
    {
        self.prompt = Some(
            GatherPrompt { prompt_type: GatherPromptType::File { url: url.to_owned() }, bargeable, loop_audio },
        );
    }

    /// The document that describes the collecting to the service.
    fn to_json(&self) -> (r: JsonValue)
        ensures
            r.deep_view() == self@.body(),
    {
        let prompt = match &self.prompt {
            Some(p) => p.to_json(),
            None => JsonValue::Null,
        };
        let mut map: Vec<(String, JsonValue)> = Vec::new();
        JsonValue::put(&mut map, "maxDigits", JsonValue::U64(self.max_digits as u64));
        JsonValue::put(&mut map, "interDigitTimeout", JsonValue::U64(self.inter_digit_timeout as u64));
        JsonValue::put(&mut map, "terminatingDigits", JsonValue::string(self.terminating_digits.as_str()));
        JsonValue::put(&mut map, "tag", JsonValue::opt_string(&self.tag));
        JsonValue::put(&mut map, "prompt", prompt);
        assert(map.deep_view() =~= self@.body()->Object_0);
        JsonValue::object(map)
    }
}

/// What can be asked for when a call is made, beyond its two ends.
#[derive(Debug)]
pub struct Config {
    call_timeout: Option<u64>,
    callback_url: Option<String>,
    callback_timeout: Option<u64>,
    callback_http_method: Option<String>,
    fallback_url: Option<String>,
    bridge_id: Option<String>,
    conference_id: Option<String>,
    recording_enabled: bool,
    recording_max_duration: Option<u64>,
    transcription_enabled: bool,
    tag: Option<String>,
}

/// The mathematical value of a [`Config`].
pub struct ConfigView {
    pub call_timeout: Option<u64>,
    pub callback_url: Option<Seq<char>>,
    pub callback_timeout: Option<u64>,
    pub callback_http_method: Option<Seq<char>>,
    pub fallback_url: Option<Seq<char>>,
    pub bridge_id: Option<Seq<char>>,
    pub conference_id: Option<Seq<char>>,
    pub recording_enabled: bool,
    pub recording_max_duration: Option<u64>,
    pub transcription_enabled: bool,
    pub tag: Option<Seq<char>>,
}

impl DeepView for Config {
    type V = ConfigView;

    closed spec fn deep_view(&self) -> ConfigView {
        ConfigView {
            call_timeout: self.call_timeout,
            callback_url: self.callback_url.deep_view(),
            callback_timeout: self.callback_timeout,
            callback_http_method: self.callback_http_method.deep_view(),
            fallback_url: self.fallback_url.deep_view(),
            bridge_id: self.bridge_id.deep_view(),
            conference_id: self.conference_id.deep_view(),
            recording_enabled: self.recording_enabled,
            recording_max_duration: self.recording_max_duration,
            transcription_enabled: self.transcription_enabled,
            tag: self.tag.deep_view(),
        }
    }
}

impl View for Config {
    type V = ConfigView;

    open spec fn view(&self) -> ConfigView {
        self.deep_view()
    }
}

impl ConfigView {
    /// Nothing asked for.
    pub open spec fn new() -> ConfigView {
        ConfigView {
            call_timeout: None,
            callback_url: None,
            callback_timeout: None,
            callback_http_method: None,
            fallback_url: None,
            bridge_id: None,
            conference_id: None,
            recording_enabled: false,
            recording_max_duration: None,
            transcription_enabled: false,
            tag: None,
        }
    }
}

impl Config {
    /// Nothing asked for.
    pub fn new() -> (r: Config)
        ensures
            r@ == ConfigView::new(),
    {
        Config {
            call_timeout: None,
            callback_url: None,
            callback_timeout: None,
            callback_http_method: None,
            fallback_url: None,
            bridge_id: None,
            conference_id: None,
            recording_enabled: false,
            recording_max_duration: None,
            transcription_enabled: false,
            tag: None,
        }
    }
}

/// A call that is yet to be made.
#[derive(Debug)]
pub struct CallBuilder {
    from: String,
    to: String,
    config: Config,
}

/// The mathematical value of a [`CallBuilder`].
pub struct CallBuilderView {
    pub from: Seq<char>,
    pub to: Seq<char>,
    pub config: ConfigView,
}

impl DeepView for CallBuilder {
    type V = CallBuilderView;

    closed spec fn deep_view(&self) -> CallBuilderView {
        CallBuilderView { from: self.from@, to: self.to@, config: self.config@ }
    }
}

impl View for CallBuilder {
    type V = CallBuilderView;

    open spec fn view(&self) -> CallBuilderView {
        self.deep_view()
    }
}

impl CallBuilderView {
    /// The document that describes the call to the service.
    pub open spec fn body(self) -> JsonSpec {
        JsonSpec::Object(
            seq![
                ("from"@, JsonSpec::String(self.from)),
                ("to"@, JsonSpec::String(self.to)),
                ("callTimeout"@, JsonSpec::opt_unsigned(self.config.call_timeout)),
                ("callbackUrl"@, JsonSpec::opt_string(self.config.callback_url)),
                ("callbackTimeout"@, JsonSpec::opt_unsigned(self.config.callback_timeout)),
                ("callbackHttpMethod"@, JsonSpec::opt_string(self.config.callback_http_method)),
                ("fallbackUrl"@, JsonSpec::opt_string(self.config.fallback_url)),
                ("bridgeId"@, JsonSpec::opt_string(self.config.bridge_id)),
                ("conferenceId"@, JsonSpec::opt_string(self.config.conference_id)),
                ("recordingEnabled"@, JsonSpec::Boolean(self.config.recording_enabled)),
                ("recordingMaxDuration"@, JsonSpec::opt_unsigned(self.config.recording_max_duration)),
                ("transcriptionEnabled"@, JsonSpec::Boolean(self.config.transcription_enabled)),
                ("tag"@, JsonSpec::opt_string(self.config.tag)),
            ],
        )
    }

    /// The request that makes the call.
    pub open spec fn create_request(self, client: ClientView) -> Result<RequestView, CatapultErrorView> {
        client.post(client.user_path("/calls"@), self.body())
    }

    /// The call that the response to the making stands for: its identifier
    /// is the one that the response names; it goes out, its ends and its
    /// callback URL are those asked for, and the rest is not loaded.
    pub open spec fn created(self, res: ResponseView) -> Result<CallView, CatapultErrorView> {
        match res.empty() {
            Err(e) => Err(e),
            Ok(headers) => match id_of_location(headers) {
                Err(e) => Err(e),
                Ok(id) => Ok(
                    CallView {
                        callback_url: Lazy::Available(self.config.callback_url),
                        direction: Lazy::Available("out"@),
                        from: Lazy::Available(self.from),
                        to: Lazy::Available(self.to),
                        ..CallView::unloaded(id)
                    },
                ),
            },
        }
    }
}

impl CallBuilder {
    pub fn call_timeout(self, secs: u64) -> (r: Self)
        ensures
            r@ == (CallBuilderView { config: ConfigView { call_timeout: Some(secs), ..self@.config }, ..self@ }),
    {
        let mut r = self;
        r.config.call_timeout = Some(secs);
        r
    }

    pub fn callback_url(self, url: &str) -> (r: Self)
        ensures
            r@ == (CallBuilderView { config: ConfigView { callback_url: Some(url@), ..self@.config }, ..self@ }),
    {
        let mut r = self;
        r.config.callback_url = Some(url.to_owned());
        r
    }

    pub fn callback_timeout(self, millis: u64) -> (r: Self)
        ensures
            r@ == (CallBuilderView { config: ConfigView { callback_timeout: Some(millis), ..self@.config }, ..self@ }),
    {
        let mut r = self;
        r.config.callback_timeout = Some(millis);
        r
    }

    pub fn callback_http_method(self, method: &str) -> (r: Self)
        ensures
            r@ == (CallBuilderView { config: ConfigView { callback_http_method: Some(method@), ..self@.config }, ..self@ }),
    {
        let mut r = self;
        r.config.callback_http_method = Some(method.to_owned());
        r
    }

    pub fn fallback_url(self, url: &str) -> (r: Self)
        ensures
            r@ == (CallBuilderView { config: ConfigView { fallback_url: Some(url@), ..self@.config }, ..self@ }),
    {
        let mut r = self;
        r.config.fallback_url = Some(url.to_owned());
        r
    }

    pub fn bridge_id(self, id: &str) -> (r: Self)
        ensures
            r@ == (CallBuilderView { config: ConfigView { bridge_id: Some(id@), ..self@.config }, ..self@ }),
    {
        let mut r = self;
        r.config.bridge_id = Some(id.to_owned());
        r
    }

    pub fn conference_id(self, id: &str) -> (r: Self)
        ensures
            r@ == (CallBuilderView { config: ConfigView { conference_id: Some(id@), ..self@.config }, ..self@ }),
    {
        let mut r = self;
        r.config.conference_id = Some(id.to_owned());
        r
    }

    pub fn enable_recording(self) -> (r: Self)
        ensures
            r@ == (CallBuilderView { config: ConfigView { recording_enabled: true, ..self@.config }, ..self@ }),
    {
        let mut r = self;
        r.config.recording_enabled = true;
        r
    }

    pub fn recording_max_duration(self, duration: u64) -> (r: Self)
        ensures
            r@ == (CallBuilderView { config: ConfigView { recording_max_duration: Some(duration), ..self@.config }, ..self@ }),
    {
        let mut r = self;
        r.config.recording_max_duration = Some(duration);
        r
    }

    pub fn enable_transcription(self) -> (r: Self)
        ensures
            r@ == (CallBuilderView { config: ConfigView { transcription_enabled: true, ..self@.config }, ..self@ }),
    {
        let mut r = self;
        r.config.transcription_enabled = true;
        r
    }

    pub fn tag(self, tag: &str) -> (r: Self)
        ensures
            r@ == (CallBuilderView { config: ConfigView { tag: Some(tag@), ..self@.config }, ..self@ }),
    {
        let mut r = self;
        r.config.tag = Some(tag.to_owned());
        r
    }

    /// The request that makes the call.
    pub fn create_request(&self, client: &Client) -> (r: CatapultResult<Request>)
        ensures
            result_view(r) == self@.create_request(client@),
    {
        let path = client.user_path("/calls");
        let mut map: Vec<(String, JsonValue)> = Vec::new();
        JsonValue::put(&mut map, "from", JsonValue::string(self.from.as_str()));
        JsonValue::put(&mut map, "to", JsonValue::string(self.to.as_str()));
        JsonValue::put(&mut map, "callTimeout", JsonValue::opt_unsigned(self.config.call_timeout));
        JsonValue::put(&mut map, "callbackUrl", JsonValue::opt_string(&self.config.callback_url));
        JsonValue::put(&mut map, "callbackTimeout", JsonValue::opt_unsigned(self.config.callback_timeout));
        JsonValue::put(&mut map, "callbackHttpMethod", JsonValue::opt_string(&self.config.callback_http_method));
        JsonValue::put(&mut map, "fallbackUrl", JsonValue::opt_string(&self.config.fallback_url));
        JsonValue::put(&mut map, "bridgeId", JsonValue::opt_string(&self.config.bridge_id));
        JsonValue::put(&mut map, "conferenceId", JsonValue::opt_string(&self.config.conference_id));
        JsonValue::put(&mut map, "recordingEnabled", JsonValue::Boolean(self.config.recording_enabled));
        JsonValue::put(&mut map, "recordingMaxDuration", JsonValue::opt_unsigned(self.config.recording_max_duration));
        JsonValue::put(&mut map, "transcriptionEnabled", JsonValue::Boolean(self.config.transcription_enabled));
        JsonValue::put(&mut map, "tag", JsonValue::opt_string(&self.config.tag));
        assert(map.deep_view() =~= self@.body()->Object_0);
        let json = JsonValue::object(map);
        client.post_request(path.as_str(), &json)
    }

    /// The call that was made, from the response to the request of
    /// `create_request`.
    pub fn create(self, res: Response) -> (r: CatapultResult<Call>)
        ensures
            result_view(r) == self@.created(res.deep_view()),
    {
        let res = match EmptyResponse::new(res) {
            Ok(res) => res,
            Err(e) => {
                return Err(e);
            },
        };
        let id = match get_id_from_location_header(&res.headers) {
            Ok(id) => id,
            Err(e) => {
                return Err(e);
            },
        };
        let mut data = Data::unloaded();
        data.callback_url.set(self.config.callback_url);
        data.direction.set("out".to_owned());
        data.from.set(self.from);
        data.to.set(self.to);
        Ok(Call { id, data })
    }
}

impl QueryResultView {
    /// The page that a response to a listing holds: the calls of its body,
    /// each with every field filled, and the address of the next page from
    /// its headers.
    pub open spec fn of(res: ResponseView) -> Result<QueryResultView, CatapultErrorView> {
        match CallView::list(res) {
            Err(e) => Err(e),
            Ok(data) => match next_link_of(res.headers) {
                Err(e) => Err(e),
                Ok(next_url) => Ok(QueryResultView { data, next_url }),
            },
        }
    }
}

/// The page of calls that a response to a listing holds.
pub fn get_call_list(res: Response) -> (r: CatapultResult<QueryResult>)
    ensures
        result_view(r) == QueryResultView::of(res.deep_view()),
{
    let json = match JsonResponse::new(res) {
        Ok(json) => json,
        Err(e) => {
            return Err(e);
        },
    };
    let infos = match decode_list(&json.body) {
        Ok(infos) => infos,
        Err(e) => {
            return Err(CatapultError::DecoderError(e));
        },
    };
    let data = match calls_from(&infos) {
        Ok(data) => data,
        Err(e) => {
            return Err(e);
        },
    };
    let next_url = match get_next_link_from_headers(&json.headers) {
        Ok(next_url) => next_url,
        Err(e) => {
            return Err(e);
        },
    };
    Ok(QueryResult { data, next_url })
}

/// One page of a listing of calls, and where the next page is.
#[derive(Debug)]
pub struct QueryResult {
    data: Vec<Call>,
    next_url: Option<String>,
}

/// The mathematical value of a [`QueryResult`].
pub struct QueryResultView {
    pub data: Seq<CallView>,
    pub next_url: Option<Seq<char>>,
}

impl DeepView for QueryResult {
    type V = QueryResultView;

    closed spec fn deep_view(&self) -> QueryResultView {
        QueryResultView { data: self.data.deep_view(), next_url: self.next_url.deep_view() }
    }
}

impl View for QueryResult {
    type V = QueryResultView;

    open spec fn view(&self) -> QueryResultView {
        self.deep_view()
    }
}

impl QueryResult {
    pub fn get_calls(&self) -> (r: &Vec<Call>)
        ensures
            r.deep_view() == self@.data,
    {
        &self.data
    }

    /// Hands out the calls of the page, which is left without them. The
    /// page keeps the address of the page after it.
    pub fn take_calls(&mut self) -> (r: Vec<Call>)
        ensures
            r.deep_view() == old(self)@.data,
            final(self)@ == (QueryResultView { data: Seq::empty(), next_url: old(self)@.next_url }),
    {
        let mut taken: Vec<Call> = Vec::new();
        assert(taken.deep_view() =~= Seq::<CallView>::empty());
        core::mem::swap(&mut self.data, &mut taken);
        taken
    }

    /// Whether there is a page after this one.
    pub fn has_next(&self) -> (r: bool)
        ensures
            r == (self@.next_url is Some),
    {
        self.next_url.is_some()
    }

    /// The request for the next page, or nothing after the last page: the
    /// address is the one that came with this page, as it stands.
    pub fn next_request(&self, client: &Client) -> (r: Option<Request>)
        ensures
            r.deep_view() == match self@.next_url {
                Some(url) => Some(client@.page(url)),
                None => None,
            },
    {
        match &self.next_url {
            Some(url) => Some(client.page_request(url.as_str())),
            None => None,
        }
    }

    /// The next page, from the response to the request of `next_request`;
    /// nothing after the last page.
    pub fn next(&self, res: Response) -> (r: Option<CatapultResult<QueryResult>>)
        ensures
            match self@.next_url {
                Some(_) => r is Some && result_view(r->0) == QueryResultView::of(res.deep_view()),
                None => r is None,
            },
    {
        match &self.next_url {
            Some(_) => Some(get_call_list(res)),
            None => None,
        }
    }
}

/// A listing of the calls of the user that is yet to be asked for.
#[derive(Debug)]
pub struct Query {
    from: Option<String>,
    to: Option<String>,
    size: Option<u32>,
    state: Option<State>,
    sort_order: Option<String>,
}

/// The mathematical value of a [`Query`].
pub struct QueryView {
    pub from: Option<Seq<char>>,
    pub to: Option<Seq<char>>,
    pub size: Option<u32>,
    pub state: Option<State>,
    pub sort_order: Option<Seq<char>>,
}

impl DeepView for Query {
    type V = QueryView;

    closed spec fn deep_view(&self) -> QueryView {
        QueryView {
            from: self.from.deep_view(),
            to: self.to.deep_view(),
            size: self.size,
            state: self.state,
            sort_order: self.sort_order.deep_view(),
        }
    }
}

impl View for Query {
    type V = QueryView;

    open spec fn view(&self) -> QueryView {
        self.deep_view()
    }
}

impl QueryView {
    /// A listing of all calls.
    pub open spec fn new() -> QueryView {
        QueryView { from: None, to: None, size: None, state: None, sort_order: None }
    }

    /// The parameters of the listing: those that were set, by ascending
    /// name.
    pub open spec fn params(self) -> JsonSpec {
        JsonSpec::Object(
            member("from"@, JsonSpec::some_string(self.from)) + member(
                "size"@,
                match self.size {
                    Some(n) => Some(JsonSpec::U64(n as u64)),
                    None => None,
                },
            ) + member("sortOrder"@, JsonSpec::some_string(self.sort_order)) + member(
                "state"@,
                match self.state {
                    Some(s) => Some(JsonSpec::String(s.text())),
                    None => None,
                },
            ) + member("to"@, JsonSpec::some_string(self.to)),
        )
    }

    /// The request for the first page.
    pub open spec fn submit_request(self, client: ClientView) -> Result<RequestView, CatapultErrorView> {
        client.request(Method::Get, client.user_path("/calls"@), self.params(), Seq::empty())
    }
}

impl Query {
    pub fn from(self, from: &str) -> (r: Self)
        ensures
            r@ == (QueryView { from: Some(from@), ..self@ }),
    {
        let mut r = self;
        r.from = Some(from.to_owned());
        r
    }

    pub fn to(self, to: &str) -> (r: Self)
        ensures
            r@ == (QueryView { to: Some(to@), ..self@ }),
    {
        let mut r = self;
        r.to = Some(to.to_owned());
        r
    }

    pub fn state(self, state: State) -> (r: Self)
        ensures
            r@ == (QueryView { state: Some(state), ..self@ }),
    {
        let mut r = self;
        r.state = Some(state);
        r
    }

    pub fn size(self, size: u32) -> (r: Self)
        ensures
            r@ == (QueryView { size: Some(size), ..self@ }),
    {
        let mut r = self;
        r.size = Some(size);
        r
    }

    pub fn sort_desc(self) -> (r: Self)
        ensures
            r@ == (QueryView { sort_order: Some("desc"@), ..self@ }),
    {
        let mut r = self;
        r.sort_order = Some("desc".to_owned());
        r
    }

    /// The request for the first page.
    pub fn submit_request(&self, client: &Client) -> (r: CatapultResult<Request>)
        ensures
            result_view(r) == self@.submit_request(client@),
    {
        let path = client.user_path("/calls");
        let mut map: Vec<(String, JsonValue)> = Vec::new();
        JsonValue::put_opt(&mut map, "from", JsonValue::some_string(&self.from));
        assert(map.deep_view() =~= member("from"@, JsonSpec::some_string(self@.from)));
        let size = match self.size {
            Some(n) => Some(JsonValue::U64(n as u64)),
            None => None,
        };
        JsonValue::put_opt(&mut map, "size", size);
        JsonValue::put_opt(&mut map, "sortOrder", JsonValue::some_string(&self.sort_order));
        let state = match self.state {
            Some(s) => Some(JsonValue::string(s.to_string())),
            None => None,
        };
        JsonValue::put_opt(&mut map, "state", state);
        JsonValue::put_opt(&mut map, "to", JsonValue::some_string(&self.to));
        let json = JsonValue::object(map);
        client.raw_get_request(path.as_str(), &json, ())
    }

    /// The first page, from the response to the request of
    /// `submit_request`.
    pub fn submit(&self, res: Response) -> (r: CatapultResult<QueryResult>)
        ensures
            result_view(r) == QueryResultView::of(res.deep_view()),
    {
        get_call_list(res)
    }
}

impl Call {
    /// Refuses a request where an identifier that its path needs is empty.
    pub(crate) fn guarded(&self, request: CatapultResult<Request>) -> (r: CatapultResult<Request>)
        ensures
            result_view(r) == self@.guarded(result_view(request)),
    {
        if self.id.as_str().unicode_len() == 0 {
            Err(CatapultError::bad_input("invalid call id"))
        } else {
            request
        }
    }

    /// The path of the call.
    fn path(&self, client: &Client) -> (r: String)
        ensures
            r@ == self@.path(client@),
    {
        let rest = concat("/calls/", self.id.as_str());
        client.user_path(rest.as_str())
    }

    /// The request that fetches the fields.
    pub fn load_request(&self, client: &Client) -> (r: CatapultResult<Request>)
        ensures
            result_view(r) == self@.load_request(client@),
    {
        let path = self.path(client);
        self.guarded(
            client.get_request(path.as_str()),
        )
    }

    /// Takes the response to the request of `load_request` and, where it
    /// describes the call, replaces every field by what it says. On an
    /// error nothing changes.
    pub fn load(&mut self, res: Response) -> (r: CatapultResult<()>)
        ensures
            match old(self)@.loaded(res.deep_view()) {
                Ok(after) => r is Ok && final(self)@ == after,
                Err(e) => result_view(r) == Err::<(), CatapultErrorView>(e) && final(self)@ == old(
                    self,
                )@,
            },
    {
        let json = match JsonResponse::new(res) {
            Ok(json) => json,
            Err(e) => {
                return Err(e);
            },
        };
        let info = match CallInfo::decode(&json.body) {
            Ok(info) => info,
            Err(e) => {
                return Err(CatapultError::DecoderError(e));
            },
        };
        self.data = match Data::from_info(&info) {
            Ok(data) => data,
            Err(e) => {
                return Err(e);
            },
        };
        Ok(())
    }

    /// A listing of the calls of the user.
    pub fn query() -> (r: Query)
        ensures
            r@ == QueryView::new(),
    {
        Query { from: None, to: None, size: None, state: None, sort_order: None }
    }

    /// A call from one number to another that is yet to be made.
    pub fn build(from: &str, to: &str) -> (r: CallBuilder)
        ensures
            r@ == (CallBuilderView { from: from@, to: to@, config: ConfigView::new() }),
    {
        CallBuilder { from: from.to_owned(), to: to.to_owned(), config: Config::new() }
    }

    /// The call with the given identifier, with nothing fetched yet.
    pub fn get(id: &str) -> (r: Call)
        ensures
            r@ == CallView::unloaded(id@),
    {
        Call { id: id.to_owned(), data: Data::unloaded() }
    }

    /// The request that lists the calls of a bridge.
    pub fn get_calls_from_bridge_request(bridge: &Bridge, client: &Client) -> (r: CatapultResult<Request>)
        ensures
            result_view(r) == bridge@.calls_request(client@),
    {
        bridge.get_calls_request(client)
    }

    /// The calls of a bridge, from the response to the request of
    /// `get_calls_from_bridge_request`.
    pub fn get_calls_from_bridge(res: Response) -> (r: CatapultResult<Vec<Call>>)
        ensures
            result_view(r) == CallView::list(res.deep_view()),
    {
        let json = match JsonResponse::new(res) {
            Ok(json) => json,
            Err(e) => {
                return Err(e);
            },
        };
        let infos = match decode_list(&json.body) {
            Ok(infos) => infos,
            Err(e) => {
                return Err(CatapultError::DecoderError(e));
            },
        };
        calls_from(&infos)
    }

    /// The call that an event tells of, with what the event tells filled
    /// in.
    pub fn from_call_event(event: &CallEvent) -> (r: Call)
        ensures
            r@ == CallView::from_call_event(event@),
    {
        let mut data = Data::unloaded();
        data.from = Lazy::load_if_available(event.get_from());
        data.to = Lazy::load_if_available(event.get_to());
        data.display_name.set(event.get_display_name());
        data.preferred_id.set(event.get_preferred_id());
        data.withhold_caller_name.set(event.get_withhold_caller_name());
        data.withhold_caller_number.set(event.get_withhold_caller_number());
        Call { id: event.get_call_id(), data }
    }

    /// The request that creates a bridge of this call and the given others.
    pub fn add_to_new_bridge_request(&self, client: &Client, bridge_audio: bool, additional_phone_ids: &Vec<String>) -> (r:
        CatapultResult<Request>)
        ensures
            result_view(r) == self@.guarded(
                BridgeView::create_request(
                    client@,
                    bridge_audio,
                    additional_phone_ids.deep_view().push(self@.id),
                ),
            ),
    {
        let mut calls = clone_list(additional_phone_ids);
        let ghost before = calls.deep_view();
        calls.push(self.get_id());
        assert(calls.deep_view() =~= before.push(self@.id));
        self.guarded(Bridge::create_request(client, bridge_audio, &calls))
    }

    /// The bridge that was created, from the response to the request of
    /// `add_to_new_bridge_request`.
    pub fn add_to_new_bridge(bridge_audio: bool, res: Response) -> (r: CatapultResult<Bridge>)
        ensures
            result_view(r) == BridgeView::created(bridge_audio, res.deep_view()),
    {
        Bridge::create(bridge_audio, res)
    }

    /// The request that ends the call. What the service will change, the state
    /// and the time of the end, is dropped at once.
    pub fn hang_up(&mut self, client: &Client) -> (r: CatapultResult<Request>)
        ensures
            final(self)@ == (CallView { state: Lazy::NotLoaded, end_time: Lazy::NotLoaded, ..old(self)@ }),
            result_view(r) == old(self)@.command(
                client@,
                JsonSpec::Object(
                    seq![
                        ("state"@, JsonSpec::String("completed"@)),
                    ],
                ),
            ),
    {
        self.data.state.invalidate();
        self.data.end_time.invalidate();
        let path = self.path(client);
        let mut map: Vec<(String, JsonValue)> = Vec::new();
        JsonValue::put(&mut map, "state", JsonValue::string("completed"));
        assert(map.deep_view() =~= seq![
            ("state"@, JsonSpec::String("completed"@)),
        ]);
        let json = JsonValue::object(map);
        self.guarded(
            client.post_request(path.as_str(), &json),
        )
    }

    /// The request that answers the call. What the service will change, the
    /// state and the time of the answer, is dropped at once.
    pub fn answer_incoming(&mut self, client: &Client) -> (r: CatapultResult<Request>)
        ensures
            final(self)@ == (CallView { active_time: Lazy::NotLoaded, state: Lazy::NotLoaded, ..old(self)@ }),
            result_view(r) == old(self)@.command(
                client@,
                JsonSpec::Object(
                    seq![
                        ("state"@, JsonSpec::String("active"@)),
                    ],
                ),
            ),
    {
        self.data.active_time.invalidate();
        self.data.state.invalidate();
        let path = self.path(client);
        let mut map: Vec<(String, JsonValue)> = Vec::new();
        JsonValue::put(&mut map, "state", JsonValue::string("active"));
        assert(map.deep_view() =~= seq![
            ("state"@, JsonSpec::String("active"@)),
        ]);
        let json = JsonValue::object(map);
        self.guarded(
            client.post_request(path.as_str(), &json),
        )
    }

    /// The request that rejects the call. What the service will change, the
    /// state and the time of the answer, is dropped at once.
    pub fn reject_incoming(&mut self, client: &Client) -> (r: CatapultResult<Request>)
        ensures
            final(self)@ == (CallView { active_time: Lazy::NotLoaded, state: Lazy::NotLoaded, ..old(self)@ }),
            result_view(r) == old(self)@.command(
                client@,
                JsonSpec::Object(
                    seq![
                        ("state"@, JsonSpec::String("rejected"@)),
                    ],
                ),
            ),
    {
        self.data.active_time.invalidate();
        self.data.state.invalidate();
        let path = self.path(client);
        let mut map: Vec<(String, JsonValue)> = Vec::new();
        JsonValue::put(&mut map, "state", JsonValue::string("rejected"));
        assert(map.deep_view() =~= seq![
            ("state"@, JsonSpec::String("rejected"@)),
        ]);
        let json = JsonValue::object(map);
        self.guarded(
            client.post_request(path.as_str(), &json),
        )
    }

    /// The request that starts or stops the recording of the call. The field
    /// is set to what is asked for; what the service derives from it is
    /// dropped.
    pub fn enable_recording(&mut self, client: &Client, enable: bool) -> (r: CatapultResult<Request>)
        ensures
            final(self)@ == (CallView { recording_file_format: Lazy::NotLoaded, recording_enabled: Lazy::Available(enable), transcription_enabled: Lazy::NotLoaded, ..old(self)@ }),
            result_view(r) == old(self)@.command(
                client@,
                JsonSpec::Object(
                    seq![
                        ("recordingEnabled"@, JsonSpec::Boolean(enable)),
                    ],
                ),
            ),
    {
        self.data.recording_file_format.invalidate();
        self.data.recording_enabled.set(enable);
        self.data.transcription_enabled.invalidate();
        let path = self.path(client);
        let mut map: Vec<(String, JsonValue)> = Vec::new();
        JsonValue::put(&mut map, "recordingEnabled", JsonValue::Boolean(enable));
        assert(map.deep_view() =~= seq![
            ("recordingEnabled"@, JsonSpec::Boolean(enable)),
        ]);
        let json = JsonValue::object(map);
        self.guarded(
            client.post_request(path.as_str(), &json),
        )
    }

    /// The request that plays an audio file into the call.
    pub fn play_audio_file(&self, client: &Client, url: &str, loop_audio: bool, tag: Option<&str>) -> (r: CatapultResult<Request>)
        ensures
            result_view(r) == self@.audio(
                client@,
                JsonSpec::Object(
                    seq![
                        ("fileUrl"@, JsonSpec::String(url@)),
                        ("loopEnabled"@, JsonSpec::Boolean(loop_audio)),
                        ("tag"@, JsonSpec::opt_string(tag.deep_view())),
                    ],
                ),
            ),
    {
        let path = concat(self.path(client).as_str(), "/audio");
        let mut map: Vec<(String, JsonValue)> = Vec::new();
        JsonValue::put(&mut map, "fileUrl", JsonValue::string(url));
        JsonValue::put(&mut map, "loopEnabled", JsonValue::Boolean(loop_audio));
        JsonValue::put(&mut map, "tag", JsonValue::opt_str(tag));
        assert(map.deep_view() =~= seq![
            ("fileUrl"@, JsonSpec::String(url@)),
            ("loopEnabled"@, JsonSpec::Boolean(loop_audio)),
            ("tag"@, JsonSpec::opt_string(tag.deep_view())),
        ]);
        let json = JsonValue::object(map);
        self.guarded(
            client.post_request(path.as_str(), &json),
        )
    }

    /// The request that stops the file that plays or the sentence that is
    /// spoken. Nothing else stops audio that repeats.
    pub fn stop_audio(&self, client: &Client) -> (r: CatapultResult<Request>)
        ensures
            result_view(r) == self@.audio(
                client@,
                JsonSpec::Object(
                    seq![
                        ("fileUrl"@, JsonSpec::String(""@)),
                    ],
                ),
            ),
    {
        let path = concat(self.path(client).as_str(), "/audio");
        let mut map: Vec<(String, JsonValue)> = Vec::new();
        JsonValue::put(&mut map, "fileUrl", JsonValue::string(""));
        assert(map.deep_view() =~= seq![
            ("fileUrl"@, JsonSpec::String(""@)),
        ]);
        let json = JsonValue::object(map);
        self.guarded(
            client.post_request(path.as_str(), &json),
        )
    }

    /// The request that speaks a sentence into the call.
    pub fn speak_sentence(&self, client: &Client, sentence: &str, loop_audio: bool, voice: Voice, tag: Option<&str>) -> (r: CatapultResult<Request>)
        ensures
            result_view(r) == self@.audio(
                client@,
                JsonSpec::Object(
                    seq![
                        ("sentence"@, JsonSpec::String(sentence@)),
                        ("loopEnabled"@, JsonSpec::Boolean(loop_audio)),
                        ("voice"@, JsonSpec::String(voice.name())),
                        ("tag"@, JsonSpec::opt_string(tag.deep_view())),
                    ],
                ),
            ),
    {
        let path = concat(self.path(client).as_str(), "/audio");
        let mut map: Vec<(String, JsonValue)> = Vec::new();
        JsonValue::put(&mut map, "sentence", JsonValue::string(sentence));
        JsonValue::put(&mut map, "loopEnabled", JsonValue::Boolean(loop_audio));
        JsonValue::put(&mut map, "voice", JsonValue::string(voice.get_name().as_str()));
        JsonValue::put(&mut map, "tag", JsonValue::opt_str(tag));
        assert(map.deep_view() =~= seq![
            ("sentence"@, JsonSpec::String(sentence@)),
            ("loopEnabled"@, JsonSpec::Boolean(loop_audio)),
            ("voice"@, JsonSpec::String(voice.name())),
            ("tag"@, JsonSpec::opt_string(tag.deep_view())),
        ]);
        let json = JsonValue::object(map);
        self.guarded(
            client.post_request(path.as_str(), &json),
        )
    }

    /// The request that sends keypad tones into the call.
    pub fn send_dtmf(&self, client: &Client, digits: &str) -> (r: CatapultResult<Request>)
        ensures
            result_view(r) == self@.dtmf(
                client@,
                JsonSpec::Object(
                    seq![
                        ("dtmfOut"@, JsonSpec::String(digits@)),
                    ],
                ),
            ),
    {
        let path = concat(self.path(client).as_str(), "/dtmf");
        let mut map: Vec<(String, JsonValue)> = Vec::new();
        JsonValue::put(&mut map, "dtmfOut", JsonValue::string(digits));
        assert(map.deep_view() =~= seq![
            ("dtmfOut"@, JsonSpec::String(digits@)),
        ]);
        let json = JsonValue::object(map);
        self.guarded(
            client.post_request(path.as_str(), &json),
        )
    }

    /// The request that starts the collecting of keypad tones.
    pub fn gather_dtmf(&self, client: &Client, config: &GatherConfig) -> (r: CatapultResult<Request>)
        ensures
            result_view(r) == self@.gather(client@, config@.body()),
    {
        let path = concat(self.path(client).as_str(), "/gather");
        let json = config.to_json();
        self.guarded(
            client.post_request(path.as_str(), &json),
        )
    }

    pub fn get_id(&self) -> (r: String)
        ensures
            r@ == self@.id,
    {
        self.id.clone()
    }

    pub fn get_active_time(&self, client: &Client) -> (r: CatapultResult<Read<Option<String>>>)
        ensures
            result_view(r) == read_field(self@.active_time, self@.load_request(client@)),
    {
        match &self.data.active_time {
            Lazy::Available(v) => Ok(Read::Value(clone_opt(v))),
            Lazy::NotLoaded => Read::load(self.load_request(client)),
        }
    }

    pub fn get_bridge_id(&self, client: &Client) -> (r: CatapultResult<Read<Option<String>>>)
        ensures
            result_view(r) == read_field(self@.bridge_id, self@.load_request(client@)),
    {
        match &self.data.bridge_id {
            Lazy::Available(v) => Ok(Read::Value(clone_opt(v))),
            Lazy::NotLoaded => Read::load(self.load_request(client)),
        }
    }

    pub fn get_callback_url(&self, client: &Client) -> (r: CatapultResult<Read<Option<String>>>)
        ensures
            result_view(r) == read_field(self@.callback_url, self@.load_request(client@)),
    {
        match &self.data.callback_url {
            Lazy::Available(v) => Ok(Read::Value(clone_opt(v))),
            Lazy::NotLoaded => Read::load(self.load_request(client)),
        }
    }

    pub fn get_direction(&self, client: &Client) -> (r: CatapultResult<Read<String>>)
        ensures
            result_view(r) == read_field(self@.direction, self@.load_request(client@)),
    {
        match &self.data.direction {
            Lazy::Available(v) => Ok(Read::Value(v.clone())),
            Lazy::NotLoaded => Read::load(self.load_request(client)),
        }
    }

    pub fn get_from(&self, client: &Client) -> (r: CatapultResult<Read<String>>)
        ensures
            result_view(r) == read_field(self@.from, self@.load_request(client@)),
    {
        match &self.data.from {
            Lazy::Available(v) => Ok(Read::Value(v.clone())),
            Lazy::NotLoaded => Read::load(self.load_request(client)),
        }
    }

    pub fn get_recording_file_format(&self, client: &Client) -> (r: CatapultResult<Read<Option<String>>>)
        ensures
            result_view(r) == read_field(self@.recording_file_format, self@.load_request(client@)),
    {
        match &self.data.recording_file_format {
            Lazy::Available(v) => Ok(Read::Value(clone_opt(v))),
            Lazy::NotLoaded => Read::load(self.load_request(client)),
        }
    }

    pub fn get_recording_enabled(&self, client: &Client) -> (r: CatapultResult<Read<bool>>)
        ensures
            result_view(r) == read_field(self@.recording_enabled, self@.load_request(client@)),
    {
        match &self.data.recording_enabled {
            Lazy::Available(v) => Ok(Read::Value(*v)),
            Lazy::NotLoaded => Read::load(self.load_request(client)),
        }
    }

    pub fn get_start_time(&self, client: &Client) -> (r: CatapultResult<Read<String>>)
        ensures
            result_view(r) == read_field(self@.start_time, self@.load_request(client@)),
    {
        match &self.data.start_time {
            Lazy::Available(v) => Ok(Read::Value(v.clone())),
            Lazy::NotLoaded => Read::load(self.load_request(client)),
        }
    }

    pub fn get_state(&self, client: &Client) -> (r: CatapultResult<Read<State>>)
        ensures
            result_view(r) == read_field(self@.state, self@.load_request(client@)),
    {
        match &self.data.state {
            Lazy::Available(v) => Ok(Read::Value(*v)),
            Lazy::NotLoaded => Read::load(self.load_request(client)),
        }
    }

    pub fn get_to(&self, client: &Client) -> (r: CatapultResult<Read<String>>)
        ensures
            result_view(r) == read_field(self@.to, self@.load_request(client@)),
    {
        match &self.data.to {
            Lazy::Available(v) => Ok(Read::Value(v.clone())),
            Lazy::NotLoaded => Read::load(self.load_request(client)),
        }
    }

    pub fn get_transcription_enabled(&self, client: &Client) -> (r: CatapultResult<Read<bool>>)
        ensures
            result_view(r) == read_field(self@.transcription_enabled, self@.load_request(client@)),
    {
        match &self.data.transcription_enabled {
            Lazy::Available(v) => Ok(Read::Value(*v)),
            Lazy::NotLoaded => Read::load(self.load_request(client)),
        }
    }

    pub fn get_display_name(&self, client: &Client) -> (r: CatapultResult<Read<Option<String>>>)
        ensures
            result_view(r) == read_field(self@.display_name, self@.load_request(client@)),
    {
        match &self.data.display_name {
            Lazy::Available(v) => Ok(Read::Value(clone_opt(v))),
            Lazy::NotLoaded => Read::load(self.load_request(client)),
        }
    }

    pub fn get_preferred_id(&self, client: &Client) -> (r: CatapultResult<Read<Option<String>>>)
        ensures
            result_view(r) == read_field(self@.preferred_id, self@.load_request(client@)),
    {
        match &self.data.preferred_id {
            Lazy::Available(v) => Ok(Read::Value(clone_opt(v))),
            Lazy::NotLoaded => Read::load(self.load_request(client)),
        }
    }

    pub fn get_withhold_caller_name(&self, client: &Client) -> (r: CatapultResult<Read<Option<bool>>>)
        ensures
            result_view(r) == read_field(self@.withhold_caller_name, self@.load_request(client@)),
    {
        match &self.data.withhold_caller_name {
            Lazy::Available(v) => Ok(Read::Value(*v)),
            Lazy::NotLoaded => Read::load(self.load_request(client)),
        }
    }

    pub fn get_withhold_caller_number(&self, client: &Client) -> (r: CatapultResult<Read<Option<bool>>>)
        ensures
            result_view(r) == read_field(self@.withhold_caller_number, self@.load_request(client@)),
    {
        match &self.data.withhold_caller_number {
            Lazy::Available(v) => Ok(Read::Value(*v)),
            Lazy::NotLoaded => Read::load(self.load_request(client)),
        }
    }

    pub fn get_end_time(&self, client: &Client) -> (r: CatapultResult<Read<Option<String>>>)
        ensures
            result_view(r) == read_field(self@.end_time, self@.load_request(client@)),
    {
        match &self.data.end_time {
            Lazy::Available(v) => Ok(Read::Value(clone_opt(v))),
            Lazy::NotLoaded => Read::load(self.load_request(client)),
        }
    }

    /// The bridge of the call, with nothing fetched yet, once it is known
    /// whether the call is in one.
    pub fn get_bridge(&self, client: &Client) -> (r: CatapultResult<Read<Option<Bridge>>>)
        ensures
            result_view(r) == read_field(
                match self@.bridge_id {
                    Lazy::Available(Some(id)) => Lazy::Available(Some(BridgeView::unloaded(id))),
                    Lazy::Available(None) => Lazy::Available(None),
                    Lazy::NotLoaded => Lazy::NotLoaded,
                },
                self@.load_request(client@),
            ),
    {
        match &self.data.bridge_id {
            Lazy::Available(Some(id)) => Ok(Read::Value(Some(Bridge::get_by_id(id.as_str())))),
            Lazy::Available(None) => Ok(Read::Value(None)),
            Lazy::NotLoaded => Read::load(self.load_request(client)),
        }
    }

    /// The request that lists the events of the call.
    pub fn get_events_request(&self, client: &Client) -> (r: CatapultResult<Request>)
        ensures
            result_view(r) == self@.events_request(client@),
    {
        let path = concat(self.path(client).as_str(), "/events");
        self.guarded(
            client.get_request(path.as_str()),
        )
    }

    /// The events of the call, from the response to the request of
    /// `get_events_request`.
    pub fn get_events(res: Response) -> (r: CatapultResult<Vec<Event>>)
        ensures
            result_view(r) == match res.deep_view().json() {
                Err(e) => Err(e),
                Ok(json) => match decode_events(json.body) {
                    Err(e) => Err(CatapultErrorView::DecoderError(e)),
                    Ok(events) => Ok(events),
                },
            },
    {
        let json = match JsonResponse::new(res) {
            Ok(json) => json,
            Err(e) => {
                return Err(e);
            },
        };
        match decode_event_list(&json.body) {
            Ok(events) => Ok(events),
            Err(e) => Err(CatapultError::DecoderError(e)),
        }
    }

    /// The request that fetches the event of the call with the given
    /// identifier.
    pub fn get_event_request(&self, client: &Client, id: &str) -> (r: CatapultResult<Request>)
        ensures
            result_view(r) == self@.event_request(client@, id@),
    {
        if id.unicode_len() == 0 {
            return Err(CatapultError::bad_input("invalid event id"));
        }
        let a = concat(self.path(client).as_str(), "/events/");
        let path = concat(a.as_str(), id);
        self.guarded(
            client.get_request(path.as_str()),
        )
    }

    /// The event, from the response to the request of `get_event_request`.
    pub fn get_event(res: Response) -> (r: CatapultResult<Event>)
        ensures
            result_view(r) == match res.deep_view().json() {
                Err(e) => Err(e),
                Ok(json) => match EventView::decode(json.body) {
                    Err(e) => Err(CatapultErrorView::DecoderError(e)),
                    Ok(event) => Ok(event),
                },
            },
    {
        let json = match JsonResponse::new(res) {
            Ok(json) => json,
            Err(e) => {
                return Err(e);
            },
        };
        match Event::decode(&json.body) {
            Ok(event) => Ok(event),
            Err(e) => Err(CatapultError::DecoderError(e)),
        }
    }
}

/// A call that was made from what identifies it alone asks for one load when
/// a field is read, whichever field it is. Once a load has succeeded, the read
/// of any field gives its value and asks for no request.
pub proof fn lemma_load_once(id: Seq<char>, client: ClientView, res: ResponseView)
    ensures
        ({
            let fresh = CallView::unloaded(id);
            let load = fresh.load_request(client);
            let after = fresh.loaded(res);
            &&& asks_load(fresh.active_time, load)
            &&& asks_load(fresh.bridge_id, load)
            &&& asks_load(fresh.callback_url, load)
            &&& asks_load(fresh.direction, load)
            &&& asks_load(fresh.from, load)
            &&& asks_load(fresh.recording_file_format, load)
            &&& asks_load(fresh.recording_enabled, load)
            &&& asks_load(fresh.start_time, load)
            &&& asks_load(fresh.state, load)
            &&& asks_load(fresh.to, load)
            &&& asks_load(fresh.transcription_enabled, load)
            &&& asks_load(fresh.display_name, load)
            &&& asks_load(fresh.preferred_id, load)
            &&& asks_load(fresh.withhold_caller_name, load)
            &&& asks_load(fresh.withhold_caller_number, load)
            &&& asks_load(fresh.end_time, load)
            &&& after is Ok ==> reads_value(after->Ok_0.active_time, load)
            &&& after is Ok ==> reads_value(after->Ok_0.bridge_id, load)
            &&& after is Ok ==> reads_value(after->Ok_0.callback_url, load)
            &&& after is Ok ==> reads_value(after->Ok_0.direction, load)
            &&& after is Ok ==> reads_value(after->Ok_0.from, load)
            &&& after is Ok ==> reads_value(after->Ok_0.recording_file_format, load)
            &&& after is Ok ==> reads_value(after->Ok_0.recording_enabled, load)
            &&& after is Ok ==> reads_value(after->Ok_0.start_time, load)
            &&& after is Ok ==> reads_value(after->Ok_0.state, load)
            &&& after is Ok ==> reads_value(after->Ok_0.to, load)
            &&& after is Ok ==> reads_value(after->Ok_0.transcription_enabled, load)
            &&& after is Ok ==> reads_value(after->Ok_0.display_name, load)
            &&& after is Ok ==> reads_value(after->Ok_0.preferred_id, load)
            &&& after is Ok ==> reads_value(after->Ok_0.withhold_caller_name, load)
            &&& after is Ok ==> reads_value(after->Ok_0.withhold_caller_number, load)
            &&& after is Ok ==> reads_value(after->Ok_0.end_time, load)
        }),
{
}

/// A command that the service answers by changing a field is followed by a
/// load when that field is read next, even where the field held a value
/// just before: hanging up drops the state and the time of the end, and
/// leaves what the command cannot change.
pub proof fn lemma_hang_up_invalidates(call: CallView, client: ClientView)
    ensures
        ({
            let after = CallView { state: Lazy::NotLoaded, end_time: Lazy::NotLoaded, ..call };
            &&& asks_load(after.state, after.load_request(client))
            &&& asks_load(after.end_time, after.load_request(client))
            &&& after.from == call.from
            &&& after.to == call.to
            &&& after.load_request(client) == call.load_request(client)
        }),
{
}

/// A load replaces every field, whatever was cached: the last fetch wins, and
/// nothing of what was there before is merged in.
pub proof fn lemma_last_fetch_wins(a: CallView, b: CallView, res: ResponseView)
    requires
        a.id == b.id,
    ensures
        a.loaded(res) == b.loaded(res),
{
}

} // verus!
