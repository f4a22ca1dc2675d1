pub mod member;

pub use self::member::Member;
pub use self::member::MemberBuilder;

use vstd::prelude::*;
use vstd::string::StrSliceExecFns;
use vstd::utf8::encode_utf8;

use crate::client::ApiResponse;
use crate::client::Client;
use crate::client::ClientView;
use crate::client::EmptyResponse;
use crate::client::JsonResponse;
use crate::codec::DecoderError;
use crate::codec::DecoderErrorView;
use crate::codec::boolean_field;
use crate::codec::get_boolean;
use crate::codec::get_opt_string;
use crate::codec::get_string;
use crate::codec::get_unsigned;
use crate::codec::opt_string_field;
use crate::codec::result_view;
use crate::codec::string_field;
use crate::codec::unsigned_field;
use crate::conference::member::MemberBuilderView;
use crate::conference::member::MemberView;
use crate::error::CatapultError;
use crate::error::CatapultErrorView;
use crate::error::CatapultResult;
use crate::http::Request;
use crate::http::RequestView;
use crate::http::Response;
use crate::http::ResponseView;
use crate::json::JsonSpec;
use crate::json::JsonValue;
use crate::json::lazy_boolean;
use crate::json::lazy_opt_string;
use crate::json::lazy_string;
use crate::json::lazy_unsigned;
use crate::lazy::Lazy;
use crate::lazy::Read;
use crate::lazy::asks_load;
use crate::lazy::read_field;
use crate::lazy::reads_value;
use crate::text::clone_opt;
use crate::text::concat;
use crate::text::str_eq;
use crate::text::to_owned_opt;
use crate::util::get_id_from_location_header;
use crate::util::id_of_location;
use crate::voice::Voice;

verus! {

/// Where a conference stands.
#[derive(Debug, Clone, Copy, PartialEq, Eq, Structural)]
pub enum State {
    /// The conference was created and has no members.
    Created,
    /// The conference has one member or more.
    Active,
    /// The conference is over and cannot be used any more.
    Completed,
}

impl DeepView for State {
    type V = State;

    open spec fn deep_view(&self) -> State {
        *self
    }
}

impl State {
    /// The word that the service uses for this value.
    pub open spec fn text(self) -> Seq<char> {
        match self {
            State::Created => "created"@,
            State::Active => "active"@,
            State::Completed => "completed"@,
        }
    }

    /// The value that a word of the service stands for. A word that stands
    /// for none is an error, not some value picked in its place.
    pub open spec fn of_text(text: Seq<char>) -> Result<State, CatapultErrorView> {
        if text == "created"@ {
            Ok(State::Created)
        } else if text == "active"@ {
            Ok(State::Active)
        } else if text == "completed"@ {
            Ok(State::Completed)
        } else {
            Err(CatapultErrorView::Unexpected("unknown Conference state: "@ + text))
        }
    }

    /// Reads the value that a word of the service stands for.
    pub fn parse(text: &str) -> (r: CatapultResult<State>)
        ensures
            result_view(r) == State::of_text(text@),
    {
        if str_eq(text, "created") {
            Ok(State::Created)
        } else if str_eq(text, "active") {
            Ok(State::Active)
        } else if str_eq(text, "completed") {
            Ok(State::Completed)
        } else {
            Err(CatapultError::Unexpected(concat("unknown Conference state: ", text)))
        }
    }
}

/// Each state is read back from the word that is written for it.
pub proof fn lemma_state_words(value: State)
    ensures
        State::of_text(value.text()) == Ok::<State, CatapultErrorView>(value),
{
    reveal_strlit("created");
    reveal_strlit("active");
    reveal_strlit("completed");
    match value {
        State::Created => {},
        State::Active => {
            assert("active"@.len() != "created"@.len());
        },
        State::Completed => {
            assert("completed"@.len() != "created"@.len());
            assert("completed"@.len() != "active"@.len());
        },
    }
}

/// A conference as the service describes it.
#[derive(Debug)]
pub struct ConferenceInfo {
    pub id: String,
    pub active_members: u64,
    pub callback_url: Option<String>,
    pub fallback_url: Option<String>,
    pub callback_http_method: String,
    pub callback_timeout: u64,
    pub created_time: String,
    pub from: String,
    pub hold: bool,
    pub mute: bool,
    pub state: String,
    pub tag: Option<String>,
}

/// The mathematical value of a [`ConferenceInfo`].
pub struct ConferenceInfoView {
    pub id: Seq<char>,
    pub active_members: u64,
    pub callback_url: Option<Seq<char>>,
    pub fallback_url: Option<Seq<char>>,
    pub callback_http_method: Seq<char>,
    pub callback_timeout: u64,
    pub created_time: Seq<char>,
    pub from: Seq<char>,
    pub hold: bool,
    pub mute: bool,
    pub state: Seq<char>,
    pub tag: Option<Seq<char>>,
}

impl DeepView for ConferenceInfo {
    type V = ConferenceInfoView;

    open spec fn deep_view(&self) -> ConferenceInfoView {
        ConferenceInfoView {
            id: self.id@,
            active_members: self.active_members,
            callback_url: self.callback_url.deep_view(),
            fallback_url: self.fallback_url.deep_view(),
            callback_http_method: self.callback_http_method@,
            callback_timeout: self.callback_timeout,
            created_time: self.created_time@,
            from: self.from@,
            hold: self.hold,
            mute: self.mute,
            state: self.state@,
            tag: self.tag.deep_view(),
        }
    }
}

impl ConferenceInfoView {
    /// The conference that a JSON document describes: its members are read in the
    /// order of the fields, and the first that fails decides.
    pub open spec fn decode(json: JsonSpec) -> Result<ConferenceInfoView, DecoderErrorView> {
        match string_field(json, "id"@) {
            Err(e) => Err(e),
            Ok(id) =>
            match unsigned_field(json, "activeMembers"@) {
                Err(e) => Err(e),
                Ok(active_members) =>
                match opt_string_field(json, "callbackUrl"@) {
                    Err(e) => Err(e),
                    Ok(callback_url) =>
                    match opt_string_field(json, "fallbackUrl"@) {
                        Err(e) => Err(e),
                        Ok(fallback_url) =>
                        match string_field(json, "callbackHttpMethod"@) {
                            Err(e) => Err(e),
                            Ok(callback_http_method) =>
                            match unsigned_field(json, "callbackTimeout"@) {
                                Err(e) => Err(e),
                                Ok(callback_timeout) =>
                                match string_field(json, "createdTime"@) {
                                    Err(e) => Err(e),
                                    Ok(created_time) =>
                                    match string_field(json, "from"@) {
                                        Err(e) => Err(e),
                                        Ok(from) =>
                                        match boolean_field(json, "hold"@) {
                                            Err(e) => Err(e),
                                            Ok(hold) =>
                                            match boolean_field(json, "mute"@) {
                                                Err(e) => Err(e),
                                                Ok(mute) =>
                                                match string_field(json, "state"@) {
                                                    Err(e) => Err(e),
                                                    Ok(state) =>
                                                    match opt_string_field(json, "tag"@) {
                                                        Err(e) => Err(e),
                                                        Ok(tag) =>
                                                        Ok(ConferenceInfoView { id, active_members, callback_url, fallback_url, callback_http_method, callback_timeout, created_time, from, hold, mute, state, tag }),
                                                    },
                                                },
                                            },
                                        },
                                    },
                                },
                            },
                        },
                    },
                },
            },
        }
    }
}

impl ConferenceInfo {
    /// Reads the conference that a JSON document describes.
    pub fn decode(json: &JsonValue) -> (r: Result<ConferenceInfo, DecoderError>)
        ensures
            result_view(r) == ConferenceInfoView::decode(json.deep_view()),
    {
        let id = match get_string(json, "id") {
            Ok(v) => v,
            Err(e) => {
                return Err(e);
            },
        };
        let active_members = match get_unsigned(json, "activeMembers") {
            Ok(v) => v,
            Err(e) => {
                return Err(e);
            },
        };
        let callback_url = match get_opt_string(json, "callbackUrl") {
            Ok(v) => v,
            Err(e) => {
                return Err(e);
            },
        };
        let fallback_url = match get_opt_string(json, "fallbackUrl") {
            Ok(v) => v,
            Err(e) => {
                return Err(e);
            },
        };
        let callback_http_method = match get_string(json, "callbackHttpMethod") {
            Ok(v) => v,
            Err(e) => {
                return Err(e);
            },
        };
        let callback_timeout = match get_unsigned(json, "callbackTimeout") {
            Ok(v) => v,
            Err(e) => {
                return Err(e);
            },
        };
        let created_time = match get_string(json, "createdTime") {
            Ok(v) => v,
            Err(e) => {
                return Err(e);
            },
        };
        let from = match get_string(json, "from") {
            Ok(v) => v,
            Err(e) => {
                return Err(e);
            },
        };
        let hold = match get_boolean(json, "hold") {
            Ok(v) => v,
            Err(e) => {
                return Err(e);
            },
        };
        let mute = match get_boolean(json, "mute") {
            Ok(v) => v,
            Err(e) => {
                return Err(e);
            },
        };
        let state = match get_string(json, "state") {
            Ok(v) => v,
            Err(e) => {
                return Err(e);
            },
        };
        let tag = match get_opt_string(json, "tag") {
            Ok(v) => v,
            Err(e) => {
                return Err(e);
            },
        };
        Ok(ConferenceInfo { id, active_members, callback_url, fallback_url, callback_http_method, callback_timeout, created_time, from, hold, mute, state, tag })
    }
}

#[derive(Debug)]
struct Data {
    active_members: Lazy<u64>,
    created_time: Lazy<String>,
    from: Lazy<String>,
    state: Lazy<State>,
    callback_http_method: Lazy<String>,
    hold: Lazy<bool>,
    mute: Lazy<bool>,
    callback_url: Lazy<Option<String>>,
    fallback_url: Lazy<Option<String>>,
    callback_timeout: Lazy<u64>,
    tag: Lazy<Option<String>>,
}

impl Data {
    spec fn view_as(&self, id: Seq<char>) -> ConferenceView {
        ConferenceView {
            id,
            active_members: self.active_members.deep_view(),
            created_time: self.created_time.deep_view(),
            from: self.from.deep_view(),
            state: self.state.deep_view(),
            callback_http_method: self.callback_http_method.deep_view(),
            hold: self.hold.deep_view(),
            mute: self.mute.deep_view(),
            callback_url: self.callback_url.deep_view(),
            fallback_url: self.fallback_url.deep_view(),
            callback_timeout: self.callback_timeout.deep_view(),
            tag: self.tag.deep_view(),
        }
    }

    /// Fields of which nothing is known yet.
    fn unloaded() -> (r: Data)
        ensures
            r.active_members is NotLoaded,
            r.created_time is NotLoaded,
            r.from is NotLoaded,
            r.state is NotLoaded,
            r.callback_http_method is NotLoaded,
            r.hold is NotLoaded,
            r.mute is NotLoaded,
            r.callback_url is NotLoaded,
            r.fallback_url is NotLoaded,
            r.callback_timeout is NotLoaded,
            r.tag is NotLoaded,
    {
        Data {
            active_members: Lazy::NotLoaded,
            created_time: Lazy::NotLoaded,
            from: Lazy::NotLoaded,
            state: Lazy::NotLoaded,
            callback_http_method: Lazy::NotLoaded,
            hold: Lazy::NotLoaded,
            mute: Lazy::NotLoaded,
            callback_url: Lazy::NotLoaded,
            fallback_url: Lazy::NotLoaded,
            callback_timeout: Lazy::NotLoaded,
            tag: Lazy::NotLoaded,
        }
    }
}

/// A conference: calls that are mixed together. Its fields are fetched when
/// one is first read.
#[derive(Debug)]
pub struct Conference {
    id: String,
    data: Data,
}

/// The mathematical value of a [`Conference`].
pub struct ConferenceView {
    pub id: Seq<char>,
    pub active_members: Lazy<u64>,
    pub created_time: Lazy<Seq<char>>,
    pub from: Lazy<Seq<char>>,
    pub state: Lazy<State>,
    pub callback_http_method: Lazy<Seq<char>>,
    pub hold: Lazy<bool>,
    pub mute: Lazy<bool>,
    pub callback_url: Lazy<Option<Seq<char>>>,
    pub fallback_url: Lazy<Option<Seq<char>>>,
    pub callback_timeout: Lazy<u64>,
    pub tag: Lazy<Option<Seq<char>>>,
}

impl DeepView for Conference {
    type V = ConferenceView;

    closed spec fn deep_view(&self) -> ConferenceView {
        self.data.view_as(self.id@)
    }
}

impl View for Conference {
    type V = ConferenceView;

    open spec fn view(&self) -> ConferenceView {
        self.deep_view()
    }
}

impl ConferenceView {
    /// A conference of which only the identifier is known.
    pub open spec fn unloaded(id: Seq<char>) -> ConferenceView {
        ConferenceView {
            id,
            active_members: Lazy::NotLoaded,
            created_time: Lazy::NotLoaded,
            from: Lazy::NotLoaded,
            state: Lazy::NotLoaded,
            callback_http_method: Lazy::NotLoaded,
            hold: Lazy::NotLoaded,
            mute: Lazy::NotLoaded,
            callback_url: Lazy::NotLoaded,
            fallback_url: Lazy::NotLoaded,
            callback_timeout: Lazy::NotLoaded,
            tag: Lazy::NotLoaded,
        }
    }

    /// Whether every field holds a value.
    pub open spec fn complete(self) -> bool {
        &&& self.active_members is Available
        &&& self.created_time is Available
        &&& self.from is Available
        &&& self.state is Available
        &&& self.callback_http_method is Available
        &&& self.hold is Available
        &&& self.mute is Available
        &&& self.callback_url is Available
        &&& self.fallback_url is Available
        &&& self.callback_timeout is Available
        &&& self.tag is Available
    }

    /// A conference as a fetch describes it; the state is told by its word.
    pub open spec fn from_info(info: ConferenceInfoView) -> Result<ConferenceView, CatapultErrorView> {
        match State::of_text(info.state) {
            Err(e) => Err(e),
            Ok(state) => Ok(
                ConferenceView {
                    id: info.id,
                    active_members: Lazy::Available(info.active_members),
                    created_time: Lazy::Available(info.created_time),
                    from: Lazy::Available(info.from),
                    state: Lazy::Available(state),
                    callback_http_method: Lazy::Available(info.callback_http_method),
                    hold: Lazy::Available(info.hold),
                    mute: Lazy::Available(info.mute),
                    callback_url: Lazy::Available(info.callback_url),
                    fallback_url: Lazy::Available(info.fallback_url),
                    callback_timeout: Lazy::Available(info.callback_timeout),
                    tag: Lazy::Available(info.tag),
                },
            ),
        }
    }

    /// What a request that addresses the conference by its identifier comes to: an
    /// empty identifier is refused before any request is made, since the
    /// path would be that of the list of all.
    pub open spec fn guarded(self, request: Result<RequestView, CatapultErrorView>) -> Result<
        RequestView,
        CatapultErrorView,
    > {
        if self.id.len() == 0 {
            Err(CatapultErrorView::BadInput("invalid conference id"@))
        } else {
            request
        }
    }

    /// The path of the conference.
    pub open spec fn path(self, client: ClientView) -> Seq<char> {
        client.user_path("/conferences/"@ + self.id)
    }

    /// The request that fetches the conference.
    pub open spec fn load_request(self, client: ClientView) -> Result<RequestView, CatapultErrorView> {
        self.guarded(client.get(self.path(client)))
    }

    /// The conference after a fetch: every field as the response gives it,
    /// whatever it held before. A response that tells of a failure, or does
    /// not describe a conference, gives the error instead.
    pub open spec fn loaded(self, res: ResponseView) -> Result<ConferenceView, CatapultErrorView> {
        match res.json() {
            Err(e) => Err(e),
            Ok(json) => match ConferenceInfoView::decode(json.body) {
                Err(e) => Err(CatapultErrorView::DecoderError(e)),
                Ok(info) => match ConferenceView::from_info(info) {
                    Err(e) => Err(e),
                    Ok(fresh) => Ok(ConferenceView { id: self.id, ..fresh }),
                },
            },
        }
    }

    /// The document of a partial update: a member for each field that can
    /// be written and holds a value, and none for the others.
    pub open spec fn save_body(self) -> JsonSpec {
        JsonSpec::Object(
            lazy_boolean("hold"@, self.hold)
            + lazy_boolean("mute"@, self.mute)
            + lazy_opt_string("callbackUrl"@, self.callback_url)
            + lazy_string("callbackHttpMethod"@, self.callback_http_method)
            + lazy_unsigned("callbackTimeout"@, self.callback_timeout)
            + lazy_opt_string("fallbackUrl"@, self.fallback_url)
            + lazy_opt_string("tag"@, self.tag),
        )
    }

    /// The request that writes the fields that hold a value back to the
    /// service.
    pub open spec fn save_request(self, client: ClientView) -> Result<RequestView, CatapultErrorView> {
        self.guarded(client.post(self.path(client), self.save_body()))
    }

    /// The request that a command on the conference posts.
    pub open spec fn command(self, client: ClientView, json: JsonSpec) -> Result<RequestView, CatapultErrorView> {
        self.guarded(client.post(self.path(client), json))
    }

    /// The request that plays or speaks audio to the conference.
    pub open spec fn audio(self, client: ClientView, json: JsonSpec) -> Result<RequestView, CatapultErrorView> {
        self.guarded(client.post(self.path(client) + "/audio"@, json))
    }

    /// The request that lists the members of the conference.
    pub open spec fn members_request(self, client: ClientView) -> Result<RequestView, CatapultErrorView> {
        self.guarded(client.get(self.path(client) + "/members"@))
    }
}

impl Data {
    fn from_info(info: &ConferenceInfo) -> (r: CatapultResult<Data>)
        ensures
            match ConferenceView::from_info(info.deep_view()) {
                Ok(v) => r is Ok && r->Ok_0.view_as(info.id@) == v,
                Err(e) => r is Err && r->Err_0.deep_view() == e,
            },
    {
        let state = match State::parse(info.state.as_str()) {
            Ok(state) => state,
            Err(e) => {
                return Err(e);
            },
        };
        Ok(
            Data {
                active_members: Lazy::Available(info.active_members),
                created_time: Lazy::Available(info.created_time.clone()),
                from: Lazy::Available(info.from.clone()),
                state: Lazy::Available(state),
                callback_http_method: Lazy::Available(info.callback_http_method.clone()),
                hold: Lazy::Available(info.hold),
                mute: Lazy::Available(info.mute),
                callback_url: Lazy::Available(clone_opt(&info.callback_url)),
                fallback_url: Lazy::Available(clone_opt(&info.fallback_url)),
                callback_timeout: Lazy::Available(info.callback_timeout),
                tag: Lazy::Available(clone_opt(&info.tag)),
            },
        )
    }
}

/// A conference that is yet to be created.
#[derive(Debug)]
pub struct ConferenceBuilder {
    from: String,
    callback_url: Option<String>,
    callback_http_method: String,
    callback_timeout: Option<u64>,
    fallback_url: Option<String>,
    tag: Option<String>,
}

/// The mathematical value of a [`ConferenceBuilder`].
pub struct ConferenceBuilderView {
    pub from: Seq<char>,
    pub callback_url: Option<Seq<char>>,
    pub callback_http_method: Seq<char>,
    pub callback_timeout: Option<u64>,
    pub fallback_url: Option<Seq<char>>,
    pub tag: Option<Seq<char>>,
}

impl DeepView for ConferenceBuilder {
    type V = ConferenceBuilderView;

    closed spec fn deep_view(&self) -> ConferenceBuilderView {
        ConferenceBuilderView {
            from: self.from@,
            callback_url: self.callback_url.deep_view(),
            callback_http_method: self.callback_http_method@,
            callback_timeout: self.callback_timeout,
            fallback_url: self.fallback_url.deep_view(),
            tag: self.tag.deep_view(),
        }
    }
}

impl View for ConferenceBuilder {
    type V = ConferenceBuilderView;

    open spec fn view(&self) -> ConferenceBuilderView {
        self.deep_view()
    }
}

impl ConferenceBuilderView {
    /// The document that describes the conference to the service.
    pub open spec fn body(self) -> JsonSpec {
        JsonSpec::Object(
            seq![
                ("from"@, JsonSpec::String(self.from)),
                ("callbackUrl"@, JsonSpec::opt_string(self.callback_url)),
                ("callbackHttpMethod"@, JsonSpec::String(self.callback_http_method)),
                ("callbackTimeout"@, JsonSpec::opt_unsigned(self.callback_timeout)),
                ("fallbackUrl"@, JsonSpec::opt_string(self.fallback_url)),
                ("tag"@, JsonSpec::opt_string(self.tag)),
            ],
        )
    }

    /// The request that creates the conference.
    pub open spec fn create_request(self, client: ClientView) -> Result<RequestView, CatapultErrorView> {
        client.post(client.user_path("/conferences"@), self.body())
    }

    /// The conference that the response to the creation stands for: its
    /// identifier is the one that the response names; it has just been
    /// created and has no members, its fields hold what was asked for, and
    /// what only the service knows is not loaded.
    pub open spec fn created(self, res: ResponseView) -> Result<ConferenceView, CatapultErrorView> {
        match res.empty() {
            Err(e) => Err(e),
            Ok(headers) => match id_of_location(headers) {
                Err(e) => Err(e),
                Ok(id) => Ok(
                    ConferenceView {
                        active_members: Lazy::Available(0),
                        from: Lazy::Available(self.from),
                        state: Lazy::Available(State::Created),
                        callback_http_method: Lazy::Available(self.callback_http_method),
                        callback_url: Lazy::Available(self.callback_url),
                        fallback_url: Lazy::Available(self.fallback_url),
                        callback_timeout: match self.callback_timeout {
                            Some(millis) => Lazy::Available(millis),
                            None => Lazy::NotLoaded,
                        },
                        tag: Lazy::Available(self.tag),
                        ..ConferenceView::unloaded(id)
                    },
                ),
            },
        }
    }
}

impl ConferenceBuilder {
    pub fn callback_url(self, url: &str) -> (r: Self)
        ensures
            r@ == (ConferenceBuilderView { callback_url: Some(url@), ..self@ }),
    {
        let mut r = self;
        r.callback_url = Some(url.to_owned());
        r
    }

    pub fn callback_timeout(self, millis: u64) -> (r: Self)
        ensures
            r@ == (ConferenceBuilderView { callback_timeout: Some(millis), ..self@ }),
    {
        let mut r = self;
        r.callback_timeout = Some(millis);
        r
    }

    /// Has the events sent with `GET` and not with `POST`.
    pub fn use_get_http_method(self) -> (r: Self)
        ensures
            r@ == (ConferenceBuilderView { callback_http_method: "GET"@, ..self@ }),
    {
        let mut r = self;
        r.callback_http_method = "GET".to_owned();
        r
    }

    pub fn fallback_url(self, url: &str) -> (r: Self)
        ensures
            r@ == (ConferenceBuilderView { fallback_url: Some(url@), ..self@ }),
    {
        let mut r = self;
        r.fallback_url = Some(url.to_owned());
        r
    }

    pub fn tag(self, tag: &str) -> (r: Self)
        ensures
            r@ == (ConferenceBuilderView { tag: Some(tag@), ..self@ }),
    {
        let mut r = self;
        r.tag = Some(tag.to_owned());
        r
    }

    /// The request that creates the conference.
    pub fn create_request(&self, client: &Client) -> (r: CatapultResult<Request>)
        ensures
            result_view(r) == self@.create_request(client@),
    {
        let path = client.user_path("/conferences");
        let mut map: Vec<(String, JsonValue)> = Vec::new();
        JsonValue::put(&mut map, "from", JsonValue::string(self.from.as_str()));
        JsonValue::put(&mut map, "callbackUrl", JsonValue::opt_string(&self.callback_url));
        JsonValue::put(&mut map, "callbackHttpMethod", JsonValue::string(self.callback_http_method.as_str()));
        JsonValue::put(&mut map, "callbackTimeout", JsonValue::opt_unsigned(self.callback_timeout));
        JsonValue::put(&mut map, "fallbackUrl", JsonValue::opt_string(&self.fallback_url));
        JsonValue::put(&mut map, "tag", JsonValue::opt_string(&self.tag));
        assert(map.deep_view() =~= self@.body()->Object_0);
        let json = JsonValue::object(map);
        client.post_request(path.as_str(), &json)
    }

    /// The conference that was created, from the response to the request
    /// of `create_request`.
    pub fn create(self, res: Response) -> (r: CatapultResult<Conference>)
        ensures
            result_view(r) == self@.created(res.deep_view()),
    {
        let res = match EmptyResponse::new(res) {
            Ok(res) => res,
            Err(e) => {
                return Err(e);
            },
        };
        let id = match get_id_from_location_header(&res.headers) {
            Ok(id) => id,
            Err(e) => {
                return Err(e);
            },
        };
        let mut data = Data::unloaded();
        data.active_members.set(0);
        data.from.set(self.from);
        data.state.set(State::Created);
        data.callback_http_method.set(self.callback_http_method);
        data.callback_url.set(self.callback_url);
        data.fallback_url.set(self.fallback_url);
        data.callback_timeout = Lazy::load_if_available(self.callback_timeout);
        data.tag.set(self.tag);
        Ok(Conference { id, data })
    }
}

impl Conference {
    /// Refuses a request where an identifier that its path needs is empty.
    pub(crate) fn guarded(&self, request: CatapultResult<Request>) -> (r: CatapultResult<Request>)
        ensures
            result_view(r) == self@.guarded(result_view(request)),
    {
        if self.id.as_str().unicode_len() == 0 {
            Err(CatapultError::bad_input("invalid conference id"))
        } else {
            request
        }
    }

    /// The path of the conference.
    fn path(&self, client: &Client) -> (r: String)
        ensures
            r@ == self@.path(client@),
    {
        let rest = concat("/conferences/", self.id.as_str());
        client.user_path(rest.as_str())
    }

    /// The request that fetches the fields.
    pub fn load_request(&self, client: &Client) -> (r: CatapultResult<Request>)
        ensures
            result_view(r) == self@.load_request(client@),
    {
        let path = self.path(client);
        self.guarded(
            client.get_request(path.as_str()),
        )
    }

    /// Takes the response to the request of `load_request` and, where it
    /// describes the conference, replaces every field by what it says. On an
    /// error nothing changes.
    pub fn load(&mut self, res: Response) -> (r: CatapultResult<()>)
        ensures
            match old(self)@.loaded(res.deep_view()) {
                Ok(after) => r is Ok && final(self)@ == after,
                Err(e) => result_view(r) == Err::<(), CatapultErrorView>(e) && final(self)@ == old(
                    self,
                )@,
            },
    {
        let json = match JsonResponse::new(res) {
            Ok(json) => json,
            Err(e) => {
                return Err(e);
            },
        };
        let info = match ConferenceInfo::decode(&json.body) {
            Ok(info) => info,
            Err(e) => {
                return Err(CatapultError::DecoderError(e));
            },
        };
        self.data = match Data::from_info(&info) {
            Ok(data) => data,
            Err(e) => {
                return Err(e);
            },
        };
        Ok(())
    }

    /// The request that writes the fields that can be written and hold a
    /// value back to the service, and no others.
    pub fn save(&self, client: &Client) -> (r: CatapultResult<Request>)
        ensures
            result_view(r) == self@.save_request(client@),
            self@.save_body() == JsonSpec::Object(Seq::empty()) && r is Ok ==> r->Ok_0.body@ == encode_utf8(
                "{}"@,
            ),
    {
        let path = self.path(client);
        let mut map: Vec<(String, JsonValue)> = Vec::new();
        JsonValue::put_boolean(&mut map, "hold", &self.data.hold);
        assert(map.deep_view() =~= lazy_boolean("hold"@, self@.hold));
        JsonValue::put_boolean(&mut map, "mute", &self.data.mute);
        JsonValue::put_opt_string(&mut map, "callbackUrl", &self.data.callback_url);
        JsonValue::put_string(&mut map, "callbackHttpMethod", &self.data.callback_http_method);
        JsonValue::put_unsigned(&mut map, "callbackTimeout", &self.data.callback_timeout);
        JsonValue::put_opt_string(&mut map, "fallbackUrl", &self.data.fallback_url);
        JsonValue::put_opt_string(&mut map, "tag", &self.data.tag);
        let json = JsonValue::object(map);
        self.guarded(
            client.post_request(path.as_str(), &json),
        )
    }

    /// The conference with the given identifier, with nothing fetched yet.
    pub fn get(id: &str) -> (r: Conference)
        ensures
            r@ == ConferenceView::unloaded(id@),
    {
        Conference { id: id.to_owned(), data: Data::unloaded() }
    }

    /// A conference that is yet to be created: events are sent with `POST`.
    pub fn build(from: &str) -> (r: ConferenceBuilder)
        ensures
            r@ == (ConferenceBuilderView {
                from: from@,
                callback_url: None,
                callback_http_method: "POST"@,
                callback_timeout: None,
                fallback_url: None,
                tag: None,
            }),
    {
        ConferenceBuilder {
            from: from.to_owned(),
            callback_url: None,
            callback_http_method: "POST".to_owned(),
            callback_timeout: None,
            fallback_url: None,
            tag: None,
        }
    }

    pub fn get_id(&self) -> (r: String)
        ensures
            r@ == self@.id,
    {
        self.id.clone()
    }

    /// The request that lists the members of the conference.
    pub fn list_members_request(&self, client: &Client) -> (r: CatapultResult<Request>)
        ensures
            result_view(r) == self@.members_request(client@),
    {
        Member::list_members_from_conference_request(self, client)
    }

    /// The members of the conference, from the response to the request of
    /// `list_members_request`.
    pub fn list_members(&self, res: Response) -> (r: CatapultResult<Vec<Member>>)
        ensures
            result_view(r) == MemberView::list(self@.id, res.deep_view()),
    {
        Member::list_members_from_conference(self, res)
    }

    pub fn get_active_members(&self, client: &Client) -> (r: CatapultResult<Read<u64>>)
        ensures
            result_view(r) == read_field(self@.active_members, self@.load_request(client@)),
    {
        match &self.data.active_members {
            Lazy::Available(v) => Ok(Read::Value(*v)),
            Lazy::NotLoaded => Read::load(self.load_request(client)),
        }
    }

    pub fn get_created_time(&self, client: &Client) -> (r: CatapultResult<Read<String>>)
        ensures
            result_view(r) == read_field(self@.created_time, self@.load_request(client@)),
    {
        match &self.data.created_time {
            Lazy::Available(v) => Ok(Read::Value(v.clone())),
            Lazy::NotLoaded => Read::load(self.load_request(client)),
        }
    }

    pub fn get_from(&self, client: &Client) -> (r: CatapultResult<Read<String>>)
        ensures
            result_view(r) == read_field(self@.from, self@.load_request(client@)),
    {
        match &self.data.from {
            Lazy::Available(v) => Ok(Read::Value(v.clone())),
            Lazy::NotLoaded => Read::load(self.load_request(client)),
        }
    }

    pub fn get_state(&self, client: &Client) -> (r: CatapultResult<Read<State>>)
        ensures
            result_view(r) == read_field(self@.state, self@.load_request(client@)),
    {
        match &self.data.state {
            Lazy::Available(v) => Ok(Read::Value(*v)),
            Lazy::NotLoaded => Read::load(self.load_request(client)),
        }
    }

    pub fn get_callback_http_method(&self, client: &Client) -> (r: CatapultResult<Read<String>>)
        ensures
            result_view(r) == read_field(self@.callback_http_method, self@.load_request(client@)),
    {
        match &self.data.callback_http_method {
            Lazy::Available(v) => Ok(Read::Value(v.clone())),
            Lazy::NotLoaded => Read::load(self.load_request(client)),
        }
    }

    pub fn get_hold(&self, client: &Client) -> (r: CatapultResult<Read<bool>>)
        ensures
            result_view(r) == read_field(self@.hold, self@.load_request(client@)),
    {
        match &self.data.hold {
            Lazy::Available(v) => Ok(Read::Value(*v)),
            Lazy::NotLoaded => Read::load(self.load_request(client)),
        }
    }

    pub fn get_mute(&self, client: &Client) -> (r: CatapultResult<Read<bool>>)
        ensures
            result_view(r) == read_field(self@.mute, self@.load_request(client@)),
    {
        match &self.data.mute {
            Lazy::Available(v) => Ok(Read::Value(*v)),
            Lazy::NotLoaded => Read::load(self.load_request(client)),
        }
    }

    pub fn get_callback_url(&self, client: &Client) -> (r: CatapultResult<Read<Option<String>>>)
        ensures
            result_view(r) == read_field(self@.callback_url, self@.load_request(client@)),
    {
        match &self.data.callback_url {
            Lazy::Available(v) => Ok(Read::Value(clone_opt(v))),
            Lazy::NotLoaded => Read::load(self.load_request(client)),
        }
    }

    pub fn get_fallback_url(&self, client: &Client) -> (r: CatapultResult<Read<Option<String>>>)
        ensures
            result_view(r) == read_field(self@.fallback_url, self@.load_request(client@)),
    {
        match &self.data.fallback_url {
            Lazy::Available(v) => Ok(Read::Value(clone_opt(v))),
            Lazy::NotLoaded => Read::load(self.load_request(client)),
        }
    }

    pub fn get_callback_timeout(&self, client: &Client) -> (r: CatapultResult<Read<u64>>)
        ensures
            result_view(r) == read_field(self@.callback_timeout, self@.load_request(client@)),
    {
        match &self.data.callback_timeout {
            Lazy::Available(v) => Ok(Read::Value(*v)),
            Lazy::NotLoaded => Read::load(self.load_request(client)),
        }
    }

    pub fn get_tag(&self, client: &Client) -> (r: CatapultResult<Read<Option<String>>>)
        ensures
            result_view(r) == read_field(self@.tag, self@.load_request(client@)),
    {
        match &self.data.tag {
            Lazy::Available(v) => Ok(Read::Value(clone_opt(v))),
            Lazy::NotLoaded => Read::load(self.load_request(client)),
        }
    }

    /// A member that is yet to be added to the conference: the call with
    /// the given identifier, which must be active. It hears a tone when
    /// someone joins or leaves, and is neither muted nor on hold.
    pub fn build_member(&self, call_id: &str) -> (r: MemberBuilder)
        ensures
            r@ == MemberBuilderView::new(self@.id, call_id@),
    {
        MemberBuilder::new(self, call_id)
    }

    /// The request that ends the conference.
    pub fn end(&self, client: &Client) -> (r: CatapultResult<Request>)
        ensures
            result_view(r) == self@.command(
                client@,
                JsonSpec::Object(
                    seq![
                        ("state"@, JsonSpec::String("completed"@)),
                    ],
                ),
            ),
    {
        let path = self.path(client);
        let mut map: Vec<(String, JsonValue)> = Vec::new();
        JsonValue::put(&mut map, "state", JsonValue::string("completed"));
        assert(map.deep_view() =~= seq![
            ("state"@, JsonSpec::String("completed"@)),
        ]);
        let json = JsonValue::object(map);
        self.guarded(
            client.post_request(path.as_str(), &json),
        )
    }

    /// The request that speaks a sentence to the conference.
    pub fn speak_sentence(&self, client: &Client, sentence: &str, loop_audio: bool, voice: Voice, tag: Option<&str>) -> (r: CatapultResult<Request>)
        ensures
            result_view(r) == self@.audio(
                client@,
                JsonSpec::Object(
                    seq![
                        ("sentence"@, JsonSpec::String(sentence@)),
                        ("loopEnabled"@, JsonSpec::Boolean(loop_audio)),
                        ("voice"@, JsonSpec::String(voice.name())),
                        ("tag"@, JsonSpec::opt_string(tag.deep_view())),
                    ],
                ),
            ),
    {
        let path = concat(self.path(client).as_str(), "/audio");
        let mut map: Vec<(String, JsonValue)> = Vec::new();
        JsonValue::put(&mut map, "sentence", JsonValue::string(sentence));
        JsonValue::put(&mut map, "loopEnabled", JsonValue::Boolean(loop_audio));
        JsonValue::put(&mut map, "voice", JsonValue::string(voice.get_name().as_str()));
        JsonValue::put(&mut map, "tag", JsonValue::opt_str(tag));
        assert(map.deep_view() =~= seq![
            ("sentence"@, JsonSpec::String(sentence@)),
            ("loopEnabled"@, JsonSpec::Boolean(loop_audio)),
            ("voice"@, JsonSpec::String(voice.name())),
            ("tag"@, JsonSpec::opt_string(tag.deep_view())),
        ]);
        let json = JsonValue::object(map);
        self.guarded(
            client.post_request(path.as_str(), &json),
        )
    }

    /// The request that plays an audio file to the conference.
    pub fn play_audio_file(&self, client: &Client, url: &str, loop_audio: bool, tag: Option<&str>) -> (r: CatapultResult<Request>)
        ensures
            result_view(r) == self@.audio(
                client@,
                JsonSpec::Object(
                    seq![
                        ("fileUrl"@, JsonSpec::String(url@)),
                        ("loopEnabled"@, JsonSpec::Boolean(loop_audio)),
                        ("tag"@, JsonSpec::opt_string(tag.deep_view())),
                    ],
                ),
            ),
    {
        let path = concat(self.path(client).as_str(), "/audio");
        let mut map: Vec<(String, JsonValue)> = Vec::new();
        JsonValue::put(&mut map, "fileUrl", JsonValue::string(url));
        JsonValue::put(&mut map, "loopEnabled", JsonValue::Boolean(loop_audio));
        JsonValue::put(&mut map, "tag", JsonValue::opt_str(tag));
        assert(map.deep_view() =~= seq![
            ("fileUrl"@, JsonSpec::String(url@)),
            ("loopEnabled"@, JsonSpec::Boolean(loop_audio)),
            ("tag"@, JsonSpec::opt_string(tag.deep_view())),
        ]);
        let json = JsonValue::object(map);
        self.guarded(
            client.post_request(path.as_str(), &json),
        )
    }

    pub fn set_mute(&mut self, value: bool)
        ensures
            final(self)@ == (ConferenceView { mute: Lazy::Available(value), ..old(self)@ }),
    {
        self.data.mute.set(value);
    }

    pub fn set_hold(&mut self, value: bool)
        ensures
            final(self)@ == (ConferenceView { hold: Lazy::Available(value), ..old(self)@ }),
    {
        self.data.hold.set(value);
    }

    pub fn set_callback_method_get(&mut self)
        ensures
            final(self)@ == (ConferenceView { callback_http_method: Lazy::Available("GET"@), ..old(self)@ }),
    {
        self.data.callback_http_method.set("GET".to_owned());
    }

    pub fn set_callback_method_post(&mut self)
        ensures
            final(self)@ == (ConferenceView { callback_http_method: Lazy::Available("POST"@), ..old(self)@ }),
    {
        self.data.callback_http_method.set("POST".to_owned());
    }

    pub fn set_callback_timeout(&mut self, millis: u64)
        ensures
            final(self)@ == (ConferenceView { callback_timeout: Lazy::Available(millis), ..old(self)@ }),
    {
        self.data.callback_timeout.set(millis);
    }

    pub fn set_callback_url(&mut self, value: Option<&str>)
        ensures
            final(self)@ == (ConferenceView { callback_url: Lazy::Available(value.deep_view()), ..old(self)@ }),
    {
        self.data.callback_url.set(to_owned_opt(value));
    }

    pub fn set_fallback_url(&mut self, value: Option<&str>)
        ensures
            final(self)@ == (ConferenceView { fallback_url: Lazy::Available(value.deep_view()), ..old(self)@ }),
    {
        self.data.fallback_url.set(to_owned_opt(value));
    }

    pub fn set_tag(&mut self, value: Option<&str>)
        ensures
            final(self)@ == (ConferenceView { tag: Lazy::Available(value.deep_view()), ..old(self)@ }),
    {
        self.data.tag.set(to_owned_opt(value));
    }
}

/// A conference that was made from what identifies it alone asks for one load when
/// a field is read, whichever field it is. Once a load has succeeded, the read
/// of any field gives its value and asks for no request.
pub proof fn lemma_load_once(id: Seq<char>, client: ClientView, res: ResponseView)
    ensures
        ({
            let fresh = ConferenceView::unloaded(id);
            let load = fresh.load_request(client);
            let after = fresh.loaded(res);
            &&& asks_load(fresh.active_members, load)
            &&& asks_load(fresh.created_time, load)
            &&& asks_load(fresh.from, load)
            &&& asks_load(fresh.state, load)
            &&& asks_load(fresh.callback_http_method, load)
            &&& asks_load(fresh.hold, load)
            &&& asks_load(fresh.mute, load)
            &&& asks_load(fresh.callback_url, load)
            &&& asks_load(fresh.fallback_url, load)
            &&& asks_load(fresh.callback_timeout, load)
            &&& asks_load(fresh.tag, load)
            &&& after is Ok ==> reads_value(after->Ok_0.active_members, load)
            &&& after is Ok ==> reads_value(after->Ok_0.created_time, load)
            &&& after is Ok ==> reads_value(after->Ok_0.from, load)
            &&& after is Ok ==> reads_value(after->Ok_0.state, load)
            &&& after is Ok ==> reads_value(after->Ok_0.callback_http_method, load)
            &&& after is Ok ==> reads_value(after->Ok_0.hold, load)
            &&& after is Ok ==> reads_value(after->Ok_0.mute, load)
            &&& after is Ok ==> reads_value(after->Ok_0.callback_url, load)
            &&& after is Ok ==> reads_value(after->Ok_0.fallback_url, load)
            &&& after is Ok ==> reads_value(after->Ok_0.callback_timeout, load)
            &&& after is Ok ==> reads_value(after->Ok_0.tag, load)
        }),
{
}

/// What is written back is what was set and nothing else: a conference of which
/// no field holds a value writes the empty document, and two that agree in
/// the fields that can be written write the same request.
pub proof fn lemma_save_is_partial(id: Seq<char>, a: ConferenceView, b: ConferenceView, client: ClientView)
    requires
        a.id == b.id,
        a.hold == b.hold,
        a.mute == b.mute,
        a.callback_url == b.callback_url,
        a.callback_http_method == b.callback_http_method,
        a.callback_timeout == b.callback_timeout,
        a.fallback_url == b.fallback_url,
        a.tag == b.tag,
    ensures
        ConferenceView::unloaded(id).save_body() == JsonSpec::Object(Seq::empty()),
        a.save_request(client) == b.save_request(client),
{
    assert(ConferenceView::unloaded(id).save_body()->Object_0 =~= Seq::empty());
}

/// A load replaces every field, whatever was cached: the last fetch wins, and
/// nothing of what was there before is merged in.
pub proof fn lemma_last_fetch_wins(a: ConferenceView, b: ConferenceView, res: ResponseView)
    requires
        a.id == b.id,
    ensures
        a.loaded(res) == b.loaded(res),
{
}

} // verus!
