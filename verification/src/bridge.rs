use vstd::prelude::*;
use vstd::string::StrSliceExecFns;

use crate::call::Call;
use crate::call::CallView;
use crate::client::ApiResponse;
use crate::client::Client;
use crate::client::ClientView;
use crate::client::EmptyResponse;
use crate::client::JsonResponse;
use crate::codec::DecoderError;
use crate::codec::DecoderErrorView;
use crate::codec::boolean_field;
use crate::codec::get_boolean;
use crate::codec::get_opt_string;
use crate::codec::get_string;
use crate::codec::opt_string_field;
use crate::codec::result_view;
use crate::codec::string_field;
use crate::error::CatapultError;
use crate::error::CatapultErrorView;
use crate::error::CatapultResult;
use crate::http::Request;
use crate::http::RequestView;
use crate::http::Response;
use crate::http::ResponseView;
use crate::json::JsonSpec;
use crate::json::JsonValue;
use crate::lazy::Lazy;
use crate::lazy::Read;
use crate::lazy::asks_load;
use crate::lazy::read_field;
use crate::lazy::reads_value;
use crate::text::clone_opt;
use crate::text::concat;
use crate::util::get_id_from_location_header;
use crate::util::id_of_location;

verus! {

/// A bridge as the service describes it.
#[derive(Debug)]
pub struct BridgeInfo {
    pub id: String,
    pub state: String,
    pub bridge_audio: bool,
    pub calls: String,
    pub created_time: String,
    pub activated_time: Option<String>,
    pub completed_time: Option<String>,
}

/// The mathematical value of a [`BridgeInfo`].
pub struct BridgeInfoView {
    pub id: Seq<char>,
    pub state: Seq<char>,
    pub bridge_audio: bool,
    pub calls: Seq<char>,
    pub created_time: Seq<char>,
    pub activated_time: Option<Seq<char>>,
    pub completed_time: Option<Seq<char>>,
}

impl DeepView for BridgeInfo {
    type V = BridgeInfoView;

    open spec fn deep_view(&self) -> BridgeInfoView {
        BridgeInfoView {
            id: self.id@,
            state: self.state@,
            bridge_audio: self.bridge_audio,
            calls: self.calls@,
            created_time: self.created_time@,
            activated_time: self.activated_time.deep_view(),
            completed_time: self.completed_time.deep_view(),
        }
    }
}

impl BridgeInfoView {
    /// The bridge that a JSON document describes: its members are read in the
    /// order of the fields, and the first that fails decides.
    pub open spec fn decode(json: JsonSpec) -> Result<BridgeInfoView, DecoderErrorView> {
        match string_field(json, "id"@) {
            Err(e) => Err(e),
            Ok(id) =>
            match string_field(json, "state"@) {
                Err(e) => Err(e),
                Ok(state) =>
                match boolean_field(json, "bridgeAudio"@) {
                    Err(e) => Err(e),
                    Ok(bridge_audio) =>
                    match string_field(json, "calls"@) {
                        Err(e) => Err(e),
                        Ok(calls) =>
                        match string_field(json, "createdTime"@) {
                            Err(e) => Err(e),
                            Ok(created_time) =>
                            match opt_string_field(json, "activatedTime"@) {
                                Err(e) => Err(e),
                                Ok(activated_time) =>
                                match opt_string_field(json, "completedTime"@) {
                                    Err(e) => Err(e),
                                    Ok(completed_time) =>
                                    Ok(BridgeInfoView { id, state, bridge_audio, calls, created_time, activated_time, completed_time }),
                                },
                            },
                        },
                    },
                },
            },
        }
    }
}

impl BridgeInfo {
    /// Reads the bridge that a JSON document describes.
    pub fn decode(json: &JsonValue) -> (r: Result<BridgeInfo, DecoderError>)
        ensures
            result_view(r) == BridgeInfoView::decode(json.deep_view()),
    {
        let id = match get_string(json, "id") {
            Ok(v) => v,
            Err(e) => {
                return Err(e);
            },
        };
        let state = match get_string(json, "state") {
            Ok(v) => v,
            Err(e) => {
                return Err(e);
            },
        };
        let bridge_audio = match get_boolean(json, "bridgeAudio") {
            Ok(v) => v,
            Err(e) => {
                return Err(e);
            },
        };
        let calls = match get_string(json, "calls") {
            Ok(v) => v,
            Err(e) => {
                return Err(e);
            },
        };
        let created_time = match get_string(json, "createdTime") {
            Ok(v) => v,
            Err(e) => {
                return Err(e);
            },
        };
        let activated_time = match get_opt_string(json, "activatedTime") {
            Ok(v) => v,
            Err(e) => {
                return Err(e);
            },
        };
        let completed_time = match get_opt_string(json, "completedTime") {
            Ok(v) => v,
            Err(e) => {
                return Err(e);
            },
        };
        Ok(BridgeInfo { id, state, bridge_audio, calls, created_time, activated_time, completed_time })
    }
}

#[derive(Debug)]
struct Data {
    state: Lazy<String>,
    bridge_audio: Lazy<bool>,
    created_time: Lazy<String>,
    activated_time: Lazy<Option<String>>,
    completed_time: Lazy<Option<String>>,
}

impl Data {
    spec fn view_as(&self, id: Seq<char>) -> BridgeView {
        BridgeView {
            id,
            state: self.state.deep_view(),
            bridge_audio: self.bridge_audio.deep_view(),
            created_time: self.created_time.deep_view(),
            activated_time: self.activated_time.deep_view(),
            completed_time: self.completed_time.deep_view(),
        }
    }

    /// Fields of which nothing is known yet.
    fn unloaded() -> (r: Data)
        ensures
            r.state is NotLoaded,
            r.bridge_audio is NotLoaded,
            r.created_time is NotLoaded,
            r.activated_time is NotLoaded,
            r.completed_time is NotLoaded,
    {
        Data {
            state: Lazy::NotLoaded,
            bridge_audio: Lazy::NotLoaded,
            created_time: Lazy::NotLoaded,
            activated_time: Lazy::NotLoaded,
            completed_time: Lazy::NotLoaded,
        }
    }
}

/// A bridge: calls that hear each other. Its fields are fetched when one is
/// first read.
#[derive(Debug)]
pub struct Bridge {
    id: String,
    data: Data,
}

/// The mathematical value of a [`Bridge`].
pub struct BridgeView {
    pub id: Seq<char>,
    pub state: Lazy<Seq<char>>,
    pub bridge_audio: Lazy<bool>,
    pub created_time: Lazy<Seq<char>>,
    pub activated_time: Lazy<Option<Seq<char>>>,
    pub completed_time: Lazy<Option<Seq<char>>>,
}

impl DeepView for Bridge {
    type V = BridgeView;

    closed spec fn deep_view(&self) -> BridgeView {
        self.data.view_as(self.id@)
    }
}

impl View for Bridge {
    type V = BridgeView;

    open spec fn view(&self) -> BridgeView {
        self.deep_view()
    }
}

impl BridgeView {
    /// A bridge of which only the identifier is known.
    pub open spec fn unloaded(id: Seq<char>) -> BridgeView {
        BridgeView {
            id,
            state: Lazy::NotLoaded,
            bridge_audio: Lazy::NotLoaded,
            created_time: Lazy::NotLoaded,
            activated_time: Lazy::NotLoaded,
            completed_time: Lazy::NotLoaded,
        }
    }

    /// A bridge as a fetch describes it.
    pub open spec fn from_info(info: BridgeInfoView) -> BridgeView {
        BridgeView {
            id: info.id,
            state: Lazy::Available(info.state),
            bridge_audio: Lazy::Available(info.bridge_audio),
            created_time: Lazy::Available(info.created_time),
            activated_time: Lazy::Available(info.activated_time),
            completed_time: Lazy::Available(info.completed_time),
        }
    }

    /// Whether every field holds a value.
    pub open spec fn complete(self) -> bool {
        &&& self.state is Available
        &&& self.bridge_audio is Available
        &&& self.created_time is Available
        &&& self.activated_time is Available
        &&& self.completed_time is Available
    }

    /// What a request that addresses the bridge by its identifier comes to: an
    /// empty identifier is refused before any request is made, since the
    /// path would be that of the list of all.
    pub open spec fn guarded(self, request: Result<RequestView, CatapultErrorView>) -> Result<
        RequestView,
        CatapultErrorView,
    > {
        if self.id.len() == 0 {
            Err(CatapultErrorView::BadInput("invalid bridge id"@))
        } else {
            request
        }
    }

    /// The path of the bridge.
    pub open spec fn path(self, client: ClientView) -> Seq<char> {
        client.user_path("/bridges/"@ + self.id)
    }

    /// The request that fetches the bridge.
    pub open spec fn load_request(self, client: ClientView) -> Result<RequestView, CatapultErrorView> {
        self.guarded(client.get(self.path(client)))
    }

    /// The bridge after a fetch: every field as the response gives it,
    /// whatever it held before. A response that tells of a failure, or does
    /// not describe a bridge, gives the error instead.
    pub open spec fn loaded(self, res: ResponseView) -> Result<BridgeView, CatapultErrorView> {
        match res.json() {
            Err(e) => Err(e),
            Ok(json) => match BridgeInfoView::decode(json.body) {
                Err(e) => Err(CatapultErrorView::DecoderError(e)),
                Ok(info) => Ok(BridgeView { id: self.id, ..BridgeView::from_info(info) }),
            },
        }
    }

    /// The document that names the calls of a bridge and says whether they
    /// hear each other.
    pub open spec fn body(bridge_audio: bool, call_ids: Seq<Seq<char>>) -> JsonSpec {
        JsonSpec::Object(
            seq![
                ("bridgeAudio"@, JsonSpec::Boolean(bridge_audio)),
                ("callIds"@, JsonSpec::strings(call_ids)),
            ],
        )
    }

    /// The request that creates a bridge of the given calls.
    pub open spec fn create_request(client: ClientView, bridge_audio: bool, call_ids: Seq<Seq<char>>) -> Result<
        RequestView,
        CatapultErrorView,
    > {
        client.post(client.user_path("/bridges"@), BridgeView::body(bridge_audio, call_ids))
    }

    /// The bridge that the response to a creation stands for: its identifier
    /// is the one that the response names, and of its fields only the one
    /// that was asked for is known.
    pub open spec fn created(bridge_audio: bool, res: ResponseView) -> Result<BridgeView, CatapultErrorView> {
        match res.empty() {
            Err(e) => Err(e),
            Ok(headers) => match id_of_location(headers) {
                Err(e) => Err(e),
                Ok(id) => Ok(
                    BridgeView { bridge_audio: Lazy::Available(bridge_audio), ..BridgeView::unloaded(id) },
                ),
            },
        }
    }

    /// The request that a command on the bridge posts.
    pub open spec fn command(self, client: ClientView, json: JsonSpec) -> Result<RequestView, CatapultErrorView> {
        self.guarded(client.post(self.path(client), json))
    }

    /// The request that plays or stops audio on the bridge.
    pub open spec fn audio(self, client: ClientView, json: JsonSpec) -> Result<RequestView, CatapultErrorView> {
        self.guarded(client.post(self.path(client) + "/audio"@, json))
    }

    /// The request that lists the calls of the bridge.
    pub open spec fn calls_request(self, client: ClientView) -> Result<RequestView, CatapultErrorView> {
        self.guarded(client.get(self.path(client) + "/calls"@))
    }
}

impl Data {
    fn from_info(info: &BridgeInfo) -> (r: Data)
        ensures
            r.view_as(info.id@) == BridgeView::from_info(info.deep_view()),
    {
        Data {
            state: Lazy::Available(info.state.clone()),
            bridge_audio: Lazy::Available(info.bridge_audio),
            created_time: Lazy::Available(info.created_time.clone()),
            activated_time: Lazy::Available(clone_opt(&info.activated_time)),
            completed_time: Lazy::Available(clone_opt(&info.completed_time)),
        }
    }
}

impl Bridge {
    /// Refuses a request where an identifier that its path needs is empty.
    pub(crate) fn guarded(&self, request: CatapultResult<Request>) -> (r: CatapultResult<Request>)
        ensures
            result_view(r) == self@.guarded(result_view(request)),
    {
        if self.id.as_str().unicode_len() == 0 {
            Err(CatapultError::bad_input("invalid bridge id"))
        } else {
            request
        }
    }

    /// The path of the bridge.
    fn path(&self, client: &Client) -> (r: String)
        ensures
            r@ == self@.path(client@),
    {
        let rest = concat("/bridges/", self.id.as_str());
        client.user_path(rest.as_str())
    }

    /// The request that fetches the fields.
    pub fn load_request(&self, client: &Client) -> (r: CatapultResult<Request>)
        ensures
            result_view(r) == self@.load_request(client@),
    {
        let path = self.path(client);
        self.guarded(
            client.get_request(path.as_str()),
        )
    }

    /// Takes the response to the request of `load_request` and, where it
    /// describes the bridge, replaces every field by what it says. On an
    /// error nothing changes.
    pub fn load(&mut self, res: Response) -> (r: CatapultResult<()>)
        ensures
            match old(self)@.loaded(res.deep_view()) {
                Ok(after) => r is Ok && final(self)@ == after,
                Err(e) => result_view(r) == Err::<(), CatapultErrorView>(e) && final(self)@ == old(
                    self,
                )@,
            },
    {
        let json = match JsonResponse::new(res) {
            Ok(json) => json,
            Err(e) => {
                return Err(e);
            },
        };
        let info = match BridgeInfo::decode(&json.body) {
            Ok(info) => info,
            Err(e) => {
                return Err(CatapultError::DecoderError(e));
            },
        };
        self.data = Data::from_info(&info);
        Ok(())
    }

    /// The bridge with the given identifier, with nothing fetched yet.
    pub fn get_by_id(id: &str) -> (r: Bridge)
        ensures
            r@ == BridgeView::unloaded(id@),
    {
        Bridge { id: id.to_owned(), data: Data::unloaded() }
    }

    /// The request that creates a bridge of the given calls.
    pub fn create_request(client: &Client, bridge_audio: bool, call_ids: &Vec<String>) -> (r: CatapultResult<
        Request,
    >)
        ensures
            result_view(r) == BridgeView::create_request(client@, bridge_audio, call_ids.deep_view()),
    {
        let path = client.user_path("/bridges");
        let mut map: Vec<(String, JsonValue)> = Vec::new();
        JsonValue::put(&mut map, "bridgeAudio", JsonValue::Boolean(bridge_audio));
        JsonValue::put(&mut map, "callIds", JsonValue::strings(call_ids));
        assert(map.deep_view() =~= BridgeView::body(bridge_audio, call_ids.deep_view())->Object_0);
        let json = JsonValue::object(map);
        client.post_request(path.as_str(), &json)
    }

    /// The bridge that was created, from the response to the request of
    /// `create_request`.
    pub fn create(bridge_audio: bool, res: Response) -> (r: CatapultResult<Bridge>)
        ensures
            result_view(r) == BridgeView::created(bridge_audio, res.deep_view()),
    {
        let res = match EmptyResponse::new(res) {
            Ok(res) => res,
            Err(e) => {
                return Err(e);
            },
        };
        let id = match get_id_from_location_header(&res.headers) {
            Ok(id) => id,
            Err(e) => {
                return Err(e);
            },
        };
        let mut data = Data::unloaded();
        data.bridge_audio.set(bridge_audio);
        Ok(Bridge { id, data })
    }

    /// The request that replaces the calls of the bridge and says whether
    /// they hear each other.
    pub fn update(&self, client: &Client, bridge_audio: bool, call_ids: &Vec<String>) -> (r: CatapultResult<
        Request,
    >)
        ensures
            result_view(r) == self@.command(client@, BridgeView::body(bridge_audio, call_ids.deep_view())),
    {
        let path = self.path(client);
        let mut map: Vec<(String, JsonValue)> = Vec::new();
        JsonValue::put(&mut map, "bridgeAudio", JsonValue::Boolean(bridge_audio));
        JsonValue::put(&mut map, "callIds", JsonValue::strings(call_ids));
        assert(map.deep_view() =~= BridgeView::body(bridge_audio, call_ids.deep_view())->Object_0);
        let json = JsonValue::object(map);
        self.guarded(
            client.post_request(path.as_str(), &json),
        )
    }

    /// The request that takes every call out of the bridge.
    pub fn remove_all_calls(&self, client: &Client) -> (r: CatapultResult<Request>)
        ensures
            result_view(r) == self@.command(
                client@,
                JsonSpec::Object(seq![("callIds"@, JsonSpec::strings(Seq::empty()))]),
            ),
    {
        let path = self.path(client);
        let none: Vec<String> = Vec::new();
        assert(none.deep_view() =~= Seq::<Seq<char>>::empty());
        let mut map: Vec<(String, JsonValue)> = Vec::new();
        JsonValue::put(&mut map, "callIds", JsonValue::strings(&none));
        assert(map.deep_view() =~= seq![("callIds"@, JsonSpec::strings(Seq::empty()))]);
        let json = JsonValue::object(map);
        self.guarded(
            client.post_request(path.as_str(), &json),
        )
    }

    /// The request that lets the calls of the bridge hear each other, or
    /// stops that.
    pub fn enable_audio(&self, client: &Client, enable: bool) -> (r: CatapultResult<Request>)
        ensures
            result_view(r) == self@.command(
                client@,
                JsonSpec::Object(seq![("bridgeAudio"@, JsonSpec::Boolean(enable))]),
            ),
    {
        let path = self.path(client);
        let mut map: Vec<(String, JsonValue)> = Vec::new();
        JsonValue::put(&mut map, "bridgeAudio", JsonValue::Boolean(enable));
        assert(map.deep_view() =~= seq![("bridgeAudio"@, JsonSpec::Boolean(enable))]);
        let json = JsonValue::object(map);
        self.guarded(
            client.post_request(path.as_str(), &json),
        )
    }

    /// The request that plays an audio file to the calls of the bridge.
    pub fn play_audio_file(&self, client: &Client, url: &str, loop_audio: bool) -> (r: CatapultResult<Request>)
        ensures
            result_view(r) == self@.audio(
                client@,
                JsonSpec::Object(
                    seq![
                        ("fileUrl"@, JsonSpec::String(url@)),
                        ("loopEnabled"@, JsonSpec::Boolean(loop_audio)),
                    ],
                ),
            ),
    {
        let path = concat(self.path(client).as_str(), "/audio");
        let mut map: Vec<(String, JsonValue)> = Vec::new();
        JsonValue::put(&mut map, "fileUrl", JsonValue::string(url));
        JsonValue::put(&mut map, "loopEnabled", JsonValue::Boolean(loop_audio));
        assert(map.deep_view() =~= seq![
            ("fileUrl"@, JsonSpec::String(url@)),
            ("loopEnabled"@, JsonSpec::Boolean(loop_audio)),
        ]);
        let json = JsonValue::object(map);
        self.guarded(
            client.post_request(path.as_str(), &json),
        )
    }

    pub fn get_id(&self) -> (r: String)
        ensures
            r@ == self@.id,
    {
        self.id.clone()
    }

    /// The request that lists the calls of the bridge.
    pub fn get_calls_request(&self, client: &Client) -> (r: CatapultResult<Request>)
        ensures
            result_view(r) == self@.calls_request(client@),
    {
        let path = concat(self.path(client).as_str(), "/calls");
        self.guarded(
            client.get_request(path.as_str()),
        )
    }

    /// The calls of the bridge, from the response to the request of
    /// `get_calls_request`.
    pub fn get_calls(res: Response) -> (r: CatapultResult<Vec<Call>>)
        ensures
            result_view(r) == CallView::list(res.deep_view()),
    {
        Call::get_calls_from_bridge(res)
    }

    pub fn get_state(&self, client: &Client) -> (r: CatapultResult<Read<String>>)
        ensures
            result_view(r) == read_field(self@.state, self@.load_request(client@)),
    {
        match &self.data.state {
            Lazy::Available(v) => Ok(Read::Value(v.clone())),
            Lazy::NotLoaded => Read::load(self.load_request(client)),
        }
    }

    pub fn get_bridge_audio(&self, client: &Client) -> (r: CatapultResult<Read<bool>>)
        ensures
            result_view(r) == read_field(self@.bridge_audio, self@.load_request(client@)),
    {
        match &self.data.bridge_audio {
            Lazy::Available(v) => Ok(Read::Value(*v)),
            Lazy::NotLoaded => Read::load(self.load_request(client)),
        }
    }

    pub fn get_created_time(&self, client: &Client) -> (r: CatapultResult<Read<String>>)
        ensures
            result_view(r) == read_field(self@.created_time, self@.load_request(client@)),
    {
        match &self.data.created_time {
            Lazy::Available(v) => Ok(Read::Value(v.clone())),
            Lazy::NotLoaded => Read::load(self.load_request(client)),
        }
    }

    pub fn get_activated_time(&self, client: &Client) -> (r: CatapultResult<Read<Option<String>>>)
        ensures
            result_view(r) == read_field(self@.activated_time, self@.load_request(client@)),
    {
        match &self.data.activated_time {
            Lazy::Available(v) => Ok(Read::Value(clone_opt(v))),
            Lazy::NotLoaded => Read::load(self.load_request(client)),
        }
    }

    pub fn get_completed_time(&self, client: &Client) -> (r: CatapultResult<Read<Option<String>>>)
        ensures
            result_view(r) == read_field(self@.completed_time, self@.load_request(client@)),
    {
        match &self.data.completed_time {
            Lazy::Available(v) => Ok(Read::Value(clone_opt(v))),
            Lazy::NotLoaded => Read::load(self.load_request(client)),
        }
    }
}

/// A bridge that was made from what identifies it alone asks for one load when
/// a field is read, whichever field it is. Once a load has succeeded, the read
/// of any field gives its value and asks for no request.
pub proof fn lemma_load_once(id: Seq<char>, client: ClientView, res: ResponseView)
    ensures
        ({
            let fresh = BridgeView::unloaded(id);
            let load = fresh.load_request(client);
            let after = fresh.loaded(res);
            &&& asks_load(fresh.state, load)
            &&& asks_load(fresh.bridge_audio, load)
            &&& asks_load(fresh.created_time, load)
            &&& asks_load(fresh.activated_time, load)
            &&& asks_load(fresh.completed_time, load)
            &&& after is Ok ==> reads_value(after->Ok_0.state, load)
            &&& after is Ok ==> reads_value(after->Ok_0.bridge_audio, load)
            &&& after is Ok ==> reads_value(after->Ok_0.created_time, load)
            &&& after is Ok ==> reads_value(after->Ok_0.activated_time, load)
            &&& after is Ok ==> reads_value(after->Ok_0.completed_time, load)
        }),
{
}

/// A load replaces every field, whatever was cached: the last fetch wins, and
/// nothing of what was there before is merged in.
pub proof fn lemma_last_fetch_wins(a: BridgeView, b: BridgeView, res: ResponseView)
    requires
        a.id == b.id,
    ensures
        a.loaded(res) == b.loaded(res),
{
}

} // verus!
