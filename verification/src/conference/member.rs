use vstd::prelude::*;
use vstd::string::StrSliceExecFns;
use vstd::utf8::encode_utf8;

use crate::client::ApiResponse;
use crate::client::Client;
use crate::client::ClientView;
use crate::client::EmptyResponse;
use crate::client::JsonResponse;
use crate::client::finish;
use crate::codec::DecoderError;
use crate::codec::DecoderErrorView;
use crate::codec::boolean_field;
use crate::codec::expected_error;
use crate::codec::get_boolean;
use crate::codec::get_opt_string;
use crate::codec::get_string;
use crate::codec::lemma_read_items_fails;
use crate::codec::opt_string_field;
use crate::codec::read_items;
use crate::codec::read_list;
use crate::codec::result_view;
use crate::codec::string_field;
use crate::conference::Conference;
use crate::error::CatapultError;
use crate::error::CatapultErrorView;
use crate::error::CatapultResult;
use crate::http::Request;
use crate::http::RequestView;
use crate::http::Response;
use crate::http::ResponseView;
use crate::json::JsonSpec;
use crate::json::JsonValue;
use crate::json::lazy_boolean;
use crate::lazy::Lazy;
use crate::lazy::Read;
use crate::lazy::asks_load;
use crate::lazy::read_field;
use crate::lazy::reads_value;
use crate::text::clone_opt;
use crate::text::concat;
use crate::text::str_eq;
use crate::util::get_id_from_location_header;
use crate::util::id_of_location;
use crate::voice::Voice;

verus! {

/// Where a member of a conference stands.
#[derive(Debug, Clone, Copy, PartialEq, Eq, Structural)]
pub enum State {
    Active,
    Completed,
}

impl DeepView for State {
    type V = State;

    open spec fn deep_view(&self) -> State {
        *self
    }
}

impl State {
    /// The word that the service uses for this value.
    pub open spec fn text(self) -> Seq<char> {
        match self {
            State::Active => "active"@,
            State::Completed => "completed"@,
        }
    }

    /// The value that a word of the service stands for. A word that stands
    /// for none is an error, not some value picked in its place.
    pub open spec fn of_text(text: Seq<char>) -> Result<State, CatapultErrorView> {
        if text == "active"@ {
            Ok(State::Active)
        } else if text == "completed"@ {
            Ok(State::Completed)
        } else {
            Err(CatapultErrorView::Unexpected("unknown member state: "@ + text))
        }
    }

    /// Reads the value that a word of the service stands for.
    pub fn parse(text: &str) -> (r: CatapultResult<State>)
        ensures
            result_view(r) == State::of_text(text@),
    {
        if str_eq(text, "active") {
            Ok(State::Active)
        } else if str_eq(text, "completed") {
            Ok(State::Completed)
        } else {
            Err(CatapultError::Unexpected(concat("unknown member state: ", text)))
        }
    }
}

/// Each state is read back from the word that is written for it.
pub proof fn lemma_state_words(value: State)
    ensures
        State::of_text(value.text()) == Ok::<State, CatapultErrorView>(value),
{
    reveal_strlit("active");
    reveal_strlit("completed");
    match value {
        State::Active => {},
        State::Completed => {
            assert("completed"@.len() != "active"@.len());
        },
    }
}

/// A member of a conference as the service describes it.
#[derive(Debug)]
pub struct MemberInfo {
    pub added_time: String,
    pub removed_time: Option<String>,
    pub hold: bool,
    pub id: String,
    pub mute: bool,
    pub state: String,
    pub join_tone: bool,
    pub leaving_tone: bool,
}

/// The mathematical value of a [`MemberInfo`].
pub struct MemberInfoView {
    pub added_time: Seq<char>,
    pub removed_time: Option<Seq<char>>,
    pub hold: bool,
    pub id: Seq<char>,
    pub mute: bool,
    pub state: Seq<char>,
    pub join_tone: bool,
    pub leaving_tone: bool,
}

impl DeepView for MemberInfo {
    type V = MemberInfoView;

    open spec fn deep_view(&self) -> MemberInfoView {
        MemberInfoView {
            added_time: self.added_time@,
            removed_time: self.removed_time.deep_view(),
            hold: self.hold,
            id: self.id@,
            mute: self.mute,
            state: self.state@,
            join_tone: self.join_tone,
            leaving_tone: self.leaving_tone,
        }
    }
}

impl MemberInfoView {
    /// The member that a JSON document describes: its members are read in the
    /// order of the fields, and the first that fails decides.
    pub open spec fn decode(json: JsonSpec) -> Result<MemberInfoView, DecoderErrorView> {
        match string_field(json, "addedTime"@) {
            Err(e) => Err(e),
            Ok(added_time) =>
            match opt_string_field(json, "removedTime"@) {
                Err(e) => Err(e),
                Ok(removed_time) =>
                match boolean_field(json, "hold"@) {
                    Err(e) => Err(e),
                    Ok(hold) =>
                    match string_field(json, "id"@) {
                        Err(e) => Err(e),
                        Ok(id) =>
                        match boolean_field(json, "mute"@) {
                            Err(e) => Err(e),
                            Ok(mute) =>
                            match string_field(json, "state"@) {
                                Err(e) => Err(e),
                                Ok(state) =>
                                match boolean_field(json, "joinTone"@) {
                                    Err(e) => Err(e),
                                    Ok(join_tone) =>
                                    match boolean_field(json, "leavingTone"@) {
                                        Err(e) => Err(e),
                                        Ok(leaving_tone) =>
                                        Ok(MemberInfoView { added_time, removed_time, hold, id, mute, state, join_tone, leaving_tone }),
                                    },
                                },
                            },
                        },
                    },
                },
            },
        }
    }
}

impl MemberInfo {
    /// Reads the member that a JSON document describes.
    pub fn decode(json: &JsonValue) -> (r: Result<MemberInfo, DecoderError>)
        ensures
            result_view(r) == MemberInfoView::decode(json.deep_view()),
    {
        let added_time = match get_string(json, "addedTime") {
            Ok(v) => v,
            Err(e) => {
                return Err(e);
            },
        };
        let removed_time = match get_opt_string(json, "removedTime") {
            Ok(v) => v,
            Err(e) => {
                return Err(e);
            },
        };
        let hold = match get_boolean(json, "hold") {
            Ok(v) => v,
            Err(e) => {
                return Err(e);
            },
        };
        let id = match get_string(json, "id") {
            Ok(v) => v,
            Err(e) => {
                return Err(e);
            },
        };
        let mute = match get_boolean(json, "mute") {
            Ok(v) => v,
            Err(e) => {
                return Err(e);
            },
        };
        let state = match get_string(json, "state") {
            Ok(v) => v,
            Err(e) => {
                return Err(e);
            },
        };
        let join_tone = match get_boolean(json, "joinTone") {
            Ok(v) => v,
            Err(e) => {
                return Err(e);
            },
        };
        let leaving_tone = match get_boolean(json, "leavingTone") {
            Ok(v) => v,
            Err(e) => {
                return Err(e);
            },
        };
        Ok(MemberInfo { added_time, removed_time, hold, id, mute, state, join_tone, leaving_tone })
    }
}

/// The members that a JSON array describes, in its order.
pub open spec fn decode_all(json: JsonSpec) -> Result<Seq<MemberInfoView>, DecoderErrorView> {
    read_list(json, |j: JsonSpec| MemberInfoView::decode(j))
}

/// Reads the members that a JSON array describes.
pub fn decode_list(json: &JsonValue) -> (r: Result<Vec<MemberInfo>, DecoderError>)
    ensures
        result_view(r) == decode_all(json.deep_view()),
{
    match json {
        JsonValue::Array(items) => {
            let ghost all = json.model()->Array_0;
            let ghost read = |j: JsonSpec| MemberInfoView::decode(j);
            let mut out: Vec<MemberInfo> = Vec::new();
            let mut i: usize = 0;
            assert(all.take(0) =~= Seq::empty());
            assert(out.deep_view() =~= Seq::empty());
            while i < items.len()
                invariant
                    i <= items.len(),
                    all.len() == items.len(),
                    json.model() == JsonSpec::Array(all),
                    forall|k: int| 0 <= k < items.len() ==> #[trigger] all[k] == items[k].model(),
                    read == (|j: JsonSpec| MemberInfoView::decode(j)),
                    read_items(all.take(i as int), read) == Ok::<Seq<MemberInfoView>, DecoderErrorView>(
                        out.deep_view(),
                    ),
                decreases items.len() - i,
            {
                let ghost before = out.deep_view();
                assert(all.take(i + 1).drop_last() =~= all.take(i as int));
                assert(all.take(i + 1).last() == items[i as int].model());
                match MemberInfo::decode(&items[i]) {
                    Ok(item) => {
                        let ghost v = item.deep_view();
                        out.push(item);
                        assert(out.deep_view() =~= before.push(v));
                    },
                    Err(e) => {
                        proof {
                            lemma_read_items_fails(all, read, i + 1);
                        }
                        return Err(e);
                    },
                }
                i += 1;
            }
            assert(all.take(i as int) =~= all);
            Ok(out)
        },
        _ => Err(expected_error("Array", json)),
    }
}

#[derive(Debug)]
struct Data {
    added_time: Lazy<String>,
    removed_time: Lazy<Option<String>>,
    join_tone: Lazy<bool>,
    leaving_tone: Lazy<bool>,
    mute: Lazy<bool>,
    hold: Lazy<bool>,
    state: Lazy<State>,
}

impl Data {
    spec fn view_as(&self, id: Seq<char>, conference_id: Seq<char>) -> MemberView {
        MemberView {
            id,
            conference_id,
            added_time: self.added_time.deep_view(),
            removed_time: self.removed_time.deep_view(),
            join_tone: self.join_tone.deep_view(),
            leaving_tone: self.leaving_tone.deep_view(),
            mute: self.mute.deep_view(),
            hold: self.hold.deep_view(),
            state: self.state.deep_view(),
        }
    }

    /// Fields of which nothing is known yet.
    fn unloaded() -> (r: Data)
        ensures
            r.added_time is NotLoaded,
            r.removed_time is NotLoaded,
            r.join_tone is NotLoaded,
            r.leaving_tone is NotLoaded,
            r.mute is NotLoaded,
            r.hold is NotLoaded,
            r.state is NotLoaded,
    {
        Data {
            added_time: Lazy::NotLoaded,
            removed_time: Lazy::NotLoaded,
            join_tone: Lazy::NotLoaded,
            leaving_tone: Lazy::NotLoaded,
            mute: Lazy::NotLoaded,
            hold: Lazy::NotLoaded,
            state: Lazy::NotLoaded,
        }
    }
}

/// A member of a conference: a call that takes part in it. Its fields are
/// fetched when one is first read.
#[derive(Debug)]
pub struct Member {
    id: String,
    conference_id: String,
    data: Data,
}

/// The mathematical value of a [`Member`].
pub struct MemberView {
    pub id: Seq<char>,
    pub conference_id: Seq<char>,
    pub added_time: Lazy<Seq<char>>,
    pub removed_time: Lazy<Option<Seq<char>>>,
    pub join_tone: Lazy<bool>,
    pub leaving_tone: Lazy<bool>,
    pub mute: Lazy<bool>,
    pub hold: Lazy<bool>,
    pub state: Lazy<State>,
}

impl DeepView for Member {
    type V = MemberView;

    closed spec fn deep_view(&self) -> MemberView {
        self.data.view_as(self.id@, self.conference_id@)
    }
}

impl View for Member {
    type V = MemberView;

    open spec fn view(&self) -> MemberView {
        self.deep_view()
    }
}

/// The members that their descriptions stand for; the first description
/// that names a state that cannot be read decides.
pub open spec fn members_of(conference_id: Seq<char>, infos: Seq<MemberInfoView>) -> Result<
    Seq<MemberView>,
    CatapultErrorView,
>
    decreases infos.len(),
{
    if infos.len() == 0 {
        Ok(Seq::empty())
    } else {
        match members_of(conference_id, infos.drop_last()) {
            Err(e) => Err(e),
            Ok(head) => match MemberView::from_info(conference_id, infos.last()) {
                Err(e) => Err(e),
                Ok(item) => Ok(head.push(item)),
            },
        }
    }
}

/// Once a prefix of the descriptions fails, the whole fails in the same way.
proof fn lemma_members_of_fails(conference_id: Seq<char>, infos: Seq<MemberInfoView>, n: int)
    requires
        0 <= n <= infos.len(),
        members_of(conference_id, infos.take(n)) is Err,
    ensures
        members_of(conference_id, infos) == members_of(conference_id, infos.take(n)),
    decreases infos.len() - n,
{
    if n == infos.len() {
        assert(infos.take(n) =~= infos);
    } else {
        assert(infos.take(n + 1).drop_last() =~= infos.take(n));
        lemma_members_of_fails(conference_id, infos, n + 1);
    }
}

impl MemberView {
    /// A member of which only the identifiers are known.
    pub open spec fn unloaded(id: Seq<char>, conference_id: Seq<char>) -> MemberView {
        MemberView {
            id,
            conference_id,
            added_time: Lazy::NotLoaded,
            removed_time: Lazy::NotLoaded,
            join_tone: Lazy::NotLoaded,
            leaving_tone: Lazy::NotLoaded,
            mute: Lazy::NotLoaded,
            hold: Lazy::NotLoaded,
            state: Lazy::NotLoaded,
        }
    }

    /// Whether every field holds a value.
    pub open spec fn complete(self) -> bool {
        &&& self.added_time is Available
        &&& self.removed_time is Available
        &&& self.join_tone is Available
        &&& self.leaving_tone is Available
        &&& self.mute is Available
        &&& self.hold is Available
        &&& self.state is Available
    }

    /// A member of the given conference as a fetch or a listing describes
    /// it; the state is told by its word.
    pub open spec fn from_info(conference_id: Seq<char>, info: MemberInfoView) -> Result<MemberView, CatapultErrorView> {
        match State::of_text(info.state) {
            Err(e) => Err(e),
            Ok(state) => Ok(
                MemberView {
                    id: info.id,
                    conference_id,
                    added_time: Lazy::Available(info.added_time),
                    removed_time: Lazy::Available(info.removed_time),
                    join_tone: Lazy::Available(info.join_tone),
                    leaving_tone: Lazy::Available(info.leaving_tone),
                    mute: Lazy::Available(info.mute),
                    hold: Lazy::Available(info.hold),
                    state: Lazy::Available(state),
                },
            ),
        }
    }

    /// What a request that addresses the member by its identifiers comes to: an
    /// identifier that is empty is refused before any request is made, since
    /// the path would be that of a list.
    pub open spec fn guarded(self, request: Result<RequestView, CatapultErrorView>) -> Result<
        RequestView,
        CatapultErrorView,
    > {
        if self.id.len() == 0 {
            Err(CatapultErrorView::BadInput("invalid member id"@))
        } else if self.conference_id.len() == 0 {
            Err(CatapultErrorView::BadInput("invalid conference id"@))
        } else {
            request
        }
    }

    /// The path of the member.
    pub open spec fn path(self, client: ClientView) -> Seq<char> {
        client.user_path("/conferences/"@ + self.conference_id + "/members/"@ + self.id)
    }

    /// The request that fetches the member. A member without an identifier
    /// cannot be fetched: its path would be that of the list of all
    /// members.
    pub open spec fn load_request(self, client: ClientView) -> Result<RequestView, CatapultErrorView> {
        self.guarded(client.get(self.path(client)))
    }

    /// The member after a fetch: every field as the response gives it,
    /// whatever it held before. A response that tells of a failure, or does
    /// not describe a member, gives the error instead.
    pub open spec fn loaded(self, res: ResponseView) -> Result<MemberView, CatapultErrorView> {
        match res.json() {
            Err(e) => Err(e),
            Ok(json) => match MemberInfoView::decode(json.body) {
                Err(e) => Err(CatapultErrorView::DecoderError(e)),
                Ok(info) => match MemberView::from_info(self.conference_id, info) {
                    Err(e) => Err(e),
                    Ok(fresh) => Ok(MemberView { id: self.id, ..fresh }),
                },
            },
        }
    }

    /// The document of a partial update: a member for each field that can
    /// be written and holds a value, and none for the others.
    pub open spec fn save_body(self) -> JsonSpec {
        JsonSpec::Object(
            lazy_boolean("joinTone"@, self.join_tone)
            + lazy_boolean("leavingTone"@, self.leaving_tone)
            + lazy_boolean("mute"@, self.mute)
            + lazy_boolean("hold"@, self.hold),
        )
    }

    /// The request that writes the fields that hold a value back to the
    /// service.
    pub open spec fn save_request(self, client: ClientView) -> Result<RequestView, CatapultErrorView> {
        self.guarded(client.post(self.path(client), self.save_body()))
    }

    /// The request that a command on the member posts.
    pub open spec fn command(self, client: ClientView, json: JsonSpec) -> Result<RequestView, CatapultErrorView> {
        self.guarded(client.post(self.path(client), json))
    }

    /// The request that plays, speaks or stops audio for the member.
    pub open spec fn audio(self, client: ClientView, json: JsonSpec) -> Result<RequestView, CatapultErrorView> {
        self.guarded(client.post(self.path(client) + "/audio"@, json))
    }

    /// The request that takes the member out of the conference.
    pub open spec fn remove_request(self, client: ClientView) -> Result<RequestView, CatapultErrorView> {
        self.command(client, JsonSpec::Object(seq![("state"@, JsonSpec::String("completed"@))]))
    }

    /// The member after the response to its removal: it is completed where
    /// the response tells of success, and unchanged where it does not.
    pub open spec fn removed(self, res: ResponseView) -> Result<MemberView, CatapultErrorView> {
        match res.done() {
            Err(e) => Err(e),
            Ok(_) => Ok(MemberView { state: Lazy::Available(State::Completed), ..self }),
        }
    }

    /// The members of a conference that a response to a listing holds, each
    /// with every field filled.
    pub open spec fn list(conference_id: Seq<char>, res: ResponseView) -> Result<Seq<MemberView>, CatapultErrorView> {
        match res.json() {
            Err(e) => Err(e),
            Ok(json) => match decode_all(json.body) {
                Err(e) => Err(CatapultErrorView::DecoderError(e)),
                Ok(infos) => members_of(conference_id, infos),
            },
        }
    }
}

impl Data {
    fn from_info(info: &MemberInfo) -> (r: CatapultResult<Data>)
        ensures
            forall|conference_id: Seq<char>|
                match #[trigger] MemberView::from_info(conference_id, info.deep_view()) {
                    Ok(v) => r is Ok && r->Ok_0.view_as(info.id@, conference_id) == v,
                    Err(e) => r is Err && r->Err_0.deep_view() == e,
                },
    {
        let state = match State::parse(info.state.as_str()) {
            Ok(state) => state,
            Err(e) => {
                return Err(e);
            },
        };
        Ok(
            Data {
                added_time: Lazy::Available(info.added_time.clone()),
                removed_time: Lazy::Available(clone_opt(&info.removed_time)),
                join_tone: Lazy::Available(info.join_tone),
                leaving_tone: Lazy::Available(info.leaving_tone),
                mute: Lazy::Available(info.mute),
                hold: Lazy::Available(info.hold),
                state: Lazy::Available(state),
            },
        )
    }
}

impl Member {
    /// Refuses a request where an identifier that its path needs is empty.
    pub(crate) fn guarded(&self, request: CatapultResult<Request>) -> (r: CatapultResult<Request>)
        ensures
            result_view(r) == self@.guarded(result_view(request)),
    {
        if self.id.as_str().unicode_len() == 0 {
            Err(CatapultError::bad_input("invalid member id"))
        } else if self.conference_id.as_str().unicode_len() == 0 {
            Err(CatapultError::bad_input("invalid conference id"))
        } else {
            request
        }
    }

    /// The path of the member.
    fn path(&self, client: &Client) -> (r: String)
        ensures
            r@ == self@.path(client@),
    {
        let a = concat("/conferences/", self.conference_id.as_str());
        let b = concat(a.as_str(), "/members/");
        let c = concat(b.as_str(), self.id.as_str());
        proof {
            assert(c@ =~= "/conferences/"@ + self@.conference_id + "/members/"@ + self@.id);
        }
        client.user_path(c.as_str())
    }

    /// The request that writes the fields that hold a value back to the
    /// service, and no others.
    pub fn save(&self, client: &Client) -> (r: CatapultResult<Request>)
        ensures
            result_view(r) == self@.save_request(client@),
            self@.save_body() == JsonSpec::Object(Seq::empty()) && r is Ok ==> r->Ok_0.body@ == encode_utf8(
                "{}"@,
            ),
    {
        let path = self.path(client);
        let mut map: Vec<(String, JsonValue)> = Vec::new();
        JsonValue::put_boolean(&mut map, "joinTone", &self.data.join_tone);
        assert(map.deep_view() =~= lazy_boolean("joinTone"@, self@.join_tone));
        JsonValue::put_boolean(&mut map, "leavingTone", &self.data.leaving_tone);
        JsonValue::put_boolean(&mut map, "mute", &self.data.mute);
        JsonValue::put_boolean(&mut map, "hold", &self.data.hold);
        let json = JsonValue::object(map);
        self.guarded(
            client.post_request(path.as_str(), &json),
        )
    }

    /// The request that fetches the fields.
    pub fn load_request(&self, client: &Client) -> (r: CatapultResult<Request>)
        ensures
            result_view(r) == self@.load_request(client@),
    {
        if self.id.as_str().unicode_len() == 0 {
            return Err(CatapultError::bad_input("invalid member id"));
        }
        let path = self.path(client);
        self.guarded(
            client.get_request(path.as_str()),
        )
    }

    /// Takes the response to the request of `load_request` and, where it
    /// describes the member, replaces every field by what it says. On an
    /// error nothing changes.
    pub fn load(&mut self, res: Response) -> (r: CatapultResult<()>)
        ensures
            match old(self)@.loaded(res.deep_view()) {
                Ok(after) => r is Ok && final(self)@ == after,
                Err(e) => result_view(r) == Err::<(), CatapultErrorView>(e) && final(self)@ == old(
                    self,
                )@,
            },
    {
        let json = match JsonResponse::new(res) {
            Ok(json) => json,
            Err(e) => {
                return Err(e);
            },
        };
        let info = match MemberInfo::decode(&json.body) {
            Ok(info) => info,
            Err(e) => {
                return Err(CatapultError::DecoderError(e));
            },
        };
        let ghost fresh = MemberView::from_info(self@.conference_id, info.deep_view());
        self.data = match Data::from_info(&info) {
            Ok(data) => data,
            Err(e) => {
                return Err(e);
            },
        };
        Ok(())
    }

    /// The member with the given identifier in the given conference, with
    /// nothing fetched yet.
    pub fn get(id: &str, conference_id: &str) -> (r: Member)
        ensures
            r@ == MemberView::unloaded(id@, conference_id@),
    {
        Member { id: id.to_owned(), conference_id: conference_id.to_owned(), data: Data::unloaded() }
    }

    /// The request that takes the member out of the conference.
    pub fn remove_request(&self, client: &Client) -> (r: CatapultResult<Request>)
        ensures
            result_view(r) == self@.remove_request(client@),
    {
        let path = self.path(client);
        let mut map: Vec<(String, JsonValue)> = Vec::new();
        JsonValue::put(&mut map, "state", JsonValue::string("completed"));
        assert(map.deep_view() =~= seq![("state"@, JsonSpec::String("completed"@))]);
        let json = JsonValue::object(map);
        self.guarded(client.post_request(path.as_str(), &json))
    }

    /// Takes the response to the request of `remove_request`: where it
    /// tells of success the member is completed from now on.
    pub fn remove(&mut self, res: Response) -> (r: CatapultResult<()>)
        ensures
            match old(self)@.removed(res.deep_view()) {
                Ok(after) => r is Ok && final(self)@ == after,
                Err(e) => result_view(r) == Err::<(), CatapultErrorView>(e) && final(self)@ == old(
                    self,
                )@,
            },
    {
        match finish(res) {
            Ok(()) => {
                self.data.state.set(State::Completed);
                Ok(())
            },
            Err(e) => Err(e),
        }
    }

    /// The request that speaks a sentence to the member.
    pub fn speak_sentence(&self, client: &Client, sentence: &str, loop_audio: bool, voice: Voice, tag: Option<&str>) -> (r: CatapultResult<Request>)
        ensures
            result_view(r) == self@.audio(
                client@,
                JsonSpec::Object(
                    seq![
                        ("sentence"@, JsonSpec::String(sentence@)),
                        ("loopEnabled"@, JsonSpec::Boolean(loop_audio)),
                        ("voice"@, JsonSpec::String(voice.name())),
                        ("tag"@, JsonSpec::opt_string(tag.deep_view())),
                    ],
                ),
            ),
    {
        let path = concat(self.path(client).as_str(), "/audio");
        let mut map: Vec<(String, JsonValue)> = Vec::new();
        JsonValue::put(&mut map, "sentence", JsonValue::string(sentence));
        JsonValue::put(&mut map, "loopEnabled", JsonValue::Boolean(loop_audio));
        JsonValue::put(&mut map, "voice", JsonValue::string(voice.get_name().as_str()));
        JsonValue::put(&mut map, "tag", JsonValue::opt_str(tag));
        assert(map.deep_view() =~= seq![
            ("sentence"@, JsonSpec::String(sentence@)),
            ("loopEnabled"@, JsonSpec::Boolean(loop_audio)),
            ("voice"@, JsonSpec::String(voice.name())),
            ("tag"@, JsonSpec::opt_string(tag.deep_view())),
        ]);
        let json = JsonValue::object(map);
        self.guarded(
            client.post_request(path.as_str(), &json),
        )
    }

    /// The request that plays an audio file to the member.
    pub fn play_audio_file(&self, client: &Client, url: &str, loop_audio: bool, tag: Option<&str>) -> (r: CatapultResult<Request>)
        ensures
            result_view(r) == self@.audio(
                client@,
                JsonSpec::Object(
                    seq![
                        ("fileUrl"@, JsonSpec::String(url@)),
                        ("loopEnabled"@, JsonSpec::Boolean(loop_audio)),
                        ("tag"@, JsonSpec::opt_string(tag.deep_view())),
                    ],
                ),
            ),
    {
        let path = concat(self.path(client).as_str(), "/audio");
        let mut map: Vec<(String, JsonValue)> = Vec::new();
        JsonValue::put(&mut map, "fileUrl", JsonValue::string(url));
        JsonValue::put(&mut map, "loopEnabled", JsonValue::Boolean(loop_audio));
        JsonValue::put(&mut map, "tag", JsonValue::opt_str(tag));
        assert(map.deep_view() =~= seq![
            ("fileUrl"@, JsonSpec::String(url@)),
            ("loopEnabled"@, JsonSpec::Boolean(loop_audio)),
            ("tag"@, JsonSpec::opt_string(tag.deep_view())),
        ]);
        let json = JsonValue::object(map);
        self.guarded(
            client.post_request(path.as_str(), &json),
        )
    }

    /// The request that stops the file that plays or the sentence that is
    /// spoken. Nothing else stops audio that repeats.
    pub fn stop_audio(&self, client: &Client) -> (r: CatapultResult<Request>)
        ensures
            result_view(r) == self@.audio(
                client@,
                JsonSpec::Object(
                    seq![
                        ("fileUrl"@, JsonSpec::String(""@)),
                    ],
                ),
            ),
    {
        let path = concat(self.path(client).as_str(), "/audio");
        let mut map: Vec<(String, JsonValue)> = Vec::new();
        JsonValue::put(&mut map, "fileUrl", JsonValue::string(""));
        assert(map.deep_view() =~= seq![
            ("fileUrl"@, JsonSpec::String(""@)),
        ]);
        let json = JsonValue::object(map);
        self.guarded(
            client.post_request(path.as_str(), &json),
        )
    }

    pub fn set_mute(&mut self, value: bool)
        ensures
            final(self)@ == (MemberView { mute: Lazy::Available(value), ..old(self)@ }),
    {
        self.data.mute.set(value);
    }

    pub fn set_hold(&mut self, value: bool)
        ensures
            final(self)@ == (MemberView { hold: Lazy::Available(value), ..old(self)@ }),
    {
        self.data.hold.set(value);
    }

    pub fn join_tone(&mut self, value: bool)
        ensures
            final(self)@ == (MemberView { join_tone: Lazy::Available(value), ..old(self)@ }),
    {
        self.data.join_tone.set(value);
    }

    pub fn leaving_tone(&mut self, value: bool)
        ensures
            final(self)@ == (MemberView { leaving_tone: Lazy::Available(value), ..old(self)@ }),
    {
        self.data.leaving_tone.set(value);
    }

    pub fn get_id(&self) -> (r: String)
        ensures
            r@ == self@.id,
    {
        self.id.clone()
    }

    pub fn get_added_time(&self, client: &Client) -> (r: CatapultResult<Read<String>>)
        ensures
            result_view(r) == read_field(self@.added_time, self@.load_request(client@)),
    {
        match &self.data.added_time {
            Lazy::Available(v) => Ok(Read::Value(v.clone())),
            Lazy::NotLoaded => Read::load(self.load_request(client)),
        }
    }

    pub fn get_removed_time(&self, client: &Client) -> (r: CatapultResult<Read<Option<String>>>)
        ensures
            result_view(r) == read_field(self@.removed_time, self@.load_request(client@)),
    {
        match &self.data.removed_time {
            Lazy::Available(v) => Ok(Read::Value(clone_opt(v))),
            Lazy::NotLoaded => Read::load(self.load_request(client)),
        }
    }

    pub fn get_join_tone(&self, client: &Client) -> (r: CatapultResult<Read<bool>>)
        ensures
            result_view(r) == read_field(self@.join_tone, self@.load_request(client@)),
    {
        match &self.data.join_tone {
            Lazy::Available(v) => Ok(Read::Value(*v)),
            Lazy::NotLoaded => Read::load(self.load_request(client)),
        }
    }

    pub fn get_leaving_tone(&self, client: &Client) -> (r: CatapultResult<Read<bool>>)
        ensures
            result_view(r) == read_field(self@.leaving_tone, self@.load_request(client@)),
    {
        match &self.data.leaving_tone {
            Lazy::Available(v) => Ok(Read::Value(*v)),
            Lazy::NotLoaded => Read::load(self.load_request(client)),
        }
    }

    pub fn get_mute(&self, client: &Client) -> (r: CatapultResult<Read<bool>>)
        ensures
            result_view(r) == read_field(self@.mute, self@.load_request(client@)),
    {
        match &self.data.mute {
            Lazy::Available(v) => Ok(Read::Value(*v)),
            Lazy::NotLoaded => Read::load(self.load_request(client)),
        }
    }

    pub fn get_hold(&self, client: &Client) -> (r: CatapultResult<Read<bool>>)
        ensures
            result_view(r) == read_field(self@.hold, self@.load_request(client@)),
    {
        match &self.data.hold {
            Lazy::Available(v) => Ok(Read::Value(*v)),
            Lazy::NotLoaded => Read::load(self.load_request(client)),
        }
    }

    pub fn get_state(&self, client: &Client) -> (r: CatapultResult<Read<State>>)
        ensures
            result_view(r) == read_field(self@.state, self@.load_request(client@)),
    {
        match &self.data.state {
            Lazy::Available(v) => Ok(Read::Value(*v)),
            Lazy::NotLoaded => Read::load(self.load_request(client)),
        }
    }

    /// The request that lists the members of a conference.
    pub fn list_members_from_conference_request(conf: &Conference, client: &Client) -> (r: CatapultResult<
        Request,
    >)
        ensures
            result_view(r) == conf@.members_request(client@),
    {
        let a = concat("/conferences/", conf.get_id().as_str());
        let b = concat(a.as_str(), "/members");
        let path = client.user_path(b.as_str());
        proof {
            assert(path@ =~= conf@.path(client@) + "/members"@);
        }
        conf.guarded(client.get_request(path.as_str()))
    }

    /// The members of a conference, from the response to the request of
    /// `list_members_from_conference_request`.
    pub fn list_members_from_conference(conf: &Conference, res: Response) -> (r: CatapultResult<Vec<Member>>)
        ensures
            result_view(r) == MemberView::list(conf@.id, res.deep_view()),
    {
        let ghost response = res.deep_view();
        let json = match JsonResponse::new(res) {
            Ok(json) => json,
            Err(e) => {
                return Err(e);
            },
        };
        let infos = match decode_list(&json.body) {
            Ok(infos) => infos,
            Err(e) => {
                return Err(CatapultError::DecoderError(e));
            },
        };
        let conference_id = conf.get_id();
        let ghost all = infos.deep_view();
        let mut output: Vec<Member> = Vec::new();
        let mut i: usize = 0;
        assert(all.take(0) =~= Seq::empty());
        assert(output.deep_view() =~= Seq::empty());
        while i < infos.len()
            invariant
                i <= infos.len(),
                all == infos.deep_view(),
                conference_id@ == conf@.id,
                response == res.deep_view(),
                MemberView::list(conf@.id, response) == members_of(conf@.id, all),
                members_of(conf@.id, all.take(i as int)) == Ok::<Seq<MemberView>, CatapultErrorView>(
                    output.deep_view(),
                ),
            decreases infos.len() - i,
        {
            let ghost before = output.deep_view();
            assert(all.take(i + 1).drop_last() =~= all.take(i as int));
            assert(all.take(i + 1).last() == infos[i as int].deep_view());
            let ghost fresh = MemberView::from_info(conf@.id, infos[i as int].deep_view());
            let data = match Data::from_info(&infos[i]) {
                Ok(data) => data,
                Err(e) => {
                    proof {
                        lemma_members_of_fails(conf@.id, all, i + 1);
                    }
                    return Err(e);
                },
            };
            let item = Member { id: infos[i].id.clone(), conference_id: conference_id.clone(), data };
            let ghost v = item.deep_view();
            output.push(item);
            assert(output.deep_view() =~= before.push(v));
            i += 1;
        }
        assert(all.take(i as int) =~= all);
        Ok(output)
    }
}

/// A member that is yet to be added to a conference.
#[derive(Debug)]
pub struct MemberBuilder {
    conference_id: String,
    call_id: String,
    join_tone: bool,
    leaving_tone: bool,
    mute: bool,
    hold: bool,
}

/// The mathematical value of a [`MemberBuilder`].
pub struct MemberBuilderView {
    pub conference_id: Seq<char>,
    pub call_id: Seq<char>,
    pub join_tone: bool,
    pub leaving_tone: bool,
    pub mute: bool,
    pub hold: bool,
}

impl DeepView for MemberBuilder {
    type V = MemberBuilderView;

    closed spec fn deep_view(&self) -> MemberBuilderView {
        MemberBuilderView {
            conference_id: self.conference_id@,
            call_id: self.call_id@,
            join_tone: self.join_tone,
            leaving_tone: self.leaving_tone,
            mute: self.mute,
            hold: self.hold,
        }
    }
}

impl View for MemberBuilder {
    type V = MemberBuilderView;

    open spec fn view(&self) -> MemberBuilderView {
        self.deep_view()
    }
}

impl MemberBuilderView {
    /// A member to be added as it is unless more is said: it hears a tone
    /// when someone joins or leaves, and is neither muted nor on hold.
    pub open spec fn new(conference_id: Seq<char>, call_id: Seq<char>) -> MemberBuilderView {
        MemberBuilderView { conference_id, call_id, join_tone: true, leaving_tone: true, mute: false, hold: false }
    }

    /// The document that describes the member to the service.
    pub open spec fn body(self) -> JsonSpec {
        JsonSpec::Object(
            seq![
                ("callId"@, JsonSpec::String(self.call_id)),
                ("joinTone"@, JsonSpec::Boolean(self.join_tone)),
                ("leavingTone"@, JsonSpec::Boolean(self.leaving_tone)),
                ("mute"@, JsonSpec::Boolean(self.mute)),
                ("hold"@, JsonSpec::Boolean(self.hold)),
            ],
        )
    }

    /// The request that adds the member.
    pub open spec fn create_request(self, client: ClientView) -> Result<RequestView, CatapultErrorView> {
        if self.conference_id.len() == 0 {
            Err(CatapultErrorView::BadInput("invalid conference id"@))
        } else {
            client.post(client.user_path("/conferences/"@ + self.conference_id + "/members"@), self.body())
        }
    }

    /// The member that the response to the adding stands for: its
    /// identifier is the one that the response names; whether it is muted
    /// or on hold is known, and the rest is not loaded.
    pub open spec fn created(self, res: ResponseView) -> Result<MemberView, CatapultErrorView> {
        match res.empty() {
            Err(e) => Err(e),
            Ok(headers) => match id_of_location(headers) {
                Err(e) => Err(e),
                Ok(id) => Ok(
                    MemberView {
                        mute: Lazy::Available(self.mute),
                        hold: Lazy::Available(self.hold),
                        ..MemberView::unloaded(id, self.conference_id)
                    },
                ),
            },
        }
    }
}

impl MemberBuilder {
    pub fn no_join_tone(self) -> (r: Self)
        ensures
            r@ == (MemberBuilderView { join_tone: false, ..self@ }),
    {
        let mut r = self;
        r.join_tone = false;
        r
    }

    pub fn no_leaving_tone(self) -> (r: Self)
        ensures
            r@ == (MemberBuilderView { leaving_tone: false, ..self@ }),
    {
        let mut r = self;
        r.leaving_tone = false;
        r
    }

    pub fn mute(self) -> (r: Self)
        ensures
            r@ == (MemberBuilderView { mute: true, ..self@ }),
    {
        let mut r = self;
        r.mute = true;
        r
    }

    pub fn hold(self) -> (r: Self)
        ensures
            r@ == (MemberBuilderView { hold: true, ..self@ }),
    {
        let mut r = self;
        r.hold = true;
        r
    }

    /// A member that is yet to be added to the conference: the call with
    /// the given identifier.
    pub fn new(conf: &Conference, call_id: &str) -> (r: MemberBuilder)
        ensures
            r@ == MemberBuilderView::new(conf@.id, call_id@),
    {
        MemberBuilder {
            conference_id: conf.get_id(),
            call_id: call_id.to_owned(),
            join_tone: true,
            leaving_tone: true,
            mute: false,
            hold: false,
        }
    }

    /// The request that adds the member.
    pub fn create_request(&self, client: &Client) -> (r: CatapultResult<Request>)
        ensures
            result_view(r) == self@.create_request(client@),
    {
        if self.conference_id.as_str().unicode_len() == 0 {
            return Err(CatapultError::bad_input("invalid conference id"));
        }
        let a = concat("/conferences/", self.conference_id.as_str());
        let b = concat(a.as_str(), "/members");
        let path = client.user_path(b.as_str());
        let mut map: Vec<(String, JsonValue)> = Vec::new();
        JsonValue::put(&mut map, "callId", JsonValue::string(self.call_id.as_str()));
        JsonValue::put(&mut map, "joinTone", JsonValue::Boolean(self.join_tone));
        JsonValue::put(&mut map, "leavingTone", JsonValue::Boolean(self.leaving_tone));
        JsonValue::put(&mut map, "mute", JsonValue::Boolean(self.mute));
        JsonValue::put(&mut map, "hold", JsonValue::Boolean(self.hold));
        assert(map.deep_view() =~= self@.body()->Object_0);
        let json = JsonValue::object(map);
        client.post_request(path.as_str(), &json)
    }

    /// The member that was added, from the response to the request of
    /// `create_request`.
    pub fn create(self, res: Response) -> (r: CatapultResult<Member>)
        ensures
            result_view(r) == self@.created(res.deep_view()),
    {
        let res = match EmptyResponse::new(res) {
            Ok(res) => res,
            Err(e) => {
                return Err(e);
            },
        };
        let id = match get_id_from_location_header(&res.headers) {
            Ok(id) => id,
            Err(e) => {
                return Err(e);
            },
        };
        let mut data = Data::unloaded();
        data.mute.set(self.mute);
        data.hold.set(self.hold);
        Ok(Member { id, conference_id: self.conference_id, data })
    }
}

/// A member that was made from what identifies it alone asks for one load when
/// a field is read, whichever field it is. Once a load has succeeded, the read
/// of any field gives its value and asks for no request.
pub proof fn lemma_load_once(id: Seq<char>, conference_id: Seq<char>, client: ClientView, res: ResponseView)
    ensures
        ({
            let fresh = MemberView::unloaded(id, conference_id);
            let load = fresh.load_request(client);
            let after = fresh.loaded(res);
            &&& asks_load(fresh.added_time, load)
            &&& asks_load(fresh.removed_time, load)
            &&& asks_load(fresh.join_tone, load)
            &&& asks_load(fresh.leaving_tone, load)
            &&& asks_load(fresh.mute, load)
            &&& asks_load(fresh.hold, load)
            &&& asks_load(fresh.state, load)
            &&& after is Ok ==> reads_value(after->Ok_0.added_time, load)
            &&& after is Ok ==> reads_value(after->Ok_0.removed_time, load)
            &&& after is Ok ==> reads_value(after->Ok_0.join_tone, load)
            &&& after is Ok ==> reads_value(after->Ok_0.leaving_tone, load)
            &&& after is Ok ==> reads_value(after->Ok_0.mute, load)
            &&& after is Ok ==> reads_value(after->Ok_0.hold, load)
            &&& after is Ok ==> reads_value(after->Ok_0.state, load)
        }),
{
}

/// What is written back is what was set and nothing else: a member of which
/// no field holds a value writes the empty document, and two that agree in
/// the fields that can be written write the same request.
pub proof fn lemma_save_is_partial(id: Seq<char>, conference_id: Seq<char>, a: MemberView, b: MemberView, client: ClientView)
    requires
        a.id == b.id,
        a.conference_id == b.conference_id,
        a.join_tone == b.join_tone,
        a.leaving_tone == b.leaving_tone,
        a.mute == b.mute,
        a.hold == b.hold,
    ensures
        MemberView::unloaded(id, conference_id).save_body() == JsonSpec::Object(Seq::empty()),
        a.save_request(client) == b.save_request(client),
{
    assert(MemberView::unloaded(id, conference_id).save_body()->Object_0 =~= Seq::empty());
}

/// A load replaces every field, whatever was cached: the last fetch wins, and
/// nothing of what was there before is merged in.
pub proof fn lemma_last_fetch_wins(a: MemberView, b: MemberView, res: ResponseView)
    requires
        a.id == b.id,
        a.conference_id == b.conference_id,
    ensures
        a.loaded(res) == b.loaded(res),
{
}

} // verus!
