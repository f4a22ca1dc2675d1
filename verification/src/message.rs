use vstd::prelude::*;
use vstd::string::StrSliceExecFns;

use crate::client::ApiResponse;
use crate::client::Client;
use crate::client::ClientView;
use crate::client::EmptyResponse;
use crate::client::JsonResponse;
use crate::codec::DecoderError;
use crate::codec::DecoderErrorView;
use crate::codec::expected_error;
use crate::codec::get_opt_strings;
use crate::codec::get_string;
use crate::codec::lemma_read_items_fails;
use crate::codec::opt_strings_field;
use crate::codec::read_items;
use crate::codec::read_list;
use crate::codec::result_view;
use crate::codec::string_field;
use crate::error::CatapultError;
use crate::error::CatapultErrorView;
use crate::error::CatapultResult;
use crate::http::Method;
use crate::http::Request;
use crate::http::RequestView;
use crate::http::Response;
use crate::http::ResponseView;
use crate::json::JsonSpec;
use crate::json::JsonValue;
use crate::json::member;
use crate::lazy::Lazy;
use crate::lazy::Read;
use crate::lazy::asks_load;
use crate::lazy::read_field;
use crate::lazy::reads_value;
use crate::media::Media;
use crate::media::MediaView;
use crate::media::clone_media;
use crate::media::media_from_urls;
use crate::media::opt_media_of;
use crate::message_event::MessageEvent;
use crate::message_event::MessageEventView;
use crate::text::concat;
use crate::text::str_eq;
use crate::util::get_id_from_location_header;
use crate::util::get_next_link_from_headers;
use crate::util::id_of_location;
use crate::util::next_link_of;

verus! {

/// Where a message stands.
#[derive(Debug, Clone, Copy, PartialEq, Eq, Structural)]
pub enum State {
    Received,
    Queued,
    Sending,
    Sent,
    Error,
}

impl DeepView for State {
    type V = State;

    open spec fn deep_view(&self) -> State {
        *self
    }
}

impl State {
    /// The word that the service uses for this value.
    pub open spec fn text(self) -> Seq<char> {
        match self {
            State::Received => "received"@,
            State::Queued => "queued"@,
            State::Sending => "sending"@,
            State::Sent => "sent"@,
            State::Error => "error"@,
        }
    }

    /// The value that a word of the service stands for. A word that stands
    /// for none is an error, not some value picked in its place.
    pub open spec fn of_text(text: Seq<char>) -> Result<State, CatapultErrorView> {
        if text == "received"@ {
            Ok(State::Received)
        } else if text == "queued"@ {
            Ok(State::Queued)
        } else if text == "sending"@ {
            Ok(State::Sending)
        } else if text == "sent"@ {
            Ok(State::Sent)
        } else if text == "error"@ {
            Ok(State::Error)
        } else {
            Err(CatapultErrorView::Unexpected("unknown Message state: "@ + text))
        }
    }

    /// Reads the value that a word of the service stands for.
    pub fn parse(text: &str) -> (r: CatapultResult<State>)
        ensures
            result_view(r) == State::of_text(text@),
    {
        if str_eq(text, "received") {
            Ok(State::Received)
        } else if str_eq(text, "queued") {
            Ok(State::Queued)
        } else if str_eq(text, "sending") {
            Ok(State::Sending)
        } else if str_eq(text, "sent") {
            Ok(State::Sent)
        } else if str_eq(text, "error") {
            Ok(State::Error)
        } else {
            Err(CatapultError::Unexpected(concat("unknown Message state: ", text)))
        }
    }

    /// The word that the service uses for this value.
    pub fn to_string(&self) -> (r: &'static str)
        ensures
            r@ == self.text(),
    {
        match self {
            State::Received => "received",
            State::Queued => "queued",
            State::Sending => "sending",
            State::Sent => "sent",
            State::Error => "error",
        }
    }
}

/// Each state is read back from the word that is written for it.
pub proof fn lemma_state_words(value: State)
    ensures
        State::of_text(value.text()) == Ok::<State, CatapultErrorView>(value),
{
    reveal_strlit("received");
    reveal_strlit("queued");
    reveal_strlit("sending");
    reveal_strlit("sent");
    reveal_strlit("error");
    match value {
        State::Received => {},
        State::Queued => {
            assert("queued"@.len() != "received"@.len());
        },
        State::Sending => {
            assert("sending"@.len() != "received"@.len());
            assert("sending"@.len() != "queued"@.len());
        },
        State::Sent => {
            assert("sent"@.len() != "received"@.len());
            assert("sent"@.len() != "queued"@.len());
            assert("sent"@.len() != "sending"@.len());
        },
        State::Error => {
            assert("error"@.len() != "received"@.len());
            assert("error"@.len() != "queued"@.len());
            assert("error"@.len() != "sending"@.len());
            assert("error"@.len() != "sent"@.len());
        },
    }
}

/// Whether the word for a direction says that a message came in. A word
/// that is neither `in` nor `out` is an error, which `label` begins.
pub open spec fn inbound_of(direction: Seq<char>, label: Seq<char>) -> Result<bool, CatapultErrorView> {
    if direction == "in"@ {
        Ok(true)
    } else if direction == "out"@ {
        Ok(false)
    } else {
        Err(CatapultErrorView::Unexpected(label + direction))
    }
}

/// Reads whether the word for a direction says that a message came in.
pub fn parse_direction(direction: &str, label: &str) -> (r: CatapultResult<bool>)
    ensures
        result_view(r) == inbound_of(direction@, label@),
{
    if str_eq(direction, "in") {
        Ok(true)
    } else if str_eq(direction, "out") {
        Ok(false)
    } else {
        Err(CatapultError::Unexpected(concat(label, direction)))
    }
}

/// A message as the service describes it.
#[derive(Debug)]
pub struct MessageInfo {
    pub id: String,
    pub direction: String,
    pub from: String,
    pub to: String,
    pub state: String,
    pub text: String,
    pub time: String,
    pub media: Option<Vec<String>>,
}

/// The mathematical value of a [`MessageInfo`].
pub struct MessageInfoView {
    pub id: Seq<char>,
    pub direction: Seq<char>,
    pub from: Seq<char>,
    pub to: Seq<char>,
    pub state: Seq<char>,
    pub text: Seq<char>,
    pub time: Seq<char>,
    pub media: Option<Seq<Seq<char>>>,
}

impl DeepView for MessageInfo {
    type V = MessageInfoView;

    open spec fn deep_view(&self) -> MessageInfoView {
        MessageInfoView {
            id: self.id@,
            direction: self.direction@,
            from: self.from@,
            to: self.to@,
            state: self.state@,
            text: self.text@,
            time: self.time@,
            media: self.media.deep_view(),
        }
    }
}

impl MessageInfoView {
    /// The message that a JSON document describes: its members are read in the
    /// order of the fields, and the first that fails decides.
    pub open spec fn decode(json: JsonSpec) -> Result<MessageInfoView, DecoderErrorView> {
        match string_field(json, "id"@) {
            Err(e) => Err(e),
            Ok(id) =>
            match string_field(json, "direction"@) {
                Err(e) => Err(e),
                Ok(direction) =>
                match string_field(json, "from"@) {
                    Err(e) => Err(e),
                    Ok(from) =>
                    match string_field(json, "to"@) {
                        Err(e) => Err(e),
                        Ok(to) =>
                        match string_field(json, "state"@) {
                            Err(e) => Err(e),
                            Ok(state) =>
                            match string_field(json, "text"@) {
                                Err(e) => Err(e),
                                Ok(text) =>
                                match string_field(json, "time"@) {
                                    Err(e) => Err(e),
                                    Ok(time) =>
                                    match opt_strings_field(json, "media"@) {
                                        Err(e) => Err(e),
                                        Ok(media) =>
                                        Ok(MessageInfoView { id, direction, from, to, state, text, time, media }),
                                    },
                                },
                            },
                        },
                    },
                },
            },
        }
    }
}

impl MessageInfo {
    /// Reads the message that a JSON document describes.
    pub fn decode(json: &JsonValue) -> (r: Result<MessageInfo, DecoderError>)
        ensures
            result_view(r) == MessageInfoView::decode(json.deep_view()),
    {
        let id = match get_string(json, "id") {
            Ok(v) => v,
            Err(e) => {
                return Err(e);
            },
        };
        let direction = match get_string(json, "direction") {
            Ok(v) => v,
            Err(e) => {
                return Err(e);
            },
        };
        let from = match get_string(json, "from") {
            Ok(v) => v,
            Err(e) => {
                return Err(e);
            },
        };
        let to = match get_string(json, "to") {
            Ok(v) => v,
            Err(e) => {
                return Err(e);
            },
        };
        let state = match get_string(json, "state") {
            Ok(v) => v,
            Err(e) => {
                return Err(e);
            },
        };
        let text = match get_string(json, "text") {
            Ok(v) => v,
            Err(e) => {
                return Err(e);
            },
        };
        let time = match get_string(json, "time") {
            Ok(v) => v,
            Err(e) => {
                return Err(e);
            },
        };
        let media = match get_opt_strings(json, "media") {
            Ok(v) => v,
            Err(e) => {
                return Err(e);
            },
        };
        Ok(MessageInfo { id, direction, from, to, state, text, time, media })
    }
}

/// The messages that a JSON array describes, in its order.
pub open spec fn decode_all(json: JsonSpec) -> Result<Seq<MessageInfoView>, DecoderErrorView> {
    read_list(json, |j: JsonSpec| MessageInfoView::decode(j))
}

/// Reads the messages that a JSON array describes.
pub fn decode_list(json: &JsonValue) -> (r: Result<Vec<MessageInfo>, DecoderError>)
    ensures
        result_view(r) == decode_all(json.deep_view()),
{
    match json {
        JsonValue::Array(items) => {
            let ghost all = json.model()->Array_0;
            let ghost read = |j: JsonSpec| MessageInfoView::decode(j);
            let mut out: Vec<MessageInfo> = Vec::new();
            let mut i: usize = 0;
            assert(all.take(0) =~= Seq::empty());
            assert(out.deep_view() =~= Seq::empty());
            while i < items.len()
                invariant
                    i <= items.len(),
                    all.len() == items.len(),
                    json.model() == JsonSpec::Array(all),
                    forall|k: int| 0 <= k < items.len() ==> #[trigger] all[k] == items[k].model(),
                    read == (|j: JsonSpec| MessageInfoView::decode(j)),
                    read_items(all.take(i as int), read) == Ok::<Seq<MessageInfoView>, DecoderErrorView>(
                        out.deep_view(),
                    ),
                decreases items.len() - i,
            {
                let ghost before = out.deep_view();
                assert(all.take(i + 1).drop_last() =~= all.take(i as int));
                assert(all.take(i + 1).last() == items[i as int].model());
                match MessageInfo::decode(&items[i]) {
                    Ok(item) => {
                        let ghost v = item.deep_view();
                        out.push(item);
                        assert(out.deep_view() =~= before.push(v));
                    },
                    Err(e) => {
                        proof {
                            lemma_read_items_fails(all, read, i + 1);
                        }
                        return Err(e);
                    },
                }
                i += 1;
            }
            assert(all.take(i as int) =~= all);
            Ok(out)
        },
        _ => Err(expected_error("Array", json)),
    }
}

#[derive(Debug)]
struct Data {
    inbound: Lazy<bool>,
    from: Lazy<String>,
    to: Lazy<String>,
    state: Lazy<State>,
    text: Lazy<String>,
    time: Lazy<String>,
    media: Lazy<Vec<Media>>,
}

impl Data {
    spec fn view_as(&self, id: Seq<char>) -> MessageView {
        MessageView {
            id,
            inbound: self.inbound.deep_view(),
            from: self.from.deep_view(),
            to: self.to.deep_view(),
            state: self.state.deep_view(),
            text: self.text.deep_view(),
            time: self.time.deep_view(),
            media: self.media.deep_view(),
        }
    }

    /// Fields of which nothing is known yet.
    fn unloaded() -> (r: Data)
        ensures
            r.inbound is NotLoaded,
            r.from is NotLoaded,
            r.to is NotLoaded,
            r.state is NotLoaded,
            r.text is NotLoaded,
            r.time is NotLoaded,
            r.media is NotLoaded,
    {
        Data {
            inbound: Lazy::NotLoaded,
            from: Lazy::NotLoaded,
            to: Lazy::NotLoaded,
            state: Lazy::NotLoaded,
            text: Lazy::NotLoaded,
            time: Lazy::NotLoaded,
            media: Lazy::NotLoaded,
        }
    }
}

/// A text or picture message. Its fields are fetched when one is first
/// read.
#[derive(Debug)]
pub struct Message {
    id: String,
    data: Data,
}

/// The mathematical value of a [`Message`].
pub struct MessageView {
    pub id: Seq<char>,
    pub inbound: Lazy<bool>,
    pub from: Lazy<Seq<char>>,
    pub to: Lazy<Seq<char>>,
    pub state: Lazy<State>,
    pub text: Lazy<Seq<char>>,
    pub time: Lazy<Seq<char>>,
    pub media: Lazy<Seq<MediaView>>,
}

impl DeepView for Message {
    type V = MessageView;

    closed spec fn deep_view(&self) -> MessageView {
        self.data.view_as(self.id@)
    }
}

impl View for Message {
    type V = MessageView;

    open spec fn view(&self) -> MessageView {
        self.deep_view()
    }
}

impl MessageView {
    /// A message of which only the identifier is known.
    pub open spec fn unloaded(id: Seq<char>) -> MessageView {
        MessageView {
            id,
            inbound: Lazy::NotLoaded,
            from: Lazy::NotLoaded,
            to: Lazy::NotLoaded,
            state: Lazy::NotLoaded,
            text: Lazy::NotLoaded,
            time: Lazy::NotLoaded,
            media: Lazy::NotLoaded,
        }
    }

    /// Whether every field holds a value.
    pub open spec fn complete(self) -> bool {
        &&& self.inbound is Available
        &&& self.from is Available
        &&& self.to is Available
        &&& self.state is Available
        &&& self.text is Available
        &&& self.time is Available
        &&& self.media is Available
    }

    /// A message as a fetch or a listing describes it. The direction and
    /// the state are told by their words, the media files by their URLs.
    pub open spec fn from_info(info: MessageInfoView) -> Result<MessageView, CatapultErrorView> {
        match inbound_of(info.direction, "unknown Message direction: "@) {
            Err(e) => Err(e),
            Ok(inbound) => match State::of_text(info.state) {
                Err(e) => Err(e),
                Ok(state) => match opt_media_of(info.media) {
                    Err(e) => Err(e),
                    Ok(media) => Ok(
                        MessageView {
                            id: info.id,
                            inbound: Lazy::Available(inbound),
                            from: Lazy::Available(info.from),
                            to: Lazy::Available(info.to),
                            state: Lazy::Available(state),
                            text: Lazy::Available(info.text),
                            time: Lazy::Available(info.time),
                            media: Lazy::Available(media),
                        },
                    ),
                },
            },
        }
    }

    /// A message as an event tells of it: everything but the state is
    /// known.
    pub open spec fn from_event(event: MessageEventView) -> MessageView {
        MessageView {
            id: event.message_id,
            inbound: Lazy::Available(event.inbound),
            from: Lazy::Available(event.from),
            to: Lazy::Available(event.to),
            state: Lazy::NotLoaded,
            text: Lazy::Available(event.text),
            time: Lazy::Available(event.time),
            media: Lazy::Available(event.media),
        }
    }

    /// What a request that addresses the message by its identifier comes to: an
    /// empty identifier is refused before any request is made, since the
    /// path would be that of the list of all.
    pub open spec fn guarded(self, request: Result<RequestView, CatapultErrorView>) -> Result<
        RequestView,
        CatapultErrorView,
    > {
        if self.id.len() == 0 {
            Err(CatapultErrorView::BadInput("invalid message id"@))
        } else {
            request
        }
    }

    /// The path of the message.
    pub open spec fn path(self, client: ClientView) -> Seq<char> {
        client.user_path("/messages/"@ + self.id)
    }

    /// The request that fetches the message.
    pub open spec fn load_request(self, client: ClientView) -> Result<RequestView, CatapultErrorView> {
        self.guarded(client.get(self.path(client)))
    }

    /// The message after a fetch: every field as the response gives it,
    /// whatever it held before. A response that tells of a failure, or does
    /// not describe a message, gives the error instead.
    pub open spec fn loaded(self, res: ResponseView) -> Result<MessageView, CatapultErrorView> {
        match res.json() {
            Err(e) => Err(e),
            Ok(json) => match MessageInfoView::decode(json.body) {
                Err(e) => Err(CatapultErrorView::DecoderError(e)),
                Ok(info) => match MessageView::from_info(info) {
                    Err(e) => Err(e),
                    Ok(fresh) => Ok(MessageView { id: self.id, ..fresh }),
                },
            },
        }
    }

    /// The messages that a response to a listing holds, each with every
    /// field filled.
    pub open spec fn list(res: ResponseView) -> Result<Seq<MessageView>, CatapultErrorView> {
        match res.json() {
            Err(e) => Err(e),
            Ok(json) => match decode_all(json.body) {
                Err(e) => Err(CatapultErrorView::DecoderError(e)),
                Ok(infos) => messages_of(infos),
            },
        }
    }
}

impl Data {
    fn from_info(info: &MessageInfo) -> (r: CatapultResult<Data>)
        ensures
            match MessageView::from_info(info.deep_view()) {
                Ok(v) => r is Ok && r->Ok_0.view_as(info.id@) == v,
                Err(e) => r is Err && r->Err_0.deep_view() == e,
            },
    {
        let inbound = match parse_direction(info.direction.as_str(), "unknown Message direction: ") {
            Ok(inbound) => inbound,
            Err(e) => {
                return Err(e);
            },
        };
        let state = match State::parse(info.state.as_str()) {
            Ok(state) => state,
            Err(e) => {
                return Err(e);
            },
        };
        let media = match media_from_urls(&info.media) {
            Ok(media) => media,
            Err(e) => {
                return Err(e);
            },
        };
        Ok(
            Data {
                inbound: Lazy::Available(inbound),
                from: Lazy::Available(info.from.clone()),
                to: Lazy::Available(info.to.clone()),
                state: Lazy::Available(state),
                text: Lazy::Available(info.text.clone()),
                time: Lazy::Available(info.time.clone()),
                media: Lazy::Available(media),
            },
        )
    }
}

/// The messages that their descriptions stand for; the first description with
/// a direction, a state or a media URL that cannot be read decides.
pub open spec fn messages_of(infos: Seq<MessageInfoView>) -> Result<Seq<MessageView>, CatapultErrorView>
    decreases infos.len(),
{
    if infos.len() == 0 {
        Ok(Seq::empty())
    } else {
        match messages_of(infos.drop_last()) {
            Err(e) => Err(e),
            Ok(head) => match MessageView::from_info(infos.last()) {
                Err(e) => Err(e),
                Ok(item) => Ok(head.push(item)),
            },
        }
    }
}

/// Once a prefix of the descriptions fails, the whole fails in the same way.
proof fn lemma_messages_of_fails(infos: Seq<MessageInfoView>, n: int)
    requires
        0 <= n <= infos.len(),
        messages_of(infos.take(n)) is Err,
    ensures
        messages_of(infos) == messages_of(infos.take(n)),
    decreases infos.len() - n,
{
    if n == infos.len() {
        assert(infos.take(n) =~= infos);
    } else {
        assert(infos.take(n + 1).drop_last() =~= infos.take(n));
        lemma_messages_of_fails(infos, n + 1);
    }
}

/// The messages that their descriptions stand for.
fn messages_from(infos: &Vec<MessageInfo>) -> (r: CatapultResult<Vec<Message>>)
    ensures
        result_view(r) == messages_of(infos.deep_view()),
{
    let ghost all = infos.deep_view();
    let mut output: Vec<Message> = Vec::new();
    let mut i: usize = 0;
    assert(all.take(0) =~= Seq::empty());
    assert(output.deep_view() =~= Seq::empty());
    while i < infos.len()
        invariant
            i <= infos.len(),
            all == infos.deep_view(),
            messages_of(all.take(i as int)) == Ok::<Seq<MessageView>, CatapultErrorView>(
                output.deep_view(),
            ),
        decreases infos.len() - i,
    {
        let ghost before = output.deep_view();
        assert(all.take(i + 1).drop_last() =~= all.take(i as int));
        assert(all.take(i + 1).last() == infos[i as int].deep_view());
        let data = match Data::from_info(&infos[i]) {
            Ok(data) => data,
            Err(e) => {
                proof {
                    lemma_messages_of_fails(all, i + 1);
                }
                return Err(e);
            },
        };
        let item = Message { id: infos[i].id.clone(), data };
        let ghost v = item.deep_view();
        output.push(item);
        assert(output.deep_view() =~= before.push(v));
        i += 1;
    }
    assert(all.take(i as int) =~= all);
    Ok(output)
}

impl QueryResultView {
    /// The page that a response to a listing holds: the messages of its
    /// body, each with every field filled, and the address of the next page
    /// from its headers.
    pub open spec fn of(res: ResponseView) -> Result<QueryResultView, CatapultErrorView> {
        match MessageView::list(res) {
            Err(e) => Err(e),
            Ok(data) => match next_link_of(res.headers) {
                Err(e) => Err(e),
                Ok(next_url) => Ok(QueryResultView { data, next_url }),
            },
        }
    }
}

/// The page of messages that a response to a listing holds.
pub fn get_message_list(res: Response) -> (r: CatapultResult<QueryResult>)
    ensures
        result_view(r) == QueryResultView::of(res.deep_view()),
{
    let json = match JsonResponse::new(res) {
        Ok(json) => json,
        Err(e) => {
            return Err(e);
        },
    };
    let infos = match decode_list(&json.body) {
        Ok(infos) => infos,
        Err(e) => {
            return Err(CatapultError::DecoderError(e));
        },
    };
    let data = match messages_from(&infos) {
        Ok(data) => data,
        Err(e) => {
            return Err(e);
        },
    };
    let next_url = match get_next_link_from_headers(&json.headers) {
        Ok(next_url) => next_url,
        Err(e) => {
            return Err(e);
        },
    };
    Ok(QueryResult { data, next_url })
}

/// One page of a listing of messages, and where the next page is.
#[derive(Debug)]
pub struct QueryResult {
    data: Vec<Message>,
    next_url: Option<String>,
}

/// The mathematical value of a [`QueryResult`].
pub struct QueryResultView {
    pub data: Seq<MessageView>,
    pub next_url: Option<Seq<char>>,
}

impl DeepView for QueryResult {
    type V = QueryResultView;

    closed spec fn deep_view(&self) -> QueryResultView {
        QueryResultView { data: self.data.deep_view(), next_url: self.next_url.deep_view() }
    }
}

impl View for QueryResult {
    type V = QueryResultView;

    open spec fn view(&self) -> QueryResultView {
        self.deep_view()
    }
}

impl QueryResult {
    pub fn get_messages(&self) -> (r: &Vec<Message>)
        ensures
            r.deep_view() == self@.data,
    {
        &self.data
    }

    /// Hands out the messages of the page, which is left without them. The
    /// page keeps the address of the page after it.
    pub fn take_messages(&mut self) -> (r: Vec<Message>)
        ensures
            r.deep_view() == old(self)@.data,
            final(self)@ == (QueryResultView { data: Seq::empty(), next_url: old(self)@.next_url }),
    {
        let mut taken: Vec<Message> = Vec::new();
        assert(taken.deep_view() =~= Seq::<MessageView>::empty());
        core::mem::swap(&mut self.data, &mut taken);
        taken
    }

    /// Whether there is a page after this one.
    pub fn has_next(&self) -> (r: bool)
        ensures
            r == (self@.next_url is Some),
    {
        self.next_url.is_some()
    }

    /// The request for the next page, or nothing after the last page: the
    /// address is the one that came with this page, as it stands.
    pub fn next_request(&self, client: &Client) -> (r: Option<Request>)
        ensures
            r.deep_view() == match self@.next_url {
                Some(url) => Some(client@.page(url)),
                None => None,
            },
    {
        match &self.next_url {
            Some(url) => Some(client.page_request(url.as_str())),
            None => None,
        }
    }

    /// The next page, from the response to the request of `next_request`;
    /// nothing after the last page.
    pub fn next(&self, res: Response) -> (r: Option<CatapultResult<QueryResult>>)
        ensures
            match self@.next_url {
                Some(_) => r is Some && result_view(r->0) == QueryResultView::of(res.deep_view()),
                None => r is None,
            },
    {
        match &self.next_url {
            Some(_) => Some(get_message_list(res)),
            None => None,
        }
    }
}

/// A listing of the messages of the user that is yet to be asked for.
#[derive(Debug)]
pub struct Query {
    from_number: Option<String>,
    to_number: Option<String>,
    from_time: Option<String>,
    to_time: Option<String>,
    size: Option<u32>,
    direction: Option<String>,
    state: Option<State>,
    sort_order: Option<String>,
}

/// The mathematical value of a [`Query`].
pub struct QueryView {
    pub from_number: Option<Seq<char>>,
    pub to_number: Option<Seq<char>>,
    pub from_time: Option<Seq<char>>,
    pub to_time: Option<Seq<char>>,
    pub size: Option<u32>,
    pub direction: Option<Seq<char>>,
    pub state: Option<State>,
    pub sort_order: Option<Seq<char>>,
}

impl DeepView for Query {
    type V = QueryView;

    closed spec fn deep_view(&self) -> QueryView {
        QueryView {
            from_number: self.from_number.deep_view(),
            to_number: self.to_number.deep_view(),
            from_time: self.from_time.deep_view(),
            to_time: self.to_time.deep_view(),
            size: self.size,
            direction: self.direction.deep_view(),
            state: self.state,
            sort_order: self.sort_order.deep_view(),
        }
    }
}

impl View for Query {
    type V = QueryView;

    open spec fn view(&self) -> QueryView {
        self.deep_view()
    }
}

impl QueryView {
    /// A listing of all messages.
    pub open spec fn new() -> QueryView {
        QueryView {
            from_number: None,
            to_number: None,
            from_time: None,
            to_time: None,
            size: None,
            direction: None,
            state: None,
            sort_order: None,
        }
    }

    /// The parameters of the listing: those that were set, by ascending
    /// name.
    pub open spec fn params(self) -> JsonSpec {
        JsonSpec::Object(
            member("direction"@, JsonSpec::some_string(self.direction)) + member(
                "from"@,
                JsonSpec::some_string(self.from_number),
            ) + member("fromDateTime"@, JsonSpec::some_string(self.from_time)) + member(
                "size"@,
                match self.size {
                    Some(n) => Some(JsonSpec::U64(n as u64)),
                    None => None,
                },
            ) + member("sortOrder"@, JsonSpec::some_string(self.sort_order)) + member(
                "state"@,
                match self.state {
                    Some(s) => Some(JsonSpec::String(s.text())),
                    None => None,
                },
            ) + member("to"@, JsonSpec::some_string(self.to_number)) + member(
                "toDateTime"@,
                JsonSpec::some_string(self.to_time),
            ),
        )
    }

    /// The request for the first page.
    pub open spec fn submit_request(self, client: ClientView) -> Result<RequestView, CatapultErrorView> {
        client.request(Method::Get, client.user_path("/messages"@), self.params(), Seq::empty())
    }
}

impl Query {
    pub fn from_time(self, time: &str) -> (r: Self)
        ensures
            r@ == (QueryView { from_time: Some(time@), ..self@ }),
    {
        let mut r = self;
        r.from_time = Some(time.to_owned());
        r
    }

    pub fn to_time(self, time: &str) -> (r: Self)
        ensures
            r@ == (QueryView { to_time: Some(time@), ..self@ }),
    {
        let mut r = self;
        r.to_time = Some(time.to_owned());
        r
    }

    pub fn from_number(self, number: &str) -> (r: Self)
        ensures
            r@ == (QueryView { from_number: Some(number@), ..self@ }),
    {
        let mut r = self;
        r.from_number = Some(number.to_owned());
        r
    }

    pub fn to_number(self, number: &str) -> (r: Self)
        ensures
            r@ == (QueryView { to_number: Some(number@), ..self@ }),
    {
        let mut r = self;
        r.to_number = Some(number.to_owned());
        r
    }

    pub fn size(self, size: u32) -> (r: Self)
        ensures
            r@ == (QueryView { size: Some(size), ..self@ }),
    {
        let mut r = self;
        r.size = Some(size);
        r
    }

    pub fn only_inbound(self) -> (r: Self)
        ensures
            r@ == (QueryView { direction: Some("in"@), ..self@ }),
    {
        let mut r = self;
        r.direction = Some("in".to_owned());
        r
    }

    pub fn only_outbound(self) -> (r: Self)
        ensures
            r@ == (QueryView { direction: Some("out"@), ..self@ }),
    {
        let mut r = self;
        r.direction = Some("out".to_owned());
        r
    }

    pub fn state(self, state: State) -> (r: Self)
        ensures
            r@ == (QueryView { state: Some(state), ..self@ }),
    {
        let mut r = self;
        r.state = Some(state);
        r
    }

    pub fn desc(self) -> (r: Self)
        ensures
            r@ == (QueryView { sort_order: Some("desc"@), ..self@ }),
    {
        let mut r = self;
        r.sort_order = Some("desc".to_owned());
        r
    }

    /// The request for the first page.
    pub fn submit_request(&self, client: &Client) -> (r: CatapultResult<Request>)
        ensures
            result_view(r) == self@.submit_request(client@),
    {
        let path = client.user_path("/messages");
        let mut map: Vec<(String, JsonValue)> = Vec::new();
        JsonValue::put_opt(&mut map, "direction", JsonValue::some_string(&self.direction));
        assert(map.deep_view() =~= member("direction"@, JsonSpec::some_string(self@.direction)));
        JsonValue::put_opt(&mut map, "from", JsonValue::some_string(&self.from_number));
        JsonValue::put_opt(&mut map, "fromDateTime", JsonValue::some_string(&self.from_time));
        let size = match self.size {
            Some(n) => Some(JsonValue::U64(n as u64)),
            None => None,
        };
        JsonValue::put_opt(&mut map, "size", size);
        JsonValue::put_opt(&mut map, "sortOrder", JsonValue::some_string(&self.sort_order));
        let state = match self.state {
            Some(s) => Some(JsonValue::string(s.to_string())),
            None => None,
        };
        JsonValue::put_opt(&mut map, "state", state);
        JsonValue::put_opt(&mut map, "to", JsonValue::some_string(&self.to_number));
        JsonValue::put_opt(&mut map, "toDateTime", JsonValue::some_string(&self.to_time));
        let json = JsonValue::object(map);
        client.raw_get_request(path.as_str(), &json, ())
    }

    /// The first page, from the response to the request of
    /// `submit_request`.
    pub fn submit(&self, res: Response) -> (r: CatapultResult<QueryResult>)
        ensures
            result_view(r) == QueryResultView::of(res.deep_view()),
    {
        get_message_list(res)
    }
}

/// A message that is yet to be sent.
#[derive(Debug)]
pub struct MessageBuilder {
    from: String,
    to: String,
    text: String,
    media: Vec<String>,
    receipt_requested: bool,
    callback_url: Option<String>,
    callback_http_method: String,
    callback_timeout: Option<u64>,
    fallback_url: Option<String>,
    tag: Option<String>,
}

/// The mathematical value of a [`MessageBuilder`].
pub struct MessageBuilderView {
    pub from: Seq<char>,
    pub to: Seq<char>,
    pub text: Seq<char>,
    pub media: Seq<Seq<char>>,
    pub receipt_requested: bool,
    pub callback_url: Option<Seq<char>>,
    pub callback_http_method: Seq<char>,
    pub callback_timeout: Option<u64>,
    pub fallback_url: Option<Seq<char>>,
    pub tag: Option<Seq<char>>,
}

impl DeepView for MessageBuilder {
    type V = MessageBuilderView;

    closed spec fn deep_view(&self) -> MessageBuilderView {
        MessageBuilderView {
            from: self.from@,
            to: self.to@,
            text: self.text@,
            media: self.media.deep_view(),
            receipt_requested: self.receipt_requested,
            callback_url: self.callback_url.deep_view(),
            callback_http_method: self.callback_http_method@,
            callback_timeout: self.callback_timeout,
            fallback_url: self.fallback_url.deep_view(),
            tag: self.tag.deep_view(),
        }
    }
}

impl View for MessageBuilder {
    type V = MessageBuilderView;

    open spec fn view(&self) -> MessageBuilderView {
        self.deep_view()
    }
}

impl MessageBuilderView {
    /// The document that describes the message to the service.
    pub open spec fn body(self) -> JsonSpec {
        JsonSpec::Object(
            seq![
                ("from"@, JsonSpec::String(self.from)),
                ("to"@, JsonSpec::String(self.to)),
                ("text"@, JsonSpec::String(self.text)),
                ("media"@, JsonSpec::strings(self.media)),
                ("receiptRequested"@, JsonSpec::Boolean(self.receipt_requested)),
                ("callbackUrl"@, JsonSpec::opt_string(self.callback_url)),
                ("callbackHttpMethod"@, JsonSpec::String(self.callback_http_method)),
                ("callbackTimeout"@, JsonSpec::opt_unsigned(self.callback_timeout)),
                ("fallbackUrl"@, JsonSpec::opt_string(self.fallback_url)),
                ("tag"@, JsonSpec::opt_string(self.tag)),
            ],
        )
    }

    /// The request that sends the message.
    pub open spec fn create_request(self, client: ClientView) -> Result<RequestView, CatapultErrorView> {
        client.post(client.user_path("/messages"@), self.body())
    }

    /// The message that the response to the sending stands for: its
    /// identifier is the one that the response names; it goes out, its
    /// ends and its text are those given, and the rest is not loaded.
    pub open spec fn created(self, res: ResponseView) -> Result<MessageView, CatapultErrorView> {
        match res.empty() {
            Err(e) => Err(e),
            Ok(headers) => match id_of_location(headers) {
                Err(e) => Err(e),
                Ok(id) => Ok(
                    MessageView {
                        inbound: Lazy::Available(false),
                        from: Lazy::Available(self.from),
                        to: Lazy::Available(self.to),
                        text: Lazy::Available(self.text),
                        ..MessageView::unloaded(id)
                    },
                ),
            },
        }
    }
}

impl MessageBuilder {
    /// Adds a media file, by its URL, to those that the message carries.
    pub fn media(self, url: &str) -> (r: Self)
        ensures
            r@ == (MessageBuilderView { media: self@.media.push(url@), ..self@ }),
    {
        let mut r = self;
        let ghost before = r.media.deep_view();
        r.media.push(url.to_owned());
        assert(r.media.deep_view() =~= before.push(url@));
        r
    }

    pub fn request_receipt(self) -> (r: Self)
        ensures
            r@ == (MessageBuilderView { receipt_requested: true, ..self@ }),
    {
        let mut r = self;
        r.receipt_requested = true;
        r
    }

    pub fn callback_url(self, url: &str) -> (r: Self)
        ensures
            r@ == (MessageBuilderView { callback_url: Some(url@), ..self@ }),
    {
        let mut r = self;
        r.callback_url = Some(url.to_owned());
        r
    }

    /// Has the events sent with `GET` and not with `POST`.
    pub fn use_get_http_method(self) -> (r: Self)
        ensures
            r@ == (MessageBuilderView { callback_http_method: "GET"@, ..self@ }),
    {
        let mut r = self;
        r.callback_http_method = "GET".to_owned();
        r
    }

    pub fn callback_timeout(self, millis: u64) -> (r: Self)
        ensures
            r@ == (MessageBuilderView { callback_timeout: Some(millis), ..self@ }),
    {
        let mut r = self;
        r.callback_timeout = Some(millis);
        r
    }

    pub fn fallback_url(self, url: &str) -> (r: Self)
        ensures
            r@ == (MessageBuilderView { fallback_url: Some(url@), ..self@ }),
    {
        let mut r = self;
        r.fallback_url = Some(url.to_owned());
        r
    }

    pub fn tag(self, tag: &str) -> (r: Self)
        ensures
            r@ == (MessageBuilderView { tag: Some(tag@), ..self@ }),
    {
        let mut r = self;
        r.tag = Some(tag.to_owned());
        r
    }

    /// The request that sends the message.
    pub fn create_request(&self, client: &Client) -> (r: CatapultResult<Request>)
        ensures
            result_view(r) == self@.create_request(client@),
    {
        let path = client.user_path("/messages");
        let mut map: Vec<(String, JsonValue)> = Vec::new();
        JsonValue::put(&mut map, "from", JsonValue::string(self.from.as_str()));
        JsonValue::put(&mut map, "to", JsonValue::string(self.to.as_str()));
        JsonValue::put(&mut map, "text", JsonValue::string(self.text.as_str()));
        JsonValue::put(&mut map, "media", JsonValue::strings(&self.media));
        JsonValue::put(&mut map, "receiptRequested", JsonValue::Boolean(self.receipt_requested));
        JsonValue::put(&mut map, "callbackUrl", JsonValue::opt_string(&self.callback_url));
        JsonValue::put(&mut map, "callbackHttpMethod", JsonValue::string(self.callback_http_method.as_str()));
        JsonValue::put(&mut map, "callbackTimeout", JsonValue::opt_unsigned(self.callback_timeout));
        JsonValue::put(&mut map, "fallbackUrl", JsonValue::opt_string(&self.fallback_url));
        JsonValue::put(&mut map, "tag", JsonValue::opt_string(&self.tag));
        assert(map.deep_view() =~= self@.body()->Object_0);
        let json = JsonValue::object(map);
        client.post_request(path.as_str(), &json)
    }

    /// The message that was sent, from the response to the request of
    /// `create_request`.
    pub fn create(self, res: Response) -> (r: CatapultResult<Message>)
        ensures
            result_view(r) == self@.created(res.deep_view()),
    {
        let res = match EmptyResponse::new(res) {
            Ok(res) => res,
            Err(e) => {
                return Err(e);
            },
        };
        let id = match get_id_from_location_header(&res.headers) {
            Ok(id) => id,
            Err(e) => {
                return Err(e);
            },
        };
        let mut data = Data::unloaded();
        data.inbound.set(false);
        data.from.set(self.from);
        data.to.set(self.to);
        data.text.set(self.text);
        Ok(Message { id, data })
    }
}

impl Message {
    /// Refuses a request where an identifier that its path needs is empty.
    pub(crate) fn guarded(&self, request: CatapultResult<Request>) -> (r: CatapultResult<Request>)
        ensures
            result_view(r) == self@.guarded(result_view(request)),
    {
        if self.id.as_str().unicode_len() == 0 {
            Err(CatapultError::bad_input("invalid message id"))
        } else {
            request
        }
    }

    /// The path of the message.
    fn path(&self, client: &Client) -> (r: String)
        ensures
            r@ == self@.path(client@),
    {
        let rest = concat("/messages/", self.id.as_str());
        client.user_path(rest.as_str())
    }

    /// A message that is yet to be sent: without media and without
    /// receipt, and events are sent with `POST`.
    pub fn build(from: &str, to: &str, text: &str) -> (r: MessageBuilder)
        ensures
            r@ == (MessageBuilderView {
                from: from@,
                to: to@,
                text: text@,
                media: Seq::empty(),
                receipt_requested: false,
                callback_url: None,
                callback_http_method: "POST"@,
                callback_timeout: None,
                fallback_url: None,
                tag: None,
            }),
    {
        let media: Vec<String> = Vec::new();
        assert(media.deep_view() =~= Seq::<Seq<char>>::empty());
        MessageBuilder {
            from: from.to_owned(),
            to: to.to_owned(),
            text: text.to_owned(),
            media,
            receipt_requested: false,
            callback_url: None,
            callback_http_method: "POST".to_owned(),
            callback_timeout: None,
            fallback_url: None,
            tag: None,
        }
    }

    /// A listing of the messages of the user.
    pub fn query() -> (r: Query)
        ensures
            r@ == QueryView::new(),
    {
        Query {
            from_number: None,
            to_number: None,
            from_time: None,
            to_time: None,
            size: None,
            direction: None,
            state: None,
            sort_order: None,
        }
    }

    /// The message with the given identifier, with nothing fetched yet.
    pub fn get(id: &str) -> (r: Message)
        ensures
            r@ == MessageView::unloaded(id@),
    {
        Message { id: id.to_owned(), data: Data::unloaded() }
    }

    /// The message that an event tells of.
    pub fn from_event(event: &MessageEvent) -> (r: Message)
        ensures
            r@ == MessageView::from_event(event@),
    {
        Message {
            id: event.get_message_id(),
            data: Data {
                inbound: Lazy::Available(event.is_inbound()),
                from: Lazy::Available(event.get_from()),
                to: Lazy::Available(event.get_to()),
                state: Lazy::NotLoaded,
                text: Lazy::Available(event.get_text()),
                time: Lazy::Available(event.get_time()),
                media: Lazy::Available(event.get_media()),
            },
        }
    }

    /// The request that fetches the fields.
    pub fn load_request(&self, client: &Client) -> (r: CatapultResult<Request>)
        ensures
            result_view(r) == self@.load_request(client@),
    {
        let path = self.path(client);
        self.guarded(
            client.get_request(path.as_str()),
        )
    }

    /// Takes the response to the request of `load_request` and, where it
    /// describes the message, replaces every field by what it says. On an
    /// error nothing changes.
    pub fn load(&mut self, res: Response) -> (r: CatapultResult<()>)
        ensures
            match old(self)@.loaded(res.deep_view()) {
                Ok(after) => r is Ok && final(self)@ == after,
                Err(e) => result_view(r) == Err::<(), CatapultErrorView>(e) && final(self)@ == old(
                    self,
                )@,
            },
    {
        let json = match JsonResponse::new(res) {
            Ok(json) => json,
            Err(e) => {
                return Err(e);
            },
        };
        let info = match MessageInfo::decode(&json.body) {
            Ok(info) => info,
            Err(e) => {
                return Err(CatapultError::DecoderError(e));
            },
        };
        self.data = match Data::from_info(&info) {
            Ok(data) => data,
            Err(e) => {
                return Err(e);
            },
        };
        Ok(())
    }

    pub fn get_id(&self) -> (r: String)
        ensures
            r@ == self@.id,
    {
        self.id.clone()
    }

    pub fn is_inbound(&self, client: &Client) -> (r: CatapultResult<Read<bool>>)
        ensures
            result_view(r) == read_field(self@.inbound, self@.load_request(client@)),
    {
        match &self.data.inbound {
            Lazy::Available(v) => Ok(Read::Value(*v)),
            Lazy::NotLoaded => Read::load(self.load_request(client)),
        }
    }

    pub fn is_outbound(&self, client: &Client) -> (r: CatapultResult<Read<bool>>)
        ensures
            result_view(r) == read_field(
                match self@.inbound {
                    Lazy::Available(inbound) => Lazy::Available(!inbound),
                    Lazy::NotLoaded => Lazy::NotLoaded,
                },
                self@.load_request(client@),
            ),
    {
        match &self.data.inbound {
            Lazy::Available(v) => Ok(Read::Value(!*v)),
            Lazy::NotLoaded => Read::load(self.load_request(client)),
        }
    }

    pub fn get_from(&self, client: &Client) -> (r: CatapultResult<Read<String>>)
        ensures
            result_view(r) == read_field(self@.from, self@.load_request(client@)),
    {
        match &self.data.from {
            Lazy::Available(v) => Ok(Read::Value(v.clone())),
            Lazy::NotLoaded => Read::load(self.load_request(client)),
        }
    }

    pub fn get_to(&self, client: &Client) -> (r: CatapultResult<Read<String>>)
        ensures
            result_view(r) == read_field(self@.to, self@.load_request(client@)),
    {
        match &self.data.to {
            Lazy::Available(v) => Ok(Read::Value(v.clone())),
            Lazy::NotLoaded => Read::load(self.load_request(client)),
        }
    }

    pub fn get_state(&self, client: &Client) -> (r: CatapultResult<Read<State>>)
        ensures
            result_view(r) == read_field(self@.state, self@.load_request(client@)),
    {
        match &self.data.state {
            Lazy::Available(v) => Ok(Read::Value(*v)),
            Lazy::NotLoaded => Read::load(self.load_request(client)),
        }
    }

    pub fn get_text(&self, client: &Client) -> (r: CatapultResult<Read<String>>)
        ensures
            result_view(r) == read_field(self@.text, self@.load_request(client@)),
    {
        match &self.data.text {
            Lazy::Available(v) => Ok(Read::Value(v.clone())),
            Lazy::NotLoaded => Read::load(self.load_request(client)),
        }
    }

    pub fn get_time(&self, client: &Client) -> (r: CatapultResult<Read<String>>)
        ensures
            result_view(r) == read_field(self@.time, self@.load_request(client@)),
    {
        match &self.data.time {
            Lazy::Available(v) => Ok(Read::Value(v.clone())),
            Lazy::NotLoaded => Read::load(self.load_request(client)),
        }
    }

    pub fn get_media(&self, client: &Client) -> (r: CatapultResult<Read<Vec<Media>>>)
        ensures
            result_view(r) == read_field(self@.media, self@.load_request(client@)),
    {
        match &self.data.media {
            Lazy::Available(v) => Ok(Read::Value(clone_media(v))),
            Lazy::NotLoaded => Read::load(self.load_request(client)),
        }
    }
}

/// A message that was made from what identifies it alone asks for one load when
/// a field is read, whichever field it is. Once a load has succeeded, the read
/// of any field gives its value and asks for no request.
pub proof fn lemma_load_once(id: Seq<char>, client: ClientView, res: ResponseView)
    ensures
        ({
            let fresh = MessageView::unloaded(id);
            let load = fresh.load_request(client);
            let after = fresh.loaded(res);
            &&& asks_load(fresh.inbound, load)
            &&& asks_load(fresh.from, load)
            &&& asks_load(fresh.to, load)
            &&& asks_load(fresh.state, load)
            &&& asks_load(fresh.text, load)
            &&& asks_load(fresh.time, load)
            &&& asks_load(fresh.media, load)
            &&& after is Ok ==> reads_value(after->Ok_0.inbound, load)
            &&& after is Ok ==> reads_value(after->Ok_0.from, load)
            &&& after is Ok ==> reads_value(after->Ok_0.to, load)
            &&& after is Ok ==> reads_value(after->Ok_0.state, load)
            &&& after is Ok ==> reads_value(after->Ok_0.text, load)
            &&& after is Ok ==> reads_value(after->Ok_0.time, load)
            &&& after is Ok ==> reads_value(after->Ok_0.media, load)
        }),
{
}

/// A load replaces every field, whatever was cached: the last fetch wins, and
/// nothing of what was there before is merged in.
pub proof fn lemma_last_fetch_wins(a: MessageView, b: MessageView, res: ResponseView)
    requires
        a.id == b.id,
    ensures
        a.loaded(res) == b.loaded(res),
{
}

} // verus!
