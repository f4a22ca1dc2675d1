use vstd::prelude::*;
use vstd::string::StrSliceExecFns;
use vstd::utf8::encode_utf8;

use crate::client::ApiResponse;
use crate::client::Client;
use crate::client::ClientView;
use crate::client::EmptyResponse;
use crate::client::JsonResponse;
use crate::codec::DecoderError;
use crate::codec::DecoderErrorView;
use crate::codec::expected_error;
use crate::codec::get_opt_boolean;
use crate::codec::get_opt_string;
use crate::codec::get_opt_unsigned;
use crate::codec::get_string;
use crate::codec::lemma_read_items_fails;
use crate::codec::opt_boolean_field;
use crate::codec::opt_string_field;
use crate::codec::opt_unsigned_field;
use crate::codec::read_items;
use crate::codec::read_list;
use crate::codec::result_view;
use crate::codec::string_field;
use crate::error::CatapultError;
use crate::error::CatapultErrorView;
use crate::error::CatapultResult;
use crate::http::Method;
use crate::http::Request;
use crate::http::RequestView;
use crate::http::Response;
use crate::http::ResponseView;
use crate::json::JsonSpec;
use crate::json::JsonValue;
use crate::json::lazy_opt_boolean;
use crate::json::lazy_opt_string;
use crate::json::lazy_opt_unsigned;
use crate::json::lazy_string;
use crate::json::member;
use crate::lazy::Lazy;
use crate::lazy::Read;
use crate::lazy::asks_load;
use crate::lazy::read_field;
use crate::lazy::reads_value;
use crate::text::clone_opt;
use crate::text::concat;
use crate::text::to_owned_opt;
use crate::util::get_id_from_location_header;
use crate::util::get_next_link_from_headers;
use crate::util::id_of_location;
use crate::util::next_link_of;

verus! {

/// An application as the service describes it.
#[derive(Debug)]
pub struct ApplicationInfo {
    pub id: String,
    pub name: String,
    pub incoming_call_url: Option<String>,
    pub incoming_call_url_callback_timeout: Option<u64>,
    pub incoming_call_fallback_url: Option<String>,
    pub incoming_message_url: Option<String>,
    pub incoming_message_url_callback_timeout: Option<u64>,
    pub incoming_message_fallback_url: Option<String>,
    pub callback_http_method: Option<String>,
    pub auto_answer: Option<bool>,
}

/// The mathematical value of an [`ApplicationInfo`].
pub struct ApplicationInfoView {
    pub id: Seq<char>,
    pub name: Seq<char>,
    pub incoming_call_url: Option<Seq<char>>,
    pub incoming_call_url_callback_timeout: Option<u64>,
    pub incoming_call_fallback_url: Option<Seq<char>>,
    pub incoming_message_url: Option<Seq<char>>,
    pub incoming_message_url_callback_timeout: Option<u64>,
    pub incoming_message_fallback_url: Option<Seq<char>>,
    pub callback_http_method: Option<Seq<char>>,
    pub auto_answer: Option<bool>,
}

impl DeepView for ApplicationInfo {
    type V = ApplicationInfoView;

    open spec fn deep_view(&self) -> ApplicationInfoView {
        ApplicationInfoView {
            id: self.id@,
            name: self.name@,
            incoming_call_url: self.incoming_call_url.deep_view(),
            incoming_call_url_callback_timeout: self.incoming_call_url_callback_timeout,
            incoming_call_fallback_url: self.incoming_call_fallback_url.deep_view(),
            incoming_message_url: self.incoming_message_url.deep_view(),
            incoming_message_url_callback_timeout: self.incoming_message_url_callback_timeout,
            incoming_message_fallback_url: self.incoming_message_fallback_url.deep_view(),
            callback_http_method: self.callback_http_method.deep_view(),
            auto_answer: self.auto_answer,
        }
    }
}

impl ApplicationInfoView {
    /// The application that a JSON document describes: its members are read in the
    /// order of the fields, and the first that fails decides.
    pub open spec fn decode(json: JsonSpec) -> Result<ApplicationInfoView, DecoderErrorView> {
        match string_field(json, "id"@) {
            Err(e) => Err(e),
            Ok(id) =>
            match string_field(json, "name"@) {
                Err(e) => Err(e),
                Ok(name) =>
                match opt_string_field(json, "incomingCallUrl"@) {
                    Err(e) => Err(e),
                    Ok(incoming_call_url) =>
                    match opt_unsigned_field(json, "incomingCallUrlCallbackTimeout"@) {
                        Err(e) => Err(e),
                        Ok(incoming_call_url_callback_timeout) =>
                        match opt_string_field(json, "incomingCallFallbackUrl"@) {
                            Err(e) => Err(e),
                            Ok(incoming_call_fallback_url) =>
                            match opt_string_field(json, "incomingMessageUrl"@) {
                                Err(e) => Err(e),
                                Ok(incoming_message_url) =>
                                match opt_unsigned_field(json, "incomingMessageUrlCallbackTimeout"@) {
                                    Err(e) => Err(e),
                                    Ok(incoming_message_url_callback_timeout) =>
                                    match opt_string_field(json, "incomingMessageFallbackUrl"@) {
                                        Err(e) => Err(e),
                                        Ok(incoming_message_fallback_url) =>
                                        match opt_string_field(json, "callbackHttpMethod"@) {
                                            Err(e) => Err(e),
                                            Ok(callback_http_method) =>
                                            match opt_boolean_field(json, "autoAnswer"@) {
                                                Err(e) => Err(e),
                                                Ok(auto_answer) =>
                                                Ok(ApplicationInfoView { id, name, incoming_call_url, incoming_call_url_callback_timeout, incoming_call_fallback_url, incoming_message_url, incoming_message_url_callback_timeout, incoming_message_fallback_url, callback_http_method, auto_answer }),
                                            },
                                        },
                                    },
                                },
                            },
                        },
                    },
                },
            },
        }
    }
}

impl ApplicationInfo {
    /// Reads the application that a JSON document describes.
    pub fn decode(json: &JsonValue) -> (r: Result<ApplicationInfo, DecoderError>)
        ensures
            result_view(r) == ApplicationInfoView::decode(json.deep_view()),
    {
        let id = match get_string(json, "id") {
            Ok(v) => v,
            Err(e) => {
                return Err(e);
            },
        };
        let name = match get_string(json, "name") {
            Ok(v) => v,
            Err(e) => {
                return Err(e);
            },
        };
        let incoming_call_url = match get_opt_string(json, "incomingCallUrl") {
            Ok(v) => v,
            Err(e) => {
                return Err(e);
            },
        };
        let incoming_call_url_callback_timeout = match get_opt_unsigned(json, "incomingCallUrlCallbackTimeout") {
            Ok(v) => v,
            Err(e) => {
                return Err(e);
            },
        };
        let incoming_call_fallback_url = match get_opt_string(json, "incomingCallFallbackUrl") {
            Ok(v) => v,
            Err(e) => {
                return Err(e);
            },
        };
        let incoming_message_url = match get_opt_string(json, "incomingMessageUrl") {
            Ok(v) => v,
            Err(e) => {
                return Err(e);
            },
        };
        let incoming_message_url_callback_timeout = match get_opt_unsigned(json, "incomingMessageUrlCallbackTimeout") {
            Ok(v) => v,
            Err(e) => {
                return Err(e);
            },
        };
        let incoming_message_fallback_url = match get_opt_string(json, "incomingMessageFallbackUrl") {
            Ok(v) => v,
            Err(e) => {
                return Err(e);
            },
        };
        let callback_http_method = match get_opt_string(json, "callbackHttpMethod") {
            Ok(v) => v,
            Err(e) => {
                return Err(e);
            },
        };
        let auto_answer = match get_opt_boolean(json, "autoAnswer") {
            Ok(v) => v,
            Err(e) => {
                return Err(e);
            },
        };
        Ok(ApplicationInfo { id, name, incoming_call_url, incoming_call_url_callback_timeout, incoming_call_fallback_url, incoming_message_url, incoming_message_url_callback_timeout, incoming_message_fallback_url, callback_http_method, auto_answer })
    }
}

/// The applications that a JSON array describes, in its order.
pub open spec fn decode_all(json: JsonSpec) -> Result<Seq<ApplicationInfoView>, DecoderErrorView> {
    read_list(json, |j: JsonSpec| ApplicationInfoView::decode(j))
}

/// Reads the applications that a JSON array describes.
pub fn decode_list(json: &JsonValue) -> (r: Result<Vec<ApplicationInfo>, DecoderError>)
    ensures
        result_view(r) == decode_all(json.deep_view()),
{
    match json {
        JsonValue::Array(items) => {
            let ghost all = json.model()->Array_0;
            let ghost read = |j: JsonSpec| ApplicationInfoView::decode(j);
            let mut out: Vec<ApplicationInfo> = Vec::new();
            let mut i: usize = 0;
            assert(all.take(0) =~= Seq::empty());
            assert(out.deep_view() =~= Seq::empty());
            while i < items.len()
                invariant
                    i <= items.len(),
                    all.len() == items.len(),
                    json.model() == JsonSpec::Array(all),
                    forall|k: int| 0 <= k < items.len() ==> #[trigger] all[k] == items[k].model(),
                    read == (|j: JsonSpec| ApplicationInfoView::decode(j)),
                    read_items(all.take(i as int), read) == Ok::<Seq<ApplicationInfoView>, DecoderErrorView>(
                        out.deep_view(),
                    ),
                decreases items.len() - i,
            {
                let ghost before = out.deep_view();
                assert(all.take(i + 1).drop_last() =~= all.take(i as int));
                assert(all.take(i + 1).last() == items[i as int].model());
                match ApplicationInfo::decode(&items[i]) {
                    Ok(item) => {
                        let ghost v = item.deep_view();
                        out.push(item);
                        assert(out.deep_view() =~= before.push(v));
                    },
                    Err(e) => {
                        proof {
                            lemma_read_items_fails(all, read, i + 1);
                        }
                        return Err(e);
                    },
                }
                i += 1;
            }
            assert(all.take(i as int) =~= all);
            Ok(out)
        },
        _ => Err(expected_error("Array", json)),
    }
}

#[derive(Debug)]
struct Data {
    name: Lazy<String>,
    incoming_call_url: Lazy<Option<String>>,
    incoming_call_url_callback_timeout: Lazy<Option<u64>>,
    incoming_call_fallback_url: Lazy<Option<String>>,
    incoming_message_url: Lazy<Option<String>>,
    incoming_message_url_callback_timeout: Lazy<Option<u64>>,
    incoming_message_fallback_url: Lazy<Option<String>>,
    callback_http_method: Lazy<Option<String>>,
    auto_answer: Lazy<Option<bool>>,
}

impl Data {
    spec fn view_as(&self, id: Seq<char>) -> ApplicationView {
        ApplicationView {
            id,
            name: self.name.deep_view(),
            incoming_call_url: self.incoming_call_url.deep_view(),
            incoming_call_url_callback_timeout: self.incoming_call_url_callback_timeout.deep_view(),
            incoming_call_fallback_url: self.incoming_call_fallback_url.deep_view(),
            incoming_message_url: self.incoming_message_url.deep_view(),
            incoming_message_url_callback_timeout: self.incoming_message_url_callback_timeout.deep_view(),
            incoming_message_fallback_url: self.incoming_message_fallback_url.deep_view(),
            callback_http_method: self.callback_http_method.deep_view(),
            auto_answer: self.auto_answer.deep_view(),
        }
    }

    /// Fields of which nothing is known yet.
    fn unloaded() -> (r: Data)
        ensures
            r.name is NotLoaded,
            r.incoming_call_url is NotLoaded,
            r.incoming_call_url_callback_timeout is NotLoaded,
            r.incoming_call_fallback_url is NotLoaded,
            r.incoming_message_url is NotLoaded,
            r.incoming_message_url_callback_timeout is NotLoaded,
            r.incoming_message_fallback_url is NotLoaded,
            r.callback_http_method is NotLoaded,
            r.auto_answer is NotLoaded,
    {
        Data {
            name: Lazy::NotLoaded,
            incoming_call_url: Lazy::NotLoaded,
            incoming_call_url_callback_timeout: Lazy::NotLoaded,
            incoming_call_fallback_url: Lazy::NotLoaded,
            incoming_message_url: Lazy::NotLoaded,
            incoming_message_url_callback_timeout: Lazy::NotLoaded,
            incoming_message_fallback_url: Lazy::NotLoaded,
            callback_http_method: Lazy::NotLoaded,
            auto_answer: Lazy::NotLoaded,
        }
    }
}

/// An application of the user: where the service sends the events of its
/// calls and messages. Its fields are fetched when one is first read.
#[derive(Debug)]
pub struct Application {
    id: String,
    data: Data,
}

/// The mathematical value of an [`Application`].
pub struct ApplicationView {
    pub id: Seq<char>,
    pub name: Lazy<Seq<char>>,
    pub incoming_call_url: Lazy<Option<Seq<char>>>,
    pub incoming_call_url_callback_timeout: Lazy<Option<u64>>,
    pub incoming_call_fallback_url: Lazy<Option<Seq<char>>>,
    pub incoming_message_url: Lazy<Option<Seq<char>>>,
    pub incoming_message_url_callback_timeout: Lazy<Option<u64>>,
    pub incoming_message_fallback_url: Lazy<Option<Seq<char>>>,
    pub callback_http_method: Lazy<Option<Seq<char>>>,
    pub auto_answer: Lazy<Option<bool>>,
}

impl DeepView for Application {
    type V = ApplicationView;

    closed spec fn deep_view(&self) -> ApplicationView {
        self.data.view_as(self.id@)
    }
}

impl View for Application {
    type V = ApplicationView;

    open spec fn view(&self) -> ApplicationView {
        self.deep_view()
    }
}

impl ApplicationView {
    /// An application of which only the identifier is known.
    pub open spec fn unloaded(id: Seq<char>) -> ApplicationView {
        ApplicationView {
            id,
            name: Lazy::NotLoaded,
            incoming_call_url: Lazy::NotLoaded,
            incoming_call_url_callback_timeout: Lazy::NotLoaded,
            incoming_call_fallback_url: Lazy::NotLoaded,
            incoming_message_url: Lazy::NotLoaded,
            incoming_message_url_callback_timeout: Lazy::NotLoaded,
            incoming_message_fallback_url: Lazy::NotLoaded,
            callback_http_method: Lazy::NotLoaded,
            auto_answer: Lazy::NotLoaded,
        }
    }

    /// An application as a fetch or a listing describes it.
    pub open spec fn from_info(info: ApplicationInfoView) -> ApplicationView {
        ApplicationView {
            id: info.id,
            name: Lazy::Available(info.name),
            incoming_call_url: Lazy::Available(info.incoming_call_url),
            incoming_call_url_callback_timeout: Lazy::Available(info.incoming_call_url_callback_timeout),
            incoming_call_fallback_url: Lazy::Available(info.incoming_call_fallback_url),
            incoming_message_url: Lazy::Available(info.incoming_message_url),
            incoming_message_url_callback_timeout: Lazy::Available(info.incoming_message_url_callback_timeout),
            incoming_message_fallback_url: Lazy::Available(info.incoming_message_fallback_url),
            callback_http_method: Lazy::Available(info.callback_http_method),
            auto_answer: Lazy::Available(info.auto_answer),
        }
    }

    /// Whether every field holds a value.
    pub open spec fn complete(self) -> bool {
        &&& self.name is Available
        &&& self.incoming_call_url is Available
        &&& self.incoming_call_url_callback_timeout is Available
        &&& self.incoming_call_fallback_url is Available
        &&& self.incoming_message_url is Available
        &&& self.incoming_message_url_callback_timeout is Available
        &&& self.incoming_message_fallback_url is Available
        &&& self.callback_http_method is Available
        &&& self.auto_answer is Available
    }

    /// What a request that addresses the application by its identifier comes to: an
    /// empty identifier is refused before any request is made, since the
    /// path would be that of the list of all.
    pub open spec fn guarded(self, request: Result<RequestView, CatapultErrorView>) -> Result<
        RequestView,
        CatapultErrorView,
    > {
        if self.id.len() == 0 {
            Err(CatapultErrorView::BadInput("invalid app id"@))
        } else {
            request
        }
    }

    /// The path of the application.
    pub open spec fn path(self, client: ClientView) -> Seq<char> {
        client.user_path("/applications/"@ + self.id)
    }

    /// The request that fetches the application. An application without an
    /// identifier cannot be fetched: its path would be that of the list of
    /// all applications.
    pub open spec fn load_request(self, client: ClientView) -> Result<RequestView, CatapultErrorView> {
        self.guarded(client.get(self.path(client)))
    }

    /// The application after a fetch: every field as the response gives it,
    /// whatever it held before. A response that tells of a failure, or does
    /// not describe an application, gives the error instead.
    pub open spec fn loaded(self, res: ResponseView) -> Result<ApplicationView, CatapultErrorView> {
        match res.json() {
            Err(e) => Err(e),
            Ok(json) => match ApplicationInfoView::decode(json.body) {
                Err(e) => Err(CatapultErrorView::DecoderError(e)),
                Ok(info) => Ok(ApplicationView { id: self.id, ..ApplicationView::from_info(info) }),
            },
        }
    }

    /// The document of a partial update: a member for each field that holds
    /// a value, and none for the others.
    pub open spec fn save_body(self) -> JsonSpec {
        JsonSpec::Object(
            lazy_string("name"@, self.name)
            + lazy_opt_string("incomingCallUrl"@, self.incoming_call_url)
            + lazy_opt_unsigned("incomingCallUrlCallbackTimeout"@, self.incoming_call_url_callback_timeout)
            + lazy_opt_string("incomingCallFallbackUrl"@, self.incoming_call_fallback_url)
            + lazy_opt_string("incomingMessageUrl"@, self.incoming_message_url)
            + lazy_opt_unsigned("incomingMessageUrlCallbackTimeout"@, self.incoming_message_url_callback_timeout)
            + lazy_opt_string("incomingMessageFallbackUrl"@, self.incoming_message_fallback_url)
            + lazy_opt_string("callbackHttpMethod"@, self.callback_http_method)
            + lazy_opt_boolean("autoAnswer"@, self.auto_answer),
        )
    }

    /// The request that writes the fields that hold a value back to the
    /// service.
    pub open spec fn save_request(self, client: ClientView) -> Result<RequestView, CatapultErrorView> {
        self.guarded(client.post(self.path(client), self.save_body()))
    }

    /// The request that deletes the application.
    pub open spec fn delete_request(self, client: ClientView) -> Result<RequestView, CatapultErrorView> {
        self.guarded(client.request(Method::Delete, self.path(client), JsonSpec::Null, Seq::empty()))
    }
}

/// The applications that their descriptions stand for.
pub open spec fn applications_of(infos: Seq<ApplicationInfoView>) -> Seq<ApplicationView> {
    Seq::new(infos.len(), |i: int| ApplicationView::from_info(infos[i]))
}

/// One page of a listing of applications, and where the next page is.
#[derive(Debug)]
pub struct QueryResult {
    data: Vec<Application>,
    next_url: Option<String>,
}

/// The mathematical value of a [`QueryResult`].
pub struct QueryResultView {
    pub data: Seq<ApplicationView>,
    pub next_url: Option<Seq<char>>,
}

impl DeepView for QueryResult {
    type V = QueryResultView;

    closed spec fn deep_view(&self) -> QueryResultView {
        QueryResultView { data: self.data.deep_view(), next_url: self.next_url.deep_view() }
    }
}

impl View for QueryResult {
    type V = QueryResultView;

    open spec fn view(&self) -> QueryResultView {
        self.deep_view()
    }
}

impl QueryResultView {
    /// The page that a response to a listing holds: the applications of its
    /// body, each with every field filled, and the address of the next page
    /// from its headers.
    pub open spec fn of(res: ResponseView) -> Result<QueryResultView, CatapultErrorView> {
        match res.json() {
            Err(e) => Err(e),
            Ok(json) => match decode_all(json.body) {
                Err(e) => Err(CatapultErrorView::DecoderError(e)),
                Ok(infos) => match next_link_of(json.headers) {
                    Err(e) => Err(e),
                    Ok(next_url) => Ok(QueryResultView { data: applications_of(infos), next_url }),
                },
            },
        }
    }
}

impl QueryResult {
    pub fn get_applications(&self) -> (r: &Vec<Application>)
        ensures
            r.deep_view() == self@.data,
    {
        &self.data
    }

    /// Hands out the applications of the page, which is left without them. The
    /// page keeps the address of the page after it.
    pub fn take_applications(&mut self) -> (r: Vec<Application>)
        ensures
            r.deep_view() == old(self)@.data,
            final(self)@ == (QueryResultView { data: Seq::empty(), next_url: old(self)@.next_url }),
    {
        let mut taken: Vec<Application> = Vec::new();
        assert(taken.deep_view() =~= Seq::<ApplicationView>::empty());
        core::mem::swap(&mut self.data, &mut taken);
        taken
    }

    /// Whether there is a page after this one.
    pub fn has_next(&self) -> (r: bool)
        ensures
            r == (self@.next_url is Some),
    {
        self.next_url.is_some()
    }

    /// The request for the next page, or nothing after the last page: the
    /// address is the one that came with this page, as it stands.
    pub fn next_request(&self, client: &Client) -> (r: Option<Request>)
        ensures
            r.deep_view() == match self@.next_url {
                Some(url) => Some(client@.page(url)),
                None => None,
            },
    {
        match &self.next_url {
            Some(url) => Some(client.page_request(url.as_str())),
            None => None,
        }
    }

    /// The next page, from the response to the request of `next_request`;
    /// nothing after the last page.
    pub fn next(&self, res: Response) -> (r: Option<CatapultResult<QueryResult>>)
        ensures
            match self@.next_url {
                Some(_) => r is Some && result_view(r->0) == QueryResultView::of(res.deep_view()),
                None => r is None,
            },
    {
        match &self.next_url {
            Some(_) => Some(Application::list(res)),
            None => None,
        }
    }
}

/// A listing of the applications of the user that is yet to be asked for.
#[derive(Debug)]
pub struct Query {
    size: Option<u32>,
}

/// The mathematical value of a [`Query`].
pub struct QueryView {
    pub size: Option<u32>,
}

impl DeepView for Query {
    type V = QueryView;

    closed spec fn deep_view(&self) -> QueryView {
        QueryView { size: self.size }
    }
}

impl View for Query {
    type V = QueryView;

    open spec fn view(&self) -> QueryView {
        self.deep_view()
    }
}

impl QueryView {
    /// The parameters of the listing: those that were set, by ascending
    /// name.
    pub open spec fn params(self) -> JsonSpec {
        JsonSpec::Object(
            member(
                "size"@,
                match self.size {
                    Some(n) => Some(JsonSpec::U64(n as u64)),
                    None => None,
                },
            ),
        )
    }

    /// The request for the first page.
    pub open spec fn submit_request(self, client: ClientView) -> Result<RequestView, CatapultErrorView> {
        client.request(Method::Get, client.user_path("/applications"@), self.params(), Seq::empty())
    }
}

impl Query {
    /// Asks for pages of at most `size` applications.
    pub fn size(self, size: u32) -> (r: Query)
        ensures
            r@ == (QueryView { size: Some(size) }),
    {
        Query { size: Some(size) }
    }

    /// The request for the first page.
    pub fn submit_request(&self, client: &Client) -> (r: CatapultResult<Request>)
        ensures
            result_view(r) == self@.submit_request(client@),
    {
        let path = client.user_path("/applications");
        let mut map: Vec<(String, JsonValue)> = Vec::new();
        assert(map.deep_view() =~= Seq::<(Seq<char>, JsonSpec)>::empty());
        match self.size {
            Some(size) => {
                JsonValue::put(&mut map, "size", JsonValue::U64(size as u64));
            },
            None => {},
        }
        assert(map.deep_view() =~= self@.params()->Object_0);
        let json = JsonValue::object(map);
        client.raw_get_request(path.as_str(), &json, ())
    }

    /// The first page, from the response to the request of
    /// `submit_request`.
    pub fn submit(&self, res: Response) -> (r: CatapultResult<QueryResult>)
        ensures
            result_view(r) == QueryResultView::of(res.deep_view()),
    {
        Application::list(res)
    }
}

/// An application that is yet to be created.
#[derive(Debug)]
pub struct ApplicationBuilder {
    name: String,
    incoming_message_url: String,
    incoming_call_url: String,
    incoming_call_url_callback_timeout: Option<u64>,
    incoming_call_fallback_url: Option<String>,
    incoming_message_url_callback_timeout: Option<u64>,
    incoming_message_fallback_url: Option<String>,
    callback_http_method: String,
    auto_answer: bool,
}

/// The mathematical value of an [`ApplicationBuilder`].
pub struct ApplicationBuilderView {
    pub name: Seq<char>,
    pub incoming_message_url: Seq<char>,
    pub incoming_call_url: Seq<char>,
    pub incoming_call_url_callback_timeout: Option<u64>,
    pub incoming_call_fallback_url: Option<Seq<char>>,
    pub incoming_message_url_callback_timeout: Option<u64>,
    pub incoming_message_fallback_url: Option<Seq<char>>,
    pub callback_http_method: Seq<char>,
    pub auto_answer: bool,
}

impl DeepView for ApplicationBuilder {
    type V = ApplicationBuilderView;

    closed spec fn deep_view(&self) -> ApplicationBuilderView {
        ApplicationBuilderView {
            name: self.name@,
            incoming_message_url: self.incoming_message_url@,
            incoming_call_url: self.incoming_call_url@,
            incoming_call_url_callback_timeout: self.incoming_call_url_callback_timeout,
            incoming_call_fallback_url: self.incoming_call_fallback_url.deep_view(),
            incoming_message_url_callback_timeout: self.incoming_message_url_callback_timeout,
            incoming_message_fallback_url: self.incoming_message_fallback_url.deep_view(),
            callback_http_method: self.callback_http_method@,
            auto_answer: self.auto_answer,
        }
    }
}

impl View for ApplicationBuilder {
    type V = ApplicationBuilderView;

    open spec fn view(&self) -> ApplicationBuilderView {
        self.deep_view()
    }
}

impl ApplicationBuilderView {
    /// The document that describes the application to the service.
    pub open spec fn body(self) -> JsonSpec {
        JsonSpec::Object(
            seq![
                ("name"@, JsonSpec::String(self.name)),
                ("incomingCallUrl"@, JsonSpec::String(self.incoming_call_url)),
                (
                    "incomingCallUrlCallbackTimeout"@,
                    JsonSpec::opt_unsigned(self.incoming_call_url_callback_timeout),
                ),
                ("incomingCallFallbackUrl"@, JsonSpec::opt_string(self.incoming_call_fallback_url)),
                ("incomingMessageUrl"@, JsonSpec::String(self.incoming_message_url)),
                (
                    "incomingMessageUrlCallbackTimeout"@,
                    JsonSpec::opt_unsigned(self.incoming_message_url_callback_timeout),
                ),
                (
                    "incomingMessageFallbackUrl"@,
                    JsonSpec::opt_string(self.incoming_message_fallback_url),
                ),
                ("callbackHttpMethod"@, JsonSpec::String(self.callback_http_method)),
                ("autoAnswer"@, JsonSpec::Boolean(self.auto_answer)),
            ],
        )
    }

    /// The request that creates the application.
    pub open spec fn create_request(self, client: ClientView) -> Result<RequestView, CatapultErrorView> {
        client.post(client.user_path("/applications"@), self.body())
    }

    /// The application that the response to the creation stands for: its
    /// identifier is the one that the response names, its fields hold what
    /// was asked for.
    pub open spec fn created(self, res: ResponseView) -> Result<ApplicationView, CatapultErrorView> {
        match res.empty() {
            Err(e) => Err(e),
            Ok(headers) => match id_of_location(headers) {
                Err(e) => Err(e),
                Ok(id) => Ok(
                    ApplicationView {
                        id,
                        name: Lazy::Available(self.name),
                        incoming_call_url: Lazy::Available(Some(self.incoming_call_url)),
                        incoming_call_url_callback_timeout: Lazy::Available(
                            self.incoming_call_url_callback_timeout,
                        ),
                        incoming_call_fallback_url: Lazy::Available(self.incoming_call_fallback_url),
                        incoming_message_url: Lazy::Available(Some(self.incoming_message_url)),
                        incoming_message_url_callback_timeout: Lazy::Available(
                            self.incoming_message_url_callback_timeout,
                        ),
                        incoming_message_fallback_url: Lazy::Available(
                            self.incoming_message_fallback_url,
                        ),
                        callback_http_method: Lazy::Available(Some(self.callback_http_method)),
                        auto_answer: Lazy::Available(Some(self.auto_answer)),
                    },
                ),
            },
        }
    }
}

impl ApplicationBuilder {
    pub fn incoming_call_url_callback_timeout(self, millis: u64) -> (r: Self)
        ensures
            r@ == (ApplicationBuilderView { incoming_call_url_callback_timeout: Some(millis), ..self@ }),
    {
        let mut r = self;
        r.incoming_call_url_callback_timeout = Some(millis);
        r
    }

    pub fn incoming_call_fallback_url(self, url: &str) -> (r: Self)
        ensures
            r@ == (ApplicationBuilderView { incoming_call_fallback_url: Some(url@), ..self@ }),
    {
        let mut r = self;
        r.incoming_call_fallback_url = Some(url.to_owned());
        r
    }

    pub fn incoming_message_url_callback_timeout(self, millis: u64) -> (r: Self)
        ensures
            r@ == (ApplicationBuilderView { incoming_message_url_callback_timeout: Some(millis), ..self@ }),
    {
        let mut r = self;
        r.incoming_message_url_callback_timeout = Some(millis);
        r
    }

    pub fn incoming_message_fallback_url(self, url: &str) -> (r: Self)
        ensures
            r@ == (ApplicationBuilderView { incoming_message_fallback_url: Some(url@), ..self@ }),
    {
        let mut r = self;
        r.incoming_message_fallback_url = Some(url.to_owned());
        r
    }

    /// Has the events sent with `GET`, as parameters of the query, and not
    /// with `POST`, as a JSON body.
    pub fn use_get_http_method(self) -> (r: Self)
        ensures
            r@ == (ApplicationBuilderView { callback_http_method: "GET"@, ..self@ }),
    {
        let mut r = self;
        r.callback_http_method = "GET".to_owned();
        r
    }

    pub fn disable_auto_answer(self) -> (r: Self)
        ensures
            r@ == (ApplicationBuilderView { auto_answer: false, ..self@ }),
    {
        let mut r = self;
        r.auto_answer = false;
        r
    }

    /// The request that creates the application.
    pub fn create_request(&self, client: &Client) -> (r: CatapultResult<Request>)
        ensures
            result_view(r) == self@.create_request(client@),
    {
        let path = client.user_path("/applications");
        let mut map: Vec<(String, JsonValue)> = Vec::new();
        JsonValue::put(&mut map, "name", JsonValue::string(self.name.as_str()));
        JsonValue::put(&mut map, "incomingCallUrl", JsonValue::string(self.incoming_call_url.as_str()));
        JsonValue::put(
            &mut map,
            "incomingCallUrlCallbackTimeout",
            JsonValue::opt_unsigned(self.incoming_call_url_callback_timeout),
        );
        JsonValue::put(
            &mut map,
            "incomingCallFallbackUrl",
            JsonValue::opt_string(&self.incoming_call_fallback_url),
        );
        JsonValue::put(
            &mut map,
            "incomingMessageUrl",
            JsonValue::string(self.incoming_message_url.as_str()),
        );
        JsonValue::put(
            &mut map,
            "incomingMessageUrlCallbackTimeout",
            JsonValue::opt_unsigned(self.incoming_message_url_callback_timeout),
        );
        JsonValue::put(
            &mut map,
            "incomingMessageFallbackUrl",
            JsonValue::opt_string(&self.incoming_message_fallback_url),
        );
        JsonValue::put(
            &mut map,
            "callbackHttpMethod",
            JsonValue::string(self.callback_http_method.as_str()),
        );
        JsonValue::put(&mut map, "autoAnswer", JsonValue::Boolean(self.auto_answer));
        assert(map.deep_view() =~= self@.body()->Object_0);
        let json = JsonValue::object(map);
        client.post_request(path.as_str(), &json)
    }

    /// The application that was created, from the response to the request
    /// of `create_request`.
    pub fn create(self, res: Response) -> (r: CatapultResult<Application>)
        ensures
            result_view(r) == self@.created(res.deep_view()),
    {
        let res = match EmptyResponse::new(res) {
            Ok(res) => res,
            Err(e) => {
                return Err(e);
            },
        };
        let id = match get_id_from_location_header(&res.headers) {
            Ok(id) => id,
            Err(e) => {
                return Err(e);
            },
        };
        Ok(
            Application {
                id,
                data: Data {
                    name: Lazy::Available(self.name),
                    incoming_call_url: Lazy::Available(Some(self.incoming_call_url)),
                    incoming_call_url_callback_timeout: Lazy::Available(
                        self.incoming_call_url_callback_timeout,
                    ),
                    incoming_call_fallback_url: Lazy::Available(self.incoming_call_fallback_url),
                    incoming_message_url: Lazy::Available(Some(self.incoming_message_url)),
                    incoming_message_url_callback_timeout: Lazy::Available(
                        self.incoming_message_url_callback_timeout,
                    ),
                    incoming_message_fallback_url: Lazy::Available(self.incoming_message_fallback_url),
                    callback_http_method: Lazy::Available(Some(self.callback_http_method)),
                    auto_answer: Lazy::Available(Some(self.auto_answer)),
                },
            },
        )
    }
}

impl Data {
    fn from_info(info: &ApplicationInfo) -> (r: Data)
        ensures
            r.view_as(info.id@) == ApplicationView::from_info(info.deep_view()),
    {
        Data {
            name: Lazy::Available(info.name.clone()),
            incoming_call_url: Lazy::Available(clone_opt(&info.incoming_call_url)),
            incoming_call_url_callback_timeout: Lazy::Available(info.incoming_call_url_callback_timeout),
            incoming_call_fallback_url: Lazy::Available(clone_opt(&info.incoming_call_fallback_url)),
            incoming_message_url: Lazy::Available(clone_opt(&info.incoming_message_url)),
            incoming_message_url_callback_timeout: Lazy::Available(info.incoming_message_url_callback_timeout),
            incoming_message_fallback_url: Lazy::Available(clone_opt(&info.incoming_message_fallback_url)),
            callback_http_method: Lazy::Available(clone_opt(&info.callback_http_method)),
            auto_answer: Lazy::Available(info.auto_answer),
        }
    }
}

impl Application {
    /// An application that is yet to be created: events are sent with
    /// `POST`, and incoming calls are answered.
    pub fn build(name: &str, call_url: &str, msg_url: &str) -> (r: ApplicationBuilder)
        ensures
            r@ == (ApplicationBuilderView {
                name: name@,
                incoming_message_url: msg_url@,
                incoming_call_url: call_url@,
                incoming_call_url_callback_timeout: None,
                incoming_call_fallback_url: None,
                incoming_message_url_callback_timeout: None,
                incoming_message_fallback_url: None,
                callback_http_method: "POST"@,
                auto_answer: true,
            }),
    {
        ApplicationBuilder {
            name: name.to_owned(),
            incoming_message_url: msg_url.to_owned(),
            incoming_call_url: call_url.to_owned(),
            incoming_call_url_callback_timeout: None,
            incoming_call_fallback_url: None,
            incoming_message_url_callback_timeout: None,
            incoming_message_fallback_url: None,
            callback_http_method: "POST".to_owned(),
            auto_answer: true,
        }
    }

    /// The page of applications that a response to a listing holds.
    pub fn list(res: Response) -> (r: CatapultResult<QueryResult>)
        ensures
            result_view(r) == QueryResultView::of(res.deep_view()),
    {
        let res = match JsonResponse::new(res) {
            Ok(res) => res,
            Err(e) => {
                return Err(e);
            },
        };
        let infos = match decode_list(&res.body) {
            Ok(infos) => infos,
            Err(e) => {
                return Err(CatapultError::DecoderError(e));
            },
        };
        let ghost all = infos.deep_view();
        let mut output: Vec<Application> = Vec::new();
        let mut i: usize = 0;
        while i < infos.len()
            invariant
                i <= infos.len(),
                output.len() == i,
                all == infos.deep_view(),
                forall|k: int|
                    0 <= k < i ==> (#[trigger] output[k]).deep_view() == ApplicationView::from_info(
                        all[k],
                    ),
            decreases infos.len() - i,
        {
            let id = infos[i].id.clone();
            output.push(Application { id, data: Data::from_info(&infos[i]) });
            i += 1;
        }
        assert(output.deep_view() =~= applications_of(all));
        let next_url = match get_next_link_from_headers(&res.headers) {
            Ok(next_url) => next_url,
            Err(e) => {
                return Err(e);
            },
        };
        Ok(QueryResult { data: output, next_url })
    }

    /// A listing of the applications of the user.
    pub fn query() -> (r: Query)
        ensures
            r@ == (QueryView { size: None }),
    {
        Query { size: None }
    }

    /// The request that deletes the application.
    pub fn delete(&self, client: &Client) -> (r: CatapultResult<Request>)
        ensures
            result_view(r) == self@.delete_request(client@),
    {
        let path = self.path(client);
        self.guarded(
            client.raw_delete_request(path.as_str(), &JsonValue::Null),
        )
    }

    /// The application with the given identifier, with nothing fetched yet.
    pub fn get(id: &str) -> (r: Application)
        ensures
            r@ == ApplicationView::unloaded(id@),
    {
        Application { id: id.to_owned(), data: Data::unloaded() }
    }

    /// Refuses a request where an identifier that its path needs is empty.
    pub(crate) fn guarded(&self, request: CatapultResult<Request>) -> (r: CatapultResult<Request>)
        ensures
            result_view(r) == self@.guarded(result_view(request)),
    {
        if self.id.as_str().unicode_len() == 0 {
            Err(CatapultError::bad_input("invalid app id"))
        } else {
            request
        }
    }

    /// The path of the application.
    fn path(&self, client: &Client) -> (r: String)
        ensures
            r@ == self@.path(client@),
    {
        let rest = concat("/applications/", self.id.as_str());
        client.user_path(rest.as_str())
    }

    /// The request that fetches the application.
    pub fn load_request(&self, client: &Client) -> (r: CatapultResult<Request>)
        ensures
            result_view(r) == self@.load_request(client@),
    {
        if self.id.as_str().unicode_len() == 0 {
            return Err(CatapultError::bad_input("invalid app id"));
        }
        let path = self.path(client);
        self.guarded(
            client.get_request(path.as_str()),
        )
    }

    /// Takes the response to the request of `load_request` and, where it
    /// describes the application, replaces every field by what it says. On
    /// an error nothing changes.
    pub fn load(&mut self, res: Response) -> (r: CatapultResult<()>)
        ensures
            match old(self)@.loaded(res.deep_view()) {
                Ok(after) => r is Ok && final(self)@ == after,
                Err(e) => result_view(r) == Err::<(), CatapultErrorView>(e) && final(self)@ == old(
                    self,
                )@,
            },
    {
        let json = match JsonResponse::new(res) {
            Ok(json) => json,
            Err(e) => {
                return Err(e);
            },
        };
        let info = match ApplicationInfo::decode(&json.body) {
            Ok(info) => info,
            Err(e) => {
                return Err(CatapultError::DecoderError(e));
            },
        };
        self.data = Data::from_info(&info);
        Ok(())
    }

    /// The request that writes the fields that hold a value back to the
    /// service, and no others.
    pub fn save(&self, client: &Client) -> (r: CatapultResult<Request>)
        ensures
            result_view(r) == self@.save_request(client@),
            self@.save_body() == JsonSpec::Object(Seq::empty()) && r is Ok ==> r->Ok_0.body@ == encode_utf8(
                "{}"@,
            ),
    {
        let path = self.path(client);
        let mut map: Vec<(String, JsonValue)> = Vec::new();
        JsonValue::put_string(&mut map, "name", &self.data.name);
        assert(map.deep_view() =~= lazy_string("name"@, self@.name));
        JsonValue::put_opt_string(&mut map, "incomingCallUrl", &self.data.incoming_call_url);
        JsonValue::put_opt_unsigned(&mut map, "incomingCallUrlCallbackTimeout", &self.data.incoming_call_url_callback_timeout);
        JsonValue::put_opt_string(&mut map, "incomingCallFallbackUrl", &self.data.incoming_call_fallback_url);
        JsonValue::put_opt_string(&mut map, "incomingMessageUrl", &self.data.incoming_message_url);
        JsonValue::put_opt_unsigned(&mut map, "incomingMessageUrlCallbackTimeout", &self.data.incoming_message_url_callback_timeout);
        JsonValue::put_opt_string(&mut map, "incomingMessageFallbackUrl", &self.data.incoming_message_fallback_url);
        JsonValue::put_opt_string(&mut map, "callbackHttpMethod", &self.data.callback_http_method);
        JsonValue::put_opt_boolean(&mut map, "autoAnswer", &self.data.auto_answer);
        let json = JsonValue::object(map);
        self.guarded(
            client.post_request(path.as_str(), &json),
        )
    }

    pub fn get_id(&self) -> (r: String)
        ensures
            r@ == self@.id,
    {
        self.id.clone()
    }

    pub fn get_name(&self, client: &Client) -> (r: CatapultResult<Read<String>>)
        ensures
            result_view(r) == read_field(self@.name, self@.load_request(client@)),
    {
        match &self.data.name {
            Lazy::Available(v) => Ok(Read::Value(v.clone())),
            Lazy::NotLoaded => Read::load(self.load_request(client)),
        }
    }

    pub fn get_incoming_call_url(&self, client: &Client) -> (r: CatapultResult<Read<Option<String>>>)
        ensures
            result_view(r) == read_field(self@.incoming_call_url, self@.load_request(client@)),
    {
        match &self.data.incoming_call_url {
            Lazy::Available(v) => Ok(Read::Value(clone_opt(v))),
            Lazy::NotLoaded => Read::load(self.load_request(client)),
        }
    }

    pub fn get_incoming_call_url_callback_timeout(&self, client: &Client) -> (r: CatapultResult<Read<Option<u64>>>)
        ensures
            result_view(r) == read_field(self@.incoming_call_url_callback_timeout, self@.load_request(client@)),
    {
        match &self.data.incoming_call_url_callback_timeout {
            Lazy::Available(v) => Ok(Read::Value(*v)),
            Lazy::NotLoaded => Read::load(self.load_request(client)),
        }
    }

    pub fn get_incoming_call_fallback_url(&self, client: &Client) -> (r: CatapultResult<Read<Option<String>>>)
        ensures
            result_view(r) == read_field(self@.incoming_call_fallback_url, self@.load_request(client@)),
    {
        match &self.data.incoming_call_fallback_url {
            Lazy::Available(v) => Ok(Read::Value(clone_opt(v))),
            Lazy::NotLoaded => Read::load(self.load_request(client)),
        }
    }

    pub fn get_incoming_message_url(&self, client: &Client) -> (r: CatapultResult<Read<Option<String>>>)
        ensures
            result_view(r) == read_field(self@.incoming_message_url, self@.load_request(client@)),
    {
        match &self.data.incoming_message_url {
            Lazy::Available(v) => Ok(Read::Value(clone_opt(v))),
            Lazy::NotLoaded => Read::load(self.load_request(client)),
        }
    }

    pub fn get_incoming_message_url_callback_timeout(&self, client: &Client) -> (r: CatapultResult<Read<Option<u64>>>)
        ensures
            result_view(r) == read_field(self@.incoming_message_url_callback_timeout, self@.load_request(client@)),
    {
        match &self.data.incoming_message_url_callback_timeout {
            Lazy::Available(v) => Ok(Read::Value(*v)),
            Lazy::NotLoaded => Read::load(self.load_request(client)),
        }
    }

    pub fn get_callback_http_method(&self, client: &Client) -> (r: CatapultResult<Read<Option<String>>>)
        ensures
            result_view(r) == read_field(self@.callback_http_method, self@.load_request(client@)),
    {
        match &self.data.callback_http_method {
            Lazy::Available(v) => Ok(Read::Value(clone_opt(v))),
            Lazy::NotLoaded => Read::load(self.load_request(client)),
        }
    }

    pub fn get_auto_answer(&self, client: &Client) -> (r: CatapultResult<Read<Option<bool>>>)
        ensures
            result_view(r) == read_field(self@.auto_answer, self@.load_request(client@)),
    {
        match &self.data.auto_answer {
            Lazy::Available(v) => Ok(Read::Value(*v)),
            Lazy::NotLoaded => Read::load(self.load_request(client)),
        }
    }

    pub fn set_name(&mut self, value: &str)
        ensures
            final(self)@ == (ApplicationView { name: Lazy::Available(value@), ..old(self)@ }),
    {
        self.data.name.set(value.to_owned());
    }

    pub fn set_incoming_call_url(&mut self, value: Option<&str>)
        ensures
            final(self)@ == (ApplicationView { incoming_call_url: Lazy::Available(value.deep_view()), ..old(self)@ }),
    {
        self.data.incoming_call_url.set(to_owned_opt(value));
    }

    pub fn set_incoming_call_url_callback_timeout(&mut self, value: Option<u64>)
        ensures
            final(self)@ == (ApplicationView { incoming_call_url_callback_timeout: Lazy::Available(value), ..old(self)@ }),
    {
        self.data.incoming_call_url_callback_timeout.set(value);
    }

    pub fn set_incoming_call_fallback_url(&mut self, value: Option<&str>)
        ensures
            final(self)@ == (ApplicationView { incoming_call_fallback_url: Lazy::Available(value.deep_view()), ..old(self)@ }),
    {
        self.data.incoming_call_fallback_url.set(to_owned_opt(value));
    }

    pub fn set_incoming_message_url(&mut self, value: Option<&str>)
        ensures
            final(self)@ == (ApplicationView { incoming_message_url: Lazy::Available(value.deep_view()), ..old(self)@ }),
    {
        self.data.incoming_message_url.set(to_owned_opt(value));
    }

    pub fn set_incoming_message_url_callback_timeout(&mut self, value: Option<u64>)
        ensures
            final(self)@ == (ApplicationView { incoming_message_url_callback_timeout: Lazy::Available(value), ..old(self)@ }),
    {
        self.data.incoming_message_url_callback_timeout.set(value);
    }

    pub fn set_incoming_message_fallback_url(&mut self, value: Option<&str>)
        ensures
            final(self)@ == (ApplicationView { incoming_message_fallback_url: Lazy::Available(value.deep_view()), ..old(self)@ }),
    {
        self.data.incoming_message_fallback_url.set(to_owned_opt(value));
    }

    pub fn set_callback_http_method(&mut self, value: Option<&str>)
        ensures
            final(self)@ == (ApplicationView { callback_http_method: Lazy::Available(value.deep_view()), ..old(self)@ }),
    {
        self.data.callback_http_method.set(to_owned_opt(value));
    }

    pub fn set_auto_answer(&mut self, value: Option<bool>)
        ensures
            final(self)@ == (ApplicationView { auto_answer: Lazy::Available(value), ..old(self)@ }),
    {
        self.data.auto_answer.set(value);
    }
}

/// An application that was made from what identifies it alone asks for one load when
/// a field is read, whichever field it is. Once a load has succeeded, the read
/// of any field gives its value and asks for no request.
pub proof fn lemma_load_once(id: Seq<char>, client: ClientView, res: ResponseView)
    ensures
        ({
            let fresh = ApplicationView::unloaded(id);
            let load = fresh.load_request(client);
            let after = fresh.loaded(res);
            &&& asks_load(fresh.name, load)
            &&& asks_load(fresh.incoming_call_url, load)
            &&& asks_load(fresh.incoming_call_url_callback_timeout, load)
            &&& asks_load(fresh.incoming_call_fallback_url, load)
            &&& asks_load(fresh.incoming_message_url, load)
            &&& asks_load(fresh.incoming_message_url_callback_timeout, load)
            &&& asks_load(fresh.incoming_message_fallback_url, load)
            &&& asks_load(fresh.callback_http_method, load)
            &&& asks_load(fresh.auto_answer, load)
            &&& after is Ok ==> reads_value(after->Ok_0.name, load)
            &&& after is Ok ==> reads_value(after->Ok_0.incoming_call_url, load)
            &&& after is Ok ==> reads_value(after->Ok_0.incoming_call_url_callback_timeout, load)
            &&& after is Ok ==> reads_value(after->Ok_0.incoming_call_fallback_url, load)
            &&& after is Ok ==> reads_value(after->Ok_0.incoming_message_url, load)
            &&& after is Ok ==> reads_value(after->Ok_0.incoming_message_url_callback_timeout, load)
            &&& after is Ok ==> reads_value(after->Ok_0.incoming_message_fallback_url, load)
            &&& after is Ok ==> reads_value(after->Ok_0.callback_http_method, load)
            &&& after is Ok ==> reads_value(after->Ok_0.auto_answer, load)
        }),
{
}

/// What is written back is what was set and nothing else: an application of which
/// no field holds a value writes the empty document, and two that agree in
/// the fields that can be written write the same request.
pub proof fn lemma_save_is_partial(id: Seq<char>, a: ApplicationView, b: ApplicationView, client: ClientView)
    requires
        a.id == b.id,
        a.name == b.name,
        a.incoming_call_url == b.incoming_call_url,
        a.incoming_call_url_callback_timeout == b.incoming_call_url_callback_timeout,
        a.incoming_call_fallback_url == b.incoming_call_fallback_url,
        a.incoming_message_url == b.incoming_message_url,
        a.incoming_message_url_callback_timeout == b.incoming_message_url_callback_timeout,
        a.incoming_message_fallback_url == b.incoming_message_fallback_url,
        a.callback_http_method == b.callback_http_method,
        a.auto_answer == b.auto_answer,
    ensures
        ApplicationView::unloaded(id).save_body() == JsonSpec::Object(Seq::empty()),
        a.save_request(client) == b.save_request(client),
{
    assert(ApplicationView::unloaded(id).save_body()->Object_0 =~= Seq::empty());
}

/// A load replaces every field, whatever was cached: the last fetch wins, and
/// nothing of what was there before is merged in.
pub proof fn lemma_last_fetch_wins(a: ApplicationView, b: ApplicationView, res: ResponseView)
    requires
        a.id == b.id,
    ensures
        a.loaded(res) == b.loaded(res),
{
}

} // verus!
