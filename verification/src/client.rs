use vstd::prelude::*;
use vstd::string::StrSliceExecFns;
use vstd::utf8::encode_utf8;

use crate::application::Application;
use crate::application::ApplicationBuilder;
use crate::application::ApplicationBuilderView;
use crate::application::ApplicationView;
use crate::call::Call;
use crate::call::CallBuilder;
use crate::call::CallBuilderView;
use crate::call::ConfigView;
use crate::call_event::CallEvent;
use crate::call_event::CallEventView;
use crate::codec::result_view;
use crate::conference::Conference;
use crate::conference::ConferenceBuilder;
use crate::conference::ConferenceBuilderView;
use crate::conference::ConferenceView;
use crate::domain::Domain;
use crate::domain::DomainView;
use crate::environment::Environment;
use crate::environment::EnvironmentView;
use crate::error::ApiErrorView;
use crate::error::CatapultError;
use crate::error::CatapultErrorView;
use crate::error::CatapultResult;
use crate::error::api_error_of;
use crate::http::Headers;
use crate::http::Method;
use crate::http::Request;
use crate::http::RequestView;
use crate::http::Response;
use crate::http::ResponseView;
use crate::json::JsonSpec;
use crate::json::JsonValue;
use crate::json::decode_text;
use crate::json::written;
use crate::media::Media;
use crate::media::MediaView;
use crate::media::ToBytes;
use crate::message::Message;
use crate::message::MessageBuilder;
use crate::message::MessageBuilderView;
use crate::message::MessageView;
use crate::message_event::MessageEvent;
use crate::message_event::MessageEventView;
use crate::number::Number;
use crate::number::NumberView;
use crate::text::concat;
use crate::text::from_utf8;
use crate::text::utf8_text;
use crate::util::make_url;
use crate::util::request_url;

verus! {

/// Who asks, and where: the account, its credentials, the version of the
/// API and the deployment. Resources keep no client of their own: each
/// request is made against the client that is handed in, so a change of the
/// deployment holds for every request made after it.
#[derive(Debug)]
pub struct Client {
    user_id: String,
    api_token: String,
    api_secret: String,
    api_version: String,
    environment: Environment,
}

/// The mathematical value of a [`Client`].
pub struct ClientView {
    pub user_id: Seq<char>,
    pub api_token: Seq<char>,
    pub api_secret: Seq<char>,
    pub api_version: Seq<char>,
    pub environment: EnvironmentView,
}

impl View for Client {
    type V = ClientView;

    closed spec fn view(&self) -> ClientView {
        ClientView {
            user_id: self.user_id@,
            api_token: self.api_token@,
            api_secret: self.api_secret@,
            api_version: self.api_version@,
            environment: self.environment.deep_view(),
        }
    }
}

impl ClientView {
    /// The URL of a path: base URL, version and path, with `/` between.
    pub open spec fn create_url(self, path: Seq<char>) -> Seq<char> {
        self.environment.base_url() + "/"@ + self.api_version + "/"@ + path
    }

    /// The request to a path of the API: the parameters go into the query,
    /// the credentials are those of the client.
    pub open spec fn request(self, method: Method, path: Seq<char>, params: JsonSpec, body: Seq<u8>) -> Result<
        RequestView,
        CatapultErrorView,
    > {
        match request_url(self.create_url(path), params) {
            Err(e) => Err(e),
            Ok(url) => Ok(
                RequestView { method, url, username: self.api_token, password: self.api_secret, body },
            ),
        }
    }

    /// A request for reading, with neither parameters nor body.
    pub open spec fn get(self, path: Seq<char>) -> Result<RequestView, CatapultErrorView> {
        self.request(Method::Get, path, JsonSpec::Null, Seq::empty())
    }

    /// A request that posts a JSON document. A document that cannot be
    /// written is refused.
    pub open spec fn post(self, path: Seq<char>, json: JsonSpec) -> Result<RequestView, CatapultErrorView> {
        match written(json) {
            None => Err(CatapultErrorView::EncoderError("document cannot be written as JSON"@)),
            Some(text) => self.request(Method::Post, path, JsonSpec::Null, encode_utf8(text)),
        }
    }

    /// The request for the next page of a listing: the cursor is the
    /// address as it stands, and no parameter is added.
    pub open spec fn page(self, cursor: Seq<char>) -> RequestView {
        RequestView {
            method: Method::Get,
            url: cursor,
            username: self.api_token,
            password: self.api_secret,
            body: Seq::empty(),
        }
    }

    /// The path of what belongs to the user: `users/`, the user's
    /// identifier and the rest.
    pub open spec fn user_path(self, rest: Seq<char>) -> Seq<char> {
        "users/"@ + self.user_id + rest
    }
}

/// What can be the body of a request.
pub trait ToBody: Sized {
    /// The bytes of the body.
    spec fn body(&self) -> Seq<u8>;

    fn to_body(self) -> (r: Vec<u8>)
        ensures
            r@ == self.body(),
    ;
}

impl ToBody for Vec<u8> {
    open spec fn body(&self) -> Seq<u8> {
        self@
    }

    fn to_body(self) -> (r: Vec<u8>) {
        self
    }
}

impl ToBody for String {
    open spec fn body(&self) -> Seq<u8> {
        encode_utf8(self@)
    }

    fn to_body(self) -> (r: Vec<u8>) {
        self.as_str().as_bytes_vec()
    }
}

impl ToBody for () {
    open spec fn body(&self) -> Seq<u8> {
        Seq::empty()
    }

    fn to_body(self) -> (r: Vec<u8>) {
        Vec::new()
    }
}

impl ResponseView {
    /// Whether the status tells of success: 200 up to 399.
    pub open spec fn succeeded(self) -> bool {
        200 <= self.status < 400
    }

    /// The body as text, or the error that says that it is none.
    pub open spec fn text(self) -> Result<Seq<char>, CatapultErrorView> {
        match utf8_text(self.body) {
            Some(text) => Ok(text),
            None => Err(CatapultErrorView::IoError("stream did not contain valid UTF-8"@)),
        }
    }

    /// The error that a response without success stands for: what the
    /// service reports in the body, or why the body is no such report.
    pub open spec fn failure(self) -> CatapultErrorView {
        match self.text() {
            Ok(text) => api_error_of(text),
            Err(e) => e,
        }
    }

    /// The headers of a response of which nothing else is expected.
    pub open spec fn empty(self) -> Result<Seq<(Seq<char>, Seq<u8>)>, CatapultErrorView> {
        if self.succeeded() {
            Ok(self.headers)
        } else {
            Err(self.failure())
        }
    }

    /// The headers and the body of a response that carries bytes.
    pub open spec fn bytes(self) -> Result<ByteResponseView, CatapultErrorView> {
        if self.succeeded() {
            Ok(ByteResponseView { headers: self.headers, body: self.body })
        } else {
            Err(self.failure())
        }
    }

    /// The headers and the document of a response that carries JSON.
    pub open spec fn json(self) -> Result<JsonResponseView, CatapultErrorView> {
        if self.succeeded() {
            match self.text() {
                Err(e) => Err(e),
                Ok(text) => match decode_text(text) {
                    Err(e) => Err(CatapultErrorView::DecoderError(e)),
                    Ok(body) => Ok(JsonResponseView { headers: self.headers, body }),
                },
            }
        } else {
            Err(self.failure())
        }
    }

    /// The outcome of a command: success, or the error of the response.
    pub open spec fn done(self) -> Result<(), CatapultErrorView> {
        match self.empty() {
            Ok(_) => Ok(()),
            Err(e) => Err(e),
        }
    }
}

/// The body of a response as text.
fn body_text(body: &Vec<u8>) -> (r: CatapultResult<String>)
    ensures
        result_view(r) == match utf8_text(body@) {
            Some(text) => Ok::<Seq<char>, CatapultErrorView>(text),
            None => Err::<Seq<char>, CatapultErrorView>(
                CatapultErrorView::IoError("stream did not contain valid UTF-8"@),
            ),
        },
{
    match from_utf8(body) {
        Some(text) => Ok(text),
        None => Err(CatapultError::IoError("stream did not contain valid UTF-8".to_owned())),
    }
}

/// The error that a response without success stands for.
fn failure_of(res: &Response) -> (r: CatapultError)
    ensures
        r.deep_view() == res.deep_view().failure(),
{
    match body_text(&res.body) {
        Ok(text) => CatapultError::api_error(text.as_str()),
        Err(e) => e,
    }
}

/// Whether a status tells of success.
fn is_success(status: u16) -> (r: bool)
    ensures
        r == (200 <= status < 400),
{
    status >= 200 && status < 400
}

/// What the response to a request can be taken as.
pub trait ApiResponse: Sized + DeepView {
    /// What a response is taken as: its content where it tells of success,
    /// and else the error that it stands for.
    spec fn taken(res: ResponseView) -> Result<<Self as DeepView>::V, CatapultErrorView>;

    fn new(res: Response) -> (r: CatapultResult<Self>)
        ensures
            result_view(r) == Self::taken(res.deep_view()),
    ;
}

/// A successful response of which only the headers matter.
#[derive(Debug)]
pub struct EmptyResponse {
    pub headers: Headers,
}

impl DeepView for EmptyResponse {
    type V = Seq<(Seq<char>, Seq<u8>)>;

    open spec fn deep_view(&self) -> Seq<(Seq<char>, Seq<u8>)> {
        self.headers.deep_view()
    }
}

impl ApiResponse for EmptyResponse {
    open spec fn taken(res: ResponseView) -> Result<Seq<(Seq<char>, Seq<u8>)>, CatapultErrorView> {
        res.empty()
    }

    /// Sorts a response into success and failure, and keeps the headers of
    /// a success.
    fn new(res: Response) -> (r: CatapultResult<EmptyResponse>) {
        if is_success(res.status) {
            Ok(EmptyResponse { headers: res.headers })
        } else {
            Err(failure_of(&res))
        }
    }
}

/// A successful response with a JSON document.
#[derive(Debug)]
pub struct JsonResponse {
    pub headers: Headers,
    pub body: JsonValue,
}

/// The mathematical value of a [`JsonResponse`].
pub struct JsonResponseView {
    pub headers: Seq<(Seq<char>, Seq<u8>)>,
    pub body: JsonSpec,
}

impl DeepView for JsonResponse {
    type V = JsonResponseView;

    open spec fn deep_view(&self) -> JsonResponseView {
        JsonResponseView { headers: self.headers.deep_view(), body: self.body.deep_view() }
    }
}

impl ApiResponse for JsonResponse {
    open spec fn taken(res: ResponseView) -> Result<JsonResponseView, CatapultErrorView> {
        res.json()
    }

    /// Sorts a response into success and failure, and reads the body of a
    /// success as JSON.
    fn new(res: Response) -> (r: CatapultResult<JsonResponse>) {
        if is_success(res.status) {
            let text = match body_text(&res.body) {
                Ok(text) => text,
                Err(e) => {
                    return Err(e);
                },
            };
            match JsonValue::from_str(text.as_str()) {
                Ok(body) => Ok(JsonResponse { headers: res.headers, body }),
                Err(e) => Err(CatapultError::DecoderError(e)),
            }
        } else {
            Err(failure_of(&res))
        }
    }
}

/// A successful response with a body of bytes.
#[derive(Debug)]
pub struct ByteResponse {
    pub headers: Headers,
    pub body: Vec<u8>,
}

/// The mathematical value of a [`ByteResponse`].
pub struct ByteResponseView {
    pub headers: Seq<(Seq<char>, Seq<u8>)>,
    pub body: Seq<u8>,
}

impl DeepView for ByteResponse {
    type V = ByteResponseView;

    open spec fn deep_view(&self) -> ByteResponseView {
        ByteResponseView { headers: self.headers.deep_view(), body: self.body@ }
    }
}

impl ApiResponse for ByteResponse {
    open spec fn taken(res: ResponseView) -> Result<ByteResponseView, CatapultErrorView> {
        res.bytes()
    }

    /// Sorts a response into success and failure, and keeps the headers and
    /// the bytes of a success.
    fn new(res: Response) -> (r: CatapultResult<ByteResponse>) {
        if is_success(res.status) {
            Ok(ByteResponse { headers: res.headers, body: res.body })
        } else {
            Err(failure_of(&res))
        }
    }
}

/// Ends a command of which nothing is expected but success.
pub fn finish(res: Response) -> (r: CatapultResult<()>)
    ensures
        result_view(r) == res.deep_view().done(),
{
    match EmptyResponse::new(res) {
        Ok(_) => Ok(()),
        Err(e) => Err(e),
    }
}

impl Client {
    /// The client of a user, for version `v1` of the API in production.
    pub fn new(user_id: &str, api_token: &str, api_secret: &str) -> (r: Client)
        ensures
            r@ == (ClientView {
                user_id: user_id@,
                api_token: api_token@,
                api_secret: api_secret@,
                api_version: "v1"@,
                environment: EnvironmentView::Production,
            }),
    {
        Client {
            user_id: user_id.to_owned(),
            api_token: api_token.to_owned(),
            api_secret: api_secret.to_owned(),
            api_version: "v1".to_owned(),
            environment: Environment::Production,
        }
    }

    /// The URL of a path of the API.
    pub fn create_url(&self, path: &str) -> (r: String)
        ensures
            r@ == self@.create_url(path@),
    {
        let base = self.environment.get_base_url();
        let a = concat(base.as_str(), "/");
        let b = concat(a.as_str(), self.api_version.as_str());
        let c = concat(b.as_str(), "/");
        concat(c.as_str(), path)
    }

    /// The path of what belongs to the user.
    pub fn user_path(&self, rest: &str) -> (r: String)
        ensures
            r@ == self@.user_path(rest@),
    {
        let a = concat("users/", self.user_id.as_str());
        concat(a.as_str(), rest)
    }

    pub fn raw_delete_request(&self, path: &str, params: &JsonValue) -> (r: CatapultResult<Request>)
        ensures
            result_view(r) == self@.request(Method::Delete, path@, params.deep_view(), Seq::empty()),
    {
        self.raw_request(Method::Delete, path, params, ())
    }

    pub fn raw_put_request<Input: ToBody>(&self, path: &str, params: &JsonValue, body: Input) -> (r:
        CatapultResult<Request>)
        ensures
            result_view(r) == self@.request(Method::Put, path@, params.deep_view(), body.body()),
    {
        self.raw_request(Method::Put, path, params, body)
    }

    pub fn raw_post_request<Input: ToBody>(&self, path: &str, params: &JsonValue, body: Input) -> (r:
        CatapultResult<Request>)
        ensures
            result_view(r) == self@.request(Method::Post, path@, params.deep_view(), body.body()),
    {
        self.raw_request(Method::Post, path, params, body)
    }

    pub fn raw_get_request<Input: ToBody>(&self, path: &str, params: &JsonValue, body: Input) -> (r:
        CatapultResult<Request>)
        ensures
            result_view(r) == self@.request(Method::Get, path@, params.deep_view(), body.body()),
    {
        self.raw_request(Method::Get, path, params, body)
    }

    pub fn raw_head_request<Input: ToBody>(&self, path: &str, params: &JsonValue, body: Input) -> (r:
        CatapultResult<Request>)
        ensures
            result_view(r) == self@.request(Method::Head, path@, params.deep_view(), body.body()),
    {
        self.raw_request(Method::Head, path, params, body)
    }

    /// The one place where requests are made: address from path and
    /// parameters, credentials from the client, the body as given.
    fn raw_request<Input: ToBody>(&self, method: Method, path: &str, params: &JsonValue, body: Input) -> (r:
        CatapultResult<Request>)
        ensures
            result_view(r) == self@.request(method, path@, params.deep_view(), body.body()),
    {
        let text = self.create_url(path);
        let url = match make_url(text.as_str(), params) {
            Ok(url) => url,
            Err(e) => {
                return Err(e);
            },
        };
        Ok(
            Request {
                method,
                url,
                username: self.api_token.clone(),
                password: self.api_secret.clone(),
                body: body.to_body(),
            },
        )
    }

    /// A request for reading, with neither parameters nor body.
    pub fn get_request(&self, path: &str) -> (r: CatapultResult<Request>)
        ensures
            result_view(r) == self@.get(path@),
    {
        self.raw_request(Method::Get, path, &JsonValue::Null, ())
    }

    /// A request that posts a JSON document. The empty object goes as `{}`.
    pub fn post_request(&self, path: &str, json: &JsonValue) -> (r: CatapultResult<Request>)
        ensures
            result_view(r) == self@.post(path@, json.deep_view()),
            json.deep_view() == JsonSpec::Object(Seq::empty()) && r is Ok ==> r->Ok_0.body@ == encode_utf8(
                "{}"@,
            ),
    {
        match json.encode() {
            Some(body) => self.raw_request(Method::Post, path, &JsonValue::Null, body),
            None => Err(CatapultError::EncoderError("document cannot be written as JSON".to_owned())),
        }
    }

    /// The request for the next page of a listing.
    pub fn page_request(&self, cursor: &str) -> (r: Request)
        ensures
            r.deep_view() == self@.page(cursor@),
    {
        Request {
            method: Method::Get,
            url: cursor.to_owned(),
            username: self.api_token.clone(),
            password: self.api_secret.clone(),
            body: Vec::new(),
        }
    }

    /// Points the client at another deployment. Requests made from now on
    /// go there.
    pub fn set_environment(&mut self, env: Environment)
        ensures
            final(self)@ == (ClientView { environment: env.deep_view(), ..old(self)@ }),
    {
        self.environment = env;
    }

    pub fn get_user_id(&self) -> (r: String)
        ensures
            r@ == self@.user_id,
    {
        self.user_id.clone()
    }

    pub fn get_api_token(&self) -> (r: String)
        ensures
            r@ == self@.api_token,
    {
        self.api_token.clone()
    }

    pub fn get_api_secret(&self) -> (r: String)
        ensures
            r@ == self@.api_secret,
    {
        self.api_secret.clone()
    }
}

impl Client {
    /// Reads the event of a call that a text describes in JSON.
    pub fn parse_call_event(&self, data: &str) -> (r: CatapultResult<CallEvent>)
        ensures
            result_view(r) == CallEventView::parse(data@),
    {
        CallEvent::parse(data)
    }

    /// An application that is yet to be created.
    pub fn build_application(&self, name: &str, call_url: &str, msg_url: &str) -> (r: ApplicationBuilder)
        ensures
            r@ == (ApplicationBuilderView {
                name: name@,
                incoming_message_url: msg_url@,
                incoming_call_url: call_url@,
                incoming_call_url_callback_timeout: None,
                incoming_call_fallback_url: None,
                incoming_message_url_callback_timeout: None,
                incoming_message_fallback_url: None,
                callback_http_method: "POST"@,
                auto_answer: true,
            }),
    {
        Application::build(name, call_url, msg_url)
    }

    /// The application with the given identifier, with nothing fetched yet.
    pub fn get_application(&self, id: &str) -> (r: Application)
        ensures
            r@ == ApplicationView::unloaded(id@),
    {
        Application::get(id)
    }

    /// A call that is yet to be made.
    pub fn build_call(&self, from: &str, to: &str) -> (r: CallBuilder)
        ensures
            r@ == (CallBuilderView { from: from@, to: to@, config: ConfigView::new() }),
    {
        Call::build(from, to)
    }

    /// A conference that is yet to be created.
    pub fn build_conference(&self, from: &str) -> (r: ConferenceBuilder)
        ensures
            r@ == (ConferenceBuilderView {
                from: from@,
                callback_url: None,
                callback_http_method: "POST"@,
                callback_timeout: None,
                fallback_url: None,
                tag: None,
            }),
    {
        Conference::build(from)
    }

    /// The conference with the given identifier, with nothing fetched yet.
    pub fn get_conference(&self, id: &str) -> (r: Conference)
        ensures
            r@ == ConferenceView::unloaded(id@),
    {
        Conference::get(id)
    }

    /// The request that creates a domain of the given name.
    pub fn create_domain_request(&self, name: &str) -> (r: CatapultResult<Request>)
        ensures
            result_view(r) == DomainView::create_request(self@, name@),
    {
        Domain::create_request(self, name)
    }

    /// The domain that was created, from the response to the request of
    /// `create_domain_request`.
    pub fn create_domain(&self, name: &str, res: Response) -> (r: CatapultResult<Domain>)
        ensures
            result_view(r) == DomainView::created(name@, res.deep_view()),
    {
        Domain::create(name, res)
    }

    /// The domain with the given identifier, with nothing fetched yet.
    pub fn get_domain(&self, id: &str) -> (r: Domain)
        ensures
            r@ == DomainView::unloaded(id@),
    {
        Domain::get(id)
    }

    /// The request that `get_domain_by_name` needs the response to.
    pub fn get_domain_by_name_request(&self) -> (r: CatapultResult<Request>)
        ensures
            result_view(r) == DomainView::list_request(self@),
    {
        Domain::get_by_name_request(self)
    }

    /// The first domain of a listing that has the given name, if there is
    /// one.
    pub fn get_domain_by_name(&self, name: &str, res: Response) -> (r: CatapultResult<Option<Domain>>)
        ensures
            result_view(r) == DomainView::by_name(name@, res.deep_view()),
    {
        Domain::get_by_name(name, res)
    }

    /// The request that lists the domains of the user.
    pub fn list_domains_request(&self) -> (r: CatapultResult<Request>)
        ensures
            result_view(r) == DomainView::list_request(self@),
    {
        Domain::list_request(self)
    }

    /// The domains that a response to a listing holds.
    pub fn list_domains(&self, res: Response) -> (r: CatapultResult<Vec<Domain>>)
        ensures
            result_view(r) == DomainView::list(res.deep_view()),
    {
        Domain::list(res)
    }

    /// The request that stores the data as a media file of the given name.
    pub fn create_media_request<T: ToBytes>(&self, filename: &str, data: T) -> (r: CatapultResult<Request>)
        ensures
            result_view(r) == MediaView::create_request(self@, filename@, data.bytes()),
    {
        Media::create_request(self, filename, data)
    }

    /// The media file that was stored, from the response to the request of
    /// `create_media_request`.
    pub fn create_media(&self, filename: &str, res: Response) -> (r: CatapultResult<Media>)
        ensures
            result_view(r) == MediaView::created(filename@, res.deep_view()),
    {
        Media::create(filename, res)
    }

    /// The media file of the given name, with nothing fetched yet.
    pub fn get_media(&self, filename: &str) -> (r: Media)
        ensures
            r@ == MediaView::unloaded(filename@),
    {
        Media::get(filename)
    }

    /// A message that is yet to be sent.
    pub fn build_message(&self, from: &str, to: &str, text: &str) -> (r: MessageBuilder)
        ensures
            r@ == (MessageBuilderView {
                from: from@,
                to: to@,
                text: text@,
                media: Seq::empty(),
                receipt_requested: false,
                callback_url: None,
                callback_http_method: "POST"@,
                callback_timeout: None,
                fallback_url: None,
                tag: None,
            }),
    {
        Message::build(from, to, text)
    }

    /// The message with the given identifier, with nothing fetched yet.
    pub fn get_message(&self, id: &str) -> (r: Message)
        ensures
            r@ == MessageView::unloaded(id@),
    {
        Message::get(id)
    }

    /// Reads the event of a message that a text describes in JSON.
    pub fn parse_message_event(&self, event: &str) -> (r: CatapultResult<MessageEvent>)
        ensures
            result_view(r) == MessageEventView::parse(event@),
    {
        MessageEvent::parse(event)
    }

    /// The number with the given identifier, with nothing fetched yet.
    pub fn get_number_by_id(&self, id: &str) -> (r: Number)
        ensures
            r@ == NumberView::unloaded(id@),
    {
        Number::by_id(id)
    }
}

/// A response is sorted by its status alone: from 200 up to 399 it is a
/// success, whatever its body holds, and else a failure. A failure is the
/// report of the service exactly where the body is such a report; a body
/// that is something else is told as what it is, and never as a report.
pub proof fn lemma_classification(res: ResponseView)
    ensures
        res.succeeded() ==> res.done() is Ok,
        !res.succeeded() ==> res.done() == Err::<(), CatapultErrorView>(res.failure()),
        !res.succeeded() ==> res.json() == Err::<JsonResponseView, CatapultErrorView>(res.failure()),
        !res.succeeded() ==> res.bytes() == Err::<ByteResponseView, CatapultErrorView>(res.failure()),
        res.failure() is ApiError <==> (res.text() matches Ok(text) && decode_text(text) matches Ok(json)
            && ApiErrorView::decode(json) is Ok),
        res.text() is Err ==> res.failure() is IoError,
        res.text() matches Ok(text) && decode_text(text) is Err ==> res.failure() is DecoderError,
{
}

/// A change of the deployment holds for every request that is made after it,
/// of whatever resource: a resource keeps no client of its own, and the
/// address of a request is made from the client that is handed in when the
/// request is made. So the URL of every path lies under the base URL of the
/// new deployment, and nothing else about the request changes.
pub proof fn lemma_environment_override(
    client: ClientView,
    env: EnvironmentView,
    method: Method,
    path: Seq<char>,
    params: JsonSpec,
    body: Seq<u8>,
)
    ensures
        ({
            let moved = ClientView { environment: env, ..client };
            &&& moved.create_url(path) == env.base_url() + "/"@ + client.api_version + "/"@ + path
            &&& moved.user_path(path) == client.user_path(path)
            &&& moved.request(method, path, params, body) == match request_url(
                env.base_url() + "/"@ + client.api_version + "/"@ + path,
                params,
            ) {
                Err(e) => Err::<RequestView, CatapultErrorView>(e),
                Ok(url) => Ok::<RequestView, CatapultErrorView>(
                    RequestView {
                        method,
                        url,
                        username: client.api_token,
                        password: client.api_secret,
                        body,
                    },
                ),
            }
            &&& env == EnvironmentView::Stage ==> moved.create_url(path)
                == "https://api.stage.catapult.inetwork.com"@ + "/"@ + client.api_version + "/"@ + path
        }),
{
}

} // verus!
