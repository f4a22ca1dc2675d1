use vstd::prelude::*;
use vstd::string::StrSliceExecFns;
use vstd::utf8::encode_utf8;

use crate::application::Application;
use crate::application::ApplicationView;
use crate::auth_token::AuthToken;
use crate::auth_token::AuthTokenView;
use crate::client::ApiResponse;
use crate::client::Client;
use crate::client::ClientView;
use crate::client::EmptyResponse;
use crate::client::JsonResponse;
use crate::codec::DecoderError;
use crate::codec::DecoderErrorView;
use crate::codec::boolean_field;
use crate::codec::expected_error;
use crate::codec::field;
use crate::codec::get_boolean;
use crate::codec::get_opt_string;
use crate::codec::get_string;
use crate::codec::opt_string_field;
use crate::codec::result_view;
use crate::codec::string_field;
use crate::domain::Domain;
use crate::domain::DomainView;
use crate::error::CatapultError;
use crate::error::CatapultErrorView;
use crate::error::CatapultResult;
use crate::http::Method;
use crate::http::Request;
use crate::http::RequestView;
use crate::http::Response;
use crate::http::ResponseView;
use crate::json::JsonSpec;
use crate::json::JsonValue;
use crate::json::lazy_boolean;
use crate::json::lazy_member;
use crate::json::lazy_opt_string;
use crate::json::lazy_string;
use crate::lazy::Lazy;
use crate::lazy::Read;
use crate::lazy::asks_load;
use crate::lazy::read_field;
use crate::lazy::reads_value;
use crate::text::clone_opt;
use crate::text::concat;
use crate::text::to_owned_opt;
use crate::util::get_id_from_location_header;
use crate::util::id_of_location;

verus! {

/// The credentials of an endpoint as the service describes them.
#[derive(Debug)]
pub struct Credentials {
    pub realm: String,
    pub username: String,
}

/// The mathematical value of a [`Credentials`].
pub struct CredentialsView {
    pub realm: Seq<char>,
    pub username: Seq<char>,
}

impl DeepView for Credentials {
    type V = CredentialsView;

    open spec fn deep_view(&self) -> CredentialsView {
        CredentialsView {
            realm: self.realm@,
            username: self.username@,
        }
    }
}

impl CredentialsView {
    /// The credentials that a JSON document describes: its members are read in the
    /// order of the fields, and the first that fails decides.
    pub open spec fn decode(json: JsonSpec) -> Result<CredentialsView, DecoderErrorView> {
        match string_field(json, "realm"@) {
            Err(e) => Err(e),
            Ok(realm) =>
            match string_field(json, "username"@) {
                Err(e) => Err(e),
                Ok(username) =>
                Ok(CredentialsView { realm, username }),
            },
        }
    }
}

impl Credentials {
    /// Reads the credentials that a JSON document describes.
    pub fn decode(json: &JsonValue) -> (r: Result<Credentials, DecoderError>)
        ensures
            result_view(r) == CredentialsView::decode(json.deep_view()),
    {
        let realm = match get_string(json, "realm") {
            Ok(v) => v,
            Err(e) => {
                return Err(e);
            },
        };
        let username = match get_string(json, "username") {
            Ok(v) => v,
            Err(e) => {
                return Err(e);
            },
        };
        Ok(Credentials { realm, username })
    }
}

/// The credentials in the member `name` of an object.
pub open spec fn credentials_field(obj: JsonSpec, name: Seq<char>) -> Result<CredentialsView, DecoderErrorView> {
    field(obj, name, |j: JsonSpec| CredentialsView::decode(j))
}

/// Reads the credentials in the member `name` of an object.
fn get_credentials(obj: &JsonValue, name: &str) -> (r: Result<Credentials, DecoderError>)
    ensures
        result_view(r) == credentials_field(obj.deep_view(), name@),
{
    match obj {
        JsonValue::Object(_) => match obj.find(name) {
            Some(j) => Credentials::decode(j),
            None => Err(DecoderError::MissingFieldError(name.to_owned())),
        },
        _ => Err(expected_error("Object", obj)),
    }
}

/// An endpoint as the service describes it.
#[derive(Debug)]
pub struct EndpointInfo {
    pub id: String,
    pub name: String,
    pub description: Option<String>,
    pub domain_id: String,
    pub enabled: bool,
    pub application_id: String,
    pub credentials: Credentials,
    pub sip_uri: String,
}

/// The mathematical value of an [`EndpointInfo`].
pub struct EndpointInfoView {
    pub id: Seq<char>,
    pub name: Seq<char>,
    pub description: Option<Seq<char>>,
    pub domain_id: Seq<char>,
    pub enabled: bool,
    pub application_id: Seq<char>,
    pub credentials: CredentialsView,
    pub sip_uri: Seq<char>,
}

impl DeepView for EndpointInfo {
    type V = EndpointInfoView;

    open spec fn deep_view(&self) -> EndpointInfoView {
        EndpointInfoView {
            id: self.id@,
            name: self.name@,
            description: self.description.deep_view(),
            domain_id: self.domain_id@,
            enabled: self.enabled,
            application_id: self.application_id@,
            credentials: self.credentials.deep_view(),
            sip_uri: self.sip_uri@,
        }
    }
}

impl EndpointInfoView {
    /// The endpoint that a JSON document describes: its members are read in the
    /// order of the fields, and the first that fails decides.
    pub open spec fn decode(json: JsonSpec) -> Result<EndpointInfoView, DecoderErrorView> {
        match string_field(json, "id"@) {
            Err(e) => Err(e),
            Ok(id) =>
            match string_field(json, "name"@) {
                Err(e) => Err(e),
                Ok(name) =>
                match opt_string_field(json, "description"@) {
                    Err(e) => Err(e),
                    Ok(description) =>
                    match string_field(json, "domainId"@) {
                        Err(e) => Err(e),
                        Ok(domain_id) =>
                        match boolean_field(json, "enabled"@) {
                            Err(e) => Err(e),
                            Ok(enabled) =>
                            match string_field(json, "applicationId"@) {
                                Err(e) => Err(e),
                                Ok(application_id) =>
                                match credentials_field(json, "credentials"@) {
                                    Err(e) => Err(e),
                                    Ok(credentials) =>
                                    match string_field(json, "sipUri"@) {
                                        Err(e) => Err(e),
                                        Ok(sip_uri) =>
                                        Ok(EndpointInfoView { id, name, description, domain_id, enabled, application_id, credentials, sip_uri }),
                                    },
                                },
                            },
                        },
                    },
                },
            },
        }
    }
}

impl EndpointInfo {
    /// Reads the endpoint that a JSON document describes.
    pub fn decode(json: &JsonValue) -> (r: Result<EndpointInfo, DecoderError>)
        ensures
            result_view(r) == EndpointInfoView::decode(json.deep_view()),
    {
        let id = match get_string(json, "id") {
            Ok(v) => v,
            Err(e) => {
                return Err(e);
            },
        };
        let name = match get_string(json, "name") {
            Ok(v) => v,
            Err(e) => {
                return Err(e);
            },
        };
        let description = match get_opt_string(json, "description") {
            Ok(v) => v,
            Err(e) => {
                return Err(e);
            },
        };
        let domain_id = match get_string(json, "domainId") {
            Ok(v) => v,
            Err(e) => {
                return Err(e);
            },
        };
        let enabled = match get_boolean(json, "enabled") {
            Ok(v) => v,
            Err(e) => {
                return Err(e);
            },
        };
        let application_id = match get_string(json, "applicationId") {
            Ok(v) => v,
            Err(e) => {
                return Err(e);
            },
        };
        let credentials = match get_credentials(json, "credentials") {
            Ok(v) => v,
            Err(e) => {
                return Err(e);
            },
        };
        let sip_uri = match get_string(json, "sipUri") {
            Ok(v) => v,
            Err(e) => {
                return Err(e);
            },
        };
        Ok(EndpointInfo { id, name, description, domain_id, enabled, application_id, credentials, sip_uri })
    }
}

#[derive(Debug)]
struct Data {
    name: Lazy<String>,
    description: Lazy<Option<String>>,
    enabled: Lazy<bool>,
    application_id: Lazy<String>,
    realm: Lazy<String>,
    username: Lazy<String>,
    sip_uri: Lazy<String>,
    password: Lazy<String>,
}

impl Data {
    spec fn view_as(&self, id: Seq<char>, domain_id: Seq<char>) -> EndpointView {
        EndpointView {
            id,
            domain_id,
            name: self.name.deep_view(),
            description: self.description.deep_view(),
            enabled: self.enabled.deep_view(),
            application_id: self.application_id.deep_view(),
            realm: self.realm.deep_view(),
            username: self.username.deep_view(),
            sip_uri: self.sip_uri.deep_view(),
            password: self.password.deep_view(),
        }
    }

    /// Fields of which nothing is known yet.
    fn unloaded() -> (r: Data)
        ensures
            r.name is NotLoaded,
            r.description is NotLoaded,
            r.enabled is NotLoaded,
            r.application_id is NotLoaded,
            r.realm is NotLoaded,
            r.username is NotLoaded,
            r.sip_uri is NotLoaded,
            r.password is NotLoaded,
    {
        Data {
            name: Lazy::NotLoaded,
            description: Lazy::NotLoaded,
            enabled: Lazy::NotLoaded,
            application_id: Lazy::NotLoaded,
            realm: Lazy::NotLoaded,
            username: Lazy::NotLoaded,
            sip_uri: Lazy::NotLoaded,
            password: Lazy::NotLoaded,
        }
    }
}

/// An endpoint: a SIP client registered in a domain. Its fields are fetched
/// when one is first read; its password can be written and never read.
#[derive(Debug)]
pub struct Endpoint {
    id: String,
    domain_id: String,
    data: Data,
}

/// The mathematical value of an [`Endpoint`].
pub struct EndpointView {
    pub id: Seq<char>,
    pub domain_id: Seq<char>,
    pub name: Lazy<Seq<char>>,
    pub description: Lazy<Option<Seq<char>>>,
    pub enabled: Lazy<bool>,
    pub application_id: Lazy<Seq<char>>,
    pub realm: Lazy<Seq<char>>,
    pub username: Lazy<Seq<char>>,
    pub sip_uri: Lazy<Seq<char>>,
    pub password: Lazy<Seq<char>>,
}

impl DeepView for Endpoint {
    type V = EndpointView;

    closed spec fn deep_view(&self) -> EndpointView {
        self.data.view_as(self.id@, self.domain_id@)
    }
}

impl View for Endpoint {
    type V = EndpointView;

    open spec fn view(&self) -> EndpointView {
        self.deep_view()
    }
}

/// The member that carries the password of an endpoint.
pub open spec fn password_member(password: Seq<char>) -> JsonSpec {
    JsonSpec::Object(seq![("password"@, JsonSpec::String(password))])
}

impl EndpointView {
    /// An endpoint of which only the identifiers are known.
    pub open spec fn unloaded(id: Seq<char>, domain_id: Seq<char>) -> EndpointView {
        EndpointView {
            id,
            domain_id,
            name: Lazy::NotLoaded,
            description: Lazy::NotLoaded,
            enabled: Lazy::NotLoaded,
            application_id: Lazy::NotLoaded,
            realm: Lazy::NotLoaded,
            username: Lazy::NotLoaded,
            sip_uri: Lazy::NotLoaded,
            password: Lazy::NotLoaded,
        }
    }

    /// Whether every field that the service tells holds a value.
    pub open spec fn complete(self) -> bool {
        &&& self.name is Available
        &&& self.description is Available
        &&& self.enabled is Available
        &&& self.application_id is Available
        &&& self.realm is Available
        &&& self.username is Available
        &&& self.sip_uri is Available
    }

    /// What a request that addresses the endpoint by its identifiers comes to: an
    /// identifier that is empty is refused before any request is made, since
    /// the path would be that of a list.
    pub open spec fn guarded(self, request: Result<RequestView, CatapultErrorView>) -> Result<
        RequestView,
        CatapultErrorView,
    > {
        if self.id.len() == 0 {
            Err(CatapultErrorView::BadInput("invalid endpoint id"@))
        } else if self.domain_id.len() == 0 {
            Err(CatapultErrorView::BadInput("invalid domain id"@))
        } else {
            request
        }
    }

    /// The path of the endpoint.
    pub open spec fn path(self, client: ClientView) -> Seq<char> {
        client.user_path("/domains/"@ + self.domain_id + "/endpoints/"@ + self.id)
    }

    /// The request that fetches the endpoint.
    pub open spec fn load_request(self, client: ClientView) -> Result<RequestView, CatapultErrorView> {
        self.guarded(client.get(self.path(client)))
    }

    /// The endpoint after a fetch: every field that the service tells as the
    /// response gives it, whatever it held before. The password is not told
    /// and stays as it is. A response that tells of a failure, or does not
    /// describe an endpoint, gives the error instead.
    pub open spec fn loaded(self, res: ResponseView) -> Result<EndpointView, CatapultErrorView> {
        match res.json() {
            Err(e) => Err(e),
            Ok(json) => match EndpointInfoView::decode(json.body) {
                Err(e) => Err(CatapultErrorView::DecoderError(e)),
                Ok(info) => Ok(
                    EndpointView {
                        name: Lazy::Available(info.name),
                        description: Lazy::Available(info.description),
                        enabled: Lazy::Available(info.enabled),
                        application_id: Lazy::Available(info.application_id),
                        realm: Lazy::Available(info.credentials.realm),
                        username: Lazy::Available(info.credentials.username),
                        sip_uri: Lazy::Available(info.sip_uri),
                        ..self
                    },
                ),
            },
        }
    }

    /// The document of a partial update: a member for each field that can
    /// be written and holds a value, and none for the others.
    pub open spec fn save_body(self) -> JsonSpec {
        JsonSpec::Object(
            lazy_opt_string("description"@, self.description) + lazy_boolean("enabled"@, self.enabled)
                + lazy_string("applicationId"@, self.application_id) + lazy_member(
                "credentials"@,
                match self.password {
                    Lazy::Available(p) => Lazy::Available(password_member(p)),
                    Lazy::NotLoaded => Lazy::NotLoaded,
                },
            ),
        )
    }

    /// The request that writes the fields that hold a value back to the
    /// service.
    pub open spec fn save_request(self, client: ClientView) -> Result<RequestView, CatapultErrorView> {
        self.guarded(client.post(self.path(client), self.save_body()))
    }

    /// The request that creates a token for the endpoint.
    pub open spec fn token_request(self, client: ClientView) -> Result<RequestView, CatapultErrorView> {
        self.guarded(client.request(Method::Post, self.path(client) + "/tokens"@, JsonSpec::Null, Seq::empty()))
    }
}

/// An endpoint that is yet to be created.
#[derive(Debug)]
pub struct EndpointBuilder {
    app_id: String,
    name: String,
    domain_id: String,
    password: String,
    description: Option<String>,
    enabled: bool,
}

/// The mathematical value of an [`EndpointBuilder`].
pub struct EndpointBuilderView {
    pub app_id: Seq<char>,
    pub name: Seq<char>,
    pub domain_id: Seq<char>,
    pub password: Seq<char>,
    pub description: Option<Seq<char>>,
    pub enabled: bool,
}

impl DeepView for EndpointBuilder {
    type V = EndpointBuilderView;

    closed spec fn deep_view(&self) -> EndpointBuilderView {
        EndpointBuilderView {
            app_id: self.app_id@,
            name: self.name@,
            domain_id: self.domain_id@,
            password: self.password@,
            description: self.description.deep_view(),
            enabled: self.enabled,
        }
    }
}

impl View for EndpointBuilder {
    type V = EndpointBuilderView;

    open spec fn view(&self) -> EndpointBuilderView {
        self.deep_view()
    }
}

impl EndpointBuilderView {
    /// An endpoint to be created with nothing but what it must have: it is
    /// enabled and has no description.
    pub open spec fn new(domain_id: Seq<char>, app_id: Seq<char>, name: Seq<char>, password: Seq<char>) -> EndpointBuilderView {
        EndpointBuilderView { app_id, name, domain_id, password, description: None, enabled: true }
    }

    /// The document that describes the endpoint to the service.
    pub open spec fn body(self) -> JsonSpec {
        JsonSpec::Object(
            seq![
                ("name"@, JsonSpec::String(self.name)),
                ("description"@, JsonSpec::opt_string(self.description)),
                ("domainId"@, JsonSpec::String(self.domain_id)),
                ("applicationId"@, JsonSpec::String(self.app_id)),
                ("enabled"@, JsonSpec::Boolean(self.enabled)),
                ("credentials"@, password_member(self.password)),
            ],
        )
    }

    /// The request that creates the endpoint.
    pub open spec fn create_request(self, client: ClientView) -> Result<RequestView, CatapultErrorView> {
        if self.domain_id.len() == 0 {
            Err(CatapultErrorView::BadInput("invalid domain id"@))
        } else {
            client.post(client.user_path("/domains/"@ + self.domain_id + "/endpoints"@), self.body())
        }
    }

    /// The endpoint that the response to the creation stands for: its
    /// identifier is the one that the response names, its fields hold what
    /// was asked for, and what only the service knows is not loaded.
    pub open spec fn created(self, res: ResponseView) -> Result<EndpointView, CatapultErrorView> {
        match res.empty() {
            Err(e) => Err(e),
            Ok(headers) => match id_of_location(headers) {
                Err(e) => Err(e),
                Ok(id) => Ok(
                    EndpointView {
                        name: Lazy::Available(self.name),
                        description: Lazy::Available(self.description),
                        enabled: Lazy::Available(self.enabled),
                        application_id: Lazy::Available(self.app_id),
                        ..EndpointView::unloaded(id, self.domain_id)
                    },
                ),
            },
        }
    }
}

/// The member that carries the password of an endpoint.
fn password_json(password: &str) -> (r: JsonValue)
    ensures
        r.deep_view() == password_member(password@),
{
    let mut map: Vec<(String, JsonValue)> = Vec::new();
    JsonValue::put(&mut map, "password", JsonValue::string(password));
    assert(map.deep_view() =~= seq![("password"@, JsonSpec::String(password@))]);
    JsonValue::object(map)
}

impl EndpointBuilder {
    pub fn description(self, desc: &str) -> (r: Self)
        ensures
            r@ == (EndpointBuilderView { description: Some(desc@), ..self@ }),
    {
        let mut r = self;
        r.description = Some(desc.to_owned());
        r
    }

    pub fn disable(self) -> (r: Self)
        ensures
            r@ == (EndpointBuilderView { enabled: false, ..self@ }),
    {
        let mut r = self;
        r.enabled = false;
        r
    }

    /// The request that creates the endpoint.
    pub fn create_request(&self, client: &Client) -> (r: CatapultResult<Request>)
        ensures
            result_view(r) == self@.create_request(client@),
    {
        if self.domain_id.as_str().unicode_len() == 0 {
            return Err(CatapultError::bad_input("invalid domain id"));
        }
        let a = concat("/domains/", self.domain_id.as_str());
        let b = concat(a.as_str(), "/endpoints");
        let path = client.user_path(b.as_str());
        let mut map: Vec<(String, JsonValue)> = Vec::new();
        JsonValue::put(&mut map, "name", JsonValue::string(self.name.as_str()));
        JsonValue::put(&mut map, "description", JsonValue::opt_string(&self.description));
        JsonValue::put(&mut map, "domainId", JsonValue::string(self.domain_id.as_str()));
        JsonValue::put(&mut map, "applicationId", JsonValue::string(self.app_id.as_str()));
        JsonValue::put(&mut map, "enabled", JsonValue::Boolean(self.enabled));
        JsonValue::put(&mut map, "credentials", password_json(self.password.as_str()));
        assert(map.deep_view() =~= self@.body()->Object_0);
        let json = JsonValue::object(map);
        client.post_request(path.as_str(), &json)
    }

    /// The endpoint that was created, from the response to the request of
    /// `create_request`.
    pub fn create(self, res: Response) -> (r: CatapultResult<Endpoint>)
        ensures
            result_view(r) == self@.created(res.deep_view()),
    {
        let res = match EmptyResponse::new(res) {
            Ok(res) => res,
            Err(e) => {
                return Err(e);
            },
        };
        let id = match get_id_from_location_header(&res.headers) {
            Ok(id) => id,
            Err(e) => {
                return Err(e);
            },
        };
        let mut data = Data::unloaded();
        data.name.set(self.name);
        data.description.set(self.description);
        data.enabled.set(self.enabled);
        data.application_id.set(self.app_id);
        Ok(Endpoint { id, domain_id: self.domain_id, data })
    }
}

impl Endpoint {
    /// Refuses a request where an identifier that its path needs is empty.
    pub(crate) fn guarded(&self, request: CatapultResult<Request>) -> (r: CatapultResult<Request>)
        ensures
            result_view(r) == self@.guarded(result_view(request)),
    {
        if self.id.as_str().unicode_len() == 0 {
            Err(CatapultError::bad_input("invalid endpoint id"))
        } else if self.domain_id.as_str().unicode_len() == 0 {
            Err(CatapultError::bad_input("invalid domain id"))
        } else {
            request
        }
    }

    /// The path of the endpoint.
    fn path(&self, client: &Client) -> (r: String)
        ensures
            r@ == self@.path(client@),
    {
        let a = concat("/domains/", self.domain_id.as_str());
        let b = concat(a.as_str(), "/endpoints/");
        let c = concat(b.as_str(), self.id.as_str());
        proof {
            assert(c@ =~= "/domains/"@ + self@.domain_id + "/endpoints/"@ + self@.id);
        }
        client.user_path(c.as_str())
    }

    /// The request that fetches the fields.
    pub fn load_request(&self, client: &Client) -> (r: CatapultResult<Request>)
        ensures
            result_view(r) == self@.load_request(client@),
    {
        let path = self.path(client);
        self.guarded(
            client.get_request(path.as_str()),
        )
    }

    /// Takes the response to the request of `load_request` and, where it
    /// describes the endpoint, replaces every field that the service tells by
    /// what it says. On an error nothing changes.
    pub fn load(&mut self, res: Response) -> (r: CatapultResult<()>)
        ensures
            match old(self)@.loaded(res.deep_view()) {
                Ok(after) => r is Ok && final(self)@ == after,
                Err(e) => result_view(r) == Err::<(), CatapultErrorView>(e) && final(self)@ == old(
                    self,
                )@,
            },
    {
        let json = match JsonResponse::new(res) {
            Ok(json) => json,
            Err(e) => {
                return Err(e);
            },
        };
        let info = match EndpointInfo::decode(&json.body) {
            Ok(info) => info,
            Err(e) => {
                return Err(CatapultError::DecoderError(e));
            },
        };
        self.data.name.set(info.name);
        self.data.description.set(info.description);
        self.data.enabled.set(info.enabled);
        self.data.application_id.set(info.application_id);
        self.data.realm.set(info.credentials.realm);
        self.data.username.set(info.credentials.username);
        self.data.sip_uri.set(info.sip_uri);
        Ok(())
    }

    /// The request that writes the fields that can be written and hold a
    /// value back to the service, and no others.
    pub fn save(&self, client: &Client) -> (r: CatapultResult<Request>)
        ensures
            result_view(r) == self@.save_request(client@),
            self@.save_body() == JsonSpec::Object(Seq::empty()) && r is Ok ==> r->Ok_0.body@ == encode_utf8(
                "{}"@,
            ),
    {
        let path = self.path(client);
        let mut map: Vec<(String, JsonValue)> = Vec::new();
        JsonValue::put_opt_string(&mut map, "description", &self.data.description);
        assert(map.deep_view() =~= lazy_opt_string("description"@, self@.description));
        JsonValue::put_boolean(&mut map, "enabled", &self.data.enabled);
        JsonValue::put_string(&mut map, "applicationId", &self.data.application_id);
        let credentials = match &self.data.password {
            Lazy::Available(p) => Lazy::Available(password_json(p.as_str())),
            Lazy::NotLoaded => Lazy::NotLoaded,
        };
        JsonValue::put_lazy(&mut map, "credentials", credentials);
        let json = JsonValue::object(map);
        self.guarded(
            client.post_request(path.as_str(), &json),
        )
    }

    /// The endpoint with the given identifier in the given domain, with
    /// nothing fetched yet.
    pub fn get_by_id(id: &str, domain_id: &str) -> (r: Endpoint)
        ensures
            r@ == EndpointView::unloaded(id@, domain_id@),
    {
        Endpoint { id: id.to_owned(), domain_id: domain_id.to_owned(), data: Data::unloaded() }
    }

    /// An endpoint that is yet to be created: it is enabled and has no
    /// description.
    pub fn build(domain_id: &str, app_id: &str, name: &str, password: &str) -> (r: EndpointBuilder)
        ensures
            r@ == EndpointBuilderView::new(domain_id@, app_id@, name@, password@),
    {
        EndpointBuilder {
            app_id: app_id.to_owned(),
            name: name.to_owned(),
            domain_id: domain_id.to_owned(),
            password: password.to_owned(),
            description: None,
            enabled: true,
        }
    }

    /// The request that creates a token with which the endpoint can
    /// register.
    pub fn create_auth_token_request(&self, client: &Client) -> (r: CatapultResult<Request>)
        ensures
            result_view(r) == self@.token_request(client@),
    {
        AuthToken::create_request(self, client)
    }

    /// The token that was created, from the response to the request of
    /// `create_auth_token_request`.
    pub fn create_auth_token(res: Response) -> (r: CatapultResult<AuthToken>)
        ensures
            result_view(r) == AuthTokenView::created(res.deep_view()),
    {
        AuthToken::create(res)
    }

    pub fn get_id(&self) -> (r: String)
        ensures
            r@ == self@.id,
    {
        self.id.clone()
    }

    /// The domain of the endpoint, with nothing fetched yet.
    pub fn get_domain(&self) -> (r: Domain)
        ensures
            r@ == DomainView::unloaded(self@.domain_id),
    {
        Domain::get(self.domain_id.as_str())
    }

    pub fn get_name(&self, client: &Client) -> (r: CatapultResult<Read<String>>)
        ensures
            result_view(r) == read_field(self@.name, self@.load_request(client@)),
    {
        match &self.data.name {
            Lazy::Available(v) => Ok(Read::Value(v.clone())),
            Lazy::NotLoaded => Read::load(self.load_request(client)),
        }
    }

    pub fn get_description(&self, client: &Client) -> (r: CatapultResult<Read<Option<String>>>)
        ensures
            result_view(r) == read_field(self@.description, self@.load_request(client@)),
    {
        match &self.data.description {
            Lazy::Available(v) => Ok(Read::Value(clone_opt(v))),
            Lazy::NotLoaded => Read::load(self.load_request(client)),
        }
    }

    pub fn get_enabled(&self, client: &Client) -> (r: CatapultResult<Read<bool>>)
        ensures
            result_view(r) == read_field(self@.enabled, self@.load_request(client@)),
    {
        match &self.data.enabled {
            Lazy::Available(v) => Ok(Read::Value(*v)),
            Lazy::NotLoaded => Read::load(self.load_request(client)),
        }
    }

    pub fn get_application_id(&self, client: &Client) -> (r: CatapultResult<Read<String>>)
        ensures
            result_view(r) == read_field(self@.application_id, self@.load_request(client@)),
    {
        match &self.data.application_id {
            Lazy::Available(v) => Ok(Read::Value(v.clone())),
            Lazy::NotLoaded => Read::load(self.load_request(client)),
        }
    }

    pub fn get_realm(&self, client: &Client) -> (r: CatapultResult<Read<String>>)
        ensures
            result_view(r) == read_field(self@.realm, self@.load_request(client@)),
    {
        match &self.data.realm {
            Lazy::Available(v) => Ok(Read::Value(v.clone())),
            Lazy::NotLoaded => Read::load(self.load_request(client)),
        }
    }

    pub fn get_username(&self, client: &Client) -> (r: CatapultResult<Read<String>>)
        ensures
            result_view(r) == read_field(self@.username, self@.load_request(client@)),
    {
        match &self.data.username {
            Lazy::Available(v) => Ok(Read::Value(v.clone())),
            Lazy::NotLoaded => Read::load(self.load_request(client)),
        }
    }

    pub fn get_sip_uri(&self, client: &Client) -> (r: CatapultResult<Read<String>>)
        ensures
            result_view(r) == read_field(self@.sip_uri, self@.load_request(client@)),
    {
        match &self.data.sip_uri {
            Lazy::Available(v) => Ok(Read::Value(v.clone())),
            Lazy::NotLoaded => Read::load(self.load_request(client)),
        }
    }

    /// The application of the endpoint, with nothing fetched yet, once the
    /// identifier of the application is known.
    pub fn get_application(&self, client: &Client) -> (r: CatapultResult<Read<Application>>)
        ensures
            result_view(r) == read_field(
                match self@.application_id {
                    Lazy::Available(id) => Lazy::Available(ApplicationView::unloaded(id)),
                    Lazy::NotLoaded => Lazy::NotLoaded,
                },
                self@.load_request(client@),
            ),
    {
        match &self.data.application_id {
            Lazy::Available(id) => Ok(Read::Value(Application::get(id.as_str()))),
            Lazy::NotLoaded => Read::load(self.load_request(client)),
        }
    }

    pub fn set_description(&mut self, value: Option<&str>)
        ensures
            final(self)@ == (EndpointView { description: Lazy::Available(value.deep_view()), ..old(self)@ }),
    {
        self.data.description.set(to_owned_opt(value));
    }

    pub fn set_enabled(&mut self, value: bool)
        ensures
            final(self)@ == (EndpointView { enabled: Lazy::Available(value), ..old(self)@ }),
    {
        self.data.enabled.set(value);
    }

    pub fn set_application_id(&mut self, id: &str)
        ensures
            final(self)@ == (EndpointView { application_id: Lazy::Available(id@), ..old(self)@ }),
    {
        self.data.application_id.set(id.to_owned());
    }

    pub fn set_password(&mut self, value: &str)
        ensures
            final(self)@ == (EndpointView { password: Lazy::Available(value@), ..old(self)@ }),
    {
        self.data.password.set(value.to_owned());
    }
}

/// An endpoint that was made from what identifies it alone asks for one load when
/// a field is read, whichever field it is. Once a load has succeeded, the read
/// of any field gives its value and asks for no request.
pub proof fn lemma_load_once(id: Seq<char>, domain_id: Seq<char>, client: ClientView, res: ResponseView)
    ensures
        ({
            let fresh = EndpointView::unloaded(id, domain_id);
            let load = fresh.load_request(client);
            let after = fresh.loaded(res);
            &&& asks_load(fresh.name, load)
            &&& asks_load(fresh.description, load)
            &&& asks_load(fresh.enabled, load)
            &&& asks_load(fresh.application_id, load)
            &&& asks_load(fresh.realm, load)
            &&& asks_load(fresh.username, load)
            &&& asks_load(fresh.sip_uri, load)
            &&& after is Ok ==> reads_value(after->Ok_0.name, load)
            &&& after is Ok ==> reads_value(after->Ok_0.description, load)
            &&& after is Ok ==> reads_value(after->Ok_0.enabled, load)
            &&& after is Ok ==> reads_value(after->Ok_0.application_id, load)
            &&& after is Ok ==> reads_value(after->Ok_0.realm, load)
            &&& after is Ok ==> reads_value(after->Ok_0.username, load)
            &&& after is Ok ==> reads_value(after->Ok_0.sip_uri, load)
        }),
{
}

/// What is written back is what was set and nothing else: an endpoint of which
/// no field holds a value writes the empty document, and two that agree in
/// the fields that can be written write the same request.
pub proof fn lemma_save_is_partial(id: Seq<char>, domain_id: Seq<char>, a: EndpointView, b: EndpointView, client: ClientView)
    requires
        a.id == b.id,
        a.domain_id == b.domain_id,
        a.description == b.description,
        a.enabled == b.enabled,
        a.application_id == b.application_id,
        a.password == b.password,
    ensures
        EndpointView::unloaded(id, domain_id).save_body() == JsonSpec::Object(Seq::empty()),
        a.save_request(client) == b.save_request(client),
{
    assert(EndpointView::unloaded(id, domain_id).save_body()->Object_0 =~= Seq::empty());
}

/// A load replaces what the service tells, whatever was cached: two endpoints
/// that are the same endpoint and hold the same password are the same after
/// the same response, however their other fields differed before.
pub proof fn lemma_last_fetch_wins(a: EndpointView, b: EndpointView, res: ResponseView)
    requires
        a.id == b.id,
        a.domain_id == b.domain_id,
        a.password == b.password,
    ensures
        a.loaded(res) == b.loaded(res),
{
}

} // verus!
