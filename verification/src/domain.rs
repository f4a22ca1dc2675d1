use vstd::prelude::*;
use vstd::string::StrSliceExecFns;

use crate::client::ApiResponse;
use crate::client::Client;
use crate::client::ClientView;
use crate::client::EmptyResponse;
use crate::client::JsonResponse;
use crate::codec::DecoderError;
use crate::codec::DecoderErrorView;
use crate::codec::expected_error;
use crate::codec::get_string;
use crate::codec::lemma_read_items_fails;
use crate::codec::read_items;
use crate::codec::read_list;
use crate::codec::result_view;
use crate::codec::string_field;
use crate::endpoint::Endpoint;
use crate::endpoint::EndpointBuilder;
use crate::endpoint::EndpointBuilderView;
use crate::endpoint::EndpointView;
use crate::error::CatapultError;
use crate::error::CatapultErrorView;
use crate::error::CatapultResult;
use crate::http::Request;
use crate::http::RequestView;
use crate::http::Response;
use crate::http::ResponseView;
use crate::json::JsonSpec;
use crate::json::JsonValue;
use crate::lazy::Lazy;
use crate::lazy::Read;
use crate::lazy::asks_load;
use crate::lazy::read_field;
use crate::lazy::reads_value;
use crate::text::concat;
use crate::text::str_eq;
use crate::util::get_id_from_location_header;
use crate::util::id_of_location;

verus! {

/// A domain as the service describes it.
#[derive(Debug)]
pub struct DomainInfo {
    pub id: String,
    pub name: String,
}

/// The mathematical value of a [`DomainInfo`].
pub struct DomainInfoView {
    pub id: Seq<char>,
    pub name: Seq<char>,
}

impl DeepView for DomainInfo {
    type V = DomainInfoView;

    open spec fn deep_view(&self) -> DomainInfoView {
        DomainInfoView {
            id: self.id@,
            name: self.name@,
        }
    }
}

impl DomainInfoView {
    /// The domain that a JSON document describes: its members are read in the
    /// order of the fields, and the first that fails decides.
    pub open spec fn decode(json: JsonSpec) -> Result<DomainInfoView, DecoderErrorView> {
        match string_field(json, "id"@) {
            Err(e) => Err(e),
            Ok(id) =>
            match string_field(json, "name"@) {
                Err(e) => Err(e),
                Ok(name) =>
                Ok(DomainInfoView { id, name }),
            },
        }
    }
}

impl DomainInfo {
    /// Reads the domain that a JSON document describes.
    pub fn decode(json: &JsonValue) -> (r: Result<DomainInfo, DecoderError>)
        ensures
            result_view(r) == DomainInfoView::decode(json.deep_view()),
    {
        let id = match get_string(json, "id") {
            Ok(v) => v,
            Err(e) => {
                return Err(e);
            },
        };
        let name = match get_string(json, "name") {
            Ok(v) => v,
            Err(e) => {
                return Err(e);
            },
        };
        Ok(DomainInfo { id, name })
    }
}

/// The domains that a JSON array describes, in its order.
pub open spec fn decode_all(json: JsonSpec) -> Result<Seq<DomainInfoView>, DecoderErrorView> {
    read_list(json, |j: JsonSpec| DomainInfoView::decode(j))
}

/// Reads the domains that a JSON array describes.
pub fn decode_list(json: &JsonValue) -> (r: Result<Vec<DomainInfo>, DecoderError>)
    ensures
        result_view(r) == decode_all(json.deep_view()),
{
    match json {
        JsonValue::Array(items) => {
            let ghost all = json.model()->Array_0;
            let ghost read = |j: JsonSpec| DomainInfoView::decode(j);
            let mut out: Vec<DomainInfo> = Vec::new();
            let mut i: usize = 0;
            assert(all.take(0) =~= Seq::empty());
            assert(out.deep_view() =~= Seq::empty());
            while i < items.len()
                invariant
                    i <= items.len(),
                    all.len() == items.len(),
                    json.model() == JsonSpec::Array(all),
                    forall|k: int| 0 <= k < items.len() ==> #[trigger] all[k] == items[k].model(),
                    read == (|j: JsonSpec| DomainInfoView::decode(j)),
                    read_items(all.take(i as int), read) == Ok::<Seq<DomainInfoView>, DecoderErrorView>(
                        out.deep_view(),
                    ),
                decreases items.len() - i,
            {
                let ghost before = out.deep_view();
                assert(all.take(i + 1).drop_last() =~= all.take(i as int));
                assert(all.take(i + 1).last() == items[i as int].model());
                match DomainInfo::decode(&items[i]) {
                    Ok(item) => {
                        let ghost v = item.deep_view();
                        out.push(item);
                        assert(out.deep_view() =~= before.push(v));
                    },
                    Err(e) => {
                        proof {
                            lemma_read_items_fails(all, read, i + 1);
                        }
                        return Err(e);
                    },
                }
                i += 1;
            }
            assert(all.take(i as int) =~= all);
            Ok(out)
        },
        _ => Err(expected_error("Array", json)),
    }
}

#[derive(Debug)]
struct Data {
    name: Lazy<String>,
}

impl Data {
    spec fn view_as(&self, id: Seq<char>) -> DomainView {
        DomainView {
            id,
            name: self.name.deep_view(),
        }
    }

    /// Fields of which nothing is known yet.
    fn unloaded() -> (r: Data)
        ensures
            r.name is NotLoaded,
    {
        Data {
            name: Lazy::NotLoaded,
        }
    }
}

/// A domain: a name under which endpoints are registered.
#[derive(Debug)]
pub struct Domain {
    id: String,
    data: Data,
}

/// The mathematical value of a [`Domain`].
pub struct DomainView {
    pub id: Seq<char>,
    pub name: Lazy<Seq<char>>,
}

impl DeepView for Domain {
    type V = DomainView;

    closed spec fn deep_view(&self) -> DomainView {
        self.data.view_as(self.id@)
    }
}

impl View for Domain {
    type V = DomainView;

    open spec fn view(&self) -> DomainView {
        self.deep_view()
    }
}

/// The first of the domains from position `from` on that is known to have
/// the given name.
pub open spec fn first_named(domains: Seq<DomainView>, name: Seq<char>, from: int) -> Option<DomainView>
    decreases domains.len() - from,
{
    if from < 0 || from >= domains.len() {
        None
    } else if domains[from].name == Lazy::Available(name) {
        Some(domains[from])
    } else {
        first_named(domains, name, from + 1)
    }
}

impl DomainView {
    /// A domain of which only the identifier is known.
    pub open spec fn unloaded(id: Seq<char>) -> DomainView {
        DomainView {
            id,
            name: Lazy::NotLoaded,
        }
    }

    /// A domain as a fetch or a listing describes it.
    pub open spec fn from_info(info: DomainInfoView) -> DomainView {
        DomainView {
            id: info.id,
            name: Lazy::Available(info.name),
        }
    }

    /// Whether every field holds a value.
    pub open spec fn complete(self) -> bool {
        &&& self.name is Available
    }

    /// What a request that addresses the domain by its identifier comes to: an
    /// empty identifier is refused before any request is made, since the
    /// path would be that of the list of all.
    pub open spec fn guarded(self, request: Result<RequestView, CatapultErrorView>) -> Result<
        RequestView,
        CatapultErrorView,
    > {
        if self.id.len() == 0 {
            Err(CatapultErrorView::BadInput("invalid app id"@))
        } else {
            request
        }
    }

    /// The path of the domain.
    pub open spec fn path(self, client: ClientView) -> Seq<char> {
        client.user_path("/domains/"@ + self.id)
    }

    /// The request that fetches the domain. A domain without an identifier
    /// cannot be fetched: its path would be that of the list of all domains.
    pub open spec fn load_request(self, client: ClientView) -> Result<RequestView, CatapultErrorView> {
        self.guarded(client.get(self.path(client)))
    }

    /// The domain after a fetch: every field as the response gives it,
    /// whatever it held before. A response that tells of a failure, or does
    /// not describe a domain, gives the error instead.
    pub open spec fn loaded(self, res: ResponseView) -> Result<DomainView, CatapultErrorView> {
        match res.json() {
            Err(e) => Err(e),
            Ok(json) => match DomainInfoView::decode(json.body) {
                Err(e) => Err(CatapultErrorView::DecoderError(e)),
                Ok(info) => Ok(DomainView { id: self.id, ..DomainView::from_info(info) }),
            },
        }
    }

    /// The request that creates a domain of the given name.
    pub open spec fn create_request(client: ClientView, name: Seq<char>) -> Result<RequestView, CatapultErrorView> {
        client.post(
            client.user_path("/domains"@),
            JsonSpec::Object(seq![("name"@, JsonSpec::String(name))]),
        )
    }

    /// The domain that the response to a creation stands for: its identifier
    /// is the one that the response names, its name the one asked for.
    pub open spec fn created(name: Seq<char>, res: ResponseView) -> Result<DomainView, CatapultErrorView> {
        match res.empty() {
            Err(e) => Err(e),
            Ok(headers) => match id_of_location(headers) {
                Err(e) => Err(e),
                Ok(id) => Ok(DomainView { id, name: Lazy::Available(name) }),
            },
        }
    }

    /// The request that lists the domains of the user.
    pub open spec fn list_request(client: ClientView) -> Result<RequestView, CatapultErrorView> {
        client.get(client.user_path("/domains"@))
    }

    /// The domains that a response to a listing holds, each with its name.
    pub open spec fn list(res: ResponseView) -> Result<Seq<DomainView>, CatapultErrorView> {
        match res.json() {
            Err(e) => Err(e),
            Ok(json) => match decode_all(json.body) {
                Err(e) => Err(CatapultErrorView::DecoderError(e)),
                Ok(infos) => Ok(Seq::new(infos.len(), |i: int| DomainView::from_info(infos[i]))),
            },
        }
    }

    /// The first domain of a listing that has the given name, if there is
    /// one.
    pub open spec fn by_name(name: Seq<char>, res: ResponseView) -> Result<Option<DomainView>, CatapultErrorView> {
        match DomainView::list(res) {
            Err(e) => Err(e),
            Ok(domains) => Ok(first_named(domains, name, 0)),
        }
    }
}

impl Data {
    fn from_info(info: &DomainInfo) -> (r: Data)
        ensures
            r.view_as(info.id@) == DomainView::from_info(info.deep_view()),
    {
        Data {
            name: Lazy::Available(info.name.clone()),
        }
    }
}

impl Domain {
    /// Refuses a request where an identifier that its path needs is empty.
    pub(crate) fn guarded(&self, request: CatapultResult<Request>) -> (r: CatapultResult<Request>)
        ensures
            result_view(r) == self@.guarded(result_view(request)),
    {
        if self.id.as_str().unicode_len() == 0 {
            Err(CatapultError::bad_input("invalid app id"))
        } else {
            request
        }
    }

    /// The path of the domain.
    fn path(&self, client: &Client) -> (r: String)
        ensures
            r@ == self@.path(client@),
    {
        let rest = concat("/domains/", self.id.as_str());
        client.user_path(rest.as_str())
    }

    /// The request that fetches the fields.
    pub fn load_request(&self, client: &Client) -> (r: CatapultResult<Request>)
        ensures
            result_view(r) == self@.load_request(client@),
    {
        if self.id.as_str().unicode_len() == 0 {
            return Err(CatapultError::bad_input("invalid app id"));
        }
        let path = self.path(client);
        self.guarded(
            client.get_request(path.as_str()),
        )
    }

    /// Takes the response to the request of `load_request` and, where it
    /// describes the domain, replaces every field by what it says. On an
    /// error nothing changes.
    pub fn load(&mut self, res: Response) -> (r: CatapultResult<()>)
        ensures
            match old(self)@.loaded(res.deep_view()) {
                Ok(after) => r is Ok && final(self)@ == after,
                Err(e) => result_view(r) == Err::<(), CatapultErrorView>(e) && final(self)@ == old(
                    self,
                )@,
            },
    {
        let json = match JsonResponse::new(res) {
            Ok(json) => json,
            Err(e) => {
                return Err(e);
            },
        };
        let info = match DomainInfo::decode(&json.body) {
            Ok(info) => info,
            Err(e) => {
                return Err(CatapultError::DecoderError(e));
            },
        };
        self.data = Data::from_info(&info);
        Ok(())
    }

    /// The request that creates a domain of the given name.
    pub fn create_request(client: &Client, name: &str) -> (r: CatapultResult<Request>)
        ensures
            result_view(r) == DomainView::create_request(client@, name@),
    {
        let path = client.user_path("/domains");
        let mut map: Vec<(String, JsonValue)> = Vec::new();
        JsonValue::put(&mut map, "name", JsonValue::string(name));
        assert(map.deep_view() =~= seq![("name"@, JsonSpec::String(name@))]);
        let json = JsonValue::object(map);
        client.post_request(path.as_str(), &json)
    }

    /// The domain that was created, from the response to the request of
    /// `create_request`.
    pub fn create(name: &str, res: Response) -> (r: CatapultResult<Domain>)
        ensures
            result_view(r) == DomainView::created(name@, res.deep_view()),
    {
        let res = match EmptyResponse::new(res) {
            Ok(res) => res,
            Err(e) => {
                return Err(e);
            },
        };
        let id = match get_id_from_location_header(&res.headers) {
            Ok(id) => id,
            Err(e) => {
                return Err(e);
            },
        };
        Ok(Domain { id, data: Data { name: Lazy::Available(name.to_owned()) } })
    }

    /// The domain with the given identifier, with nothing fetched yet.
    pub fn get(id: &str) -> (r: Domain)
        ensures
            r@ == DomainView::unloaded(id@),
    {
        Domain { id: id.to_owned(), data: Data::unloaded() }
    }

    /// The request that `get_by_name` needs the response to: the listing of
    /// the domains.
    pub fn get_by_name_request(client: &Client) -> (r: CatapultResult<Request>)
        ensures
            result_view(r) == DomainView::list_request(client@),
    {
        Domain::list_request(client)
    }

    /// The first domain of a listing that has the given name, if there is
    /// one.
    pub fn get_by_name(name: &str, res: Response) -> (r: CatapultResult<Option<Domain>>)
        ensures
            result_view(r) == DomainView::by_name(name@, res.deep_view()),
    {
        let ghost response = res.deep_view();
        let mut domains = match Domain::list(res) {
            Ok(domains) => domains,
            Err(e) => {
                return Err(e);
            },
        };
        let ghost all = domains.deep_view();
        let mut i: usize = 0;
        while i < domains.len()
            invariant
                i <= domains.len(),
                all == domains.deep_view(),
                response == res.deep_view(),
                DomainView::list(response) == Ok::<Seq<DomainView>, CatapultErrorView>(all),
                first_named(all, name@, i as int) == first_named(all, name@, 0),
            decreases domains.len() - i,
        {
            let found = match &domains[i].data.name {
                Lazy::Available(n) => str_eq(n.as_str(), name),
                Lazy::NotLoaded => false,
            };
            assert(found == (all[i as int].name == Lazy::Available(name@)));
            if found {
                let domain = domains.swap_remove(i);
                assert(domain.deep_view() == all[i as int]);
                return Ok(Some(domain));
            }
            i += 1;
        }
        Ok(None)
    }

    /// The request that lists the domains of the user.
    pub fn list_request(client: &Client) -> (r: CatapultResult<Request>)
        ensures
            result_view(r) == DomainView::list_request(client@),
    {
        let path = client.user_path("/domains");
        client.get_request(path.as_str())
    }

    /// The domains that a response to a listing holds.
    pub fn list(res: Response) -> (r: CatapultResult<Vec<Domain>>)
        ensures
            result_view(r) == DomainView::list(res.deep_view()),
    {
        let res = match JsonResponse::new(res) {
            Ok(res) => res,
            Err(e) => {
                return Err(e);
            },
        };
        let infos = match decode_list(&res.body) {
            Ok(infos) => infos,
            Err(e) => {
                return Err(CatapultError::DecoderError(e));
            },
        };
        let ghost all = infos.deep_view();
        let mut output: Vec<Domain> = Vec::new();
        let mut i: usize = 0;
        while i < infos.len()
            invariant
                i <= infos.len(),
                output.len() == i,
                all == infos.deep_view(),
                forall|k: int|
                    0 <= k < i ==> (#[trigger] output[k]).deep_view() == DomainView::from_info(all[k]),
            decreases infos.len() - i,
        {
            let id = infos[i].id.clone();
            output.push(Domain { id, data: Data::from_info(&infos[i]) });
            i += 1;
        }
        assert(output.deep_view() =~= Seq::new(all.len(), |i: int| DomainView::from_info(all[i])));
        Ok(output)
    }

    pub fn get_id(&self) -> (r: String)
        ensures
            r@ == self@.id,
    {
        self.id.clone()
    }

    pub fn get_name(&self, client: &Client) -> (r: CatapultResult<Read<String>>)
        ensures
            result_view(r) == read_field(self@.name, self@.load_request(client@)),
    {
        match &self.data.name {
            Lazy::Available(v) => Ok(Read::Value(v.clone())),
            Lazy::NotLoaded => Read::load(self.load_request(client)),
        }
    }

    /// The endpoint of this domain with the given identifier, with nothing
    /// fetched yet.
    pub fn get_endpoint_by_id(&self, id: &str) -> (r: Endpoint)
        ensures
            r@ == EndpointView::unloaded(id@, self@.id),
    {
        Endpoint::get_by_id(id, self.id.as_str())
    }

    /// An endpoint of this domain that is yet to be created.
    pub fn build_endpoint(&self, app_id: &str, name: &str, password: &str) -> (r: EndpointBuilder)
        ensures
            r@ == EndpointBuilderView::new(self@.id, app_id@, name@, password@),
    {
        Endpoint::build(self.id.as_str(), app_id, name, password)
    }
}

/// A domain that was made from what identifies it alone asks for one load when
/// a field is read, whichever field it is. Once a load has succeeded, the read
/// of any field gives its value and asks for no request.
pub proof fn lemma_load_once(id: Seq<char>, client: ClientView, res: ResponseView)
    ensures
        ({
            let fresh = DomainView::unloaded(id);
            let load = fresh.load_request(client);
            let after = fresh.loaded(res);
            &&& asks_load(fresh.name, load)
            &&& after is Ok ==> reads_value(after->Ok_0.name, load)
        }),
{
}

/// A load replaces every field, whatever was cached: the last fetch wins, and
/// nothing of what was there before is merged in.
pub proof fn lemma_last_fetch_wins(a: DomainView, b: DomainView, res: ResponseView)
    requires
        a.id == b.id,
    ensures
        a.loaded(res) == b.loaded(res),
{
}

} // verus!
