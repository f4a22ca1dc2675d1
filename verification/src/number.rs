use vstd::prelude::*;
use vstd::string::StrSliceExecFns;
use vstd::utf8::encode_utf8;

use crate::client::ApiResponse;
use crate::client::Client;
use crate::client::ClientView;
use crate::client::JsonResponse;
use crate::codec::DecoderError;
use crate::codec::DecoderErrorView;
use crate::codec::expected_error;
use crate::codec::get_opt_string;
use crate::codec::get_string;
use crate::codec::lemma_read_items_fails;
use crate::codec::opt_string_field;
use crate::codec::read_items;
use crate::codec::read_list;
use crate::codec::result_view;
use crate::codec::string_field;
use crate::error::CatapultError;
use crate::error::CatapultErrorView;
use crate::error::CatapultResult;
use crate::http::Method;
use crate::http::Request;
use crate::http::RequestView;
use crate::http::Response;
use crate::http::ResponseView;
use crate::json::JsonSpec;
use crate::json::JsonValue;
use crate::json::lazy_opt_string;
use crate::lazy::Lazy;
use crate::lazy::Read;
use crate::lazy::asks_load;
use crate::lazy::read_field;
use crate::lazy::reads_value;
use crate::text::clone_opt;
use crate::text::concat;
use crate::text::to_owned_opt;
use crate::util::get_id_from_location_url;
use crate::util::id_of_url;
use crate::util::opt_id_from_url;
use crate::util::opt_id_of_url;

verus! {

/// How to look for numbers that can be had.
#[derive(Debug)]
pub enum Search {
    ByCity { city: String, state: String },
    ByState(String),
    ByZip(String),
    ByAreaCode { area_code: String, local_number: String, in_local_calling_area: bool },
}

/// The mathematical value of a [`Search`].
pub enum SearchView {
    ByCity { city: Seq<char>, state: Seq<char> },
    ByState(Seq<char>),
    ByZip(Seq<char>),
    ByAreaCode { area_code: Seq<char>, local_number: Seq<char>, in_local_calling_area: bool },
}

impl DeepView for Search {
    type V = SearchView;

    open spec fn deep_view(&self) -> SearchView {
        match self {
            Search::ByCity { city, state } => SearchView::ByCity { city: city@, state: state@ },
            Search::ByState(state) => SearchView::ByState(state@),
            Search::ByZip(zip) => SearchView::ByZip(zip@),
            Search::ByAreaCode { area_code, local_number, in_local_calling_area } => SearchView::ByAreaCode {
                area_code: area_code@,
                local_number: local_number@,
                in_local_calling_area: *in_local_calling_area,
            },
        }
    }
}

impl SearchView {
    /// The parameters that ask for `quantity` numbers found in this way.
    pub open spec fn params(self, quantity: u32) -> JsonSpec {
        match self {
            SearchView::ByCity { city, state } => JsonSpec::Object(
                seq![
                    ("city"@, JsonSpec::String(city)),
                    ("state"@, JsonSpec::String(state)),
                    ("quantity"@, JsonSpec::U64(quantity as u64)),
                ],
            ),
            SearchView::ByState(state) => JsonSpec::Object(
                seq![("state"@, JsonSpec::String(state)), ("quantity"@, JsonSpec::U64(quantity as u64))],
            ),
            SearchView::ByZip(zip) => JsonSpec::Object(
                seq![("zip"@, JsonSpec::String(zip)), ("quantity"@, JsonSpec::U64(quantity as u64))],
            ),
            SearchView::ByAreaCode { area_code, local_number, in_local_calling_area } => JsonSpec::Object(
                seq![
                    ("areaCode"@, JsonSpec::String(area_code)),
                    ("localNumber"@, JsonSpec::String(local_number)),
                    ("inLocalCallingArea"@, JsonSpec::Boolean(in_local_calling_area)),
                    ("quantity"@, JsonSpec::U64(quantity as u64)),
                ],
            ),
        }
    }
}

/// A number of the user as the service describes it.
#[derive(Debug)]
pub struct NumberInfo {
    pub name: Option<String>,
    pub number: String,
    pub national_number: String,
    pub created_time: String,
    pub city: String,
    pub state: String,
    pub price: String,
    pub number_state: String,
    pub application: Option<String>,
    pub fallback_number: Option<String>,
}

/// The mathematical value of a [`NumberInfo`].
pub struct NumberInfoView {
    pub name: Option<Seq<char>>,
    pub number: Seq<char>,
    pub national_number: Seq<char>,
    pub created_time: Seq<char>,
    pub city: Seq<char>,
    pub state: Seq<char>,
    pub price: Seq<char>,
    pub number_state: Seq<char>,
    pub application: Option<Seq<char>>,
    pub fallback_number: Option<Seq<char>>,
}

impl DeepView for NumberInfo {
    type V = NumberInfoView;

    open spec fn deep_view(&self) -> NumberInfoView {
        NumberInfoView {
            name: self.name.deep_view(),
            number: self.number@,
            national_number: self.national_number@,
            created_time: self.created_time@,
            city: self.city@,
            state: self.state@,
            price: self.price@,
            number_state: self.number_state@,
            application: self.application.deep_view(),
            fallback_number: self.fallback_number.deep_view(),
        }
    }
}

impl NumberInfoView {
    /// The number that a JSON document describes: its members are read in the
    /// order of the fields, and the first that fails decides.
    pub open spec fn decode(json: JsonSpec) -> Result<NumberInfoView, DecoderErrorView> {
        match opt_string_field(json, "name"@) {
            Err(e) => Err(e),
            Ok(name) =>
            match string_field(json, "number"@) {
                Err(e) => Err(e),
                Ok(number) =>
                match string_field(json, "nationalNumber"@) {
                    Err(e) => Err(e),
                    Ok(national_number) =>
                    match string_field(json, "createdTime"@) {
                        Err(e) => Err(e),
                        Ok(created_time) =>
                        match string_field(json, "city"@) {
                            Err(e) => Err(e),
                            Ok(city) =>
                            match string_field(json, "state"@) {
                                Err(e) => Err(e),
                                Ok(state) =>
                                match string_field(json, "price"@) {
                                    Err(e) => Err(e),
                                    Ok(price) =>
                                    match string_field(json, "numberState"@) {
                                        Err(e) => Err(e),
                                        Ok(number_state) =>
                                        match opt_string_field(json, "application"@) {
                                            Err(e) => Err(e),
                                            Ok(application) =>
                                            match opt_string_field(json, "fallbackNumber"@) {
                                                Err(e) => Err(e),
                                                Ok(fallback_number) =>
                                                Ok(NumberInfoView { name, number, national_number, created_time, city, state, price, number_state, application, fallback_number }),
                                            },
                                        },
                                    },
                                },
                            },
                        },
                    },
                },
            },
        }
    }
}

impl NumberInfo {
    /// Reads the number that a JSON document describes.
    pub fn decode(json: &JsonValue) -> (r: Result<NumberInfo, DecoderError>)
        ensures
            result_view(r) == NumberInfoView::decode(json.deep_view()),
    {
        let name = match get_opt_string(json, "name") {
            Ok(v) => v,
            Err(e) => {
                return Err(e);
            },
        };
        let number = match get_string(json, "number") {
            Ok(v) => v,
            Err(e) => {
                return Err(e);
            },
        };
        let national_number = match get_string(json, "nationalNumber") {
            Ok(v) => v,
            Err(e) => {
                return Err(e);
            },
        };
        let created_time = match get_string(json, "createdTime") {
            Ok(v) => v,
            Err(e) => {
                return Err(e);
            },
        };
        let city = match get_string(json, "city") {
            Ok(v) => v,
            Err(e) => {
                return Err(e);
            },
        };
        let state = match get_string(json, "state") {
            Ok(v) => v,
            Err(e) => {
                return Err(e);
            },
        };
        let price = match get_string(json, "price") {
            Ok(v) => v,
            Err(e) => {
                return Err(e);
            },
        };
        let number_state = match get_string(json, "numberState") {
            Ok(v) => v,
            Err(e) => {
                return Err(e);
            },
        };
        let application = match get_opt_string(json, "application") {
            Ok(v) => v,
            Err(e) => {
                return Err(e);
            },
        };
        let fallback_number = match get_opt_string(json, "fallbackNumber") {
            Ok(v) => v,
            Err(e) => {
                return Err(e);
            },
        };
        Ok(NumberInfo { name, number, national_number, created_time, city, state, price, number_state, application, fallback_number })
    }
}

/// A number that was just given to the user, as the service describes it.
#[derive(Debug)]
pub struct AllocatedNumber {
    pub number: String,
    pub national_number: String,
    pub price: String,
    pub location: String,
}

/// The mathematical value of an [`AllocatedNumber`].
pub struct AllocatedNumberView {
    pub number: Seq<char>,
    pub national_number: Seq<char>,
    pub price: Seq<char>,
    pub location: Seq<char>,
}

impl DeepView for AllocatedNumber {
    type V = AllocatedNumberView;

    open spec fn deep_view(&self) -> AllocatedNumberView {
        AllocatedNumberView {
            number: self.number@,
            national_number: self.national_number@,
            price: self.price@,
            location: self.location@,
        }
    }
}

impl AllocatedNumberView {
    /// The number that a JSON document describes: its members are read in the
    /// order of the fields, and the first that fails decides.
    pub open spec fn decode(json: JsonSpec) -> Result<AllocatedNumberView, DecoderErrorView> {
        match string_field(json, "number"@) {
            Err(e) => Err(e),
            Ok(number) =>
            match string_field(json, "nationalNumber"@) {
                Err(e) => Err(e),
                Ok(national_number) =>
                match string_field(json, "price"@) {
                    Err(e) => Err(e),
                    Ok(price) =>
                    match string_field(json, "location"@) {
                        Err(e) => Err(e),
                        Ok(location) =>
                        Ok(AllocatedNumberView { number, national_number, price, location }),
                    },
                },
            },
        }
    }
}

impl AllocatedNumber {
    /// Reads the number that a JSON document describes.
    pub fn decode(json: &JsonValue) -> (r: Result<AllocatedNumber, DecoderError>)
        ensures
            result_view(r) == AllocatedNumberView::decode(json.deep_view()),
    {
        let number = match get_string(json, "number") {
            Ok(v) => v,
            Err(e) => {
                return Err(e);
            },
        };
        let national_number = match get_string(json, "nationalNumber") {
            Ok(v) => v,
            Err(e) => {
                return Err(e);
            },
        };
        let price = match get_string(json, "price") {
            Ok(v) => v,
            Err(e) => {
                return Err(e);
            },
        };
        let location = match get_string(json, "location") {
            Ok(v) => v,
            Err(e) => {
                return Err(e);
            },
        };
        Ok(AllocatedNumber { number, national_number, price, location })
    }
}

/// The numbers that a JSON array describes, in its order.
pub open spec fn decode_all(json: JsonSpec) -> Result<Seq<AllocatedNumberView>, DecoderErrorView> {
    read_list(json, |j: JsonSpec| AllocatedNumberView::decode(j))
}

/// Reads the numbers that a JSON array describes.
pub fn decode_list(json: &JsonValue) -> (r: Result<Vec<AllocatedNumber>, DecoderError>)
    ensures
        result_view(r) == decode_all(json.deep_view()),
{
    match json {
        JsonValue::Array(items) => {
            let ghost all = json.model()->Array_0;
            let ghost read = |j: JsonSpec| AllocatedNumberView::decode(j);
            let mut out: Vec<AllocatedNumber> = Vec::new();
            let mut i: usize = 0;
            assert(all.take(0) =~= Seq::empty());
            assert(out.deep_view() =~= Seq::empty());
            while i < items.len()
                invariant
                    i <= items.len(),
                    all.len() == items.len(),
                    json.model() == JsonSpec::Array(all),
                    forall|k: int| 0 <= k < items.len() ==> #[trigger] all[k] == items[k].model(),
                    read == (|j: JsonSpec| AllocatedNumberView::decode(j)),
                    read_items(all.take(i as int), read) == Ok::<Seq<AllocatedNumberView>, DecoderErrorView>(
                        out.deep_view(),
                    ),
                decreases items.len() - i,
            {
                let ghost before = out.deep_view();
                assert(all.take(i + 1).drop_last() =~= all.take(i as int));
                assert(all.take(i + 1).last() == items[i as int].model());
                match AllocatedNumber::decode(&items[i]) {
                    Ok(item) => {
                        let ghost v = item.deep_view();
                        out.push(item);
                        assert(out.deep_view() =~= before.push(v));
                    },
                    Err(e) => {
                        proof {
                            lemma_read_items_fails(all, read, i + 1);
                        }
                        return Err(e);
                    },
                }
                i += 1;
            }
            assert(all.take(i as int) =~= all);
            Ok(out)
        },
        _ => Err(expected_error("Array", json)),
    }
}

#[derive(Debug)]
struct Data {
    name: Lazy<Option<String>>,
    number: Lazy<String>,
    national_number: Lazy<String>,
    created_time: Lazy<String>,
    city: Lazy<String>,
    state: Lazy<String>,
    price: Lazy<String>,
    number_state: Lazy<String>,
    application_id: Lazy<Option<String>>,
    fallback_number: Lazy<Option<String>>,
}

impl Data {
    spec fn view_as(&self, id: Seq<char>) -> NumberView {
        NumberView {
            id,
            name: self.name.deep_view(),
            number: self.number.deep_view(),
            national_number: self.national_number.deep_view(),
            created_time: self.created_time.deep_view(),
            city: self.city.deep_view(),
            state: self.state.deep_view(),
            price: self.price.deep_view(),
            number_state: self.number_state.deep_view(),
            application_id: self.application_id.deep_view(),
            fallback_number: self.fallback_number.deep_view(),
        }
    }

    /// Fields of which nothing is known yet.
    fn unloaded() -> (r: Data)
        ensures
            r.name is NotLoaded,
            r.number is NotLoaded,
            r.national_number is NotLoaded,
            r.created_time is NotLoaded,
            r.city is NotLoaded,
            r.state is NotLoaded,
            r.price is NotLoaded,
            r.number_state is NotLoaded,
            r.application_id is NotLoaded,
            r.fallback_number is NotLoaded,
    {
        Data {
            name: Lazy::NotLoaded,
            number: Lazy::NotLoaded,
            national_number: Lazy::NotLoaded,
            created_time: Lazy::NotLoaded,
            city: Lazy::NotLoaded,
            state: Lazy::NotLoaded,
            price: Lazy::NotLoaded,
            number_state: Lazy::NotLoaded,
            application_id: Lazy::NotLoaded,
            fallback_number: Lazy::NotLoaded,
        }
    }
}

/// A phone number of the user. Its fields are fetched when one is first
/// read.
#[derive(Debug)]
pub struct Number {
    id: String,
    data: Data,
}

/// The mathematical value of a [`Number`].
pub struct NumberView {
    pub id: Seq<char>,
    pub name: Lazy<Option<Seq<char>>>,
    pub number: Lazy<Seq<char>>,
    pub national_number: Lazy<Seq<char>>,
    pub created_time: Lazy<Seq<char>>,
    pub city: Lazy<Seq<char>>,
    pub state: Lazy<Seq<char>>,
    pub price: Lazy<Seq<char>>,
    pub number_state: Lazy<Seq<char>>,
    pub application_id: Lazy<Option<Seq<char>>>,
    pub fallback_number: Lazy<Option<Seq<char>>>,
}

impl DeepView for Number {
    type V = NumberView;

    closed spec fn deep_view(&self) -> NumberView {
        self.data.view_as(self.id@)
    }
}

impl View for Number {
    type V = NumberView;

    open spec fn view(&self) -> NumberView {
        self.deep_view()
    }
}

/// The numbers that the descriptions of numbers just given stand for; the
/// first description whose location ends in no identifier decides.
pub open spec fn allocated(items: Seq<AllocatedNumberView>) -> Result<Seq<NumberView>, CatapultErrorView>
    decreases items.len(),
{
    if items.len() == 0 {
        Ok(Seq::empty())
    } else {
        match allocated(items.drop_last()) {
            Err(e) => Err(e),
            Ok(head) => match NumberView::of_allocated(items.last()) {
                Err(e) => Err(e),
                Ok(number) => Ok(head.push(number)),
            },
        }
    }
}

/// Once a prefix of the descriptions fails, the whole fails in the same way.
proof fn lemma_allocated_fails(items: Seq<AllocatedNumberView>, n: int)
    requires
        0 <= n <= items.len(),
        allocated(items.take(n)) is Err,
    ensures
        allocated(items) == allocated(items.take(n)),
    decreases items.len() - n,
{
    if n == items.len() {
        assert(items.take(n) =~= items);
    } else {
        assert(items.take(n + 1).drop_last() =~= items.take(n));
        lemma_allocated_fails(items, n + 1);
    }
}

impl NumberView {
    /// A number of which only the identifier is known.
    pub open spec fn unloaded(id: Seq<char>) -> NumberView {
        NumberView {
            id,
            name: Lazy::NotLoaded,
            number: Lazy::NotLoaded,
            national_number: Lazy::NotLoaded,
            created_time: Lazy::NotLoaded,
            city: Lazy::NotLoaded,
            state: Lazy::NotLoaded,
            price: Lazy::NotLoaded,
            number_state: Lazy::NotLoaded,
            application_id: Lazy::NotLoaded,
            fallback_number: Lazy::NotLoaded,
        }
    }

    /// Whether every field holds a value.
    pub open spec fn complete(self) -> bool {
        &&& self.name is Available
        &&& self.number is Available
        &&& self.national_number is Available
        &&& self.created_time is Available
        &&& self.city is Available
        &&& self.state is Available
        &&& self.price is Available
        &&& self.number_state is Available
        &&& self.application_id is Available
        &&& self.fallback_number is Available
    }

    /// A number as a fetch describes it. The application is told by its
    /// URL, whose last segment is its identifier.
    pub open spec fn from_info(id: Seq<char>, info: NumberInfoView) -> Result<NumberView, CatapultErrorView> {
        match opt_id_of_url(info.application) {
            Err(e) => Err(e),
            Ok(application_id) => Ok(
                NumberView {
                    id,
                    name: Lazy::Available(info.name),
                    number: Lazy::Available(info.number),
                    national_number: Lazy::Available(info.national_number),
                    created_time: Lazy::Available(info.created_time),
                    city: Lazy::Available(info.city),
                    state: Lazy::Available(info.state),
                    price: Lazy::Available(info.price),
                    number_state: Lazy::Available(info.number_state),
                    application_id: Lazy::Available(application_id),
                    fallback_number: Lazy::Available(info.fallback_number),
                },
            ),
        }
    }

    /// A number that was just given to the user: its identifier is the last
    /// segment of its location, and only what the description tells is
    /// known.
    pub open spec fn of_allocated(item: AllocatedNumberView) -> Result<NumberView, CatapultErrorView> {
        match id_of_url(item.location) {
            Err(e) => Err(e),
            Ok(id) => Ok(
                NumberView {
                    number: Lazy::Available(item.number),
                    national_number: Lazy::Available(item.national_number),
                    price: Lazy::Available(item.price),
                    ..NumberView::unloaded(id)
                },
            ),
        }
    }

    /// What a request that addresses the number by its identifier comes to: an
    /// empty identifier is refused before any request is made, since the
    /// path would be that of the list of all.
    pub open spec fn guarded(self, request: Result<RequestView, CatapultErrorView>) -> Result<
        RequestView,
        CatapultErrorView,
    > {
        if self.id.len() == 0 {
            Err(CatapultErrorView::BadInput("invalid number id"@))
        } else {
            request
        }
    }

    /// The path of the number.
    pub open spec fn path(self, client: ClientView) -> Seq<char> {
        client.user_path("/phoneNumbers/"@ + self.id)
    }

    /// The request that fetches the number.
    pub open spec fn load_request(self, client: ClientView) -> Result<RequestView, CatapultErrorView> {
        self.guarded(client.get(self.path(client)))
    }

    /// The number after a fetch: every field as the response gives it,
    /// whatever it held before. A response that tells of a failure, or does
    /// not describe a number, gives the error instead.
    pub open spec fn loaded(self, res: ResponseView) -> Result<NumberView, CatapultErrorView> {
        match res.json() {
            Err(e) => Err(e),
            Ok(json) => match NumberInfoView::decode(json.body) {
                Err(e) => Err(CatapultErrorView::DecoderError(e)),
                Ok(info) => NumberView::from_info(self.id, info),
            },
        }
    }

    /// The document of a partial update: a member for each field that can
    /// be written and holds a value, and none for the others.
    pub open spec fn save_body(self) -> JsonSpec {
        JsonSpec::Object(
            lazy_opt_string("applicationId"@, self.application_id)
            + lazy_opt_string("name"@, self.name)
            + lazy_opt_string("fallbackNumber"@, self.fallback_number),
        )
    }

    /// The request that writes the fields that hold a value back to the
    /// service.
    pub open spec fn save_request(self, client: ClientView) -> Result<RequestView, CatapultErrorView> {
        self.guarded(client.post(self.path(client), self.save_body()))
    }

    /// The request that looks for numbers and takes those found for the
    /// user.
    pub open spec fn search_request(client: ClientView, quantity: u32, search: SearchView) -> Result<
        RequestView,
        CatapultErrorView,
    > {
        client.request(Method::Post, "availableNumbers/local"@, search.params(quantity), Seq::empty())
    }

    /// The numbers that the response to a search gave to the user.
    pub open spec fn found(res: ResponseView) -> Result<Seq<NumberView>, CatapultErrorView> {
        match res.json() {
            Err(e) => Err(e),
            Ok(json) => match decode_all(json.body) {
                Err(e) => Err(CatapultErrorView::DecoderError(e)),
                Ok(items) => allocated(items),
            },
        }
    }
}

impl Number {
    /// Refuses a request where an identifier that its path needs is empty.
    pub(crate) fn guarded(&self, request: CatapultResult<Request>) -> (r: CatapultResult<Request>)
        ensures
            result_view(r) == self@.guarded(result_view(request)),
    {
        if self.id.as_str().unicode_len() == 0 {
            Err(CatapultError::bad_input("invalid number id"))
        } else {
            request
        }
    }

    /// The path of the number.
    fn path(&self, client: &Client) -> (r: String)
        ensures
            r@ == self@.path(client@),
    {
        let rest = concat("/phoneNumbers/", self.id.as_str());
        client.user_path(rest.as_str())
    }

    /// The request that fetches the fields.
    pub fn load_request(&self, client: &Client) -> (r: CatapultResult<Request>)
        ensures
            result_view(r) == self@.load_request(client@),
    {
        let path = self.path(client);
        self.guarded(
            client.get_request(path.as_str()),
        )
    }

    /// Takes the response to the request of `load_request` and, where it
    /// describes the number, replaces every field by what it says. On an
    /// error nothing changes.
    pub fn load(&mut self, res: Response) -> (r: CatapultResult<()>)
        ensures
            match old(self)@.loaded(res.deep_view()) {
                Ok(after) => r is Ok && final(self)@ == after,
                Err(e) => result_view(r) == Err::<(), CatapultErrorView>(e) && final(self)@ == old(
                    self,
                )@,
            },
    {
        let json = match JsonResponse::new(res) {
            Ok(json) => json,
            Err(e) => {
                return Err(e);
            },
        };
        let info = match NumberInfo::decode(&json.body) {
            Ok(info) => info,
            Err(e) => {
                return Err(CatapultError::DecoderError(e));
            },
        };
        let application_id = match opt_id_from_url(&info.application) {
            Ok(id) => id,
            Err(e) => {
                return Err(e);
            },
        };
        self.data = Data {
            name: Lazy::Available(info.name),
            number: Lazy::Available(info.number),
            national_number: Lazy::Available(info.national_number),
            created_time: Lazy::Available(info.created_time),
            city: Lazy::Available(info.city),
            state: Lazy::Available(info.state),
            price: Lazy::Available(info.price),
            number_state: Lazy::Available(info.number_state),
            application_id: Lazy::Available(application_id),
            fallback_number: Lazy::Available(info.fallback_number),
        };
        Ok(())
    }

    /// The request that writes the fields that can be written and hold a
    /// value back to the service, and no others.
    pub fn save(&self, client: &Client) -> (r: CatapultResult<Request>)
        ensures
            result_view(r) == self@.save_request(client@),
            self@.save_body() == JsonSpec::Object(Seq::empty()) && r is Ok ==> r->Ok_0.body@ == encode_utf8(
                "{}"@,
            ),
    {
        let path = self.path(client);
        let mut map: Vec<(String, JsonValue)> = Vec::new();
        JsonValue::put_opt_string(&mut map, "applicationId", &self.data.application_id);
        assert(map.deep_view() =~= lazy_opt_string("applicationId"@, self@.application_id));
        JsonValue::put_opt_string(&mut map, "name", &self.data.name);
        JsonValue::put_opt_string(&mut map, "fallbackNumber", &self.data.fallback_number);
        let json = JsonValue::object(map);
        self.guarded(
            client.post_request(path.as_str(), &json),
        )
    }

    /// The number with the given identifier, with nothing fetched yet.
    pub fn by_id(id: &str) -> (r: Number)
        ensures
            r@ == NumberView::unloaded(id@),
    {
        Number { id: id.to_owned(), data: Data::unloaded() }
    }

    /// The request that looks for `quantity` numbers and takes those found
    /// for the user.
    pub fn search_and_allocate_local_request(client: &Client, quantity: u32, search: &Search) -> (r:
        CatapultResult<Request>)
        ensures
            result_view(r) == NumberView::search_request(client@, quantity, search.deep_view()),
    {
        let mut map: Vec<(String, JsonValue)> = Vec::new();
        match search {
            Search::ByCity { city, state } => {
                JsonValue::put(&mut map, "city", JsonValue::string(city.as_str()));
                JsonValue::put(&mut map, "state", JsonValue::string(state.as_str()));
                JsonValue::put(&mut map, "quantity", JsonValue::U64(quantity as u64));
            },
            Search::ByState(state) => {
                JsonValue::put(&mut map, "state", JsonValue::string(state.as_str()));
                JsonValue::put(&mut map, "quantity", JsonValue::U64(quantity as u64));
            },
            Search::ByZip(zip) => {
                JsonValue::put(&mut map, "zip", JsonValue::string(zip.as_str()));
                JsonValue::put(&mut map, "quantity", JsonValue::U64(quantity as u64));
            },
            Search::ByAreaCode { area_code, local_number, in_local_calling_area } => {
                JsonValue::put(&mut map, "areaCode", JsonValue::string(area_code.as_str()));
                JsonValue::put(&mut map, "localNumber", JsonValue::string(local_number.as_str()));
                JsonValue::put(&mut map, "inLocalCallingArea", JsonValue::Boolean(*in_local_calling_area));
                JsonValue::put(&mut map, "quantity", JsonValue::U64(quantity as u64));
            },
        }
        assert(map.deep_view() =~= search.deep_view().params(quantity)->Object_0);
        let json = JsonValue::object(map);
        client.raw_post_request("availableNumbers/local", &json, ())
    }

    /// The numbers that the search gave to the user, from the response to
    /// the request of `search_and_allocate_local_request`.
    pub fn search_and_allocate_local(res: Response) -> (r: CatapultResult<Vec<Number>>)
        ensures
            result_view(r) == NumberView::found(res.deep_view()),
    {
        let ghost response = res.deep_view();
        let json = match JsonResponse::new(res) {
            Ok(json) => json,
            Err(e) => {
                return Err(e);
            },
        };
        let items = match decode_list(&json.body) {
            Ok(items) => items,
            Err(e) => {
                return Err(CatapultError::DecoderError(e));
            },
        };
        let ghost all = items.deep_view();
        let mut output: Vec<Number> = Vec::new();
        let mut i: usize = 0;
        assert(all.take(0) =~= Seq::empty());
        assert(output.deep_view() =~= Seq::empty());
        while i < items.len()
            invariant
                i <= items.len(),
                all == items.deep_view(),
                response == res.deep_view(),
                NumberView::found(response) == allocated(all),
                allocated(all.take(i as int)) == Ok::<Seq<NumberView>, CatapultErrorView>(
                    output.deep_view(),
                ),
            decreases items.len() - i,
        {
            let ghost before = output.deep_view();
            assert(all.take(i + 1).drop_last() =~= all.take(i as int));
            assert(all.take(i + 1).last() == items[i as int].deep_view());
            let id = match get_id_from_location_url(items[i].location.as_str()) {
                Ok(id) => id,
                Err(e) => {
                    proof {
                        lemma_allocated_fails(all, i + 1);
                    }
                    return Err(e);
                },
            };
            let mut data = Data::unloaded();
            data.number.set(items[i].number.clone());
            data.national_number.set(items[i].national_number.clone());
            data.price.set(items[i].price.clone());
            let number = Number { id, data };
            let ghost v = number.deep_view();
            output.push(number);
            assert(output.deep_view() =~= before.push(v));
            i += 1;
        }
        assert(all.take(i as int) =~= all);
        Ok(output)
    }

    pub fn get_id(&self) -> (r: CatapultResult<String>)
        ensures
            result_view(r) == Ok::<Seq<char>, CatapultErrorView>(self@.id),
    {
        Ok(self.id.clone())
    }

    pub fn get_name(&self, client: &Client) -> (r: CatapultResult<Read<Option<String>>>)
        ensures
            result_view(r) == read_field(self@.name, self@.load_request(client@)),
    {
        match &self.data.name {
            Lazy::Available(v) => Ok(Read::Value(clone_opt(v))),
            Lazy::NotLoaded => Read::load(self.load_request(client)),
        }
    }

    pub fn get_number(&self, client: &Client) -> (r: CatapultResult<Read<String>>)
        ensures
            result_view(r) == read_field(self@.number, self@.load_request(client@)),
    {
        match &self.data.number {
            Lazy::Available(v) => Ok(Read::Value(v.clone())),
            Lazy::NotLoaded => Read::load(self.load_request(client)),
        }
    }

    pub fn get_national_number(&self, client: &Client) -> (r: CatapultResult<Read<String>>)
        ensures
            result_view(r) == read_field(self@.national_number, self@.load_request(client@)),
    {
        match &self.data.national_number {
            Lazy::Available(v) => Ok(Read::Value(v.clone())),
            Lazy::NotLoaded => Read::load(self.load_request(client)),
        }
    }

    pub fn get_created_time(&self, client: &Client) -> (r: CatapultResult<Read<String>>)
        ensures
            result_view(r) == read_field(self@.created_time, self@.load_request(client@)),
    {
        match &self.data.created_time {
            Lazy::Available(v) => Ok(Read::Value(v.clone())),
            Lazy::NotLoaded => Read::load(self.load_request(client)),
        }
    }

    pub fn get_city(&self, client: &Client) -> (r: CatapultResult<Read<String>>)
        ensures
            result_view(r) == read_field(self@.city, self@.load_request(client@)),
    {
        match &self.data.city {
            Lazy::Available(v) => Ok(Read::Value(v.clone())),
            Lazy::NotLoaded => Read::load(self.load_request(client)),
        }
    }

    pub fn get_state(&self, client: &Client) -> (r: CatapultResult<Read<String>>)
        ensures
            result_view(r) == read_field(self@.state, self@.load_request(client@)),
    {
        match &self.data.state {
            Lazy::Available(v) => Ok(Read::Value(v.clone())),
            Lazy::NotLoaded => Read::load(self.load_request(client)),
        }
    }

    pub fn get_price(&self, client: &Client) -> (r: CatapultResult<Read<String>>)
        ensures
            result_view(r) == read_field(self@.price, self@.load_request(client@)),
    {
        match &self.data.price {
            Lazy::Available(v) => Ok(Read::Value(v.clone())),
            Lazy::NotLoaded => Read::load(self.load_request(client)),
        }
    }

    pub fn get_number_state(&self, client: &Client) -> (r: CatapultResult<Read<String>>)
        ensures
            result_view(r) == read_field(self@.number_state, self@.load_request(client@)),
    {
        match &self.data.number_state {
            Lazy::Available(v) => Ok(Read::Value(v.clone())),
            Lazy::NotLoaded => Read::load(self.load_request(client)),
        }
    }

    pub fn get_application_id(&self, client: &Client) -> (r: CatapultResult<Read<Option<String>>>)
        ensures
            result_view(r) == read_field(self@.application_id, self@.load_request(client@)),
    {
        match &self.data.application_id {
            Lazy::Available(v) => Ok(Read::Value(clone_opt(v))),
            Lazy::NotLoaded => Read::load(self.load_request(client)),
        }
    }

    pub fn get_fallback_number(&self, client: &Client) -> (r: CatapultResult<Read<Option<String>>>)
        ensures
            result_view(r) == read_field(self@.fallback_number, self@.load_request(client@)),
    {
        match &self.data.fallback_number {
            Lazy::Available(v) => Ok(Read::Value(clone_opt(v))),
            Lazy::NotLoaded => Read::load(self.load_request(client)),
        }
    }

    pub fn set_application_id(&mut self, id: Option<&str>)
        ensures
            final(self)@ == (NumberView { application_id: Lazy::Available(id.deep_view()), ..old(self)@ }),
    {
        self.data.application_id.set(to_owned_opt(id));
    }
}

/// A number that was made from what identifies it alone asks for one load when
/// a field is read, whichever field it is. Once a load has succeeded, the read
/// of any field gives its value and asks for no request.
pub proof fn lemma_load_once(id: Seq<char>, client: ClientView, res: ResponseView)
    ensures
        ({
            let fresh = NumberView::unloaded(id);
            let load = fresh.load_request(client);
            let after = fresh.loaded(res);
            &&& asks_load(fresh.name, load)
            &&& asks_load(fresh.number, load)
            &&& asks_load(fresh.national_number, load)
            &&& asks_load(fresh.created_time, load)
            &&& asks_load(fresh.city, load)
            &&& asks_load(fresh.state, load)
            &&& asks_load(fresh.price, load)
            &&& asks_load(fresh.number_state, load)
            &&& asks_load(fresh.application_id, load)
            &&& asks_load(fresh.fallback_number, load)
            &&& after is Ok ==> reads_value(after->Ok_0.name, load)
            &&& after is Ok ==> reads_value(after->Ok_0.number, load)
            &&& after is Ok ==> reads_value(after->Ok_0.national_number, load)
            &&& after is Ok ==> reads_value(after->Ok_0.created_time, load)
            &&& after is Ok ==> reads_value(after->Ok_0.city, load)
            &&& after is Ok ==> reads_value(after->Ok_0.state, load)
            &&& after is Ok ==> reads_value(after->Ok_0.price, load)
            &&& after is Ok ==> reads_value(after->Ok_0.number_state, load)
            &&& after is Ok ==> reads_value(after->Ok_0.application_id, load)
            &&& after is Ok ==> reads_value(after->Ok_0.fallback_number, load)
        }),
{
}

/// What is written back is what was set and nothing else: a number of which
/// no field holds a value writes the empty document, and two that agree in
/// the fields that can be written write the same request.
pub proof fn lemma_save_is_partial(id: Seq<char>, a: NumberView, b: NumberView, client: ClientView)
    requires
        a.id == b.id,
        a.application_id == b.application_id,
        a.name == b.name,
        a.fallback_number == b.fallback_number,
    ensures
        NumberView::unloaded(id).save_body() == JsonSpec::Object(Seq::empty()),
        a.save_request(client) == b.save_request(client),
{
    assert(NumberView::unloaded(id).save_body()->Object_0 =~= Seq::empty());
}

/// A load replaces every field, whatever was cached: the last fetch wins, and
/// nothing of what was there before is merged in.
pub proof fn lemma_last_fetch_wins(a: NumberView, b: NumberView, res: ResponseView)
    requires
        a.id == b.id,
    ensures
        a.loaded(res) == b.loaded(res),
{
}

} // verus!
