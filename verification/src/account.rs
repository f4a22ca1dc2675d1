use vstd::prelude::*;

use crate::client::ApiResponse;
use crate::client::Client;
use crate::client::ClientView;
use crate::client::JsonResponse;
use crate::codec::DecoderError;
use crate::codec::DecoderErrorView;
use crate::codec::get_string;
use crate::codec::result_view;
use crate::codec::string_field;
use crate::error::CatapultError;
use crate::error::CatapultErrorView;
use crate::error::CatapultResult;
use crate::http::Request;
use crate::http::RequestView;
use crate::http::Response;
use crate::http::ResponseView;
use crate::json::JsonSpec;
use crate::json::JsonValue;
use crate::lazy::Lazy;
use crate::lazy::Read;
use crate::lazy::asks_load;
use crate::lazy::read_field;
use crate::lazy::reads_value;

verus! {

/// The account of the user as the service describes it.
#[derive(Debug)]
pub struct AccountInfo {
    pub balance: String,
    pub account_type: String,
}

/// The mathematical value of an [`AccountInfo`].
pub struct AccountInfoView {
    pub balance: Seq<char>,
    pub account_type: Seq<char>,
}

impl DeepView for AccountInfo {
    type V = AccountInfoView;

    open spec fn deep_view(&self) -> AccountInfoView {
        AccountInfoView { balance: self.balance@, account_type: self.account_type@ }
    }
}

impl AccountInfoView {
    /// The account that a JSON document describes.
    pub open spec fn decode(json: JsonSpec) -> Result<AccountInfoView, DecoderErrorView> {
        match string_field(json, "balance"@) {
            Err(e) => Err(e),
            Ok(balance) => match string_field(json, "accountType"@) {
                Err(e) => Err(e),
                Ok(account_type) => Ok(AccountInfoView { balance, account_type }),
            },
        }
    }
}

impl AccountInfo {
    /// Reads the account that a JSON document describes.
    pub fn decode(json: &JsonValue) -> (r: Result<AccountInfo, DecoderError>)
        ensures
            result_view(r) == AccountInfoView::decode(json.deep_view()),
    {
        let balance = match get_string(json, "balance") {
            Ok(v) => v,
            Err(e) => {
                return Err(e);
            },
        };
        let account_type = match get_string(json, "accountType") {
            Ok(v) => v,
            Err(e) => {
                return Err(e);
            },
        };
        Ok(AccountInfo { balance, account_type })
    }
}

struct Data {
    balance: Lazy<String>,
    account_type: Lazy<String>,
}

/// The account of the user: its balance and its type, each fetched when it
/// is first read.
pub struct Account {
    data: Data,
}

/// The mathematical value of an [`Account`].
pub struct AccountView {
    pub balance: Lazy<Seq<char>>,
    pub account_type: Lazy<Seq<char>>,
}

impl View for Account {
    type V = AccountView;

    closed spec fn view(&self) -> AccountView {
        AccountView {
            balance: self.data.balance.deep_view(),
            account_type: self.data.account_type.deep_view(),
        }
    }
}

impl AccountView {
    /// An account of which nothing is known yet.
    pub open spec fn unloaded() -> AccountView {
        AccountView { balance: Lazy::NotLoaded, account_type: Lazy::NotLoaded }
    }

    /// An account as a fetch describes it.
    pub open spec fn from_info(info: AccountInfoView) -> AccountView {
        AccountView {
            balance: Lazy::Available(info.balance),
            account_type: Lazy::Available(info.account_type),
        }
    }

    /// The request that fetches the account.
    pub open spec fn load_request(client: ClientView) -> Result<RequestView, CatapultErrorView> {
        client.get(client.user_path("/account"@))
    }

    /// The account after a fetch: every field as the response gives it. A
    /// response that tells of a failure, or does not describe an account,
    /// gives the error instead.
    pub open spec fn loaded(res: ResponseView) -> Result<AccountView, CatapultErrorView> {
        match res.json() {
            Err(e) => Err(e),
            Ok(json) => match AccountInfoView::decode(json.body) {
                Err(e) => Err(CatapultErrorView::DecoderError(e)),
                Ok(info) => Ok(AccountView::from_info(info)),
            },
        }
    }
}

impl Data {
    fn from_info(info: AccountInfo) -> (r: Data)
        ensures
            r.balance.deep_view() == Lazy::Available(info.balance@),
            r.account_type.deep_view() == Lazy::Available(info.account_type@),
    {
        Data { balance: Lazy::Available(info.balance), account_type: Lazy::Available(info.account_type) }
    }
}

impl Account {
    /// The request that fetches the account.
    pub fn load_request(&self, client: &Client) -> (r: CatapultResult<Request>)
        ensures
            result_view(r) == AccountView::load_request(client@),
    {
        let path = client.user_path("/account");
        client.get_request(path.as_str())
    }

    /// Takes the response to the request of `load_request` and, where it
    /// describes the account, replaces every field by what it says. On an
    /// error nothing changes.
    pub fn load(&mut self, res: Response) -> (r: CatapultResult<()>)
        ensures
            match AccountView::loaded(res.deep_view()) {
                Ok(after) => r is Ok && final(self)@ == after,
                Err(e) => result_view(r) == Err::<(), CatapultErrorView>(e) && final(self)@ == old(
                    self,
                )@,
            },
    {
        let json = match JsonResponse::new(res) {
            Ok(json) => json,
            Err(e) => {
                return Err(e);
            },
        };
        let info = match AccountInfo::decode(&json.body) {
            Ok(info) => info,
            Err(e) => {
                return Err(CatapultError::DecoderError(e));
            },
        };
        self.data = Data::from_info(info);
        Ok(())
    }

    /// The account of the user, with nothing fetched yet.
    pub fn get() -> (r: Account)
        ensures
            r@ == AccountView::unloaded(),
    {
        Account { data: Data { balance: Lazy::NotLoaded, account_type: Lazy::NotLoaded } }
    }

    pub fn get_balance(&self, client: &Client) -> (r: CatapultResult<Read<String>>)
        ensures
            result_view(r) == read_field(self@.balance, AccountView::load_request(client@)),
    {
        match &self.data.balance {
            Lazy::Available(v) => Ok(Read::Value(v.clone())),
            Lazy::NotLoaded => Read::load(self.load_request(client)),
        }
    }

    pub fn get_type(&self, client: &Client) -> (r: CatapultResult<Read<String>>)
        ensures
            result_view(r) == read_field(self@.account_type, AccountView::load_request(client@)),
    {
        match &self.data.account_type {
            Lazy::Available(v) => Ok(Read::Value(v.clone())),
            Lazy::NotLoaded => Read::load(self.load_request(client)),
        }
    }
}

/// A fresh account asks for one load when a field is read, whichever field
/// it is. Once a load has succeeded, the read of either field gives its value
/// and asks for no request.
pub proof fn lemma_load_once(client: ClientView, res: ResponseView)
    ensures
        ({
            let fresh = AccountView::unloaded();
            let load = AccountView::load_request(client);
            let after = AccountView::loaded(res);
            &&& asks_load(fresh.balance, load)
            &&& asks_load(fresh.account_type, load)
            &&& after is Ok ==> reads_value(after->Ok_0.balance, load)
            &&& after is Ok ==> reads_value(after->Ok_0.account_type, load)
        }),
{
}

} // verus!
