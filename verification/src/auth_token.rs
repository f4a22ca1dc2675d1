use vstd::prelude::*;

use crate::client::ApiResponse;
use crate::client::Client;
use crate::client::JsonResponse;
use crate::codec::DecoderError;
use crate::codec::DecoderErrorView;
use crate::codec::get_string;
use crate::codec::get_unsigned;
use crate::codec::result_view;
use crate::codec::string_field;
use crate::codec::unsigned_field;
use crate::endpoint::Endpoint;
use crate::error::CatapultError;
use crate::error::CatapultErrorView;
use crate::error::CatapultResult;
use crate::http::Request;
use crate::http::Response;
use crate::http::ResponseView;
use crate::json::JsonSpec;
use crate::json::JsonValue;
use crate::text::concat;

verus! {

/// A token with which an endpoint registers, and the seconds for which it
/// is good.
#[derive(Debug)]
pub struct AuthToken {
    token: String,
    expires: u64,
}

/// The mathematical value of an [`AuthToken`].
pub struct AuthTokenView {
    pub token: Seq<char>,
    pub expires: u64,
}

impl DeepView for AuthToken {
    type V = AuthTokenView;

    closed spec fn deep_view(&self) -> AuthTokenView {
        AuthTokenView {
            token: self.token@,
            expires: self.expires,
        }
    }
}

impl AuthTokenView {
    /// The token that a JSON document describes: its members are read in the
    /// order of the fields, and the first that fails decides.
    pub open spec fn decode(json: JsonSpec) -> Result<AuthTokenView, DecoderErrorView> {
        match string_field(json, "token"@) {
            Err(e) => Err(e),
            Ok(token) =>
            match unsigned_field(json, "expires"@) {
                Err(e) => Err(e),
                Ok(expires) =>
                Ok(AuthTokenView { token, expires }),
            },
        }
    }
}

impl AuthToken {
    /// Reads the token that a JSON document describes.
    pub fn decode(json: &JsonValue) -> (r: Result<AuthToken, DecoderError>)
        ensures
            result_view(r) == AuthTokenView::decode(json.deep_view()),
    {
        let token = match get_string(json, "token") {
            Ok(v) => v,
            Err(e) => {
                return Err(e);
            },
        };
        let expires = match get_unsigned(json, "expires") {
            Ok(v) => v,
            Err(e) => {
                return Err(e);
            },
        };
        Ok(AuthToken { token, expires })
    }
}

impl View for AuthToken {
    type V = AuthTokenView;

    open spec fn view(&self) -> AuthTokenView {
        self.deep_view()
    }
}

impl AuthTokenView {
    /// The token that the response to a creation holds.
    pub open spec fn created(res: ResponseView) -> Result<AuthTokenView, CatapultErrorView> {
        match res.json() {
            Err(e) => Err(e),
            Ok(json) => match AuthTokenView::decode(json.body) {
                Err(e) => Err(CatapultErrorView::DecoderError(e)),
                Ok(token) => Ok(token),
            },
        }
    }
}

impl AuthToken {
    /// The request that creates a token for an endpoint.
    pub fn create_request(endpoint: &Endpoint, client: &Client) -> (r: CatapultResult<Request>)
        ensures
            result_view(r) == endpoint@.token_request(client@),
    {
        let domain = endpoint.get_domain();
        let a = concat("/domains/", domain.get_id().as_str());
        let b = concat(a.as_str(), "/endpoints/");
        let c = concat(b.as_str(), endpoint.get_id().as_str());
        let d = concat(c.as_str(), "/tokens");
        let path = client.user_path(d.as_str());
        proof {
            assert(d@ =~= "/domains/"@ + endpoint@.domain_id + "/endpoints/"@ + endpoint@.id + "/tokens"@);
            assert(path@ =~= endpoint@.path(client@) + "/tokens"@);
        }
        endpoint.guarded(client.raw_post_request(path.as_str(), &JsonValue::Null, ()))
    }

    /// The token that was created, from the response to the request of
    /// `create_request`.
    pub fn create(res: Response) -> (r: CatapultResult<AuthToken>)
        ensures
            result_view(r) == AuthTokenView::created(res.deep_view()),
    {
        let json = match JsonResponse::new(res) {
            Ok(json) => json,
            Err(e) => {
                return Err(e);
            },
        };
        match AuthToken::decode(&json.body) {
            Ok(token) => Ok(token),
            Err(e) => Err(CatapultError::DecoderError(e)),
        }
    }

    pub fn get_token(&self) -> (r: String)
        ensures
            r@ == self@.token,
    {
        self.token.clone()
    }

    pub fn get_expires(&self) -> (r: u64)
        ensures
            r == self@.expires,
    {
        self.expires
    }
}

} // verus!
