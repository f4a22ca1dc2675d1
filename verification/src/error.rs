use vstd::prelude::*;
use vstd::std_specs::convert::FromSpecImpl;

use crate::codec::DecoderError;
use crate::codec::DecoderErrorView;
use crate::codec::get_string;
use crate::codec::result_view;
use crate::codec::string_field;
use crate::json::JsonSpec;
use crate::json::JsonValue;
use crate::json::decode_text;
use crate::lazy::LazyError;

verus! {

/// What the service says went wrong, in its own words.
#[derive(Debug)]
pub struct ApiError {
    pub category: String,
    pub code: String,
    pub message: String,
}

/// The mathematical value of an [`ApiError`].
pub struct ApiErrorView {
    pub category: Seq<char>,
    pub code: Seq<char>,
    pub message: Seq<char>,
}

impl DeepView for ApiError {
    type V = ApiErrorView;

    open spec fn deep_view(&self) -> ApiErrorView {
        ApiErrorView { category: self.category@, code: self.code@, message: self.message@ }
    }
}

impl ApiErrorView {
    /// The error that a JSON document describes: an object with the texts
    /// `category`, `code` and `message`, read in that order.
    pub open spec fn decode(json: JsonSpec) -> Result<ApiErrorView, DecoderErrorView> {
        match string_field(json, "category"@) {
            Err(e) => Err(e),
            Ok(category) => match string_field(json, "code"@) {
                Err(e) => Err(e),
                Ok(code) => match string_field(json, "message"@) {
                    Err(e) => Err(e),
                    Ok(message) => Ok(ApiErrorView { category, code, message }),
                },
            },
        }
    }
}

impl ApiError {
    /// Reads the error that a JSON document describes.
    pub fn decode(json: &JsonValue) -> (r: Result<ApiError, DecoderError>)
        ensures
            result_view(r) == ApiErrorView::decode(json.deep_view()),
    {
        let category = match get_string(json, "category") {
            Ok(v) => v,
            Err(e) => { return Err(e); },
        };
        let code = match get_string(json, "code") {
            Ok(v) => v,
            Err(e) => { return Err(e); },
        };
        let message = match get_string(json, "message") {
            Ok(v) => v,
            Err(e) => { return Err(e); },
        };
        Ok(ApiError { category, code, message })
    }

    pub fn get_category(&self) -> (r: String)
        ensures
            r@ == self.category@,
    {
        self.category.clone()
    }

    pub fn get_code(&self) -> (r: String)
        ensures
            r@ == self.code@,
    {
        self.code.clone()
    }

    pub fn get_message(&self) -> (r: String)
        ensures
            r@ == self.message@,
    {
        self.message.clone()
    }
}

/// Everything that can go wrong between a call of this library and its
/// result.
#[derive(Debug)]
pub enum CatapultError {
    /// A request body could not be written.
    EncoderError(String),
    /// The service answered, but not in the shape that was expected.
    DecoderError(DecoderError),
    /// No answer was obtained.
    NetworkError(String),
    /// The answer could not be read to its end.
    IoError(String),
    /// The service reported a failure.
    ApiError(ApiError),
    /// The address of the request is no URL.
    InvalidUrl,
    /// A field was read that a successful load had not filled.
    InternalError(String),
    /// The answer breaks the protocol.
    Unexpected(String),
    /// The caller asked for something that cannot be asked.
    BadInput(String),
    /// Bytes that should be text are not UTF-8.
    Utf8Error,
}

/// The mathematical value of a [`CatapultError`].
pub enum CatapultErrorView {
    EncoderError(Seq<char>),
    DecoderError(DecoderErrorView),
    NetworkError(Seq<char>),
    IoError(Seq<char>),
    ApiError(ApiErrorView),
    InvalidUrl,
    InternalError(Seq<char>),
    Unexpected(Seq<char>),
    BadInput(Seq<char>),
    Utf8Error,
}

impl DeepView for CatapultError {
    type V = CatapultErrorView;

    open spec fn deep_view(&self) -> CatapultErrorView {
        match self {
            CatapultError::EncoderError(m) => CatapultErrorView::EncoderError(m@),
            CatapultError::DecoderError(e) => CatapultErrorView::DecoderError(e.deep_view()),
            CatapultError::NetworkError(m) => CatapultErrorView::NetworkError(m@),
            CatapultError::IoError(m) => CatapultErrorView::IoError(m@),
            CatapultError::ApiError(e) => CatapultErrorView::ApiError(e.deep_view()),
            CatapultError::InvalidUrl => CatapultErrorView::InvalidUrl,
            CatapultError::InternalError(m) => CatapultErrorView::InternalError(m@),
            CatapultError::Unexpected(m) => CatapultErrorView::Unexpected(m@),
            CatapultError::BadInput(m) => CatapultErrorView::BadInput(m@),
            CatapultError::Utf8Error => CatapultErrorView::Utf8Error,
        }
    }
}

pub type CatapultResult<T> = Result<T, CatapultError>;

/// The error that the body of a failed response stands for: the service's
/// own report where the body is one, else the reason why it is none.
pub open spec fn api_error_of(body: Seq<char>) -> CatapultErrorView {
    match decode_text(body) {
        Err(e) => CatapultErrorView::DecoderError(e),
        Ok(json) => match ApiErrorView::decode(json) {
            Ok(report) => CatapultErrorView::ApiError(report),
            Err(e) => CatapultErrorView::DecoderError(e),
        },
    }
}

/// The error of a read of a field that a load should have filled.
pub open spec fn lazy_failure() -> CatapultErrorView {
    CatapultErrorView::InternalError("Lazy::get() failed"@)
}

impl CatapultError {
    /// The error that the body of a failed response stands for.
    pub fn api_error(msg: &str) -> (r: CatapultError)
        ensures
            r.deep_view() == api_error_of(msg@),
    {
        match JsonValue::from_str(msg) {
            Err(e) => CatapultError::DecoderError(e),
            Ok(json) => match ApiError::decode(&json) {
                Ok(report) => CatapultError::ApiError(report),
                Err(e) => CatapultError::DecoderError(e),
            },
        }
    }

    /// An answer that breaks the protocol, with the reason.
    pub fn unexpected(msg: &str) -> (r: CatapultError)
        ensures
            r.deep_view() == CatapultErrorView::Unexpected(msg@),
    {
        CatapultError::Unexpected(msg.to_owned())
    }

    /// A call that cannot be made, with the reason.
    pub fn bad_input(msg: &str) -> (r: CatapultError)
        ensures
            r.deep_view() == CatapultErrorView::BadInput(msg@),
    {
        CatapultError::BadInput(msg.to_owned())
    }
}

impl From<DecoderError> for CatapultError {
    fn from(err: DecoderError) -> (r: CatapultError) {
        CatapultError::DecoderError(err)
    }
}

impl FromSpecImpl<DecoderError> for CatapultError {
    open spec fn obeys_from_spec() -> bool {
        true
    }

    open spec fn from_spec(err: DecoderError) -> CatapultError {
        CatapultError::DecoderError(err)
    }
}

impl From<LazyError> for CatapultError {
    fn from(err: LazyError) -> (r: CatapultError)
        ensures
            r.deep_view() == lazy_failure(),
    {
        CatapultError::InternalError("Lazy::get() failed".to_owned())
    }
}

impl FromSpecImpl<LazyError> for CatapultError {
    open spec fn obeys_from_spec() -> bool {
        false
    }

    open spec fn from_spec(err: LazyError) -> CatapultError {
        arbitrary()
    }
}

} // verus!
