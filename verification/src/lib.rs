//! A client for the Catapult telephony and messaging API that does no I/O of
//! its own. Every operation is split where the network stands: one function
//! makes the request, the caller sends it, and another function takes the
//! response and says what it means. The resources cache what they have
//! fetched field by field, ask for a load when a field is read that is not
//! there, and write back only what was set.

pub mod account;
pub mod application;
pub mod auth_token;
pub mod bridge;
pub mod call;
pub mod call_event;
pub mod client;
pub mod codec;
pub mod conference;
pub mod domain;
pub mod endpoint;
pub mod environment;
pub mod error;
pub mod http;
pub mod json;
pub mod lazy;
pub mod media;
pub mod message;
pub mod message_event;
pub mod number;
pub mod text;
pub mod util;
pub mod voice;

pub use account::Account;
pub use application::Application;
pub use auth_token::AuthToken;
pub use bridge::Bridge;
pub use call::Call;
pub use call_event::CallEvent;
pub use client::Client;
pub use conference::Conference;
pub use domain::Domain;
pub use endpoint::Endpoint;
pub use environment::Environment;
pub use error::CatapultError;
pub use error::CatapultResult;
pub use media::Media;
pub use message::Message;
pub use number::Number;
pub use voice::Voice;
