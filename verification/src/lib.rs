//! OAuth2 bearer-token lifecycle for the Twitch identity provider: token
//! entities with remaining-lifetime tracking and refresh, and the two
//! interactive authorization flows (authorization-code and implicit) with
//! CSRF-checked URL generation and grant exchange.
//!
//! The network transport is an injected capability: the library frames each
//! request as plain data, decides every outcome from plain response data, and
//! never performs I/O itself.

pub mod duration;
pub mod encode;
pub mod errors;
pub mod http;
pub mod token;
pub mod flow;

