//! OAuth2-based federated login: a provider-agnostic handshake engine,
//! a per-provider store of single-use anti-forgery state tokens, and the
//! resolution of a verified external identity into a local `User` and
//! `Session`.

pub mod errors;
pub mod model;
pub mod numfmt;
pub mod oauth;
pub mod random;
pub mod session;
pub mod state;

pub use errors::FictError;
pub use model::User;
pub use session::Session;
pub use state::Shared;
