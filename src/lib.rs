//! Client-side session manager for the EcoleDirecte login handshake.
//!
//! The library prepares every exchange of the handshake (URL, headers and
//! body) and interprets every decoded response; a transport outside the
//! library sends the exchanges and decodes the response documents.

pub mod authentication;
pub mod constants;
pub mod cookies;
pub mod errors;
pub mod login_manager;
pub mod models;
pub mod request_manager;
pub mod requests;
pub mod responses;

pub use authentication::Authentication;
pub use errors::Error;
pub use login_manager::LoginManager;
pub use request_manager::{Method, Request, RequestBuilder, RequestManager};
