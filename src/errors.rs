use vstd::prelude::*;

verus! {

/// Every failure that a step of the handshake can report.
#[derive(Debug, Clone, Copy, PartialEq, Eq, Structural)]
pub enum Error {
    /// The operation needs a session that an earlier step has not set up yet.
    WrongLoginState(),
    /// The server refused the identifiers or the access token.
    BadCredentials(),
    /// The server asks for a newer client version.
    InvalidVersion(),
    /// The establishment is closed for maintenance.
    EstablishmentUnavailable(),
    /// The bootstrap response carried no `GTK` anti-forgery cookie.
    CookieGtkNotFound(),
    /// A header value holds a control or non-ASCII character.
    HeaderValue(),
    /// A response document could not be decoded.
    JsonEncode(),
    /// A request URL could not be built.
    Url(),
}

impl Error {
    /// A short description of the failure.
    pub fn message(&self) -> (r: &'static str) {
        match self {
            Error::WrongLoginState() => "unauthenticated session",
            Error::BadCredentials() => "identifiers or tokens are incorrect",
            Error::InvalidVersion() => "a newer version of EcoleDirecte is available",
            Error::EstablishmentUnavailable() => "establishment is closed, wait until it reopens",
            Error::CookieGtkNotFound() => "GTK cookie not found, is EcoleDirecte up?",
            Error::HeaderValue() => "invalid header value",
            Error::JsonEncode() => "the response could not be decoded",
            Error::Url() => "invalid request URL",
        }
    }
}

} // verus!
