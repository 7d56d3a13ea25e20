use vstd::prelude::*;

verus! {

/// API only for staff and teachers.
pub const APIP_URL: &'static str = "https://apip.ecoledirecte.com";

/// API for everyone else: students, parents, ...
pub const API_URL: &'static str = "https://api.ecoledirecte.com";

/// Protocol version sent as the `v` query parameter of every exchange.
pub const API_VERSION: &'static str = "7.2.3";

/// User agent sent with every exchange.
pub const USER_AGENT: &'static str = "Android EDMOBILE v7.2.3";

/// Password value sent in place of the real one when an access token is used.
pub const PASSWORD_SENTINEL: &'static str = "???";

/// Name of the anti-forgery cookie issued by the bootstrap exchange.
pub const GTK_COOKIE: &'static str = "GTK";

/// Path of the bootstrap exchange that issues the anti-forgery cookie.
pub const BOOTSTRAP_PATH: &'static str = "/v3/login.awp?gtk=1";

/// Path of the credential submission.
pub const LOGIN_PATH: &'static str = "/v3/login.awp";

/// Path of the exchange that fetches a second-factor challenge.
pub const CHALLENGE_GET_PATH: &'static str = "/v3/connexion/doubleauth.awp?verbe=get";

/// Path of the exchange that answers a second-factor challenge.
pub const CHALLENGE_POST_PATH: &'static str = "/v3/connexion/doubleauth.awp?verbe=post";

/// Status code: the login needs a solved second-factor challenge.
pub const CODE_NEEDS_SECOND_FACTOR: u32 = 250;

/// Status code: identifiers or tokens are incorrect.
pub const CODE_BAD_CREDENTIALS: u32 = 505;

/// Status code: the client version is outdated.
pub const CODE_INVALID_VERSION: u32 = 517;

/// Status code: the establishment is closed.
pub const CODE_ESTABLISHMENT_UNAVAILABLE: u32 = 535;

} // verus!
