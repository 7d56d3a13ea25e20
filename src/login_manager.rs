use vstd::prelude::*;

use crate::authentication::{is_v4_uuid_text, Authentication};
use crate::constants::{
    BOOTSTRAP_PATH, CHALLENGE_GET_PATH, CHALLENGE_POST_PATH, CODE_BAD_CREDENTIALS,
    CODE_ESTABLISHMENT_UNAVAILABLE, CODE_INVALID_VERSION, CODE_NEEDS_SECOND_FACTOR, GTK_COOKIE, LOGIN_PATH,
    PASSWORD_SENTINEL, USER_AGENT,
};
use crate::cookies::{cookie_header, cookie_header_text, cookie_pairs, extract_cookies, find_cookie, first_value, texts};
use crate::errors::Error;
use crate::models::Account;
use crate::request_manager::{
    form_pair_of, header_views, lemma_with_new_header, rotated, valid_header_text, versioned_url, with_header, Method, Request, RequestBuilder, RequestManager,
};
use crate::requests::{
    login_document, login_document_of, opt_proof, solve_document, trimmed, trimmed_of, DoubleAuthSolveRequest,
    EmptyRequest, LoginRequest,
};
use crate::responses::{APIResponseWrap, DoubleAuthChallengeResponse, DoubleAuthSolveResponse, LoginResponse};

verus! {

/// The JSON document of the credential submission for `auth`. Password mode
/// sends the trimmed password, asks to be remembered and attaches the pending
/// challenge proof; access-token mode sends the token with the reauth flag,
/// the password sentinel and no challenge member.
pub open spec fn login_document_for(auth: Authentication, pending: Option<DoubleAuthSolveResponse>) -> Seq<char> {
    match auth.access_token {
        None => login_document_of(
            auth.username@,
            trimmed_of(auth.password@),
            auth.device_uuid@,
            false,
            Some(true),
            opt_proof(pending),
            None,
            None,
        ),
        Some(t) => login_document_of(
            auth.username@,
            PASSWORD_SENTINEL@,
            auth.device_uuid@,
            true,
            None,
            None,
            None,
            Some(t@),
        ),
    }
}

/// The error that an application status code stands for, if any.
pub open spec fn status_error(code: u32) -> Option<Error> {
    if code == CODE_BAD_CREDENTIALS {
        Some(Error::BadCredentials())
    } else if code == CODE_INVALID_VERSION {
        Some(Error::InvalidVersion())
    } else if code == CODE_ESTABLISHMENT_UNAVAILABLE {
        Some(Error::EstablishmentUnavailable())
    } else {
        None
    }
}

/// The rotating token that a decoded envelope carried, if any.
pub open spec fn envelope_token<T>(response: Option<APIResponseWrap<T>>) -> Option<String> {
    match response {
        Some(w) => w.token,
        None => None,
    }
}

/// `auth` with its session token replaced as `token` dictates.
pub open spec fn with_token(auth: Authentication, token: Option<String>) -> Authentication {
    Authentication { token: rotated(auth.token, token), ..auth }
}

/// The anti-forgery token among the cookies that `set_cookies` set.
pub open spec fn gtk_of(set_cookies: Seq<String>) -> Option<Seq<char>> {
    first_value(cookie_pairs(texts(set_cookies)), GTK_COOKIE@)
}

/// The `Cookie` header value that echoes every cookie of `set_cookies`.
pub open spec fn echoed_cookies(set_cookies: Seq<String>) -> Seq<char> {
    cookie_header_text(cookie_pairs(texts(set_cookies)))
}

/// In access-token mode the submitted document depends on the username, the
/// device identifier and the token alone: never on the password, which is
/// replaced by the sentinel, nor on a pending challenge proof, which is left
/// out together with the whole challenge member.
pub proof fn access_mode_hides_password(
    first: Authentication,
    second: Authentication,
    first_pending: Option<DoubleAuthSolveResponse>,
    second_pending: Option<DoubleAuthSolveResponse>,
)
    requires
        first.access_token matches Some(t) && second.access_token matches Some(u) && t@ == u@,
        first.username@ == second.username@,
        first.device_uuid@ == second.device_uuid@,
    ensures
        login_document_for(first, first_pending) == login_document_for(second, second_pending),
        login_document_for(first, first_pending) == login_document_of(
            first.username@,
            PASSWORD_SENTINEL@,
            first.device_uuid@,
            true,
            None,
            None,
            None,
            Some(first.access_token.unwrap()@),
        ),
{
}

/// Tokens rotate in call order: after two responses that both carry a
/// token, the session holds the second one.
pub proof fn later_token_wins(auth: Authentication, first: String, second: String)
    ensures
        with_token(with_token(auth, Some(first)), Some(second)).token == Some(second),
        with_token(with_token(auth, Some(first)), None).token == Some(first),
{
}

/// The device identifier, username and password never change with the
/// session token: every method that updates the credentials does so through
/// `with_token`, so the identifier read after any sequence of steps is the
/// one the session started with.
pub proof fn device_uuid_is_stable(auth: Authentication, token: Option<String>)
    ensures
        with_token(auth, token).device_uuid == auth.device_uuid,
        with_token(auth, token).username == auth.username,
        with_token(auth, token).password == auth.password,
        with_token(auth, token).access_token == auth.access_token,
{
}

/// Two bootstraps whose `Set-Cookie` header values read the same give the
/// same anti-forgery lookup and the same echoed cookies: either both find no
/// `GTK` cookie, or both find the same value.
pub proof fn anti_forgery_lookup_is_deterministic(first: Seq<String>, second: Seq<String>)
    requires
        texts(first) == texts(second),
    ensures
        gtk_of(first) == gtk_of(second),
        echoed_cookies(first) == echoed_cookies(second),
        gtk_of(first) is None || (gtk_of(first) matches Some(g) && gtk_of(second) == Some(g)),
{
}

/// The headers of the credential submission, in order.
proof fn lemma_login_headers(gtk: Seq<char>, cookies: Seq<char>)
    ensures
        with_header(
            with_header(with_header(seq![("User-Agent"@, USER_AGENT@)], "X-GTK"@, gtk), "Cookie"@, cookies),
            "Content-Type"@,
            "application/x-www-form-urlencoded"@,
        ) == seq![
            ("User-Agent"@, USER_AGENT@),
            ("X-GTK"@, gtk),
            ("Cookie"@, cookies),
            ("Content-Type"@, "application/x-www-form-urlencoded"@),
        ],
{
    reveal_strlit("User-Agent");
    reveal_strlit("X-GTK");
    reveal_strlit("Cookie");
    reveal_strlit("Content-Type");
    let h1 = seq![("User-Agent"@, USER_AGENT@)];
    assert(h1[0].0 != "X-GTK"@) by {
        assert(h1[0].0.len() != "X-GTK"@.len());
    }
    lemma_with_new_header(h1, "X-GTK"@, gtk);
    let h2 = h1.push(("X-GTK"@, gtk));
    assert forall|i: int| 0 <= i < h2.len() implies #[trigger] h2[i].0 != "Cookie"@ by {
        assert(h2[i].0.len() != "Cookie"@.len());
    }
    lemma_with_new_header(h2, "Cookie"@, cookies);
    let h3 = h2.push(("Cookie"@, cookies));
    assert forall|i: int| 0 <= i < h3.len() implies #[trigger] h3[i].0 != "Content-Type"@ by {
        assert(h3[i].0.len() != "Content-Type"@.len());
    }
    lemma_with_new_header(h3, "Content-Type"@, "application/x-www-form-urlencoded"@);
    assert(h3.push(("Content-Type"@, "application/x-www-form-urlencoded"@)) =~= seq![
        ("User-Agent"@, USER_AGENT@),
        ("X-GTK"@, gtk),
        ("Cookie"@, cookies),
        ("Content-Type"@, "application/x-www-form-urlencoded"@),
    ]);
}

/// The headers of an exchange that carries the session token, in order.
proof fn lemma_token_headers(token: Seq<char>)
    ensures
        with_header(
            with_header(seq![("User-Agent"@, USER_AGENT@)], "X-Token"@, token),
            "Content-Type"@,
            "application/x-www-form-urlencoded"@,
        ) == seq![
            ("User-Agent"@, USER_AGENT@),
            ("X-Token"@, token),
            ("Content-Type"@, "application/x-www-form-urlencoded"@),
        ],
{
    reveal_strlit("User-Agent");
    reveal_strlit("X-Token");
    reveal_strlit("Content-Type");
    let h1 = seq![("User-Agent"@, USER_AGENT@)];
    assert(h1[0].0 != "X-Token"@) by {
        assert(h1[0].0.len() != "X-Token"@.len());
    }
    lemma_with_new_header(h1, "X-Token"@, token);
    let h2 = h1.push(("X-Token"@, token));
    assert forall|i: int| 0 <= i < h2.len() implies #[trigger] h2[i].0 != "Content-Type"@ by {
        assert(h2[i].0.len() != "Content-Type"@.len());
    }
    lemma_with_new_header(h2, "Content-Type"@, "application/x-www-form-urlencoded"@);
    assert(h2.push(("Content-Type"@, "application/x-www-form-urlencoded"@)) =~= seq![
        ("User-Agent"@, USER_AGENT@),
        ("X-Token"@, token),
        ("Content-Type"@, "application/x-www-form-urlencoded"@),
    ]);
}

/// A copy of an optional challenge proof.
fn copy_proof(p: &Option<DoubleAuthSolveResponse>) -> (r: Option<DoubleAuthSolveResponse>)
    ensures
        opt_proof(r) == opt_proof(*p),
{
    match p {
        Some(p) => Some(DoubleAuthSolveResponse { name: p.name.clone(), value: p.value.clone() }),
        None => None,
    }
}

/// Drives the login handshake: bootstrap, credential submission, and the
/// optional second-factor challenge. Each step that talks to the server is
/// split in two: one method prepares the exchange, another takes the
/// decoded response (`None` where it could not be decoded).
#[derive(Debug)]
pub struct LoginManager {
    /// Set when the last submission answered that a second factor is needed.
    pub requires_2fa: bool,
    login_response: Option<LoginResponse>,
    request_manager: RequestManager,
    double_auth: Option<DoubleAuthSolveResponse>,
}

impl LoginManager {
    /// The credentials of this session.
    pub closed spec fn auth(&self) -> Authentication {
        self.request_manager.authentication
    }

    /// Whether the last submission asked for a second factor.
    pub closed spec fn needs_second_factor(&self) -> bool {
        self.requires_2fa
    }

    /// The last successful login response.
    pub closed spec fn cached_response(&self) -> Option<LoginResponse> {
        self.login_response
    }

    /// The proof of a solved challenge that the next submission will carry.
    pub closed spec fn pending_proof(&self) -> Option<DoubleAuthSolveResponse> {
        self.double_auth
    }

    /// A session for a username and a password; without a device
    /// identifier a fresh random one is generated.
    pub fn from_credentials(username: String, password: String, device_uuid: Option<String>) -> (r: Self)
        ensures
            r.auth().token is None,
            r.auth().username == username,
            r.auth().password == password,
            r.auth().access_token is None,
            r.auth().kind is None,
            match device_uuid {
                Some(d) => r.auth().device_uuid == d,
                None => is_v4_uuid_text(r.auth().device_uuid@),
            },
            !r.needs_second_factor(),
            r.cached_response() is None,
            r.pending_proof() is None,
    {
        let authentication = Authentication::from_credentials(username, password, device_uuid);
        LoginManager {
            requires_2fa: false,
            login_response: None,
            request_manager: RequestManager::new(authentication),
            double_auth: None,
        }
    }

    /// A session that re-authenticates with a saved access token.
    pub fn from_access_token(username: String, access_token: String, kind: String, device_uuid: String) -> (r: Self)
        ensures
            r.auth().token is None,
            r.auth().username == username,
            r.auth().password@ == PASSWORD_SENTINEL@,
            r.auth().access_token == Some(access_token),
            r.auth().kind == Some(kind),
            r.auth().device_uuid == device_uuid,
            !r.needs_second_factor(),
            r.cached_response() is None,
            r.pending_proof() is None,
    {
        let authentication = Authentication::from_access_token(username, access_token, kind, device_uuid);
        LoginManager {
            requires_2fa: false,
            login_response: None,
            request_manager: RequestManager::new(authentication),
            double_auth: None,
        }
    }

    /// The credentials of this session.
    pub fn authentication(&self) -> (r: &Authentication)
        ensures
            *r == self.auth(),
    {
        &self.request_manager.authentication
    }

    /// The proof of a solved challenge that the next submission will carry.
    pub fn pending_double_auth(&self) -> (r: &Option<DoubleAuthSolveResponse>)
        ensures
            *r == self.pending_proof(),
    {
        &self.double_auth
    }

    /// The body of the credential submission, in the mode that the
    /// credentials select.
    pub fn login_form(&self) -> (r: LoginRequest)
        ensures
            login_document(r) == login_document_for(self.auth(), self.pending_proof()),
            self.auth().access_token is Some ==> {
                &&& r.password@ == PASSWORD_SENTINEL@
                &&& r.is_reauth
                &&& r.double_auth is None
            },
    {
        let auth = &self.request_manager.authentication;
        match &auth.access_token {
            None => LoginRequest {
                username: auth.username.clone(),
                password: trimmed(auth.password.as_str()),
                device_uuid: auth.device_uuid.clone(),
                is_reauth: false,
                remember_me: Some(true),
                double_auth: copy_proof(&self.double_auth),
                account_type: None,
                access_token: None,
            },
            Some(t) => LoginRequest {
                username: auth.username.clone(),
                password: String::from_str(PASSWORD_SENTINEL),
                device_uuid: auth.device_uuid.clone(),
                is_reauth: true,
                remember_me: None,
                double_auth: None,
                account_type: None,
                access_token: Some(t.clone()),
            },
        }
    }

    /// Step one of a login: the bootstrap exchange that issues fresh cookies.
    pub fn bootstrap_request(&self) -> (r: Result<Request, Error>)
        ensures
            r is Ok <==> versioned_url(BOOTSTRAP_PATH@) is Some,
            r matches Ok(q) ==> {
                &&& q.method == Method::Get
                &&& versioned_url(BOOTSTRAP_PATH@) == Some(q.url@)
                &&& header_views(q.headers@) == seq![("User-Agent"@, USER_AGENT@)]
                &&& q.body is None
            },
            r matches Err(e) ==> e == Error::Url(),
    {
        let builder = RequestBuilder::new(Method::Get, BOOTSTRAP_PATH)?;
        let builder = builder.append_version()?;
        builder.build()
    }

    /// Step two of a login: takes the bootstrap response (its envelope's
    /// token and its `Set-Cookie` header values) and prepares the credential
    /// submission. It carries the `GTK` cookie in `X-GTK`, every received
    /// cookie in `Cookie`, and the body for the credentials' mode. The
    /// pending challenge proof is used up by this call, whatever its outcome.
    pub fn login_request(&mut self, bootstrap_token: Option<String>, set_cookies: &Vec<String>) -> (r: Result<
        Request,
        Error,
    >)
        ensures
            final(self).auth() == with_token(old(self).auth(), bootstrap_token),
            final(self).pending_proof() is None,
            final(self).needs_second_factor() == old(self).needs_second_factor(),
            final(self).cached_response() == old(self).cached_response(),
            gtk_of(set_cookies@) is None ==> r == Err::<Request, Error>(Error::CookieGtkNotFound()),
            gtk_of(set_cookies@) matches Some(g) ==> {
                &&& versioned_url(LOGIN_PATH@) is None ==> r == Err::<Request, Error>(Error::Url())
                &&& versioned_url(LOGIN_PATH@) is Some && !(valid_header_text(g) && valid_header_text(
                    echoed_cookies(set_cookies@),
                )) ==> r == Err::<Request, Error>(Error::HeaderValue())
                &&& versioned_url(LOGIN_PATH@) is Some && valid_header_text(g) && valid_header_text(
                    echoed_cookies(set_cookies@),
                ) ==> r is Ok
            },
            r matches Ok(q) ==> {
                &&& gtk_of(set_cookies@) matches Some(g)
                &&& q.method == Method::Post
                &&& versioned_url(LOGIN_PATH@) == Some(q.url@)
                &&& header_views(q.headers@) == seq![
                    ("User-Agent"@, USER_AGENT@),
                    ("X-GTK"@, g),
                    ("Cookie"@, echoed_cookies(set_cookies@)),
                    ("Content-Type"@, "application/x-www-form-urlencoded"@),
                ]
                &&& q.body is Some
                &&& q.body.unwrap()@ == form_pair_of(
                    "data"@,
                    login_document_for(old(self).auth(), old(self).pending_proof()),
                )
            },
    {
        let form = self.login_form();
        self.double_auth = None;
        self.request_manager.receive_token(bootstrap_token);
        let cookies = extract_cookies(set_cookies);
        let gtk_name = String::from_str(GTK_COOKIE);
        let gtk = match find_cookie(&cookies, &gtk_name) {
            Some(g) => g,
            None => return Err(Error::CookieGtkNotFound()),
        };
        let echoed = cookie_header(&cookies);
        let document = form.to_json();
        let builder = RequestBuilder::new(Method::Post, LOGIN_PATH)?;
        let builder = builder.append_version()?;
        let builder = builder.set_form(document);
        let builder = builder.set_header("X-GTK", gtk.as_str())?;
        let builder = builder.set_header("Cookie", echoed.as_str())?;
        proof {
            lemma_login_headers(gtk@, echoed@);
        }
        builder.build()
    }

    /// Step three of a login: takes the decoded submission response. A bad
    /// credentials, outdated version or closed establishment code is an
    /// error that leaves the session as it was; any other code is success,
    /// caches the response and records whether a second factor is needed.
    /// An undecodable response is `JsonEncode`.
    pub fn complete_login(&mut self, response: Option<APIResponseWrap<LoginResponse>>) -> (r: Result<(), Error>)
        ensures
            final(self).auth() == with_token(old(self).auth(), envelope_token(response)),
            final(self).pending_proof() == old(self).pending_proof(),
            match response {
                None => {
                    &&& r == Err::<(), Error>(Error::JsonEncode())
                    &&& final(self).needs_second_factor() == old(self).needs_second_factor()
                    &&& final(self).cached_response() == old(self).cached_response()
                },
                Some(w) => match status_error(w.code) {
                    Some(e) => {
                        &&& r == Err::<(), Error>(e)
                        &&& final(self).needs_second_factor() == old(self).needs_second_factor()
                        &&& final(self).cached_response() == old(self).cached_response()
                    },
                    None => {
                        &&& r is Ok
                        &&& final(self).needs_second_factor() == (w.code == CODE_NEEDS_SECOND_FACTOR)
                        &&& final(self).cached_response() == Some(w.data)
                    },
                },
            },
    {
        match response {
            None => Err(Error::JsonEncode()),
            Some(w) => {
                self.request_manager.receive_token(w.token);
                if w.code == CODE_BAD_CREDENTIALS {
                    Err(Error::BadCredentials())
                } else if w.code == CODE_INVALID_VERSION {
                    Err(Error::InvalidVersion())
                } else if w.code == CODE_ESTABLISHMENT_UNAVAILABLE {
                    Err(Error::EstablishmentUnavailable())
                } else {
                    self.requires_2fa = w.code == CODE_NEEDS_SECOND_FACTOR;
                    self.login_response = Some(w.data);
                    Ok(())
                }
            },
        }
    }

    /// Prepares the exchange that fetches the second-factor challenge; it
    /// needs the session token of an earlier exchange.
    pub fn challenge_request(&self) -> (r: Result<Request, Error>)
        ensures
            self.auth().token is None ==> r == Err::<Request, Error>(Error::WrongLoginState()),
            self.auth().token matches Some(t) ==> {
                &&& versioned_url(CHALLENGE_GET_PATH@) is None ==> r == Err::<Request, Error>(Error::Url())
                &&& versioned_url(CHALLENGE_GET_PATH@) is Some && !valid_header_text(t@) ==> r == Err::<
                    Request,
                    Error,
                >(Error::HeaderValue())
                &&& versioned_url(CHALLENGE_GET_PATH@) is Some && valid_header_text(t@) ==> r is Ok
            },
            r matches Ok(q) ==> {
                &&& self.auth().token matches Some(t)
                &&& q.method == Method::Post
                &&& versioned_url(CHALLENGE_GET_PATH@) == Some(q.url@)
                &&& header_views(q.headers@) == seq![
                    ("User-Agent"@, USER_AGENT@),
                    ("X-Token"@, t@),
                    ("Content-Type"@, "application/x-www-form-urlencoded"@),
                ]
                &&& q.body is Some
                &&& q.body.unwrap()@ == form_pair_of("data"@, "{}"@)
            },
    {
        let token = match &self.request_manager.authentication.token {
            Some(t) => t,
            None => return Err(Error::WrongLoginState()),
        };
        let builder = RequestBuilder::new(Method::Post, CHALLENGE_GET_PATH)?;
        let builder = builder.append_version()?;
        let builder = builder.set_token(token.as_str())?;
        let builder = builder.set_form(EmptyRequest {  }.to_json());
        proof {
            lemma_token_headers(token@);
        }
        builder.build()
    }

    /// Takes the decoded challenge response: the question and the candidate
    /// answers. An undecodable response is `JsonEncode`.
    pub fn accept_challenge(&mut self, response: Option<APIResponseWrap<DoubleAuthChallengeResponse>>) -> (r: Result<
        DoubleAuthChallengeResponse,
        Error,
    >)
        ensures
            final(self).auth() == with_token(old(self).auth(), envelope_token(response)),
            final(self).pending_proof() == old(self).pending_proof(),
            final(self).needs_second_factor() == old(self).needs_second_factor(),
            final(self).cached_response() == old(self).cached_response(),
            match response {
                None => r == Err::<DoubleAuthChallengeResponse, Error>(Error::JsonEncode()),
                Some(w) => r == Ok::<DoubleAuthChallengeResponse, Error>(w.data),
            },
    {
        match response {
            None => Err(Error::JsonEncode()),
            Some(w) => {
                self.request_manager.receive_token(w.token);
                Ok(w.data)
            },
        }
    }

    /// Prepares the exchange that answers the challenge with `answer`,
    /// base64-encoded; it needs the session token of an earlier exchange.
    pub fn solve_request(&self, answer: &String) -> (r: Result<Request, Error>)
        ensures
            self.auth().token is None ==> r == Err::<Request, Error>(Error::WrongLoginState()),
            self.auth().token matches Some(t) ==> {
                &&& versioned_url(CHALLENGE_POST_PATH@) is None ==> r == Err::<Request, Error>(Error::Url())
                &&& versioned_url(CHALLENGE_POST_PATH@) is Some && !valid_header_text(t@) ==> r == Err::<
                    Request,
                    Error,
                >(Error::HeaderValue())
                &&& versioned_url(CHALLENGE_POST_PATH@) is Some && valid_header_text(t@) ==> r is Ok
            },
            r matches Ok(q) ==> {
                &&& self.auth().token matches Some(t)
                &&& q.method == Method::Post
                &&& versioned_url(CHALLENGE_POST_PATH@) == Some(q.url@)
                &&& header_views(q.headers@) == seq![
                    ("User-Agent"@, USER_AGENT@),
                    ("X-Token"@, t@),
                    ("Content-Type"@, "application/x-www-form-urlencoded"@),
                ]
                &&& q.body is Some
                &&& q.body.unwrap()@ == form_pair_of("data"@, solve_document(answer@))
            },
    {
        let token = match &self.request_manager.authentication.token {
            Some(t) => t,
            None => return Err(Error::WrongLoginState()),
        };
        let request = DoubleAuthSolveRequest { answer: answer.clone() };
        let builder = RequestBuilder::new(Method::Post, CHALLENGE_POST_PATH)?;
        let builder = builder.append_version()?;
        let builder = builder.set_token(token.as_str())?;
        let builder = builder.set_form(request.to_json());
        proof {
            lemma_token_headers(token@);
        }
        builder.build()
    }

    /// Takes the decoded answer response and keeps its proof for the next
    /// submission only. An undecodable response is `JsonEncode` and keeps
    /// no proof.
    pub fn accept_solution(&mut self, response: Option<APIResponseWrap<DoubleAuthSolveResponse>>) -> (r: Result<
        (),
        Error,
    >)
        ensures
            final(self).auth() == with_token(old(self).auth(), envelope_token(response)),
            final(self).needs_second_factor() == old(self).needs_second_factor(),
            final(self).cached_response() == old(self).cached_response(),
            match response {
                None => r == Err::<(), Error>(Error::JsonEncode()) && final(self).pending_proof()
                    == old(self).pending_proof(),
                Some(w) => r is Ok && final(self).pending_proof() == Some(w.data),
            },
    {
        match response {
            None => Err(Error::JsonEncode()),
            Some(w) => {
                self.request_manager.receive_token(w.token);
                self.double_auth = Some(w.data);
                Ok(())
            },
        }
    }

    /// The accounts of the last successful login.
    pub fn accounts(&self) -> (r: Result<Vec<Account>, Error>)
        ensures
            match self.cached_response() {
                None => r == Err::<Vec<Account>, Error>(Error::WrongLoginState()),
                Some(l) => r matches Ok(v) && v@.len() == l.accounts@.len() && forall|i: int|
                    0 <= i < v@.len() ==> cloned::<Account>(l.accounts@[i], #[trigger] v@[i]),
            },
    {
        match &self.login_response {
            Some(l) => Ok(l.accounts.clone()),
            None => Err(Error::WrongLoginState()),
        }
    }

    /// The accounts of the last successful login; the same as `accounts`.
    pub fn finalize(&self) -> (r: Result<Vec<Account>, Error>)
        ensures
            match self.cached_response() {
                None => r == Err::<Vec<Account>, Error>(Error::WrongLoginState()),
                Some(l) => r matches Ok(v) && v@.len() == l.accounts@.len() && forall|i: int|
                    0 <= i < v@.len() ==> cloned::<Account>(l.accounts@[i], #[trigger] v@[i]),
            },
    {
        self.accounts()
    }
}

} // verus!
