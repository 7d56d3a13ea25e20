use pawdirecte::cookies::{cookie_header, extract_cookies, find_cookie};
use pawdirecte::models::{Account, Class, Profile, StudentProfile};
use pawdirecte::requests::{DoubleAuthSolveRequest, EmptyRequest, LoginRequest};
use pawdirecte::responses::{APIResponseWrap, DoubleAuthChallengeResponse, DoubleAuthSolveResponse, LoginResponse};
use pawdirecte::{Authentication, Error, LoginManager, Method, Request, RequestBuilder, RequestManager};

fn s(x: &str) -> String {
    x.to_string()
}

fn header<'a>(request: &'a Request, name: &str) -> Option<&'a str> {
    request.headers.iter().find(|(n, _)| n == name).map(|(_, v)| v.as_str())
}

fn form_document(request: &Request) -> String {
    let body = request.body.as_ref().expect("a body");
    let pairs: Vec<(String, String)> = serde_urlencoded::from_str(body).expect("a form body");
    assert_eq!(pairs.len(), 1);
    assert_eq!(pairs[0].0, "data");
    pairs[0].1.clone()
}

fn sample_account() -> Account {
    Account {
        id_login: 1,
        id: 2,
        uid: s("uid"),
        username: s("user"),
        kind: s("E"),
        ogec_code: s("ogec"),
        is_main: true,
        last_connection: s("2024-01-01"),
        civility: s(""),
        first_name: s("Ada"),
        prefix: s(""),
        last_name: s("Lovelace"),
        email: s("ada@example.org"),
        is_primary_school: false,
        school_name: s("School"),
        school_logo_path: s("/logo.png"),
        school_agenda_color_hex: s("#000000"),
        le_robert_online_dictionary: false,
        socket_token: s("socket"),
        access_token: s("fresh-token"),
        modules: vec![],
        individual_parameters: s(""),
        profile: Profile::Student(StudentProfile {
            gender: s("F"),
            timetable_information: s(""),
            school_name: s("School"),
            school_id: s("1"),
            school_rne: s("rne"),
            phone_number: s(""),
            school_real_id: s("1"),
            profile_picture_path: s(""),
            is_apprentice: false,
            class: Class { id: 3, code: s("6A"), label: s("Sixth A"), is_graded: 1 },
        }),
    }
}

fn login_reply(code: u32, token: Option<&str>, accounts: Vec<Account>) -> Option<APIResponseWrap<LoginResponse>> {
    Some(APIResponseWrap {
        code,
        token: token.map(s),
        message: None,
        data: LoginResponse { password_change: false, days_until_password_expires: 0, accounts },
    })
}

fn gtk_cookies() -> Vec<String> {
    vec![s("GTK=gtk-value; Path=/"), s("OTHER=1; HttpOnly")]
}

fn is_lower_hex(c: char) -> bool {
    c.is_ascii_digit() || ('a'..='f').contains(&c)
}

#[test]
fn generated_device_uuid_is_a_v4_uuid_and_stable() {
    let auth = Authentication::from_credentials(s("user"), s("pw"), None);
    let id = auth.device_uuid().clone();
    assert_eq!(id.len(), 36);
    for (i, c) in id.chars().enumerate() {
        if i == 8 || i == 13 || i == 18 || i == 23 {
            assert_eq!(c, '-');
        } else {
            assert!(is_lower_hex(c));
        }
    }
    assert_eq!(id.chars().nth(14), Some('4'));
    assert!(matches!(id.chars().nth(19), Some('8' | '9' | 'a' | 'b')));
    assert_eq!(auth.device_uuid(), &id);
    assert!(uuid::Uuid::parse_str(&id).is_ok());
    let manager = LoginManager::from_credentials(s("user"), s("pw"), None);
    assert_eq!(manager.authentication().device_uuid.len(), 36);
    assert_eq!(manager.authentication().device_uuid(), manager.authentication().device_uuid());
    assert!(manager.authentication().kind.is_none());
}

#[test]
fn supplied_device_uuid_is_kept() {
    let auth = Authentication::from_credentials(s("user"), s("pw"), Some(s("device-1")));
    assert_eq!(auth.device_uuid, "device-1");
    assert_eq!(auth.password, "pw");
    assert!(auth.token.is_none());
    assert!(auth.access_token.is_none());
}

#[test]
fn access_token_credentials_carry_the_sentinel() {
    let auth = Authentication::from_access_token(s("user"), s("tok"), s("E"), s("dev"));
    assert_eq!(auth.password, "???");
    assert_eq!(auth.access_token.as_deref(), Some("tok"));
    assert_eq!(auth.kind.as_deref(), Some("E"));
    assert_eq!(auth.device_uuid, "dev");
}

#[test]
fn cookies_are_extracted_in_order_skipping_malformed_ones() {
    let headers = vec![s("GTK=abc; Path=/"), s("garbage"), s("OTHER=1; HttpOnly")];
    let cookies = extract_cookies(&headers);
    assert_eq!(cookies.len(), 2);
    assert_eq!((cookies[0].name.as_str(), cookies[0].value.as_str()), ("GTK", "abc"));
    assert_eq!((cookies[1].name.as_str(), cookies[1].value.as_str()), ("OTHER", "1"));
    assert_eq!(find_cookie(&cookies, &s("GTK")), Some(s("abc")));
    assert_eq!(find_cookie(&cookies, &s("gtk")), None);
    assert_eq!(cookie_header(&cookies), "GTK=abc; OTHER=1");
}

#[test]
fn cookie_extraction_is_idempotent() {
    let headers = vec![s("A=1"), s("GTK=x; Secure"), s("=broken")];
    let first = extract_cookies(&headers);
    let second = extract_cookies(&headers);
    let view = |v: &Vec<pawdirecte::cookies::CookiePair>| {
        v.iter().map(|c| (c.name.clone(), c.value.clone())).collect::<Vec<_>>()
    };
    assert_eq!(view(&first), view(&second));
    assert_eq!(find_cookie(&first, &s("GTK")), find_cookie(&second, &s("GTK")));
    assert_eq!(cookie_header(&first), cookie_header(&second));
    assert_eq!(cookie_header(&first), "A=1; GTK=x");
}

#[test]
fn no_cookies_give_an_empty_header() {
    assert_eq!(cookie_header(&extract_cookies(&vec![])), "");
}

#[test]
fn bootstrap_exchange_is_versioned() {
    let manager = LoginManager::from_credentials(s("user"), s("pw"), Some(s("dev")));
    let request = manager.bootstrap_request().unwrap();
    assert_eq!(request.method, Method::Get);
    assert_eq!(request.url, "https://api.ecoledirecte.com/v3/login.awp?gtk=1&v=7.2.3");
    assert_eq!(request.headers, vec![(s("User-Agent"), s("Android EDMOBILE v7.2.3"))]);
    assert!(request.body.is_none());
}

#[test]
fn missing_anti_forgery_cookie_fails_the_login() {
    let mut manager = LoginManager::from_credentials(s("user"), s("pw"), Some(s("dev")));
    let result = manager.login_request(Some(s("boot")), &vec![s("OTHER=1")]);
    assert_eq!(result.unwrap_err(), Error::CookieGtkNotFound());
    assert_eq!(manager.authentication().token.as_deref(), Some("boot"));
    assert_eq!(manager.accounts().unwrap_err(), Error::WrongLoginState());
}

#[test]
fn password_submission_is_double_encoded() {
    let mut manager = LoginManager::from_credentials(s("user"), s("  pw  "), Some(s("dev")));
    let request = manager.login_request(None, &gtk_cookies()).unwrap();
    assert_eq!(request.method, Method::Post);
    assert_eq!(request.url, "https://api.ecoledirecte.com/v3/login.awp?v=7.2.3");
    assert_eq!(header(&request, "X-GTK"), Some("gtk-value"));
    assert_eq!(header(&request, "Cookie"), Some("GTK=gtk-value; OTHER=1"));
    assert_eq!(header(&request, "Content-Type"), Some("application/x-www-form-urlencoded"));
    assert_eq!(
        form_document(&request),
        r#"{"identifiant":"user","motdepasse":"pw","uuid":"dev","isReLogin":false,"sesouvenirdemoi":true}"#
    );
    assert!(request.body.as_ref().unwrap().starts_with("data=%7B%22identifiant%22"));
}

#[test]
fn access_token_submission_hides_the_password() {
    let mut manager = LoginManager::from_access_token(s("user"), s("tok"), s("E"), s("dev"));
    let form = manager.login_form();
    assert_eq!(form.password, "???");
    assert!(form.is_reauth);
    assert!(form.double_auth.is_none());
    let request = manager.login_request(None, &gtk_cookies()).unwrap();
    let document = form_document(&request);
    assert_eq!(document, r#"{"identifiant":"user","motdepasse":"???","uuid":"dev","isReLogin":true,"accesstoken":"tok"}"#);
    let value: serde_json::Value = serde_json::from_str(&document).unwrap();
    assert!(value.get("fa").is_none());
}

#[test]
fn bad_credentials_leave_the_cache_alone() {
    let mut manager = LoginManager::from_credentials(s("user"), s("pw"), Some(s("dev")));
    manager.login_request(None, &gtk_cookies()).unwrap();
    assert_eq!(manager.complete_login(login_reply(505, None, vec![])), Err(Error::BadCredentials()));
    assert_eq!(manager.accounts().unwrap_err(), Error::WrongLoginState());
    assert!(!manager.requires_2fa);
}

#[test]
fn bad_credentials_after_success_keep_previous_accounts() {
    let mut manager = LoginManager::from_credentials(s("user"), s("pw"), Some(s("dev")));
    manager.complete_login(login_reply(200, None, vec![sample_account()])).unwrap();
    assert_eq!(manager.complete_login(login_reply(505, None, vec![])), Err(Error::BadCredentials()));
    assert_eq!(manager.accounts().unwrap().len(), 1);
}

#[test]
fn other_status_codes_map_to_errors() {
    let mut manager = LoginManager::from_credentials(s("user"), s("pw"), Some(s("dev")));
    assert_eq!(manager.complete_login(login_reply(517, None, vec![])), Err(Error::InvalidVersion()));
    assert_eq!(manager.complete_login(login_reply(535, None, vec![])), Err(Error::EstablishmentUnavailable()));
    assert_eq!(manager.complete_login(None), Err(Error::JsonEncode()));
    assert_eq!(manager.finalize().unwrap_err(), Error::WrongLoginState());
}

#[test]
fn session_token_is_last_writer_wins() {
    let mut manager = LoginManager::from_credentials(s("user"), s("pw"), Some(s("dev")));
    manager.login_request(Some(s("first")), &gtk_cookies()).unwrap();
    assert_eq!(manager.authentication().token.as_deref(), Some("first"));
    manager.complete_login(login_reply(200, Some("second"), vec![])).unwrap();
    assert_eq!(manager.authentication().token.as_deref(), Some("second"));
    manager.complete_login(login_reply(200, None, vec![])).unwrap();
    assert_eq!(manager.authentication().token.as_deref(), Some("second"));
}

#[test]
fn challenge_needs_a_session_token() {
    let manager = LoginManager::from_credentials(s("user"), s("pw"), Some(s("dev")));
    assert_eq!(manager.challenge_request().unwrap_err(), Error::WrongLoginState());
    assert_eq!(manager.solve_request(&s("B")).unwrap_err(), Error::WrongLoginState());
}

#[test]
fn second_factor_round_trip() {
    let mut manager = LoginManager::from_credentials(s("user"), s("pw"), Some(s("dev")));
    manager.login_request(Some(s("t1")), &gtk_cookies()).unwrap();
    manager.complete_login(login_reply(250, Some("t2"), vec![])).unwrap();
    assert!(manager.requires_2fa);

    let fetch = manager.challenge_request().unwrap();
    assert_eq!(fetch.url, "https://api.ecoledirecte.com/v3/connexion/doubleauth.awp?verbe=get&v=7.2.3");
    assert_eq!(header(&fetch, "X-Token"), Some("t2"));
    assert_eq!(form_document(&fetch), "{}");
    let challenge = manager
        .accept_challenge(Some(APIResponseWrap {
            code: 200,
            token: Some(s("t3")),
            message: None,
            data: DoubleAuthChallengeResponse { question: s("Pick one"), answers: vec![s("A"), s("B")] },
        }))
        .unwrap();
    assert_eq!(challenge.answers, vec![s("A"), s("B")]);

    let solve = manager.solve_request(&s("B")).unwrap();
    assert_eq!(solve.url, "https://api.ecoledirecte.com/v3/connexion/doubleauth.awp?verbe=post&v=7.2.3");
    assert_eq!(header(&solve, "X-Token"), Some("t3"));
    assert_eq!(form_document(&solve), r#"{"choix":"Qg=="}"#);
    manager
        .accept_solution(Some(APIResponseWrap {
            code: 200,
            token: Some(s("t4")),
            message: None,
            data: DoubleAuthSolveResponse { name: s("cn-value"), value: s("cv-value") },
        }))
        .unwrap();
    assert!(manager.pending_double_auth().is_some());

    let retry = manager.login_request(None, &gtk_cookies()).unwrap();
    assert_eq!(
        form_document(&retry),
        r#"{"identifiant":"user","motdepasse":"pw","uuid":"dev","isReLogin":false,"sesouvenirdemoi":true,"fa":[{"cn":"cn-value","cv":"cv-value"}]}"#
    );
    assert!(manager.pending_double_auth().is_none());
    manager.complete_login(login_reply(200, Some("t5"), vec![sample_account()])).unwrap();
    assert!(!manager.requires_2fa);
    let accounts = manager.accounts().unwrap();
    assert_eq!(accounts.len(), 1);
    assert_eq!(accounts[0].access_token, "fresh-token");
    assert!(manager.pending_double_auth().is_none());

    let again = manager.login_request(None, &gtk_cookies()).unwrap();
    assert!(!form_document(&again).contains("\"fa\""));
}

#[test]
fn unsolved_challenge_resubmits_without_proof() {
    let mut manager = LoginManager::from_credentials(s("user"), s("pw"), Some(s("dev")));
    manager.login_request(None, &gtk_cookies()).unwrap();
    manager.complete_login(login_reply(250, Some("t"), vec![])).unwrap();
    let retry = manager.login_request(None, &gtk_cookies()).unwrap();
    assert!(!form_document(&retry).contains("\"fa\""));
    manager.complete_login(login_reply(250, None, vec![])).unwrap();
    assert!(manager.requires_2fa);
}

#[test]
fn undecodable_solution_keeps_no_proof() {
    let mut manager = LoginManager::from_credentials(s("user"), s("pw"), Some(s("dev")));
    assert_eq!(manager.accept_solution(None), Err(Error::JsonEncode()));
    assert!(manager.pending_double_auth().is_none());
    assert_eq!(manager.accept_challenge(None).unwrap_err(), Error::JsonEncode());
}

#[test]
fn invalid_header_values_are_refused() {
    let builder = RequestBuilder::new(Method::Post, "/x").unwrap();
    assert_eq!(builder.set_token("bad\nvalue").unwrap_err(), Error::HeaderValue());
    let builder = RequestBuilder::new(Method::Post, "/x").unwrap();
    assert!(builder.set_token("tab\tok ~").is_ok());
    let builder = RequestBuilder::new(Method::Post, "/x").unwrap();
    assert_eq!(builder.set_token("caf\u{e9}").unwrap_err(), Error::HeaderValue());
    let builder = RequestBuilder::new(Method::Post, "/x").unwrap();
    assert_eq!(builder.set_token("del\u{7f}").unwrap_err(), Error::HeaderValue());
    let mut manager = LoginManager::from_credentials(s("user"), s("pw"), Some(s("dev")));
    manager.complete_login(login_reply(200, Some("line\rbreak"), vec![])).unwrap();
    assert_eq!(manager.challenge_request().unwrap_err(), Error::HeaderValue());
}

#[test]
fn setting_a_header_again_replaces_it() {
    let builder = RequestBuilder::new(Method::Post, "/x").unwrap();
    let builder = builder.set_token("one").unwrap().set_header("X-GTK", "g").unwrap().set_token("two").unwrap();
    assert_eq!(
        builder.headers,
        vec![
            (s("User-Agent"), s("Android EDMOBILE v7.2.3")),
            (s("X-GTK"), s("g")),
            (s("X-Token"), s("two")),
        ]
    );
    let request = builder.set_form(s("{}")).build().unwrap();
    assert_eq!(request.headers.iter().filter(|(n, _)| n == "X-Token").count(), 1);
    assert_eq!(header(&request, "Content-Type"), Some("application/x-www-form-urlencoded"));
}

#[test]
fn unparsable_url_is_refused() {
    assert_eq!(RequestBuilder::new(Method::Get, ":x").unwrap_err(), Error::Url());
}

#[test]
fn non_ascii_anti_forgery_cookie_is_refused() {
    let mut manager = LoginManager::from_credentials(s("user"), s("pw"), Some(s("dev")));
    let result = manager.login_request(None, &vec![s("GTK=caf\u{e9}")]);
    assert_eq!(result.unwrap_err(), Error::HeaderValue());
}

#[test]
fn builder_without_form_has_no_body() {
    let request = RequestBuilder::new(Method::Get, "/a?b=c").unwrap().append_version().unwrap().build().unwrap();
    assert_eq!(request.url, "https://api.ecoledirecte.com/a?b=c&v=7.2.3");
    assert!(request.body.is_none());
    assert_eq!(request.headers.len(), 1);
}

#[test]
fn builder_form_is_url_encoded() {
    let request = RequestBuilder::new(Method::Post, "/a").unwrap().set_form(s("{\"k\":\"a b&c\"}")).build().unwrap();
    assert_eq!(request.body.as_deref(), Some("data=%7B%22k%22%3A%22a+b%26c%22%7D"));
    assert_eq!(request.url, "https://api.ecoledirecte.com/a");
}

#[test]
fn json_texts_are_escaped() {
    let request = LoginRequest {
        username: s("a\"b"),
        password: s("p\\w"),
        device_uuid: s("d"),
        is_reauth: false,
        remember_me: None,
        double_auth: None,
        account_type: Some(s("E")),
        access_token: None,
    };
    assert_eq!(
        request.to_json(),
        r#"{"identifiant":"a\"b","motdepasse":"p\\w","uuid":"d","isReLogin":false,"typeCompte":"E"}"#
    );
    assert_eq!(DoubleAuthSolveRequest { answer: s("Réponse") }.to_json(), r#"{"choix":"UsOpcG9uc2U="}"#);
    assert_eq!(EmptyRequest {}.to_json(), "{}");
}

#[test]
fn trimming_removes_outer_white_space() {
    let manager = LoginManager::from_credentials(s("user"), s("\t pw x \n"), Some(s("dev")));
    assert_eq!(manager.login_form().password, "pw x");
    let manager = LoginManager::from_credentials(s("user"), s(""), Some(s("dev")));
    assert_eq!(manager.login_form().password, "");
}

#[test]
fn request_manager_rotates_tokens() {
    let mut manager = RequestManager::new(Authentication::from_credentials(s("u"), s("p"), Some(s("d"))));
    manager.receive_token(Some(s("one")));
    manager.receive_token(None);
    assert_eq!(manager.authentication.token.as_deref(), Some("one"));
    manager.receive_token(Some(s("two")));
    assert_eq!(manager.authentication.token.as_deref(), Some("two"));
    assert_eq!(manager.authentication.username, "u");
}

#[test]
fn error_messages_describe_the_failure() {
    assert_eq!(Error::WrongLoginState().message(), "unauthenticated session");
    assert_eq!(Error::CookieGtkNotFound().message(), "GTK cookie not found, is EcoleDirecte up?");
}
