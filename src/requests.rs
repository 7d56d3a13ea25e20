use vstd::prelude::*;

use crate::responses::DoubleAuthSolveResponse;

verus! {

/// The JSON string literal that serde_json writes for a text.
pub uninterp spec fn json_string_of(s: Seq<char>) -> Seq<char>;

/// The JSON string literal that serde_json writes for the base64 (standard
/// alphabet, padded) encoding of a text's UTF-8 bytes, as serde_with's
/// `Base64` adapter produces it.
pub uninterp spec fn base64_json_string_of(s: Seq<char>) -> Seq<char>;

/// A text without its leading and trailing white space, as `str::trim` gives it.
pub uninterp spec fn trimmed_of(s: Seq<char>) -> Seq<char>;

/// Relies on serde_json::to_string on a `str`: the quoted, escaped JSON
/// string literal of the text. Writing a string into memory reports no error.
#[verifier::external_body]
fn json_string(s: &str) -> (r: String)
    ensures
        r@ == json_string_of(s@),
{
    serde_json::to_string(s).unwrap_or_default()
}

/// Relies on serde_with::base64::Base64 (through `SerializeAsWrap`) and
/// serde_json::to_string: the JSON string literal of the text's base64
/// encoding. The adapter serializes the encoded text as a string, and
/// writing a string into memory reports no error.
#[verifier::external_body]
fn base64_json_string(s: &String) -> (r: String)
    ensures
        r@ == base64_json_string_of(s@),
{
    serde_json::to_string(&serde_with::ser::SerializeAsWrap::<String, serde_with::base64::Base64>::new(s)).unwrap_or_default()
}

/// Relies on str::trim: the text without leading and trailing white space.
#[verifier::external_body]
pub(crate) fn trimmed(s: &str) -> (r: String)
    ensures
        r@ == trimmed_of(s@),
{
    s.trim().to_string()
}

/// `true` or `false` as JSON writes them.
pub open spec fn json_bool(b: bool) -> Seq<char> {
    if b {
        "true"@
    } else {
        "false"@
    }
}

/// The view of an optional text.
pub open spec fn opt_text(o: Option<String>) -> Option<Seq<char>> {
    match o {
        Some(s) => Some(s@),
        None => None,
    }
}

/// The view of an optional challenge proof.
pub open spec fn opt_proof(o: Option<DoubleAuthSolveResponse>) -> Option<(Seq<char>, Seq<char>)> {
    match o {
        Some(p) => Some((p.name@, p.value@)),
        None => None,
    }
}

/// A member `,"key":"value"` for a present text, nothing for an absent one.
pub open spec fn text_member(key: Seq<char>, value: Option<Seq<char>>) -> Seq<char> {
    match value {
        Some(v) => key + json_string_of(v),
        None => seq![],
    }
}

/// A member `,"key":bool` for a present flag, nothing for an absent one.
pub open spec fn bool_member(key: Seq<char>, value: Option<bool>) -> Seq<char> {
    match value {
        Some(b) => key + json_bool(b),
        None => seq![],
    }
}

/// The challenge member: a one-element list holding the proof pair.
pub open spec fn proof_member(pair: Option<(Seq<char>, Seq<char>)>) -> Seq<char> {
    match pair {
        Some(p) => {
            ",\"fa\":[{\"cn\":"@ + json_string_of(p.0) + ",\"cv\":"@ + json_string_of(p.1) + "}]"@
        },
        None => seq![],
    }
}

/// The JSON document of a login submission, members in declaration order,
/// absent optional members left out.
pub open spec fn login_document_of(
    username: Seq<char>,
    password: Seq<char>,
    device_uuid: Seq<char>,
    is_reauth: bool,
    remember_me: Option<bool>,
    double_auth: Option<(Seq<char>, Seq<char>)>,
    account_type: Option<Seq<char>>,
    access_token: Option<Seq<char>>,
) -> Seq<char> {
    "{\"identifiant\":"@ + json_string_of(username) + ",\"motdepasse\":"@ + json_string_of(password)
        + ",\"uuid\":"@ + json_string_of(device_uuid) + ",\"isReLogin\":"@ + json_bool(is_reauth)
        + bool_member(",\"sesouvenirdemoi\":"@, remember_me) + proof_member(double_auth)
        + text_member(",\"typeCompte\":"@, account_type) + text_member(",\"accesstoken\":"@, access_token)
        + "}"@
}

/// `key` followed by the JSON string literal of `value`.
fn text_piece(key: &str, value: &str) -> (r: String)
    ensures
        r@ == key@ + json_string_of(value@),
{
    let t = json_string(value);
    let mut out = String::from_str(key);
    out.append(t.as_str());
    out
}

/// The member for an optional text.
fn text_member_piece(key: &str, value: &Option<String>) -> (r: String)
    ensures
        r@ == text_member(key@, opt_text(*value)),
{
    match value {
        Some(v) => text_piece(key, v.as_str()),
        None => String::new(),
    }
}

/// The member for an optional flag.
fn bool_member_piece(key: &str, value: Option<bool>) -> (r: String)
    ensures
        r@ == bool_member(key@, value),
{
    match value {
        Some(b) => {
            let mut out = String::from_str(key);
            if b {
                out.append("true");
            } else {
                out.append("false");
            }
            out
        },
        None => String::new(),
    }
}

/// The member for an optional challenge proof.
fn proof_member_piece(value: &Option<DoubleAuthSolveResponse>) -> (r: String)
    ensures
        r@ == proof_member(opt_proof(*value)),
{
    match value {
        Some(p) => {
            let n = json_string(p.name.as_str());
            let v = json_string(p.value.as_str());
            let mut out = String::from_str(",\"fa\":[{\"cn\":");
            out.append(n.as_str());
            out.append(",\"cv\":");
            out.append(v.as_str());
            out.append("}]");
            out
        },
        None => String::new(),
    }
}

/// The body of a credential submission.
#[derive(Debug)]
pub struct LoginRequest {
    pub username: String,
    /// Exactly the sentinel `"???"` when an access token is provided.
    pub password: String,
    pub device_uuid: String,
    /// `true` only when authenticating with an access token.
    pub is_reauth: bool,
    pub remember_me: Option<bool>,
    /// The proof of a solved challenge, sent as a one-element list.
    pub double_auth: Option<DoubleAuthSolveResponse>,
    pub account_type: Option<String>,
    pub access_token: Option<String>,
}

/// The JSON document of a login submission.
pub open spec fn login_document(r: LoginRequest) -> Seq<char> {
    login_document_of(
        r.username@,
        r.password@,
        r.device_uuid@,
        r.is_reauth,
        r.remember_me,
        opt_proof(r.double_auth),
        opt_text(r.account_type),
        opt_text(r.access_token),
    )
}

impl LoginRequest {
    /// Encodes the submission as one JSON document.
    pub fn to_json(&self) -> (r: String)
        ensures
            r@ == login_document(*self),
    {
        let user = json_string(self.username.as_str());
        let password = json_string(self.password.as_str());
        let uuid = json_string(self.device_uuid.as_str());
        let remember = bool_member_piece(",\"sesouvenirdemoi\":", self.remember_me);
        let fa = proof_member_piece(&self.double_auth);
        let kind = text_member_piece(",\"typeCompte\":", &self.account_type);
        let token = text_member_piece(",\"accesstoken\":", &self.access_token);
        let mut out = String::from_str("{\"identifiant\":");
        out.append(user.as_str());
        out.append(",\"motdepasse\":");
        out.append(password.as_str());
        out.append(",\"uuid\":");
        out.append(uuid.as_str());
        out.append(",\"isReLogin\":");
        if self.is_reauth {
            out.append("true");
        } else {
            out.append("false");
        }
        out.append(remember.as_str());
        out.append(fa.as_str());
        out.append(kind.as_str());
        out.append(token.as_str());
        out.append("}");
        out
    }
}

/// The body of a challenge-solve exchange: the chosen answer.
#[derive(Debug)]
pub struct DoubleAuthSolveRequest {
    pub answer: String,
}

/// The JSON document of a challenge-solve exchange: the answer base64-encoded
/// under `choix`.
pub open spec fn solve_document(answer: Seq<char>) -> Seq<char> {
    "{\"choix\":"@ + base64_json_string_of(answer) + "}"@
}

impl DoubleAuthSolveRequest {
    /// Encodes the answer as one JSON document.
    pub fn to_json(&self) -> (r: String)
        ensures
            r@ == solve_document(self.answer@),
    {
        let t = base64_json_string(&self.answer);
        let mut out = String::from_str("{\"choix\":");
        out.append(t.as_str());
        out.append("}");
        out
    }
}

/// A body without members.
#[derive(Debug)]
pub struct EmptyRequest {}

impl EmptyRequest {
    /// The empty JSON object.
    pub fn to_json(&self) -> (r: String)
        ensures
            r@ == "{}"@,
    {
        String::from_str("{}")
    }
}

} // verus!
