use vstd::prelude::*;

use crate::constants::PASSWORD_SENTINEL;

verus! {

/// A lower-case hexadecimal digit.
pub open spec fn is_lower_hex(c: char) -> bool {
    ('0' <= c && c <= '9') || ('a' <= c && c <= 'f')
}

/// `s` is a UUID in hyphenated lower-case form: 8-4-4-4-12 hexadecimal digits.
pub open spec fn is_uuid_text(s: Seq<char>) -> bool {
    &&& s.len() == 36
    &&& forall|i: int|
        0 <= i < 36 ==> if i == 8 || i == 13 || i == 18 || i == 23 {
            #[trigger] s[i] == '-'
        } else {
            is_lower_hex(s[i])
        }
}

/// `s` is a version-4, RFC 4122 variant UUID in hyphenated lower-case form.
pub open spec fn is_v4_uuid_text(s: Seq<char>) -> bool {
    &&& is_uuid_text(s)
    &&& s[14] == '4'
    &&& (s[19] == '8' || s[19] == '9' || s[19] == 'a' || s[19] == 'b')
}

/// Relies on uuid::Uuid::new_v4 and its conversion into `String`: a random
/// version-4 UUID, written as 36 lower-case hyphenated characters.
#[verifier::external_body]
fn new_device_uuid() -> (r: String)
    ensures
        is_v4_uuid_text(r@),
{
    uuid::Uuid::new_v4().into()
}

/// The identity presented to the service.
#[derive(Debug, Clone)]
pub struct Authentication {
    /// The rotating session token, absent before the first exchange.
    pub token: Option<String>,
    pub username: String,
    /// The plain password, or the sentinel when an access token is used.
    pub password: String,
    /// Stable identifier of this device.
    pub device_uuid: String,
    /// A previously issued access token that replaces the password.
    pub access_token: Option<String>,
    /// Account kind, only meaningful with an access token.
    pub kind: Option<String>,
}

impl Authentication {
    /// Credentials from a username and a password. Without a device
    /// identifier a fresh random one is generated.
    pub fn from_credentials(username: String, password: String, device_uuid: Option<String>) -> (r: Self)
        ensures
            r.token is None,
            r.username == username,
            r.password == password,
            r.access_token is None,
            r.kind is None,
            match device_uuid {
                Some(d) => r.device_uuid == d,
                None => is_v4_uuid_text(r.device_uuid@),
            },
    {
        let device_uuid = match device_uuid {
            Some(d) => d,
            None => new_device_uuid(),
        };
        Authentication { token: None, username, password, device_uuid, access_token: None, kind: None }
    }

    /// Credentials from a saved access token, its account kind and the
    /// device identifier it was issued to. The password is the sentinel.
    pub fn from_access_token(username: String, access_token: String, kind: String, device_uuid: String) -> (r: Self)
        ensures
            r.token is None,
            r.username == username,
            r.password@ == PASSWORD_SENTINEL@,
            r.access_token == Some(access_token),
            r.kind == Some(kind),
            r.device_uuid == device_uuid,
    {
        Authentication {
            token: None,
            username,
            password: String::from_str(PASSWORD_SENTINEL),
            access_token: Some(access_token),
            device_uuid,
            kind: Some(kind),
        }
    }

    /// The device identifier; the same value on every read.
    pub fn device_uuid(&self) -> (r: &String)
        ensures
            r == &self.device_uuid,
    {
        &self.device_uuid
    }
}

} // verus!
