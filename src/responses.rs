use vstd::prelude::*;

use crate::models::Account;

verus! {

/// The uniform envelope around every response document.
#[derive(Debug)]
pub struct APIResponseWrap<T> {
    /// Application status code.
    pub code: u32,
    /// The rotating session token, when the server issued one.
    pub token: Option<String>,
    pub message: Option<String>,
    /// The step-specific payload.
    pub data: T,
}

/// Payload of the credential-submission exchange.
#[derive(Debug)]
pub struct LoginResponse {
    pub password_change: bool,
    pub days_until_password_expires: u32,
    pub accounts: Vec<Account>,
}

/// Payload of the challenge-fetch exchange, its texts already decoded.
#[derive(Debug)]
pub struct DoubleAuthChallengeResponse {
    pub question: String,
    pub answers: Vec<String>,
}

/// Payload of the challenge-solve exchange: the proof to replay on the
/// next login submission.
#[derive(Debug, Clone)]
pub struct DoubleAuthSolveResponse {
    pub name: String,
    pub value: String,
}

} // verus!
