//! The token verifier: validates a bearer credential against the shared
//! secret.
//!
//! Verification is pure: a function of credential and secret alone, except
//! that the token decoder's default validation also reads the clock (it
//! checks the `exp` claim). An empty secret disables authentication
//! entirely — an operational escape hatch the process must warn about at
//! startup.

use vstd::prelude::*;
use vstd::string::*;

verus! {

/// Why a credential was refused.
pub enum AuthError {
    /// No credential was presented.
    MissingCredential,
    /// The credential does not have the `<scheme> <token>` shape.
    MalformedCredential,
    /// The token failed signature or structural validation; carries the
    /// decoder's message for logging.
    InvalidCredential(String),
}

/// The human-readable message a refusal carries into the answer body.
pub open spec fn auth_error_message(e: AuthError) -> Seq<char> {
    match e {
        AuthError::MissingCredential => "JWT is required"@,
        AuthError::MalformedCredential => "Missing or invalid JWT (Bearer)"@,
        AuthError::InvalidCredential(m) => m@,
    }
}

impl AuthError {
    /// Renders the refusal for the answer body.
    pub fn message(self) -> (m: String)
        ensures
            m@ == auth_error_message(self),
    {
        match self {
            AuthError::MissingCredential => "JWT is required".to_owned(),
            AuthError::MalformedCredential => "Missing or invalid JWT (Bearer)".to_owned(),
            AuthError::InvalidCredential(m) => m,
        }
    }
}

/// The position of the first space at or after `i`, or the length when
/// there is none.
pub open spec fn space_index_from(s: Seq<char>, i: int) -> int
    decreases s.len() - i
        when 0 <= i <= s.len()
{
    if i >= s.len() {
        s.len() as int
    } else if s[i] == ' ' {
        i
    } else {
        space_index_from(s, i + 1)
    }
}

/// The token inside a `<scheme> <token>` credential: the second
/// space-separated field, `None` when the credential holds no space at
/// all.
pub open spec fn credential_token(s: Seq<char>) -> Option<Seq<char>> {
    let a = space_index_from(s, 0);
    if a == s.len() {
        Option::None
    } else {
        Option::Some(s.subrange(a + 1, space_index_from(s, a + 1)))
    }
}

fn find_space(s: &str, from: usize) -> (r: usize)
    requires
        from <= s@.len(),
    ensures
        from <= r <= s@.len(),
        r as int == space_index_from(s@, from as int),
    decreases s@.len() - from,
{
    if from == s.unicode_len() {
        return from;
    }
    if s.get_char(from) == ' ' {
        return from;
    }
    find_space(s, from + 1)
}

/// Splits the token out of a `<scheme> <token>` credential.
pub fn extract_bearer_token(credential: &str) -> (r: Option<String>)
    ensures
        match r {
            Option::Some(t) => credential_token(credential@) == Option::Some(t@),
            Option::None => credential_token(credential@) is None,
        },
{
    let len = credential.unicode_len();
    let a = find_space(credential, 0);
    if a == len {
        return None;
    }
    let b = find_space(credential, a + 1);
    let t = credential.substring_char(a + 1, b);
    Some(t.to_owned())
}

/// Relies on `jsonwebtoken::decode` under the shared secret with default
/// validation (HS256; `exp` required and checked against the clock, so the
/// outcome is not a function of the arguments alone), and on
/// `serde_json::Value::get` to require the claims `origin` and `gendate`
/// as strings. The error carries the decoder's message.
#[verifier::external_body]
fn decode_token(token: &str, secret: &str) -> (r: Result<(), String>) {
    let key = jsonwebtoken::DecodingKey::from_secret(secret.as_bytes());
    let validation = jsonwebtoken::Validation::default();
    let data = match jsonwebtoken::decode::<serde_json::Value>(token, &key, &validation) {
        Ok(data) => data,
        Err(e) => return Err(e.to_string()),
    };
    let origin = data.claims.get("origin").and_then(|v| v.as_str());
    let gendate = data.claims.get("gendate").and_then(|v| v.as_str());
    match (origin, gendate) {
        (Some(_), Some(_)) => Ok(()),
        _ => Err("missing claim".to_string()),
    }
}

/// Maps the decoder's outcome into the verifier's: `Ok` exactly on `Ok`,
/// otherwise `InvalidCredential` carrying the decoder's message.
pub fn decode_outcome(outcome: Result<(), String>) -> (r: Result<(), AuthError>)
    ensures
        outcome is Ok ==> r == Result::<(), AuthError>::Ok(()),
        outcome matches Err(m) ==> (r matches Result::Err(AuthError::InvalidCredential(m2))
            && m2 == m),
{
    match outcome {
        Ok(()) => Ok(()),
        Err(m) => Err(AuthError::InvalidCredential(m)),
    }
}

/// The credential as the verifier sees it.
pub open spec fn cred_view(c: Option<&str>) -> Option<Seq<char>> {
    match c {
        Option::Some(s) => Option::Some(s@),
        Option::None => Option::None,
    }
}

/// The inputs on which verification never reaches the token decoder, so
/// its outcome is a pure function of credential and secret.
pub open spec fn auth_determined(credential: Option<Seq<char>>, secret: Seq<char>) -> bool {
    secret.len() == 0 || match credential {
        Option::None => true,
        Option::Some(c) => credential_token(c) is None,
    }
}

/// The outcome on those inputs.
pub open spec fn determined_outcome(credential: Option<Seq<char>>, secret: Seq<char>) -> Result<
    (),
    AuthError,
> {
    if secret.len() == 0 {
        Result::Ok(())
    } else if credential is None {
        Result::Err(AuthError::MissingCredential)
    } else {
        Result::Err(AuthError::MalformedCredential)
    }
}

/// Everything the verifier promises of its result: an empty secret always
/// passes; otherwise an absent credential is missing, one without a second
/// field is malformed, and one with a token either passes the decoder or
/// is invalid with the decoder's message.
pub open spec fn verify_auth_post(
    credential: Option<Seq<char>>,
    secret: Seq<char>,
    r: Result<(), AuthError>,
) -> bool {
    if secret.len() == 0 {
        r == Result::<(), AuthError>::Ok(())
    } else {
        match credential {
            Option::None => r == Result::<(), AuthError>::Err(AuthError::MissingCredential),
            Option::Some(c) => match credential_token(c) {
                Option::None => r == Result::<(), AuthError>::Err(AuthError::MalformedCredential),
                Option::Some(_) => r is Ok || r matches Result::Err(AuthError::InvalidCredential(_)),
            },
        }
    }
}

/// Verifies the bearer credential against the shared secret. Pure: no side
/// effects, no state.
pub fn verify_auth(credential: Option<&str>, secret: &str) -> (r: Result<(), AuthError>)
    ensures
        verify_auth_post(cred_view(credential), secret@, r),
        auth_determined(cred_view(credential), secret@) ==> r == determined_outcome(
            cred_view(credential),
            secret@,
        ),
{
    if secret.is_empty() {
        return Ok(());
    }
    let c = match credential {
        Some(c) => c,
        None => {
            return Err(AuthError::MissingCredential);
        },
    };
    let token = match extract_bearer_token(c) {
        Some(t) => t,
        None => {
            return Err(AuthError::MalformedCredential);
        },
    };
    decode_outcome(decode_token(token.as_str(), secret))
}

/// Idempotence of the verifier: on every input whose outcome does not rest
/// on the token decoder, any two results the contract of [`verify_auth`]
/// allows are equal — calling it twice with the same inputs yields the
/// same result, and it has no side effects to observe.
pub proof fn lemma_verify_auth_idempotent(
    credential: Option<Seq<char>>,
    secret: Seq<char>,
    r1: Result<(), AuthError>,
    r2: Result<(), AuthError>,
)
    requires
        auth_determined(credential, secret),
        verify_auth_post(credential, secret, r1),
        verify_auth_post(credential, secret, r2),
    ensures
        r1 == r2,
{
}

} // verus!
