//! Who is calling: the subject claim of the bearer token in the
//! authorization header. Whether the token's signature is checked is the
//! deployment's choice, made in the open in its `TokenPolicy`.

use vstd::prelude::*;
use vstd::string::*;
use vstd::utf8::*;

verus! {

/// Why a request could not be tied to a caller.
#[derive(Debug)]
pub enum AuthError {
    /// The request carries no authorization header.
    MissingCredential,
    /// The header does not use the bearer scheme.
    MalformedCredential,
    /// The token did not decode to claims with an integer subject; the text
    /// says what was wrong with it.
    InvalidCredential(String),
}

impl AuthError {
    pub open spec fn message_spec(self) -> Seq<char> {
        match self {
            AuthError::MissingCredential => "Missing Authorization header"@,
            AuthError::MalformedCredential => "Malformed Authorization header"@,
            AuthError::InvalidCredential(reason) => "Invalid token: "@ + reason@,
        }
    }

    /// The text shown to the caller.
    pub fn message(&self) -> (text: String)
        ensures
            text@ == self.message_spec(),
    {
        match self {
            AuthError::MissingCredential => String::from_str("Missing Authorization header"),
            AuthError::MalformedCredential => String::from_str("Malformed Authorization header"),
            AuthError::InvalidCredential(reason) => String::from_str("Invalid token: ").concat(
                reason.as_str(),
            ),
        }
    }
}

/// The words that open a header of the bearer scheme.
pub open spec fn bearer_scheme() -> Seq<char> {
    "Bearer "@
}

pub open spec fn uses_bearer_scheme(header: Seq<char>) -> bool {
    bearer_scheme().is_prefix_of(header)
}

/// What follows the scheme in a header that uses it.
pub open spec fn token_of(header: Seq<char>) -> Seq<char> {
    header.subrange(bearer_scheme().len() as int, header.len() as int)
}

/// The token of an authorization header, if the header is there and uses the
/// bearer scheme.
pub fn bearer_token<'a>(authorization: Option<&'a str>) -> (found: Result<&'a str, AuthError>)
    ensures
        match authorization {
            None => found matches Err(AuthError::MissingCredential),
            Some(header) => if uses_bearer_scheme(header@) {
                found matches Ok(token) && token@ == token_of(header@)
            } else {
                found matches Err(AuthError::MalformedCredential)
            },
        },
{
    let header = match authorization {
        Some(header) => header,
        None => return Err(AuthError::MissingCredential),
    };
    let scheme = "Bearer ";
    proof {
        reveal_strlit("Bearer ");
    }
    let length: usize = header.unicode_len();
    if length < 7 {
        return Err(AuthError::MalformedCredential);
    }
    let mut at: usize = 0;
    while at < 7
        invariant
            authorization == Some(header),
            at <= 7,
            7 <= length == header@.len(),
            scheme@ == bearer_scheme(),
            scheme@.len() == 7,
            forall|k: int| 0 <= k < at ==> header@[k] == scheme@[k],
        decreases 7 - at,
    {
        if header.get_char(at) != scheme.get_char(at) {
            assert(header@.subrange(0, 7)[at as int] != scheme@[at as int]);
            return Err(AuthError::MalformedCredential);
        }
        at += 1;
    }
    assert(scheme@ =~= header@.subrange(0, 7));
    Ok(header.substring_char(7, length))
}

/// Whether a raw header value is text that uses the bearer scheme.
pub open spec fn header_uses_bearer_scheme(raw: Seq<u8>) -> bool {
    valid_utf8(raw) && uses_bearer_scheme(decode_utf8(raw))
}

/// `std::str::from_utf8`: the bytes as text where they are valid UTF-8, the
/// text then being the one that these bytes encode; nothing where they are
/// not.
#[verifier::external_body]
fn utf8_text<'a>(bytes: &'a [u8]) -> (found: Option<&'a str>)
    ensures
        match found {
            Some(text) => text.spec_bytes() == bytes@,
            None => !valid_utf8(bytes@),
        },
{
    match std::str::from_utf8(bytes) {
        Ok(text) => Some(text),
        Err(_) => None,
    }
}

/// The text of a raw header value, where it is text.
pub fn header_text<'a>(raw: &'a [u8]) -> (found: Option<&'a str>)
    ensures
        match found {
            Some(text) => valid_utf8(raw@) && text@ == decode_utf8(raw@),
            None => !valid_utf8(raw@),
        },
{
    let found = utf8_text(raw);
    proof {
        if let Some(text) = found {
            encode_utf8_valid_utf8(text@);
            encode_utf8_decode_utf8(text@);
        }
    }
    found
}

/// The token of a raw authorization header. A header that is absent is
/// missing; one that is there but is no text, or text of another scheme, is
/// malformed.
pub fn header_token<'a>(authorization: Option<&'a [u8]>) -> (found: Result<&'a str, AuthError>)
    ensures
        match authorization {
            None => found matches Err(AuthError::MissingCredential),
            Some(raw) => if header_uses_bearer_scheme(raw@) {
                found matches Ok(token) && token@ == token_of(decode_utf8(raw@))
            } else {
                found matches Err(AuthError::MalformedCredential)
            },
        },
{
    match authorization {
        None => Err(AuthError::MissingCredential),
        Some(raw) => match header_text(raw) {
            Some(text) => bearer_token(Some(text)),
            None => Err(AuthError::MalformedCredential),
        },
    }
}

/// How bearer tokens are checked: the secret they are signed with, and
/// whether the signature is checked at all. With `verify_signature` off any
/// token that decodes is accepted, whoever signed it. Nothing is asked of the
/// claims either way: a token needs no expiry, and one that has expired is
/// still decoded.
#[derive(Debug)]
pub struct TokenPolicy {
    pub secret: String,
    pub verify_signature: bool,
}

impl TokenPolicy {
    pub fn new(secret: String, verify_signature: bool) -> (policy: TokenPolicy)
        ensures
            policy.secret@ == secret@,
            policy.verify_signature == verify_signature,
    {
        TokenPolicy { secret, verify_signature }
    }
}

/// The claims of a decoded token: `serde_json::Value`, opaque here.
#[verifier::external_type_specification]
#[verifier::external_body]
pub struct ExClaims(serde_json::Value);

/// Why a token did not decode: `jsonwebtoken::errors::Error`, opaque here.
#[verifier::external_type_specification]
#[verifier::external_body]
pub struct ExTokenError(jsonwebtoken::errors::Error);

/// The checks made of a token: `jsonwebtoken::Validation`, opaque here.
#[verifier::external_type_specification]
#[verifier::external_body]
pub struct ExValidation(jsonwebtoken::Validation);

/// Whether these checks include that of the signature.
pub uninterp spec fn checks_signature(validation: jsonwebtoken::Validation) -> bool;

/// Whether these checks ask one of these things of the claims: an expiry
/// that has not passed, a start that has come, an audience, or a claim that
/// must be there. Checks that ask none of them never read the clock.
pub uninterp spec fn checks_claims(validation: jsonwebtoken::Validation) -> bool;

/// What `jsonwebtoken::decode` makes of a token with an HMAC key made of
/// `secret`, under checks that ask nothing of the claims.
pub uninterp spec fn decoding(
    token: Seq<char>,
    secret: Seq<char>,
    validation: jsonwebtoken::Validation,
) -> Result<serde_json::Value, jsonwebtoken::errors::Error>;

/// The text that a decoding error shows.
pub uninterp spec fn error_display(error: jsonwebtoken::errors::Error) -> Seq<char>;

/// The member of that name in claims that are an object which has one.
pub uninterp spec fn member(claims: serde_json::Value, name: Seq<char>) -> Option<serde_json::Value>;

/// The number that a JSON value is, where it is an integer within `i64`.
pub uninterp spec fn integer_value(value: serde_json::Value) -> Option<i64>;

/// `jsonwebtoken::Validation::new` for HS256: the default checks, which
/// include the signature and, of the claims, an expiry that must be there
/// and must not have passed.
#[verifier::external_body]
fn hs256_validation() -> (validation: jsonwebtoken::Validation)
    ensures
        checks_signature(validation),
        checks_claims(validation),
{
    jsonwebtoken::Validation::new(jsonwebtoken::Algorithm::HS256)
}

/// `jsonwebtoken::Validation::insecure_disable_signature_validation`: the
/// same checks without that of the signature.
#[verifier::external_body]
fn without_signature_check(validation: jsonwebtoken::Validation) -> (relaxed:
    jsonwebtoken::Validation)
    ensures
        !checks_signature(relaxed),
        checks_claims(relaxed) == checks_claims(validation),
{
    let mut relaxed = validation;
    relaxed.insecure_disable_signature_validation();
    relaxed
}

/// Switches off what `jsonwebtoken::Validation` can ask of the claims: the
/// fields `validate_exp`, `validate_nbf` and `validate_aud` are cleared, and
/// `set_required_spec_claims` is given no claim. The check of the signature
/// stays as it was.
#[verifier::external_body]
fn without_claim_checks(validation: jsonwebtoken::Validation) -> (relaxed: jsonwebtoken::Validation)
    ensures
        !checks_claims(relaxed),
        checks_signature(relaxed) == checks_signature(validation),
{
    let mut relaxed = validation;
    relaxed.validate_exp = false;
    relaxed.validate_nbf = false;
    relaxed.validate_aud = false;
    relaxed.set_required_spec_claims::<&str>(&[]);
    relaxed
}

/// `jsonwebtoken::decode` with an HMAC key made of `secret`, keeping the
/// claims as a JSON value. Under checks that ask nothing of the claims the
/// clock is not read, and the result is a function of the three arguments;
/// under other checks nothing is claimed.
#[verifier::external_body]
fn decode_claims(token: &str, secret: &str, validation: &jsonwebtoken::Validation) -> (decoded:
    Result<serde_json::Value, jsonwebtoken::errors::Error>)
    ensures
        !checks_claims(*validation) ==> decoded == decoding(token@, secret@, *validation),
{
    let key = jsonwebtoken::DecodingKey::from_secret(secret.as_bytes());
    match jsonwebtoken::decode::<serde_json::Value>(token, &key, validation) {
        Ok(data) => Ok(data.claims),
        Err(error) => Err(error),
    }
}

/// `serde_json::Value::get` with a string key: the member of that name where
/// the value is an object that has one.
#[verifier::external_body]
fn claim<'a>(claims: &'a serde_json::Value, name: &str) -> (found: Option<&'a serde_json::Value>)
    ensures
        match found {
            Some(value) => member(*claims, name@) == Some(*value),
            None => member(*claims, name@) is None,
        },
{
    claims.get(name)
}

/// `serde_json::Value::as_i64`: the number where the value is an integer that
/// fits.
#[verifier::external_body]
fn integer_of(value: &serde_json::Value) -> (number: Option<i64>)
    ensures
        number == integer_value(*value),
{
    value.as_i64()
}

/// The `Display` text of a `jsonwebtoken::errors::Error`.
#[verifier::external_body]
fn error_text(error: &jsonwebtoken::errors::Error) -> (text: String)
    ensures
        text@ == error_display(*error),
{
    error.to_string()
}

/// The checks that a policy asks for: the signature where the policy says
/// so, and nothing of the claims, so that every token that decodes is taken.
pub open spec fn policy_checks(validation: jsonwebtoken::Validation, policy: TokenPolicy) -> bool {
    checks_signature(validation) == policy.verify_signature && !checks_claims(validation)
}

/// Builds the checks that a policy asks for.
pub fn validation_for(policy: &TokenPolicy) -> (validation: jsonwebtoken::Validation)
    ensures
        policy_checks(validation, *policy),
{
    let decoding_only = without_claim_checks(hs256_validation());
    if policy.verify_signature {
        decoding_only
    } else {
        without_signature_check(decoding_only)
    }
}

/// The caller that claims name: their member `sub`, where it is an integer.
pub open spec fn subject_claim(claims: serde_json::Value) -> Option<i64> {
    match member(claims, "sub"@) {
        Some(value) => integer_value(value),
        None => None,
    }
}

/// Reads the caller out of decoded claims.
pub fn subject_of(claims: &serde_json::Value) -> (subject: Option<i64>)
    ensures
        subject == subject_claim(*claims),
{
    match claim(claims, "sub") {
        Some(value) => integer_of(value),
        None => None,
    }
}

/// What was learned of a token: the text of the decoding error, or the
/// integer subject of its claims where they carry one.
pub type Decoded = Result<Option<i64>, String>;

/// The reason given for claims that hold no integer subject.
pub open spec fn no_subject_reason() -> Seq<char> {
    "claims carry no integer `sub`"@
}

/// Turns what was learned of a token into the caller or the refusal.
pub fn subject_from(decoded: Decoded) -> (caller: Result<i64, AuthError>)
    ensures
        match decoded {
            Ok(Some(subject)) => caller matches Ok(id) && id == subject,
            Ok(None) => caller matches Err(AuthError::InvalidCredential(reason)) && reason@
                == no_subject_reason(),
            Err(text) => caller matches Err(AuthError::InvalidCredential(reason)) && reason@
                == text@,
        },
{
    match decoded {
        Ok(Some(subject)) => Ok(subject),
        Ok(None) => Err(AuthError::InvalidCredential(String::from_str("claims carry no integer `sub`"))),
        Err(text) => Err(AuthError::InvalidCredential(text)),
    }
}

/// The caller that a token names under given checks: the integer subject of
/// its claims, where it decodes and they carry one.
pub open spec fn identified(
    token: Seq<char>,
    policy: TokenPolicy,
    validation: jsonwebtoken::Validation,
) -> Option<i64> {
    match decoding(token, policy.secret@, validation) {
        Ok(claims) => subject_claim(claims),
        Err(_) => None,
    }
}

/// Why a token names no caller under given checks.
pub open spec fn refusal_reason(
    token: Seq<char>,
    policy: TokenPolicy,
    validation: jsonwebtoken::Validation,
) -> Seq<char> {
    match decoding(token, policy.secret@, validation) {
        Ok(_) => no_subject_reason(),
        Err(error) => error_display(error),
    }
}

/// `decoded` is what decoding the token under these checks teaches.
pub open spec fn learned(
    decoded: Decoded,
    token: Seq<char>,
    policy: TokenPolicy,
    validation: jsonwebtoken::Validation,
) -> bool {
    match decoding(token, policy.secret@, validation) {
        Ok(claims) => decoded matches Ok(subject) && subject == subject_claim(claims),
        Err(error) => decoded matches Err(text) && text@ == error_display(error),
    }
}

/// `caller` is the answer to the token under these checks: the caller it
/// names, or `InvalidCredential` with the reason why it names none.
pub open spec fn identifies(
    caller: Result<i64, AuthError>,
    token: Seq<char>,
    policy: TokenPolicy,
    validation: jsonwebtoken::Validation,
) -> bool {
    match identified(token, policy, validation) {
        Some(subject) => caller matches Ok(id) && id == subject,
        None => caller matches Err(AuthError::InvalidCredential(reason)) && reason@
            == refusal_reason(token, policy, validation),
    }
}

/// Decodes a bearer token as the policy asks and reads the subject of its
/// claims.
fn decode_subject(token: &str, policy: &TokenPolicy) -> (decoded: Decoded)
    ensures
        exists|validation: jsonwebtoken::Validation| #[trigger]
            policy_checks(validation, *policy) && learned(decoded, token@, *policy, validation),
{
    let validation = validation_for(policy);
    let decoded = match decode_claims(token, policy.secret.as_str(), &validation) {
        Ok(claims) => Ok(subject_of(&claims)),
        Err(error) => Err(error_text(&error)),
    };
    assert(policy_checks(validation, *policy) && learned(decoded, token@, *policy, validation));
    decoded
}

/// Identifies the caller from a bearer token: the token is decoded under the
/// checks that the policy asks for, and the answer is the integer subject of
/// its claims, or `InvalidCredential` with the reason.
pub fn authenticate(token: &str, policy: &TokenPolicy) -> (caller: Result<i64, AuthError>)
    ensures
        exists|validation: jsonwebtoken::Validation| #[trigger]
            policy_checks(validation, *policy) && identifies(caller, token@, *policy, validation),
{
    let decoded = decode_subject(token, policy);
    let ghost validation = choose|validation: jsonwebtoken::Validation| #[trigger]
        policy_checks(validation, *policy) && learned(decoded, token@, *policy, validation);
    let caller = subject_from(decoded);
    assert(policy_checks(validation, *policy) && identifies(caller, token@, *policy, validation));
    caller
}

/// The caller of a request, from its raw authorization header. A missing
/// header and one that is no bearer header are refused as such; a bearer
/// token is answered as `authenticate` does.
pub fn extract_user_id(authorization: Option<&[u8]>, policy: &TokenPolicy) -> (caller: Result<
    i64,
    AuthError,
>)
    ensures
        match authorization {
            None => caller matches Err(AuthError::MissingCredential),
            Some(raw) => if header_uses_bearer_scheme(raw@) {
                exists|validation: jsonwebtoken::Validation| #[trigger]
                    policy_checks(validation, *policy) && identifies(
                        caller,
                        token_of(decode_utf8(raw@)),
                        *policy,
                        validation,
                    )
            } else {
                caller matches Err(AuthError::MalformedCredential)
            },
        },
{
    match header_token(authorization) {
        Ok(token) => authenticate(token, policy),
        Err(refusal) => Err(refusal),
    }
}

} // verus!
