//! Service errors and the validation of JSON Web Tokens against a key set.
use vstd::prelude::*;
use alcoholic_jwt::{ValidJWT, ValidationError, Validation, JWK, JWKS};

verus! {

broadcast use vstd::string::group_string_axioms;

/// Errors that a request handler answers with an HTTP error.
#[derive(Debug, PartialEq, Eq)]
pub enum ServiceError {
    InternalServerError,
    BadRequest(String),
    JWKSFetchError,
}

impl ServiceError {
    /// The HTTP status and the message (sent as a JSON string) that answer
    /// this error.
    pub fn error_response(&self) -> (reply: (u16, String))
        ensures
            match self {
                ServiceError::InternalServerError => reply.0 == 500 && reply.1@
                    == "Internal Server Error, Please try later"@,
                ServiceError::BadRequest(message) => reply.0 == 400 && reply.1@ == message@,
                ServiceError::JWKSFetchError => reply.0 == 500 && reply.1@
                    == "Could not fetch JWKS"@,
            },
    {
        match self {
            ServiceError::InternalServerError => (
                500,
                "Internal Server Error, Please try later".to_string(),
            ),
            ServiceError::BadRequest(message) => (400, message.clone()),
            ServiceError::JWKSFetchError => (500, "Could not fetch JWKS".to_string()),
        }
    }

    /// The text that displays this error.
    pub fn to_string(&self) -> (text: String)
        ensures
            match self {
                ServiceError::InternalServerError => text@ == "Internal Server Error"@,
                ServiceError::BadRequest(message) => text@ == "BadRequest: "@ + message@,
                ServiceError::JWKSFetchError => text@ == "JWKSFetchError"@,
            },
    {
        match self {
            ServiceError::InternalServerError => "Internal Server Error".to_string(),
            ServiceError::BadRequest(message) => {
                let mut text = "BadRequest: ".to_string();
                text.append(message.as_str());
                text
            },
            ServiceError::JWKSFetchError => "JWKSFetchError".to_string(),
        }
    }
}

/// A claim check applied to a token whose signature has been verified. Only
/// checks that depend on the token alone are offered: the expiry check of
/// `alcoholic_jwt` reads the clock, and the service does not use it.
#[derive(Debug, PartialEq, Eq)]
pub enum ClaimCheck {
    /// The `iss` claim equals the given issuer.
    Issuer(String),
    /// The `aud` claim holds the given audience.
    Audience(String),
    /// A `sub` claim is present.
    SubjectPresent,
}

/// The checks applied to every token: its issuer and the presence of a subject.
pub open spec fn token_checks(issuer: String) -> Seq<ClaimCheck> {
    seq![ClaimCheck::Issuer(issuer), ClaimCheck::SubjectPresent]
}

#[verifier::external_type_specification]
#[verifier::external_body]
pub struct ExJwks(JWKS);

#[verifier::external_type_specification]
#[verifier::external_body]
pub struct ExJwk(JWK);

#[verifier::external_type_specification]
#[verifier::external_body]
pub struct ExJwtError(ValidationError);

#[verifier::external_type_specification]
#[verifier::external_body]
pub struct ExValidJwt(ValidJWT);

/// What `alcoholic_jwt::token_kid` reads from a token's header: `None` when
/// the header cannot be decoded, otherwise the `kid` claim if there is one.
pub uninterp spec fn token_kid_claim(token: Seq<char>) -> Option<Option<Seq<char>>>;

/// The key that `alcoholic_jwt::JWKS::find` gives for a key identifier.
pub uninterp spec fn key_for_kid(jwks: JWKS, kid: Seq<char>) -> Option<JWK>;

/// Whether `alcoholic_jwt::validate` accepts a token under a key and checks.
pub uninterp spec fn token_accepted(token: Seq<char>, key: JWK, checks: Seq<ClaimCheck>) -> bool;

/// Calls `alcoholic_jwt::token_kid`.
/// Trusted: it fails exactly when `token_kid_claim` is `None`, and otherwise
/// gives the claimed key identifier.
#[verifier::external_body]
fn read_token_kid(token: &str) -> (kid: Result<Option<String>, ValidationError>)
    ensures
        kid is Err <==> token_kid_claim(token@) is None,
        kid matches Ok(Some(k)) ==> token_kid_claim(token@) == Some(Some(k@)),
        kid matches Ok(None) ==> token_kid_claim(token@) == Some(None::<Seq<char>>),
{
    alcoholic_jwt::token_kid(token)
}

/// Calls `alcoholic_jwt::JWKS::find`.
/// Trusted: the key found is `key_for_kid` of the set and identifier. Which
/// key that is (the first whose `kid` equals the identifier) is not stated.
#[verifier::external_body]
fn find_key<'a>(jwks: &'a JWKS, kid: &str) -> (key: Option<&'a JWK>)
    ensures
        key matches Some(k) ==> key_for_kid(*jwks, kid@) == Some(*k),
        key is None ==> key_for_kid(*jwks, kid@) is None,
{
    jwks.find(kid)
}

/// Calls `alcoholic_jwt::validate`.
/// Trusted: the token is accepted exactly when `token_accepted` holds of the
/// token, key and checks; none of the checks offered reads the clock, so
/// that is a function of these alone. Which tokens those are (a valid RS256
/// or ES256 signature, then every check) is not stated.
#[verifier::external_body]
fn validate_with_key(token: &str, key: &JWK, checks: Vec<ClaimCheck>) -> (verdict: Result<
    ValidJWT,
    ValidationError,
>)
    ensures
        verdict is Ok <==> token_accepted(token@, *key, checks@),
{
    let validations = checks.into_iter().map(|check| match check {
        ClaimCheck::Issuer(issuer) => Validation::Issuer(issuer),
        ClaimCheck::Audience(audience) => Validation::Audience(audience),
        ClaimCheck::SubjectPresent => Validation::SubjectPresent,
    }).collect();
    alcoholic_jwt::validate(token, key, validations)
}

/// Checks a bearer token against the key set of the identity provider: the
/// key named by the token's `kid` must verify its signature, its issuer
/// must be `issuer` and it must name a subject.
///
/// A token whose header cannot be read is answered with `JWKSFetchError`.
pub fn validate_token(token: &str, jwks: &JWKS, issuer: String) -> (outcome: Result<
    bool,
    ServiceError,
>)
    requires
        token_kid_claim(token@) != Some(None::<Seq<char>>),
        forall|kid: Seq<char>|
            token_kid_claim(token@) == Some(Some(kid)) ==> (#[trigger] key_for_kid(*jwks, kid)) is Some,
    ensures
        token_kid_claim(token@) is None ==> outcome == Err::<bool, ServiceError>(
            ServiceError::JWKSFetchError,
        ),
        forall|kid: Seq<char>|
            token_kid_claim(token@) == Some(Some(kid)) ==> outcome == Ok::<bool, ServiceError>(
                token_accepted(token@, (#[trigger] key_for_kid(*jwks, kid)).unwrap(), token_checks(issuer)),
            ),
{
    let kid = match read_token_kid(token) {
        Ok(Some(kid)) => kid,
        Ok(None) => {
            assert(false);
            return Err(ServiceError::JWKSFetchError);
        },
        Err(_) => return Err(ServiceError::JWKSFetchError),
    };
    assert(key_for_kid(*jwks, kid@) is Some);
    let key = match find_key(jwks, kid.as_str()) {
        Some(key) => key,
        None => return Err(ServiceError::JWKSFetchError),
    };
    let mut checks: Vec<ClaimCheck> = Vec::new();
    checks.push(ClaimCheck::Issuer(issuer));
    checks.push(ClaimCheck::SubjectPresent);
    assert(checks@ == token_checks(issuer));
    let verdict = validate_with_key(token, key, checks);
    Ok(verdict.is_ok())
}

/// Why a token could not be checked: its header names no key, or names a
/// key that the set does not hold.
#[derive(Debug, PartialEq, Eq)]
pub enum KeyLookupFailure {
    MissingKid,
    UnknownKid,
}

/// [`validate_token`] for any token: where the token names no key, or a key
/// that is not in the set, the failure is returned instead.
pub fn try_validate_token(token: &str, jwks: &JWKS, issuer: String) -> (outcome: Result<
    Result<bool, ServiceError>,
    KeyLookupFailure,
>)
    ensures
        token_kid_claim(token@) is None ==> outcome == Ok::<_, KeyLookupFailure>(
            Err::<bool, ServiceError>(ServiceError::JWKSFetchError),
        ),
        token_kid_claim(token@) == Some(None::<Seq<char>>) ==> outcome == Err::<
            Result<bool, ServiceError>,
            _,
        >(KeyLookupFailure::MissingKid),
        forall|kid: Seq<char>|
            token_kid_claim(token@) == Some(Some(kid)) ==> outcome == (if (#[trigger] key_for_kid(
                *jwks,
                kid,
            )) is Some {
                Ok::<_, KeyLookupFailure>(
                    Ok::<bool, ServiceError>(
                        token_accepted(token@, key_for_kid(*jwks, kid).unwrap(), token_checks(issuer)),
                    ),
                )
            } else {
                Err::<Result<bool, ServiceError>, _>(KeyLookupFailure::UnknownKid)
            }),
{
    match read_token_kid(token) {
        Ok(Some(kid)) => {
            if find_key(jwks, kid.as_str()).is_none() {
                return Err(KeyLookupFailure::UnknownKid);
            }
        },
        Ok(None) => return Err(KeyLookupFailure::MissingKid),
        Err(_) => {},
    }
    Ok(validate_token(token, jwks, issuer))
}

} // verus!
