//! The bearer-token validation flow: read the kid claim out of the token's
//! header, locate the matching key in a fetched key set, and have the key
//! checked against the token's signature, issuer and subject claims.
//!
//! Fetching the key set is a network call and stays outside this library;
//! callers hand the fetched set in.

use vstd::prelude::*;
use vstd::string::StringExecFns;
use crate::errors::ServiceError;
use alcoholic_jwt::{token_kid, validate, Validation, JWKS};

verus! {

/// The well-known key-set location under an authority: the authority text
/// followed by the discovery path, character for character.
pub fn jwks_url(authority: &str) -> (r: String)
    ensures
        r@ == authority@ + ".well-known/jwks.json"@,
{
    let mut url = String::from_str(authority);
    url.append(".well-known/jwks.json");
    url
}

#[verifier::external_type_specification]
#[verifier::external_body]
pub struct ExJWKS(JWKS);

/// The key ids present in a key set.
pub uninterp spec fn jwks_kids(jwks: JWKS) -> Set<Seq<char>>;

/// What the kid claim of a token's header decodes to: `Some` exactly when
/// the token is structurally well formed and its header carries a kid. The
/// decoding reads the token text alone.
pub uninterp spec fn token_kid_of(token: Seq<char>) -> Option<Seq<char>>;

/// Whether the signature-and-claims check accepts the token against the key
/// set and authority: the key selected by the token's kid verifies the
/// signature, the issuer claim equals the authority, and a subject claim is
/// present. Neither check reads a clock or the environment, so the outcome
/// is a function of these three values alone.
pub uninterp spec fn token_accepted(token: Seq<char>, jwks: JWKS, authority: Seq<char>) -> bool;

/// Relies on alcoholic_jwt::token_kid: it splits the token, decodes the
/// header and reads its optional kid field, a function of the token text
/// alone. A structurally malformed token and a header without a kid both
/// come back as `None` here.
#[verifier::external_body]
fn read_token_kid(token: &str) -> (r: Option<String>)
    ensures
        r matches Some(k) ==> token_kid_of(token@) == Some(k@),
        r is None ==> token_kid_of(token@) is None,
{
    match token_kid(token) {
        Ok(Some(kid)) => Some(kid),
        _ => None,
    }
}

/// Relies on alcoholic_jwt::JWKS::find and alcoholic_jwt::validate: `find`
/// hands back the first key whose kid matches — one exists exactly when the
/// kid is in the set — and `validate` verifies the token's signature against
/// it, that the issuer claim equals `authority`, and that a subject claim is
/// present. The kid handed in must be the token's own, so that the key
/// checked is the one the token names; under these two validations no clock
/// is read, and the answer is the function `token_accepted` of token, key
/// set and authority. A kid absent from the set refuses the token.
#[verifier::external_body]
fn check_token(token: &str, jwks: &JWKS, kid: &String, authority: &str) -> (r: bool)
    requires
        token_kid_of(token@) == Some(kid@),
    ensures
        jwks_kids(*jwks).contains(kid@) ==> r == token_accepted(token@, *jwks, authority@),
        !jwks_kids(*jwks).contains(kid@) ==> !r,
{
    match jwks.find(kid.as_str()) {
        Some(jwk) => {
            let validations = vec![
                Validation::Issuer(authority.to_string()),
                Validation::SubjectPresent,
            ];
            validate(token, jwk, validations).is_ok()
        }
        None => false,
    }
}

/// Validates one bearer token against a fetched key set.
///
/// `Err(JWKSFetchError)` exactly when no kid can be read from the token; a
/// kid absent from the key set is a rejection — `Ok(false)`, never an abort;
/// with the kid in the set, the answer is exactly the signature-and-claims
/// check's, so a refused signature, a wrong issuer or a missing subject come
/// back as `Ok(false)`, never as an error — and the same three values always
/// get the same answer.
pub fn validate_token(token: &str, jwks: &JWKS, authority: &str) -> (r: Result<
    bool,
    ServiceError,
>)
    ensures
        r matches Err(e) ==> e is JWKSFetchError,
        r is Err <==> token_kid_of(token@) is None,
        (token_kid_of(token@) matches Some(k) && !jwks_kids(*jwks).contains(k)) ==> r
            == Ok::<bool, ServiceError>(false),
        (token_kid_of(token@) matches Some(k) && jwks_kids(*jwks).contains(k)) ==> r
            == Ok::<bool, ServiceError>(token_accepted(token@, *jwks, authority@)),
{
    let kid = match read_token_kid(token) {
        Some(kid) => kid,
        None => {
            return Err(ServiceError::JWKSFetchError);
        },
    };
    Ok(check_token(token, jwks, &kid, authority))
}

/// What the authentication gate decides for one request.
#[derive(Debug, PartialEq, Eq, Structural)]
pub enum AuthDecision {
    /// The request goes through to its handler unchanged.
    Authorized,
    /// The request is answered with an authentication error.
    Rejected,
}

/// Decides a request's fate from its token's outcome: through exactly on
/// `Ok(true)`; anything else — `Ok(false)` or an error — means rejection.
pub fn validator(validation: &Result<bool, ServiceError>) -> (d: AuthDecision)
    ensures
        d is Authorized <==> *validation == Ok::<bool, ServiceError>(true),
{
    match validation {
        Ok(true) => AuthDecision::Authorized,
        _ => AuthDecision::Rejected,
    }
}

} // verus!
