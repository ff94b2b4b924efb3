use vstd::prelude::*;
use crate::auth_error::AuthError;

verus! {

/// Claim set carried by an access token: subject (the user's id), issued-at
/// and expiry, both in epoch seconds.  Validity is a pure function of the
/// signature and the expiry; no store lookup is involved.
#[derive(Debug)]
pub struct JwtClaims {
    pub sub: String,
    pub iat: u64,
    pub exp: u64,
}

/// What jsonwebtoken's HS256 decoding returns for a token and a secret:
/// `Some((sub, iat, exp))` when the signature verifies and the claim set has
/// that shape and carries nothing the decoding rejects (an audience claim,
/// with no audience configured, is rejected), `None` otherwise.  The result
/// depends on the token and the secret alone.
pub uninterp spec fn jwt_decoding(token: Seq<char>, secret: Seq<u8>) -> Option<(Seq<char>, int, int)>;

/// Declared so that signing errors can cross a trusted boundary and be
/// mapped, in verified code, to the library's own error taxonomy.
#[verifier::external_type_specification]
#[verifier::external_body]
pub struct ExJwtError(jsonwebtoken::errors::Error);

/// Relies on jsonwebtoken::encode with an HS256 header: a token it returns
/// is recovered by jsonwebtoken::decode under the same secret as exactly the
/// claims handed in.  On this path the call cannot fail — the HMAC family
/// matches the secret key, HMAC itself takes a key of any length, and
/// serializing a string-keyed claim object never errs — so the result is
/// always `Ok`.
#[verifier::external_body]
fn encode_claims(claims: &JwtClaims, secret: &Vec<u8>) -> (r: Result<
    String,
    jsonwebtoken::errors::Error,
>)
    ensures
        r is Ok,
        r matches Ok(t) ==> jwt_decoding(t@, secret@) == Some(
            (claims.sub@, claims.iat as int, claims.exp as int),
        ),
{
    let mut map = serde_json::Map::new();
    map.insert("sub".to_owned(), serde_json::Value::String(claims.sub.clone()));
    map.insert("iat".to_owned(), serde_json::Value::from(claims.iat));
    map.insert("exp".to_owned(), serde_json::Value::from(claims.exp));
    jsonwebtoken::encode(
        &jsonwebtoken::Header::default(),
        &serde_json::Value::Object(map),
        &jsonwebtoken::EncodingKey::from_secret(secret.as_slice()),
    )
}

/// Relies on jsonwebtoken::decode under HS256 with the expiry check turned
/// off: the expiry is judged by verified code, against a caller-supplied
/// clock.  Returns `None` when the token is malformed, carries the wrong
/// signature, holds a claim the decoding rejects (an audience, with none
/// configured), or its claims do not have the expected shape.
#[verifier::external_body]
fn decode_claims(token: &String, secret: &Vec<u8>) -> (r: Option<JwtClaims>)
    ensures
        r matches Some(c) ==> jwt_decoding(token@, secret@) == Some(
            (c.sub@, c.iat as int, c.exp as int),
        ),
        r is None ==> jwt_decoding(token@, secret@) is None,
{
    let mut validation = jsonwebtoken::Validation::new(jsonwebtoken::Algorithm::HS256);
    validation.validate_exp = false;
    validation.required_spec_claims.clear();
    let key = jsonwebtoken::DecodingKey::from_secret(secret.as_slice());
    let data = jsonwebtoken::decode::<serde_json::Value>(token, &key, &validation).ok()?;
    let sub = data.claims.get("sub")?.as_str()?.to_owned();
    let iat = data.claims.get("iat")?.as_u64()?;
    let exp = data.claims.get("exp")?.as_u64()?;
    Some(JwtClaims { sub, iat, exp })
}

/// An access token is honored exactly when its signature verifies and it is
/// unexpired at `now`.
pub open spec fn access_valid(token: Seq<char>, secret: Seq<u8>, now: u64) -> bool {
    jwt_decoding(token, secret) matches Some(c) && now < jwt_decoding(token, secret).unwrap().2
}

/// The subject a validly-signed token speaks for.
pub open spec fn access_subject(token: Seq<char>, secret: Seq<u8>) -> Seq<char> {
    jwt_decoding(token, secret).unwrap().0
}

/// Signs the claim set.  HS256 signing under a plain secret cannot fail, so
/// success is owed; were the boundary ever to report a failure, it would be
/// the `TokenCreation` class and nothing else would be disclosed.
pub fn issue_access_token(claims: &JwtClaims, secret: &Vec<u8>) -> (r: Result<String, AuthError>)
    ensures
        r is Ok,
        r matches Ok(t) ==> jwt_decoding(t@, secret@) == Some(
            (claims.sub@, claims.iat as int, claims.exp as int),
        ),
{
    match encode_claims(claims, secret) {
        Ok(t) => Ok(t),
        Err(_) => Err(AuthError::TokenCreation),
    }
}

/// Verifies a bearer token against the secret and the clock: the subject is
/// returned exactly when the signature verifies and the token is unexpired.
/// A token that does not verify is `InvalidToken`; one that has expired is
/// `WrongCredentials`, the unauthorized class.
pub fn validate_access_token(token: &String, secret: &Vec<u8>, now: u64) -> (r: Result<
    String,
    AuthError,
>)
    ensures
        r is Ok <==> access_valid(token@, secret@, now),
        r matches Ok(sub) ==> sub@ == access_subject(token@, secret@),
        r matches Err(e) ==> (e == AuthError::InvalidToken <==> jwt_decoding(token@, secret@) is None),
        r matches Err(e) ==> e == AuthError::InvalidToken || e == AuthError::WrongCredentials,
{
    match decode_claims(token, secret) {
        Some(c) => {
            if now < c.exp {
                Ok(c.sub)
            } else {
                Err(AuthError::WrongCredentials)
            }
        },
        None => Err(AuthError::InvalidToken),
    }
}

/// Two tokens that decode to different claim sets are different tokens:
/// decoding is a function of the token and the secret, so rotation's fresh
/// issued-at or expiry forces a fresh access token.
pub proof fn lemma_distinct_claims_distinct_tokens(t1: Seq<char>, t2: Seq<char>, secret: Seq<u8>)
    ensures
        jwt_decoding(t1, secret) != jwt_decoding(t2, secret) ==> t1 != t2,
{
}

} // verus!
