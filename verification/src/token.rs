//! Signing and checking trust tokens with HMAC-SHA256.

use vstd::prelude::*;

verus! {

/// What `jsonwebtoken` reports when it cannot sign or accept a token.
#[verifier::external_type_specification]
#[verifier::external_body]
pub struct ExTokenError(jsonwebtoken::errors::Error);

/// The claims of a decoded token, as a JSON value.
#[verifier::external_type_specification]
#[verifier::external_body]
pub struct ExJsonValue(serde_json::Value);

/// What a member of a JSON object holds, as far as the library reads it.
pub enum Member {
    /// A string.
    Text(Seq<char>),
    /// A number that is an unsigned integer of 64 bits.
    Unsigned(u64),
}

/// What a `serde_json::Value` that is an object holds: its members that are
/// strings or unsigned integers of 64 bits, by name. Other members are left
/// out, and a value that is no object has none.
pub uninterp spec fn json_members(value: serde_json::Value) -> Map<Seq<char>, Member>;

/// The members of the claims that `jsonwebtoken::decode` hands out for a
/// token, where it accepts the token: the payload of the token, read as JSON.
pub uninterp spec fn token_members(token: Seq<char>) -> Map<Seq<char>, Member>;

/// Whether the signature check of `jsonwebtoken::decode` passes for a token
/// under a secret: the token has three parts, its header names HS256, and
/// its third part is the HMAC-SHA256 of the first two under the secret. The
/// check reads the token and the key alone.
pub uninterp spec fn hs256_accepts(token: Seq<char>, secret: Seq<char>) -> bool;

/// The compact HS256 token that `jsonwebtoken::encode` makes, under the
/// default header and the secret, of the JSON object with the given text
/// members and the given unsigned members; or `None` where it refuses.
pub uninterp spec fn hs256_token(
    texts: Seq<(Seq<char>, Seq<char>)>,
    numbers: Seq<(Seq<char>, u64)>,
    secret: Seq<char>,
) -> Option<Seq<char>>;

/// Names and texts of the given pairs.
pub open spec fn text_pairs<'a>(pairs: Seq<(&'a str, &'a str)>) -> Seq<(Seq<char>, Seq<char>)> {
    Seq::new(pairs.len(), |i: int| (pairs[i].0@, pairs[i].1@))
}

/// Names and numbers of the given pairs.
pub open spec fn number_pairs<'a>(pairs: Seq<(&'a str, u64)>) -> Seq<(Seq<char>, u64)> {
    Seq::new(pairs.len(), |i: int| (pairs[i].0@, pairs[i].1))
}

/// Signs claims with `jsonwebtoken::encode`, under `Header::default()` and
/// `EncodingKey::from_secret`. The claims are handed over as a JSON object
/// with one member for each pair, the texts first.
///
/// The token is a function of the pairs and the secret alone: the header is
/// fixed, and HMAC-SHA256 uses no randomness.
#[verifier::external_body]
pub(crate) fn sign_members(texts: &[(&str, &str)], numbers: &[(&str, u64)], secret: &str) -> (r:
    Result<String, jsonwebtoken::errors::Error>)
    ensures
        match r {
            Ok(token) => hs256_token(text_pairs(texts@), number_pairs(numbers@), secret@) == Some(
                token@,
            ),
            Err(_) => hs256_token(text_pairs(texts@), number_pairs(numbers@), secret@) is None,
        },
{
    let texts = texts.iter().map(|pair| (pair.0.to_string(), serde_json::Value::from(pair.1)));
    let numbers = numbers.iter().map(|pair| (pair.0.to_string(), serde_json::Value::from(pair.1)));
    let object = serde_json::Map::from_iter(texts.chain(numbers));
    let key = jsonwebtoken::EncodingKey::from_secret(secret.as_bytes());
    jsonwebtoken::encode(&jsonwebtoken::Header::default(), &object, &key)
}

/// Checks a token with `jsonwebtoken::decode` under `Validation::new(HS256)`
/// and `DecodingKey::from_secret`, and hands out its claims.
///
/// `jsonwebtoken` checks the signature before anything else and returns an
/// error wherever that check fails, so an accepted token is one whose
/// signature passes under the secret given. Whether a token with a good
/// signature is accepted depends on the current time, which `jsonwebtoken`
/// reads to check the expiry: nothing is claimed of that. The claims of an
/// accepted token are its payload, decoded and read as JSON, whatever the
/// time. `jsonwebtoken` panics when the system clock stands before the epoch.
#[verifier::external_body]
pub(crate) fn verify_token(token: &str, secret: &str) -> (r: Result<
    serde_json::Value,
    jsonwebtoken::errors::Error,
>)
    ensures
        r is Ok ==> hs256_accepts(token@, secret@),
        r matches Ok(claims) ==> json_members(claims) == token_members(token@),
{
    let mut validation = jsonwebtoken::Validation::new(jsonwebtoken::Algorithm::HS256);
    validation.validate_exp = true;
    let key = jsonwebtoken::DecodingKey::from_secret(secret.as_bytes());
    jsonwebtoken::decode::<serde_json::Value>(token, &key, &validation).map(|data| data.claims)
}

/// The text member `name` of a JSON object, from `serde_json::Value::get` and
/// `Value::as_str`: the string that the member holds, and `None` where there
/// is no such member or it holds no string.
#[verifier::external_body]
pub(crate) fn claim_text(claims: &serde_json::Value, name: &str) -> (r: Option<String>)
    ensures
        match r {
            Some(text) => json_members(*claims).contains_key(name@) && json_members(
                *claims,
            )[name@] == Member::Text(text@),
            None => !json_members(*claims).contains_key(name@) || json_members(
                *claims,
            )[name@] is Unsigned,
        },
{
    Some(claims.get(name)?.as_str()?.to_string())
}

/// The unsigned member `name` of a JSON object, from `serde_json::Value::get`
/// and `Value::as_u64`: the number that the member holds, and `None` where
/// there is no such member or it holds no unsigned integer of 64 bits.
#[verifier::external_body]
pub(crate) fn claim_number(claims: &serde_json::Value, name: &str) -> (r: Option<u64>)
    ensures
        match r {
            Some(number) => json_members(*claims).contains_key(name@) && json_members(
                *claims,
            )[name@] == Member::Unsigned(number),
            None => !json_members(*claims).contains_key(name@) || json_members(
                *claims,
            )[name@] is Text,
        },
{
    claims.get(name)?.as_u64()
}

/// What `jsonwebtoken` says of an error, from its `Display` impl.
#[verifier::external_body]
pub(crate) fn token_error_text(error: &jsonwebtoken::errors::Error) -> (s: String) {
    error.to_string()
}

} // verus!
