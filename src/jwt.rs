use vstd::prelude::*;

use jsonwebtoken::{Algorithm, DecodingKey, EncodingKey, Header, Validation};
use serde_json::Value as JsonValue;

use crate::claims::{claim_integers, claim_strings, instant_view};

verus! {

#[verifier::external_type_specification]
#[verifier::external_body]
pub struct ExJwtError(jsonwebtoken::errors::Error);

#[verifier::external_type_specification]
#[verifier::external_body]
pub struct ExJsonValue(serde_json::Value);

#[verifier::external_type_specification]
#[verifier::external_body]
#[verifier::reject_recursive_types(K)]
#[verifier::reject_recursive_types(V)]
pub struct ExJsonObject<K, V>(serde_json::Map<K, V>);

/// Members of a JSON object whose value is a JSON string, by member name.
pub uninterp spec fn string_members(m: serde_json::Map<String, serde_json::Value>) -> Map<
    Seq<char>,
    Seq<char>,
>;

/// Members of a JSON object whose value is a JSON number that fits in an
/// `i64`, by member name.
pub uninterp spec fn integer_members(m: serde_json::Map<String, serde_json::Value>) -> Map<
    Seq<char>,
    int,
>;

/// The HS256 token that signing the payload `{sub, username, exp}`, with
/// `iat` when given, with `secret` produces.
pub uninterp spec fn jwt_encoded(
    sub: Seq<char>,
    username: Seq<char>,
    exp: int,
    iat: Option<int>,
    secret: Seq<char>,
) -> Seq<char>;

/// What decoding `token` under `secret` yields when it is a well-formed
/// HS256 token whose signature matches: the string and integer members of
/// its payload. `None` when the token is rejected.
pub uninterp spec fn jwt_decoded(token: Seq<char>, secret: Seq<char>) -> Option<
    (Map<Seq<char>, Seq<char>>, Map<Seq<char>, int>),
>;

/// Relies on `jsonwebtoken::encode` with the default header (HS256) and an
/// HMAC key made from `secret`, over the payload object
/// `{"sub", "username", "exp"}` and `"iat"` when given. `encode` fails only
/// when the key's family differs from the header's algorithm or the claims
/// do not serialise, neither of which can happen for an HMAC key and a JSON
/// object; the token is determined by its inputs, and `jsonwebtoken::decode`
/// under the same secret gives the payload back.
#[verifier::external_body]
pub(crate) fn encode_payload(sub: &str, username: &str, exp: i64, iat: Option<i64>, secret: &str) -> (r:
    Result<String, jsonwebtoken::errors::Error>)
    ensures
        r is Ok,
        r matches Ok(t) ==> t@ == jwt_encoded(sub@, username@, exp as int, instant_view(iat), secret@),
        r matches Ok(t) ==> jwt_decoded(t@, secret@) == Some(
            (claim_strings(sub@, username@), claim_integers(exp as int, instant_view(iat))),
        ),
{
    let mut payload = serde_json::Map::new();
    payload.insert("sub".to_string(), JsonValue::from(sub));
    payload.insert("username".to_string(), JsonValue::from(username));
    payload.insert("exp".to_string(), JsonValue::from(exp));
    if let Some(i) = iat {
        payload.insert("iat".to_string(), JsonValue::from(i));
    }
    jsonwebtoken::encode(&Header::default(), &payload, &EncodingKey::from_secret(secret.as_bytes()))
}

/// Relies on `jsonwebtoken::decode` into a JSON object, with an HMAC key
/// made from `secret`, HS256 as the only algorithm, and no claim required or
/// checked against the clock (expiry is checked by the caller, without
/// leeway): the outcome depends on `token` and `secret` alone.
#[verifier::external_body]
pub(crate) fn decode_payload(token: &str, secret: &str) -> (r: Result<
    serde_json::Map<String, serde_json::Value>,
    jsonwebtoken::errors::Error,
>)
    ensures
        r is Ok <==> jwt_decoded(token@, secret@) is Some,
        r matches Ok(m) ==> jwt_decoded(token@, secret@) == Some(
            (string_members(m), integer_members(m)),
        ),
{
    let mut validation = Validation::new(Algorithm::HS256);
    validation.validate_exp = false;
    validation.required_spec_claims.clear();
    let key = DecodingKey::from_secret(secret.as_bytes());
    jsonwebtoken::decode::<serde_json::Map<String, JsonValue>>(token, &key, &validation).map(
        |data| data.claims,
    )
}

/// Relies on `serde_json::Map::get`: the member `key` when its value is a
/// JSON string.
#[verifier::external_body]
pub(crate) fn string_member(m: &serde_json::Map<String, serde_json::Value>, key: &str) -> (r: Option<String>)
    ensures
        r is Some <==> string_members(*m).contains_key(key@),
        r matches Some(s) ==> s@ == string_members(*m)[key@],
{
    match m.get(key) {
        Some(JsonValue::String(s)) => Some(s.clone()),
        _ => None,
    }
}

/// Relies on `serde_json::Map::get` and `serde_json::Number::as_i64`: the
/// member `key` when its value is a number that fits in an `i64`.
#[verifier::external_body]
pub(crate) fn integer_member(m: &serde_json::Map<String, serde_json::Value>, key: &str) -> (r: Option<i64>)
    ensures
        r is Some <==> integer_members(*m).contains_key(key@),
        r matches Some(v) ==> v as int == integer_members(*m)[key@],
{
    match m.get(key) {
        Some(JsonValue::Number(n)) => n.as_i64(),
        _ => None,
    }
}

} // verus!
