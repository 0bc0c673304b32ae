use vstd::prelude::*;

use crate::bearer::{bearer_rest, bearer_token, has_bearer_prefix};
use crate::claims::{
    claim_integers, claim_of_members, claim_strings, exp_key, has_claim_members, iat_key,
    instant_view, lemma_claim_keys_distinct, sub_key, unix_now, username_key, ClaimView, Claims,
    TOKEN_TTL_SECONDS,
};
use crate::errors::{AppError, AuthError};
use crate::jwt::{decode_payload, encode_payload, integer_member, jwt_decoded, jwt_encoded, string_member};

verus! {

/// The verdict on `token` under `secret` at instant `now`: the claim it
/// carries, or why it is rejected.
///
/// A token that does not decode under `secret`, or whose payload lacks a
/// member of the claim, has an invalid signature; one whose expiry is
/// strictly before `now` has expired (no clock-skew leeway).
pub open spec fn token_outcome(token: Seq<char>, secret: Seq<char>, now: int) -> Result<ClaimView, AuthError> {
    match jwt_decoded(token, secret) {
        Some(members) => if has_claim_members(members.0, members.1) {
            let c = claim_of_members(members.0, members.1);
            if c.2 < now {
                Err(AuthError::Expired)
            } else {
                Ok(c)
            }
        } else {
            Err(AuthError::InvalidSignature)
        },
        None => Err(AuthError::InvalidSignature),
    }
}

/// The verdict on a request whose authorization header is `header`.
pub open spec fn header_outcome(header: Option<Seq<char>>, secret: Seq<char>, now: int) -> Result<ClaimView, AuthError> {
    match header {
        Some(h) => if has_bearer_prefix(h) {
            token_outcome(bearer_rest(h), secret, now)
        } else {
            Err(AuthError::MalformedHeader)
        },
        None => Err(AuthError::MalformedHeader),
    }
}

/// Whether `token`, under `secret`, carries exactly the claim minted for
/// `sub` / `username` at `now` with lifetime `ttl`.
pub open spec fn minted(
    token: Seq<char>,
    secret: Seq<char>,
    sub: Seq<char>,
    username: Seq<char>,
    now: int,
    ttl: int,
) -> bool {
    jwt_decoded(token, secret) == Some((claim_strings(sub, username), claim_integers(now + ttl, Some(now))))
}

/// The view of an optional header value.
pub open spec fn header_view(header: Option<&str>) -> Option<Seq<char>> {
    match header {
        Some(h) => Some(h@),
        None => None,
    }
}

/// Whether `r` reports `outcome`.
pub open spec fn reports(
    r: Result<Claims, AuthError>,
    outcome: Result<ClaimView, AuthError>,
) -> bool {
    match r {
        Ok(c) => outcome == Ok::<ClaimView, AuthError>(c@),
        Err(e) => outcome == Err::<ClaimView, AuthError>(e),
    }
}

/// Signs `claims` with `secret`.
pub fn encode_claims(claims: &Claims, secret: &str) -> (r: String)
    ensures
        r@ == jwt_encoded(
            claims.sub@,
            claims.username@,
            claims.exp as int,
            instant_view(claims.iat),
            secret@,
        ),
        jwt_decoded(r@, secret@) == Some(
            (
                claim_strings(claims.sub@, claims.username@),
                claim_integers(claims.exp as int, instant_view(claims.iat)),
            ),
        ),
{
    match encode_payload(claims.sub.as_str(), claims.username.as_str(), claims.exp, claims.iat, secret) {
        Ok(t) => t,
        Err(_) => {
            assert(false);
            String::new()
        },
    }
}

/// Checks the signature of `token` under `secret` and reads the claim it
/// carries, without looking at the clock.
pub fn decode_claims(token: &str, secret: &str) -> (r: Result<Claims, AuthError>)
    ensures
        match jwt_decoded(token@, secret@) {
            Some(members) => if has_claim_members(members.0, members.1) {
                r matches Ok(c) && c@ == claim_of_members(members.0, members.1)
            } else {
                r == Err::<Claims, AuthError>(AuthError::InvalidSignature)
            },
            None => r == Err::<Claims, AuthError>(AuthError::InvalidSignature),
        },
{
    let m = match decode_payload(token, secret) {
        Ok(m) => m,
        Err(_) => return Err(AuthError::InvalidSignature),
    };
    proof {
        reveal_strlit("sub");
        reveal_strlit("username");
        reveal_strlit("exp");
        reveal_strlit("iat");
        assert("sub"@ =~= sub_key());
        assert("username"@ =~= username_key());
        assert("exp"@ =~= exp_key());
        assert("iat"@ =~= iat_key());
    }
    let sub = match string_member(&m, "sub") {
        Some(s) => s,
        None => return Err(AuthError::InvalidSignature),
    };
    let username = match string_member(&m, "username") {
        Some(s) => s,
        None => return Err(AuthError::InvalidSignature),
    };
    let exp = match integer_member(&m, "exp") {
        Some(v) => v,
        None => return Err(AuthError::InvalidSignature),
    };
    let iat = integer_member(&m, "iat");
    Ok(Claims { sub, username, exp, iat })
}

/// Mints a token for `user_id` / `username` issued at `now` and valid for
/// `ttl` seconds, signed with `secret`.
///
/// Fails, with `InternalError`, exactly when the expiry instant does not
/// fit in an `i64`.
pub fn create_token_at(user_id: &str, username: &str, secret: &str, now: i64, ttl: i64) -> (r: Result<
    String,
    AppError,
>)
    requires
        user_id@.len() > 0,
    ensures
        r is Ok <==> i64::MIN <= now + ttl <= i64::MAX,
        r matches Err(e) ==> e is InternalError,
        r matches Ok(t) ==> t@ == jwt_encoded(
            user_id@,
            username@,
            now + ttl,
            Some(now as int),
            secret@,
        ),
        r matches Ok(t) ==> minted(t@, secret@, user_id@, username@, now as int, ttl as int),
        r matches Ok(t) ==> (ttl >= 0 ==> token_outcome(t@, secret@, now as int) == Ok::<
            ClaimView,
            AuthError,
        >((user_id@, username@, now + ttl, Some(now as int)))),
{
    let claims = match Claims::issued_at(user_id.to_owned(), username.to_owned(), now, ttl) {
        Some(c) => c,
        None => return Err(AppError::InternalError),
    };
    let t = encode_claims(&claims, secret);
    proof {
        if ttl >= 0 {
            lemma_minted_token_verifies(
                t@,
                secret@,
                user_id@,
                username@,
                now as int,
                ttl as int,
                now as int,
            );
        }
    }
    Ok(t)
}

/// Mints a token for `user_id` / `username`, issued now and valid for
/// 24 hours, signed with `secret`.
pub fn create_token(user_id: &str, username: &str, secret: &str) -> (r: Result<String, AppError>)
    requires
        user_id@.len() > 0,
    ensures
        r is Ok,
        r matches Ok(t) ==> exists|now: int|
            minted(t@, secret@, user_id@, username@, now, TOKEN_TTL_SECONDS as int),
{
    let now = unix_now();
    create_token_at(user_id, username, secret, now, TOKEN_TTL_SECONDS)
}

/// Verifies `token` under `secret` at instant `now`: signature first, then
/// expiry, with no clock-skew leeway.
pub fn verify_token_at(token: &str, secret: &str, now: i64) -> (r: Result<Claims, AuthError>)
    ensures
        reports(r, token_outcome(token@, secret@, now as int)),
{
    let claims = decode_claims(token, secret)?;
    if claims.exp < now {
        return Err(AuthError::Expired);
    }
    Ok(claims)
}

/// Verifies `token` under `secret` against the current time.
pub fn verify_token(token: &str, secret: &str) -> (r: Result<Claims, AuthError>)
    ensures
        exists|now: int| reports(r, token_outcome(token@, secret@, now)),
{
    let now = unix_now();
    verify_token_at(token, secret, now)
}

/// Identifies the caller of a request from the raw value of its
/// authorization header, at instant `now`.
///
/// The header is checked for the `Bearer ` prefix before the token is
/// looked at; then the token's signature, then its expiry.
pub fn authenticate_at(header: Option<&str>, secret: &str, now: i64) -> (r: Result<Claims, AuthError>)
    ensures
        reports(r, header_outcome(header_view(header), secret@, now as int)),
{
    let token = bearer_token(header)?;
    verify_token_at(token, secret, now)
}

/// Identifies the caller of a request from its authorization header,
/// against the current time.
pub fn authenticate(header: Option<&str>, secret: &str) -> (r: Result<Claims, AuthError>)
    ensures
        exists|now: int| reports(r, header_outcome(header_view(header), secret@, now)),
{
    let now = unix_now();
    authenticate_at(header, secret, now)
}

/// Applies the optional "principal still exists" re-check to a verified
/// request: a verified claim whose subject is gone is rejected.
pub fn confirm_principal(verified: Result<Claims, AuthError>, principal_exists: bool) -> (r: Result<
    Claims,
    AuthError,
>)
    ensures
        match verified {
            Ok(c) => if principal_exists {
                r matches Ok(d) && d@ == c@
            } else {
                r == Err::<Claims, AuthError>(AuthError::PrincipalNotFound)
            },
            Err(e) => r == Err::<Claims, AuthError>(e),
        },
{
    match verified {
        Ok(c) => if principal_exists {
            Ok(c)
        } else {
            Err(AuthError::PrincipalNotFound)
        },
        Err(e) => Err(e),
    }
}

/// A minted token verifies, with the subject and display name it was minted
/// for, at every instant from its issue up to and including its expiry.
pub proof fn lemma_minted_token_verifies(
    token: Seq<char>,
    secret: Seq<char>,
    sub: Seq<char>,
    username: Seq<char>,
    now: int,
    ttl: int,
    at: int,
)
    requires
        minted(token, secret, sub, username, now, ttl),
        at <= now + ttl,
    ensures
        token_outcome(token, secret, at) == Ok::<ClaimView, AuthError>(
            (sub, username, now + ttl, Some(now)),
        ),
{
    let s = claim_strings(sub, username);
    let i = claim_integers(now + ttl, Some(now));
    lemma_claim_keys_distinct();
    assert(has_claim_members(s, i));
    assert(claim_of_members(s, i) == (sub, username, now + ttl, Some(now)));
}

/// A minted token is rejected as expired at every instant strictly after
/// its expiry.
pub proof fn lemma_minted_token_expires(
    token: Seq<char>,
    secret: Seq<char>,
    sub: Seq<char>,
    username: Seq<char>,
    now: int,
    ttl: int,
    at: int,
)
    requires
        minted(token, secret, sub, username, now, ttl),
        at > now + ttl,
    ensures
        token_outcome(token, secret, at) == Err::<ClaimView, AuthError>(
            AuthError::Expired,
        ),
{
    let s = claim_strings(sub, username);
    let i = claim_integers(now + ttl, Some(now));
    lemma_claim_keys_distinct();
    assert(has_claim_members(s, i));
}

/// A missing header, or one without the `Bearer ` prefix, is rejected as
/// malformed whatever the secret and the time: no token is examined.
pub proof fn lemma_malformed_header_rejected(header: Option<Seq<char>>, secret: Seq<char>, now: int)
    requires
        header matches Some(h) ==> !has_bearer_prefix(h),
    ensures
        header_outcome(header, secret, now) == Err::<ClaimView, AuthError>(
            AuthError::MalformedHeader,
        ),
{
}

/// Two tokens minted for the same subject and display name at different
/// instants are different strings, and each verifies until its own expiry.
pub proof fn lemma_mints_at_distinct_instants_differ(
    t1: Seq<char>,
    t2: Seq<char>,
    secret: Seq<char>,
    sub: Seq<char>,
    username: Seq<char>,
    now1: int,
    now2: int,
    ttl: int,
)
    requires
        minted(t1, secret, sub, username, now1, ttl),
        minted(t2, secret, sub, username, now2, ttl),
        now1 != now2,
    ensures
        t1 != t2,
        token_outcome(t1, secret, now1 + ttl) == Ok::<ClaimView, AuthError>(
            (sub, username, now1 + ttl, Some(now1)),
        ),
        token_outcome(t2, secret, now2 + ttl) == Ok::<ClaimView, AuthError>(
            (sub, username, now2 + ttl, Some(now2)),
        ),
{
    lemma_claim_keys_distinct();
    if t1 == t2 {
        assert(claim_integers(now1 + ttl, Some(now1))[iat_key()] == now1);
        assert(claim_integers(now2 + ttl, Some(now2))[iat_key()] == now2);
    }
    lemma_minted_token_verifies(t1, secret, sub, username, now1, ttl, now1 + ttl);
    lemma_minted_token_verifies(t2, secret, sub, username, now2, ttl, now2 + ttl);
}

} // verus!
