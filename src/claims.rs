use vstd::prelude::*;

verus! {

/// How long a freshly minted claim stays valid: 24 hours, in seconds.
pub const TOKEN_TTL_SECONDS: i64 = 86400;

/// Member name of the subject in a token payload.
pub open spec fn sub_key() -> Seq<char> {
    seq!['s', 'u', 'b']
}

/// Member name of the display name in a token payload.
pub open spec fn username_key() -> Seq<char> {
    seq!['u', 's', 'e', 'r', 'n', 'a', 'm', 'e']
}

/// Member name of the expiry instant in a token payload.
pub open spec fn exp_key() -> Seq<char> {
    seq!['e', 'x', 'p']
}

/// Member name of the issue instant in a token payload.
pub open spec fn iat_key() -> Seq<char> {
    seq!['i', 'a', 't']
}

/// The string members of the payload that carries `sub` and `username`.
pub open spec fn claim_strings(sub: Seq<char>, username: Seq<char>) -> Map<Seq<char>, Seq<char>> {
    map![sub_key() => sub, username_key() => username]
}

/// The integer members of the payload that carries `exp` and, when
/// given, `iat`.
pub open spec fn claim_integers(exp: int, iat: Option<int>) -> Map<Seq<char>, int> {
    match iat {
        Some(i) => map![exp_key() => exp, iat_key() => i],
        None => map![exp_key() => exp],
    }
}

/// The identity claim a token carries: subject, display name, expiry, and
/// the issue instant when the token states one.
pub type ClaimView = (Seq<char>, Seq<char>, int, Option<int>);

/// The member names of a claim are pairwise distinct where it matters.
pub proof fn lemma_claim_keys_distinct()
    ensures
        sub_key() != username_key(),
        exp_key() != iat_key(),
{
    assert(sub_key().len() != username_key().len());
    assert(exp_key()[0] != iat_key()[0]);
}

/// Whether decoded payload members hold everything an identity claim needs.
pub open spec fn has_claim_members(strings: Map<Seq<char>, Seq<char>>, ints: Map<Seq<char>, int>) -> bool {
    &&& strings.contains_key(sub_key())
    &&& strings.contains_key(username_key())
    &&& ints.contains_key(exp_key())
}

/// The identity claim that decoded payload members describe; the issue
/// instant is optional.
pub open spec fn claim_of_members(strings: Map<Seq<char>, Seq<char>>, ints: Map<Seq<char>, int>) -> ClaimView {
    (
        strings[sub_key()],
        strings[username_key()],
        ints[exp_key()],
        if ints.contains_key(iat_key()) {
            Some(ints[iat_key()])
        } else {
            None
        },
    )
}

/// The view of an optional instant.
pub open spec fn instant_view(t: Option<i64>) -> Option<int> {
    match t {
        Some(i) => Some(i as int),
        None => None,
    }
}

/// A signed assertion of who is making a request.
///
/// `sub` identifies the principal, `username` is the display name at the
/// time of issue, and `exp` / `iat` are seconds since the Unix epoch; a
/// token need not state `iat`.
/// A claim is never edited once minted, only re-issued.
#[derive(Debug, Clone)]
pub struct Claims {
    pub sub: String,
    pub username: String,
    pub exp: i64,
    pub iat: Option<i64>,
}

impl View for Claims {
    type V = ClaimView;

    open spec fn view(&self) -> ClaimView {
        (self.sub@, self.username@, self.exp as int, instant_view(self.iat))
    }
}

/// The last second that `chrono` can represent: the end of December 31,
/// 262142, in seconds since the Unix epoch.
pub const MAX_CLOCK_SECONDS: i64 = 8210266876799;

/// Current time in whole seconds since the Unix epoch.
///
/// Relies on `chrono::Utc::now` and `DateTime::timestamp`: `now` panics on
/// a clock set before the epoch and unwraps a `DateTime` that must lie
/// within chrono's range, so a reading returned is between 0 and
/// `DateTime::<Utc>::MAX_UTC.timestamp()`. Nothing else is promised.
#[verifier::external_body]
pub(crate) fn unix_now() -> (r: i64)
    ensures
        0 <= r <= MAX_CLOCK_SECONDS,
{
    chrono::Utc::now().timestamp()
}

impl Claims {
    /// The claim for `user_id` / `username` issued at `now` and valid for
    /// `ttl` seconds; `None` when `now + ttl` does not fit in an `i64`.
    pub fn issued_at(user_id: String, username: String, now: i64, ttl: i64) -> (r: Option<Claims>)
        ensures
            match r {
                Some(c) => c@ == (user_id@, username@, now + ttl, Some(now as int)),
                None => now + ttl < i64::MIN || now + ttl > i64::MAX,
            },
    {
        match now.checked_add(ttl) {
            Some(exp) => Some(Claims { sub: user_id, username, exp, iat: Some(now) }),
            None => None,
        }
    }

    /// The claim for `user_id` / `username` issued now, valid for 24 hours.
    /// The clock never reads late enough for the expiry to overflow, so the
    /// result is always `Some`.
    pub fn new(user_id: String, username: String) -> (r: Option<Claims>)
        ensures
            r is Some,
            r matches Some(c) ==> c.sub@ == user_id@ && c.username@ == username@ && (c.iat matches Some(
                i,
            ) && c.exp == i + TOKEN_TTL_SECONDS),
    {
        let now = unix_now();
        Claims::issued_at(user_id, username, now, TOKEN_TTL_SECONDS)
    }
}

} // verus!
