use vstd::prelude::*;
use vstd::string::StrSliceExecFns;

use crate::errors::AuthError;

verus! {

/// The literal that must open an authorization header: `Bearer ` with a
/// capital `B` and exactly one space.
pub open spec fn bearer_prefix() -> Seq<char> {
    seq!['B', 'e', 'a', 'r', 'e', 'r', ' ']
}

/// Whether `h` starts with the bearer prefix.
pub open spec fn has_bearer_prefix(h: Seq<char>) -> bool {
    h.len() >= bearer_prefix().len() && h.subrange(0, bearer_prefix().len() as int)
        == bearer_prefix()
}

/// What follows the bearer prefix in `h`.
pub open spec fn bearer_rest(h: Seq<char>) -> Seq<char> {
    h.subrange(bearer_prefix().len() as int, h.len() as int)
}

/// Extracts the token from the raw value of an authorization header.
///
/// A missing header, or one that does not begin with `Bearer `, is
/// rejected as malformed; otherwise everything after the prefix is the
/// token (possibly empty).
pub fn bearer_token(header: Option<&str>) -> (r: Result<&str, AuthError>)
    ensures
        match header {
            None => r == Err::<&str, AuthError>(AuthError::MalformedHeader),
            Some(h) => if has_bearer_prefix(h@) {
                r matches Ok(t) && t@ == bearer_rest(h@)
            } else {
                r == Err::<&str, AuthError>(AuthError::MalformedHeader)
            },
        },
{
    let h = match header {
        None => return Err(AuthError::MalformedHeader),
        Some(h) => h,
    };
    let n = h.unicode_len();
    if n < 7 {
        return Err(AuthError::MalformedHeader);
    }
    let expected = ['B', 'e', 'a', 'r', 'e', 'r', ' '];
    let mut i: usize = 0;
    while i < 7
        invariant
            0 <= i <= 7,
            header == Some(h),
            n == h@.len(),
            n >= 7,
            expected@ == bearer_prefix(),
            forall|j: int| 0 <= j < i ==> h@[j] == bearer_prefix()[j],
        decreases 7 - i,
    {
        let c = h.get_char(i);
        if c != expected[i] {
            assert(h@.subrange(0, 7)[i as int] != bearer_prefix()[i as int]);
            return Err(AuthError::MalformedHeader);
        }
        i = i + 1;
    }
    assert(h@.subrange(0, 7) =~= bearer_prefix());
    Ok(h.substring_char(7, n))
}

} // verus!
