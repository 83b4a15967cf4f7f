use vstd::prelude::*;

use crate::address::IpAddress;
use crate::registry::AuthorizedSet;
use crate::text::chars_of;

verus! {

/// Status of a request that presented the secret.
pub const STATUS_OK: u16 = 200;

/// Status of a request that presented no secret or a wrong one.
pub const STATUS_UNAUTHORIZED: u16 = 401;

/// Whether a request presented `secret`.
pub open spec fn key_matches(presented: Option<&str>, secret: &str) -> bool {
    match presented {
        Some(k) => k@ == secret@,
        None => false,
    }
}

/// Whether `a` and `b` hold the same text.
pub fn same_text(a: &str, b: &str) -> (r: bool)
    ensures
        r == (a@ == b@),
{
    let x = chars_of(a);
    let y = chars_of(b);
    if x.len() != y.len() {
        return false;
    }
    let mut i: usize = 0;
    while i < x.len()
        invariant
            x@ == a@,
            y@ == b@,
            x.len() == y.len(),
            i <= x.len(),
            forall|k: int| 0 <= k < i ==> x@[k] == y@[k],
        decreases x.len() - i,
    {
        if x[i] != y[i] {
            return false;
        }
        i = i + 1;
    }
    assert(x@ =~= y@);
    true
}

/// Answers an authorization request from `caller` that presented the
/// secret header value `presented` (or none): the right secret registers the
/// caller and gives `200`; a missing or wrong one gives `401` and changes
/// nothing.
pub fn authorize(
    set: &mut AuthorizedSet,
    secret: &str,
    presented: Option<&str>,
    caller: IpAddress,
) -> (status: u16)
    ensures
        key_matches(presented, secret) ==> status == STATUS_OK && final(set)@ == old(set)@.insert(
            caller,
        ),
        !key_matches(presented, secret) ==> status == STATUS_UNAUTHORIZED && final(set)@ == old(
            set,
        )@,
{
    match presented {
        Some(key) => {
            if same_text(key, secret) {
                set.register(caller);
                STATUS_OK
            } else {
                STATUS_UNAUTHORIZED
            }
        },
        None => STATUS_UNAUTHORIZED,
    }
}

} // verus!
