//! Which address a relay connection is counted under behind a reverse proxy.

use vstd::prelude::*;
use vstd::string::*;

use crate::relay::rate_limit::IpKey;
use crate::text::owned;

verus! {

/// The text of `s` before its first `,` (all of it if there is none).
pub open spec fn before_comma(s: Seq<char>) -> Seq<char> {
    if exists|i: int| 0 <= i < s.len() && s[i] == ',' {
        s.take(choose|i: int| 0 <= i < s.len() && s[i] == ',' && forall|j: int| 0 <= j < i ==> s[j] != ',')
    } else {
        s
    }
}

/// The first entry of an `X-Forwarded-For` header: the text before its first
/// comma (the proxy chain's client), not yet trimmed.
pub fn forwarded_first(xff: &str) -> (r: String)
    ensures
        r@ == before_comma(xff@),
{
    let n = xff.unicode_len();
    let mut i: usize = 0;
    while i < n && xff.get_char(i) != ','
        invariant
            n == xff@.len(),
            i <= n,
            forall|j: int| 0 <= j < i ==> xff@[j] != ',',
        decreases n - i,
    {
        i = i + 1;
    }
    proof {
        if i < n {
            let k = choose|k: int| 0 <= k < xff@.len() && xff@[k] == ',' && forall|j: int| 0 <= j < k ==> xff@[j] != ',';
            if k < i {
                assert(xff@[k] != ',');
            }
            if i < k {
                assert(xff@[i as int] != ',');
            }
        }
    }
    let r = xff.substring_char(0, i);
    proof {
        if i == n {
            assert(xff@.subrange(0, i as int) =~= xff@);
        } else {
            assert(xff@.subrange(0, i as int) =~= xff@.take(i as int));
        }
    }
    owned(r)
}

/// The address a connection is counted under: the first `X-Forwarded-For`
/// entry when it is an address, else `X-Real-IP` when it is one, else the
/// TCP peer.
pub fn pick_client_ip(forwarded: Option<IpKey>, real_ip: Option<IpKey>, peer: IpKey) -> (r: IpKey)
    ensures
        r == match (forwarded, real_ip) {
            (Some(f), _) => f,
            (None, Some(x)) => x,
            (None, None) => peer,
        },
{
    match forwarded {
        Some(f) => f,
        None => match real_ip {
            Some(x) => x,
            None => peer,
        },
    }
}

} // verus!
