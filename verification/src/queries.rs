use vstd::prelude::*;
use vstd::utf8::encode_utf8;

use crate::types::{
    Config, ConfigResponse, Intent, IntentResponse, IntentsResponse, StdError, UserNonceResponse,
};

verus! {

/// The configuration as a query answer; a failed load is passed on.
pub fn query_config(config: Result<Config, StdError>) -> (res: Result<ConfigResponse, StdError>)
    ensures
        match config {
            Err(e) => res == Err::<ConfigResponse, StdError>(e),
            Ok(c) => res == Ok::<ConfigResponse, StdError>(
                ConfigResponse {
                    admin: c.admin,
                    supported_tokens: c.supported_tokens,
                    default_timeout_height: c.default_timeout_height,
                    supported_protocols: c.supported_protocols,
                },
            ),
        },
{
    match config {
        Err(e) => Err(e),
        Ok(c) => Ok(
            ConfigResponse {
                admin: c.admin,
                supported_tokens: c.supported_tokens,
                default_timeout_height: c.default_timeout_height,
                supported_protocols: c.supported_protocols,
            },
        ),
    }
}

/// An intent as a query answer; a failed load is passed on.
pub fn query_intent(intent: Result<Intent, StdError>) -> (res: Result<IntentResponse, StdError>)
    ensures
        match intent {
            Err(e) => res == Err::<IntentResponse, StdError>(e),
            Ok(i) => res == Ok::<IntentResponse, StdError>(IntentResponse { intent: i }),
        },
{
    match intent {
        Err(e) => Err(e),
        Ok(i) => Ok(IntentResponse { intent: i }),
    }
}

/// A creator's nonce as a query answer; a failed load is passed on.
pub fn query_get_user_nonce(nonce: Result<u128, StdError>) -> (res: Result<
    UserNonceResponse,
    StdError,
>)
    ensures
        match nonce {
            Err(e) => res == Err::<UserNonceResponse, StdError>(e),
            Ok(n) => res == Ok::<UserNonceResponse, StdError>(UserNonceResponse { nonce: n }),
        },
{
    match nonce {
        Err(e) => Err(e),
        Ok(n) => Ok(UserNonceResponse { nonce: n }),
    }
}

/// Byte strings in lexicographic order, `a` strictly before `b`.
pub open spec fn bytes_before(a: Seq<u8>, b: Seq<u8>) -> bool
    decreases a.len(),
{
    if a.len() == 0 {
        b.len() > 0
    } else if b.len() == 0 {
        false
    } else if a[0] != b[0] {
        a[0] < b[0]
    } else {
        bytes_before(a.drop_first(), b.drop_first())
    }
}

/// Whether byte string `a` comes strictly before `b`.
pub fn bytes_less(a: &[u8], b: &[u8]) -> (r: bool)
    ensures
        r == bytes_before(a@, b@),
{
    let mut i: usize = 0;
    assert(a@.skip(0) == a@);
    assert(b@.skip(0) == b@);
    while i < a.len() && i < b.len()
        invariant
            i <= a@.len(),
            i <= b@.len(),
            bytes_before(a@, b@) == bytes_before(a@.skip(i as int), b@.skip(i as int)),
        decreases a.len() - i,
    {
        assert(a@.skip(i as int)[0] == a@[i as int]);
        assert(b@.skip(i as int)[0] == b@[i as int]);
        assert(a@.skip(i as int).drop_first() == a@.skip(i + 1));
        assert(b@.skip(i as int).drop_first() == b@.skip(i + 1));
        if a[i] != b[i] {
            return a[i] < b[i];
        }
        i = i + 1;
    }
    i < b.len()
}

/// The intents, in order, whose key's UTF-8 bytes come strictly after `start`.
pub open spec fn intents_after(entries: Seq<(String, Intent)>, start: Seq<u8>) -> Seq<Intent>
    decreases entries.len(),
{
    if entries.len() == 0 {
        Seq::empty()
    } else {
        let rest = intents_after(entries.drop_last(), start);
        if bytes_before(start, encode_utf8(entries.last().0@)) {
            rest.push(entries.last().1)
        } else {
            rest
        }
    }
}

/// The first `limit` elements of `s`, or all of them.
pub open spec fn at_most<T>(s: Seq<T>, limit: nat) -> Seq<T> {
    if s.len() <= limit {
        s
    } else {
        s.take(limit as int)
    }
}

/// The page size of a listing: the given limit, or ten.
pub open spec fn page_size(limit: Option<u32>) -> nat {
    match limit {
        Some(l) => l as nat,
        None => 10,
    }
}

/// The key a listing starts after: the given one, or the empty key.
pub open spec fn page_start(start_after: Option<String>) -> Seq<char> {
    match start_after {
        Some(s) => s@,
        None => Seq::empty(),
    }
}

/// Where a listing starts and how many intents it holds at most: the given start
/// key or the empty key, and the given limit or ten.
pub fn list_window(start_after: &Option<String>, limit: Option<u32>) -> (r: (String, usize))
    ensures
        r.0@ == page_start(*start_after),
        r.1 as nat == page_size(limit),
{
    let start = match start_after {
        Some(s) => s.clone(),
        None => String::new(),
    };
    let size: usize = match limit {
        Some(l) => l as usize,
        None => 10,
    };
    (start, size)
}

/// The page answered for a listing of `entries` from `start_after` with `limit`.
pub open spec fn list_outcome(
    entries: Seq<(String, Intent)>,
    start_after: Option<String>,
    limit: Option<u32>,
    res: IntentsResponse,
) -> bool {
    res.intents@ == at_most(
        intents_after(entries, encode_utf8(page_start(start_after))),
        page_size(limit),
    )
}

/// One page of the stored intents: `entries` are stored (id, intent) pairs in
/// ascending key order (all of them, or only those that a bounded read from the
/// start key gave); the page holds, in that order, at most `limit` (default 10)
/// intents whose id comes strictly after `start_after` (default: the empty id).
pub fn query_list_intents(
    entries: Vec<(String, Intent)>,
    start_after: Option<String>,
    limit: Option<u32>,
) -> (res: IntentsResponse)
    ensures
        list_outcome(entries@, start_after, limit, res),
{
    let start = match start_after {
        Some(s) => s,
        None => String::new(),
    };
    let limit: usize = match limit {
        Some(l) => l as usize,
        None => 10,
    };
    let ghost start_bytes = encode_utf8(start@);
    let start_slice = start.as_str().as_bytes();
    let mut intents: Vec<Intent> = Vec::new();
    let mut rest = entries;
    let ghost all = rest@;
    let n = rest.len();
    let mut i: usize = 0;
    assert(all.skip(0) == all);
    while i < n
        invariant
            n == all.len(),
            i <= n,
            rest@ == all.skip(i as int),
            start_slice@ == start_bytes,
            start_bytes == encode_utf8(start@),
            intents@ == at_most(intents_after(all.take(i as int), start_bytes), limit as nat),
        decreases n - i,
    {
        let (key, intent) = rest.remove(0);
        assert(all.take(i + 1).drop_last() == all.take(i as int));
        assert(all.take(i + 1).last() == all[i as int]);
        assert(all.skip(i as int).remove(0) == all.skip(i + 1));
        let after = bytes_less(start_slice, key.as_str().as_bytes());
        let ghost prev = intents_after(all.take(i as int), start_bytes);
        if after && intents.len() < limit {
            intents.push(intent);
        }
        proof {
            let next = intents_after(all.take(i + 1), start_bytes);
            if after {
                assert(next == prev.push(all[i as int].1));
                if prev.len() >= limit {
                    assert(next.take(limit as int) == prev.take(limit as int));
                }
            } else {
                assert(next == prev);
            }
        }
        i = i + 1;
    }
    assert(all.take(n as int) == all);
    IntentsResponse { intents }
}

} // verus!
