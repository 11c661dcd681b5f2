//! User-identifier validation.
//!
//! Schema steps iterate every local user; a username that does not parse as
//! a valid localpart against the server identity is logged and skipped — a
//! per-record soft failure, never fatal to the batch.  The accepted grammar
//! is the backwards-compatible ("historical") localpart: non-empty, every
//! character a printable ASCII character other than the colon that
//! delimits the server name in a full identifier.

use vstd::prelude::*;

use crate::store::names_model;

verus! {

/// Characters permitted in a historical user localpart: printable ASCII
/// (`0x21`..=`0x7E`) except `:`.
pub open spec fn localpart_char(c: char) -> bool {
    '\x21' <= c && c <= '\x7e' && c != ':'
}

/// A valid localpart: non-empty, all characters from the localpart
/// alphabet.
pub open spec fn valid_localpart(u: Seq<char>) -> bool {
    u.len() > 0 && forall|i: int| 0 <= i < u.len() ==> localpart_char(#[trigger] u[i])
}

/// Parse a username as a localpart; `true` iff it is valid.
pub fn parse_localpart(u: &String) -> (ok: bool)
    ensures
        ok == valid_localpart(u@),
{
    let s = u.as_str();
    let n = s.unicode_len();
    if n == 0 {
        return false;
    }
    let mut i: usize = 0;
    while i < n
        invariant
            i <= n,
            n == u@.len(),
            forall|j: int| 0 <= j < i ==> localpart_char(#[trigger] u@[j]),
        decreases n - i,
    {
        let c = s.get_char(i);
        let ok = c >= '\x21' && c <= '\x7e' && c != ':';
        if !ok {
            return false;
        }
        i += 1;
    }
    true
}

/// Whether `u` occurs in the user list.
pub fn contains_user(users: &Vec<String>, u: &String) -> (r: bool)
    ensures
        r == names_model(users@).contains(u@),
{
    let n = users.len();
    let mut i: usize = 0;
    while i < n
        invariant
            i <= n,
            forall|j: int| 0 <= j < i ==> names_model(users@)[j] != u@,
        decreases n - i,
    {
        proof {
            assert(names_model(users@)[i as int] == users@[i as int]@);
        }
        if users[i] == *u {
            assert(names_model(users@)[i as int] == u@);
            return true;
        }
        i += 1;
    }
    proof {
        if names_model(users@).contains(u@) {
            let w = choose|j: int| 0 <= j < names_model(users@).len() && names_model(users@)[j]
                == u@;
            assert(names_model(users@)[w] != u@);
        }
    }
    false
}

} // verus!
