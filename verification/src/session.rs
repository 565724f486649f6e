//! Durable session identity: the fixed-length random identifier, its
//! 64-symbol alphabet, and the persisted session row.

use vstd::prelude::*;
use vstd::string::StrSliceExecFns;
use crate::strutil::push_char;

verus! {

/// Length of every session identifier, in characters.
pub const HASH_ID_LEN: usize = 16;

/// Seconds a persisted session may stay untouched before the sweep deletes
/// it. This is the short development value; production deployments configure
/// a much longer one (days) and pass it to the sweep explicitly.
pub const TIMEOUT_DURATION_SEC: i64 = 3 * 60;

/// The 64-symbol identifier alphabet `[A-Za-z0-9_-]`.
pub open spec fn is_hash_id_char(c: char) -> bool {
    ||| (65 <= c as int && c as int <= 90)
    ||| (97 <= c as int && c as int <= 122)
    ||| (48 <= c as int && c as int <= 57)
    ||| c == '_'
    ||| c == '-'
}

/// A well-formed session identifier: exactly `HASH_ID_LEN` characters,
/// all drawn from the identifier alphabet.
pub open spec fn valid_hash_id(s: Seq<char>) -> bool {
    &&& s.len() == HASH_ID_LEN
    &&& forall|i: int| 0 <= i < s.len() ==> is_hash_id_char(#[trigger] s[i])
}

/// Membership test for the identifier alphabet.
pub fn is_valid_hash_char(c: char) -> (r: bool)
    ensures
        r == is_hash_id_char(c),
{
    let u = c as u32;
    (65 <= u && u <= 90) || (97 <= u && u <= 122) || (48 <= u && u <= 57) || u == 95 || u == 45
}

/// Checks a whole inbound identifier: right length, every character in the
/// alphabet. Consumers must reject anything else before it reaches the
/// registry.
pub fn is_valid_hash_id(id: &str) -> (r: bool)
    ensures
        r == valid_hash_id(id@),
{
    let n = id.unicode_len();
    if n != HASH_ID_LEN {
        return false;
    }
    let mut i: usize = 0;
    while i < n
        invariant
            n == id@.len(),
            i <= n,
            forall|j: int| 0 <= j < i ==> is_hash_id_char(#[trigger] id@[j]),
        decreases n - i,
    {
        if !is_valid_hash_char(id.get_char(i)) {
            return false;
        }
        i = i + 1;
    }
    true
}

/// The alphabet in its fixed order: upper case, lower case, digits, `_`, `-`.
pub open spec fn alphabet_char(k: int) -> char {
    if k < 26 {
        (65 + k) as char
    } else if k < 52 {
        (97 + (k - 26)) as char
    } else if k < 62 {
        (48 + (k - 52)) as char
    } else if k == 62 {
        '_'
    } else {
        '-'
    }
}

fn alphabet_char_at(k: u32) -> (c: char)
    requires
        k < 64,
    ensures
        c == alphabet_char(k as int),
        is_hash_id_char(c),
{
    let b: u8 = if k < 26 {
        65 + (k as u8)
    } else if k < 52 {
        97 + (k as u8 - 26)
    } else if k < 62 {
        48 + (k as u8 - 52)
    } else if k == 62 {
        95
    } else {
        45
    };
    b as char
}

/// Relies on `rand::Rng::gen_range` over `0..n`: a uniformly distributed
/// integer below `n`; the call panics only on an empty range, which the
/// precondition rules out.
#[verifier::external_body]
fn random_below(n: u32) -> (r: u32)
    requires
        n > 0,
    ensures
        r < n,
{
    rand::Rng::gen_range(&mut rand::thread_rng(), 0..n)
}

/// A random token of `len` characters, each drawn from the identifier
/// alphabet.
pub fn gen_token(len: usize) -> (r: String)
    ensures
        r@.len() == len,
        forall|i: int| 0 <= i < r@.len() ==> is_hash_id_char(#[trigger] r@[i]),
{
    let mut s = String::new();
    let mut i: usize = 0;
    while i < len
        invariant
            i <= len,
            s@.len() == i,
            forall|j: int| 0 <= j < s@.len() ==> is_hash_id_char(#[trigger] s@[j]),
        decreases len - i,
    {
        let k = random_below(64);
        let c = alphabet_char_at(k);
        push_char(&mut s, c);
        i = i + 1;
    }
    s
}

/// A fresh session identifier: `HASH_ID_LEN` random alphabet characters.
pub fn gen_hash_id() -> (r: String)
    ensures
        valid_hash_id(r@),
{
    gen_token(HASH_ID_LEN)
}

/// A persisted session row. Timestamps are seconds since the epoch; the
/// store adapter owns their formatting.
pub struct Session {
    pub hash_id: String,
    pub created_ts: i64,
    pub updated_ts: i64,
}

impl Session {
    /// A row for an identity first seen now: both timestamps start at `now`.
    pub fn with_id(hash_id: String, now: i64) -> (r: Session)
        ensures
            r.hash_id@ == hash_id@,
            r.created_ts == now,
            r.updated_ts == now,
    {
        Session { hash_id, created_ts: now, updated_ts: now }
    }

    /// A row under a freshly minted identifier.
    pub fn fresh(now: i64) -> (r: Session)
        ensures
            valid_hash_id(r.hash_id@),
            r.created_ts == now,
            r.updated_ts == now,
    {
        Session { hash_id: gen_hash_id(), created_ts: now, updated_ts: now }
    }
}

impl Clone for Session {
    fn clone(&self) -> (r: Session)
        ensures
            r.hash_id@ == self.hash_id@,
            r.created_ts == self.created_ts,
            r.updated_ts == self.updated_ts,
    {
        Session {
            hash_id: self.hash_id.clone(),
            created_ts: self.created_ts,
            updated_ts: self.updated_ts,
        }
    }
}

/// The wire and storage form of a session row: second-resolution timestamps
/// narrowed to 32 bits, as the storage schema defines them.
pub struct SessionDto {
    pub hash_id: String,
    pub created_ts: i32,
    pub updated_ts: i32,
}

impl From<Session> for SessionDto {
    fn from(v: Session) -> (r: SessionDto) {
        SessionDto {
            hash_id: v.hash_id,
            created_ts: #[verifier::truncate] (v.created_ts as i32),
            updated_ts: #[verifier::truncate] (v.updated_ts as i32),
        }
    }
}

impl vstd::std_specs::convert::FromSpecImpl<Session> for SessionDto {
    open spec fn obeys_from_spec() -> bool {
        true
    }

    open spec fn from_spec(v: Session) -> SessionDto {
        SessionDto {
            hash_id: v.hash_id,
            created_ts: v.created_ts as i32,
            updated_ts: v.updated_ts as i32,
        }
    }
}

impl From<SessionDto> for Session {
    fn from(v: SessionDto) -> (r: Session) {
        Session {
            hash_id: v.hash_id,
            created_ts: v.created_ts as i64,
            updated_ts: v.updated_ts as i64,
        }
    }
}

impl vstd::std_specs::convert::FromSpecImpl<SessionDto> for Session {
    open spec fn obeys_from_spec() -> bool {
        true
    }

    open spec fn from_spec(v: SessionDto) -> Session {
        Session {
            hash_id: v.hash_id,
            created_ts: v.created_ts as i64,
            updated_ts: v.updated_ts as i64,
        }
    }
}

} // verus!
