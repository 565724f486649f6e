//! The authentication gateway: a command is accepted only when its
//! timestamp lies within a small window of the current time and its
//! signature matches an HMAC-SHA256 over the canonical command string,
//! keyed by a shared secret.

use vstd::prelude::*;
use vstd::string::StringExecFns;
use crate::strutil::{i64_to_dec_string, int_dec_str};

verus! {

/// The HMAC-SHA256 tag for a key and a message (their UTF-8 bytes); a
/// function of the two alone.
pub uninterp spec fn hmac_sha256_of(key: Seq<char>, message: Seq<char>) -> Seq<u8>;

/// Relies on `hmac::Hmac` with `sha2::Sha256`: the authentication code is a
/// function of key and message alone, and a SHA-256 tag is 32 bytes.
/// `new_from_slice` accepts a key of any length, so the call cannot fail.
#[verifier::external_body]
fn hmac_sha256(key: &str, message: &str) -> (r: Vec<u8>)
    ensures
        r@ == hmac_sha256_of(key@, message@),
        r@.len() == 32,
{
    let mut mac = <hmac::Hmac<sha2::Sha256> as hmac::Mac>::new_from_slice(key.as_bytes())
        .expect("any key length is accepted");
    hmac::Mac::update(&mut mac, message.as_bytes());
    hmac::Mac::finalize(mac).into_bytes().to_vec()
}

/// The lowercase hex character for a value below 16.
pub open spec fn hex_digit(d: int) -> char {
    if d < 10 {
        (48 + d) as char
    } else {
        (87 + d) as char
    }
}

/// Lowercase hex encoding: two digits per byte, high nibble first.
pub open spec fn hex_of(bytes: Seq<u8>) -> Seq<char> {
    Seq::new(
        bytes.len() * 2,
        |i: int|
            if i % 2 == 0 {
                hex_digit((bytes[i / 2] as int) / 16)
            } else {
                hex_digit((bytes[i / 2] as int) % 16)
            },
    )
}

/// The value of one hex digit, either case; -1 for anything else.
pub open spec fn hex_char_val(c: char) -> int {
    if 48 <= c as int && c as int <= 57 {
        c as int - 48
    } else if 97 <= c as int && c as int <= 102 {
        c as int - 97 + 10
    } else if 65 <= c as int && c as int <= 70 {
        c as int - 65 + 10
    } else {
        -1
    }
}

/// A decodable hex string: even length, hex digits only.
pub open spec fn valid_hex(s: Seq<char>) -> bool {
    &&& s.len() % 2 == 0
    &&& forall|i: int| 0 <= i < s.len() ==> hex_char_val(#[trigger] s[i]) >= 0
}

/// The bytes a valid hex string decodes to.
pub open spec fn hex_decoded(s: Seq<char>) -> Seq<u8> {
    Seq::new(s.len() / 2, |i: int| (hex_char_val(s[2 * i]) * 16 + hex_char_val(s[2 * i + 1])) as u8)
}

/// Relies on `hex::encode`: two lowercase hex digits per byte, high nibble
/// first.
#[verifier::external_body]
fn hex_encode(b: &[u8]) -> (r: String)
    ensures
        r@ == hex_of(b@),
{
    hex::encode(b)
}

/// Relies on `hex::decode`: decodes pairs of hex digits of either case,
/// high nibble first, and errors exactly on an odd length or a character
/// that is no hex digit.
#[verifier::external_body]
fn hex_decode(s: &str) -> (r: Option<Vec<u8>>)
    ensures
        match r {
            Some(v) => valid_hex(s@) && v@ == hex_decoded(s@),
            None => !valid_hex(s@),
        },
{
    hex::decode(s).ok()
}

fn bytes_eq(a: &Vec<u8>, b: &Vec<u8>) -> (r: bool)
    ensures
        r == (a@ == b@),
{
    if a.len() != b.len() {
        return false;
    }
    let n = a.len();
    let mut i: usize = 0;
    while i < n
        invariant
            n == a@.len(),
            n == b@.len(),
            i <= n,
            forall|j: int| 0 <= j < i ==> a@[j] == b@[j],
        decreases n - i,
    {
        if a[i] != b[i] {
            return false;
        }
        i = i + 1;
    }
    proof {
        assert(a@ =~= b@);
    }
    true
}

/// Why the gateway turned a command away.
#[derive(Clone, Copy, Debug, PartialEq, Eq, Structural)]
pub enum AuthError {
    /// The supplied timestamp lies outside the tolerance window.
    TimestampOutOfRange,
    /// The supplied signature does not match the expected HMAC.
    BadSignature,
}

/// The gateway itself: it owns the shared signing secret.
pub struct AuthRepo {
    pub secret: String,
}

impl AuthRepo {
    /// A gateway keyed by `secret`.
    pub fn new(secret: String) -> (r: AuthRepo)
        ensures
            r.secret@ == secret@,
    {
        AuthRepo { secret }
    }

    fn hmac(&self, message: &str) -> (r: Vec<u8>)
        ensures
            r@ == hmac_sha256_of(self.secret@, message@),
            r@.len() == 32,
    {
        hmac_sha256(self.secret.as_str(), message)
    }

    /// Does the hex-encoded `expected` equal the HMAC of `message` under
    /// the shared secret? A string that is no hex at all matches nothing.
    pub fn verify_message(&self, expected: &str, message: &str) -> (r: bool)
        ensures
            r == (valid_hex(expected@) && hex_decoded(expected@) == hmac_sha256_of(
                self.secret@,
                message@,
            )),
    {
        let code = self.hmac(message);
        match hex_decode(expected) {
            None => false,
            Some(exp) => bytes_eq(&code, &exp),
        }
    }

    /// Signs `message`: the lowercase hex of its HMAC under the shared
    /// secret, exactly what `verify_message` accepts for it.
    pub fn sign_message(&self, message: &str) -> (r: String)
        ensures
            r@ == hex_of(hmac_sha256_of(self.secret@, message@)),
    {
        let code = self.hmac(message);
        hex_encode(code.as_slice())
    }

    /// The full gateway decision for a signed, timestamped command: accepted
    /// exactly when the timestamp is within `allow_range_secs` of `now` and
    /// the signature matches; each rejection names its reason.
    pub fn authorize(
        &self,
        signature: &str,
        message: &str,
        timestamp: i64,
        now: i64,
        allow_range_secs: i64,
    ) -> (r: Result<(), AuthError>)
        ensures
            r == Ok::<(), AuthError>(()) <==> (timestamp_in_range(timestamp, now, allow_range_secs)
                && valid_hex(signature@) && hex_decoded(signature@) == hmac_sha256_of(
                self.secret@,
                message@,
            )),
            !timestamp_in_range(timestamp, now, allow_range_secs) ==> r == Err::<(), AuthError>(
                AuthError::TimestampOutOfRange,
            ),
    {
        if !verify_timestamp(timestamp, now, allow_range_secs) {
            Err(AuthError::TimestampOutOfRange)
        } else if !self.verify_message(signature, message) {
            Err(AuthError::BadSignature)
        } else {
            Ok(())
        }
    }
}

/// Is `timestamp` within `allow_range_secs` of `now`, either side?
pub open spec fn timestamp_in_range(timestamp: i64, now: i64, allow_range_secs: i64) -> bool {
    -allow_range_secs <= now - timestamp <= allow_range_secs
}

/// Timestamp window check of the gateway.
pub fn verify_timestamp(timestamp: i64, now: i64, allow_range_secs: i64) -> (r: bool)
    ensures
        r == timestamp_in_range(timestamp, now, allow_range_secs),
{
    let d: i128 = now as i128 - timestamp as i128;
    -(allow_range_secs as i128) <= d && d <= allow_range_secs as i128
}

/// The canonical string a view command is signed over: the raw view text,
/// a slash, the decimal timestamp.
pub fn canonical_command_message(view: &str, timestamp: i64) -> (r: String)
    ensures
        r@ == view@ + "/"@ + int_dec_str(timestamp as int),
{
    let mut s = view.to_owned();
    s.append("/");
    let ts = i64_to_dec_string(timestamp);
    s.append(ts.as_str());
    proof {
        assert(s@ =~= view@ + "/"@ + int_dec_str(timestamp as int));
    }
    s
}

} // verus!
