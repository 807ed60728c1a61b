//! Session and device identifiers.
//!
//! A `SessionId` is a UUID (held as its 128-bit value) and a `DeviceId` a
//! bare string; keeping them as newtypes prevents mixing them up at call
//! sites.

use vstd::prelude::*;

verus! {

/// Server-assigned identifier for a terminal (PTY) session: the 128-bit value
/// of a UUID.
#[derive(Debug, Clone, Copy, PartialEq, Eq, Hash, Structural)]
pub struct SessionId(pub u128);

/// The lowercase hexadecimal digit for a nibble.
pub open spec fn hex_digit(n: int) -> char {
    if n < 10 {
        (('0' as int) + n) as char
    } else {
        (('a' as int) + n - 10) as char
    }
}

/// The `k`-th hexadecimal digit of `v`, most significant first (`0 <= k < 32`).
pub open spec fn nibble(v: u128, k: int) -> int {
    ((v as int) / vstd::arithmetic::power2::pow2((4 * (31 - k)) as nat) as int) % 16
}

/// The hyphenated lowercase form of a UUID, `8-4-4-4-12` hex digits.
pub open spec fn uuid_text(v: u128) -> Seq<char> {
    Seq::new(36, |i: int|
        if i == 8 || i == 13 || i == 18 || i == 23 {
            '-'
        } else {
            let k = if i < 8 { i } else if i < 13 { i - 1 } else if i < 18 { i - 2 } else if i < 23 { i - 3 } else { i - 4 };
            hex_digit(nibble(v, k))
        }
    )
}

/// A version-4 (random) UUID of the RFC 4122 variant: its version digit
/// (the 13th hex digit) is 4 and its variant digit (the 17th) is one of
/// 8, 9, a, b.
pub open spec fn is_random_uuid(v: u128) -> bool {
    &&& nibble(v, 12) == 4
    &&& 8 <= nibble(v, 16) < 12
}

/// Calls `uuid::Uuid::new_v4` and returns the UUID's 128-bit value.
///
/// Claimed: the value is a version-4 UUID of the RFC 4122 variant; the crate
/// masks a random `u128` and sets the version and variant bits. The other
/// 122 bits are random and nothing is claimed of them.
#[verifier::external_body]
fn random_uuid_value() -> (v: u128)
    ensures
        is_random_uuid(v),
{
    uuid::Uuid::new_v4().as_u128()
}

/// Calls `uuid::Uuid::from_u128(v).to_string()`.
///
/// Claimed: the result is the UUID's hyphenated lowercase text, as the
/// crate's `Display` impl (lowercase hex) and `format_hyphenated` produce it.
#[verifier::external_body]
fn uuid_to_string(v: u128) -> (s: String)
    ensures
        s@ == uuid_text(v),
{
    uuid::Uuid::from_u128(v).to_string()
}

impl SessionId {
    /// Generate a fresh random session id: a version-4 UUID.
    pub fn new() -> (r: SessionId)
        ensures
            is_random_uuid(r.0),
    {
        SessionId(random_uuid_value())
    }

    /// The id as it appears on the wire and in the audit log: the hyphenated
    /// lowercase UUID text.
    pub fn to_text(&self) -> (s: String)
        ensures
            s@ == uuid_text(self.0),
    {
        uuid_to_string(self.0)
    }
}

/// Device identifier (recorded in the audit log and used to route a phone to
/// the desktop agent it targets).
#[derive(Debug, Clone, PartialEq, Eq, Hash)]
pub struct DeviceId(pub String);

impl DeviceId {
    pub fn new(id: String) -> (r: DeviceId)
        ensures
            r.0@ == id@,
    {
        DeviceId(id)
    }

    /// The identifier's text.
    pub fn as_str(&self) -> (s: &str)
        ensures
            s@ == self.0@,
    {
        self.0.as_str()
    }
}

/// Which side of the connection a client speaks for. Determined from the
/// first `Auth` frame; the gateway routes accordingly.
#[derive(Debug, Clone, Copy, PartialEq, Eq, Hash, Structural)]
pub enum ClientRole {
    Desktop,
    Phone,
}

} // verus!
