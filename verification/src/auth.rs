//! JWT claims and the mapping between role names and [`ClientRole`].
//!
//! Only the claim shape and the role rules live here. Signing and verifying
//! a token (and turning its JSON payload into [`Claims`]) is done around the
//! library; the gateway hands the verified claims to
//! [`crate::gateway::authorize`].

use vstd::prelude::*;

use crate::session::ClientRole;
use crate::text::{join2, owned, str_eq};

verus! {

/// JWT claims. All devices share one signing secret.
#[derive(Debug, Clone)]
pub struct Claims {
    /// Device this token is bound to.
    pub device_id: String,
    /// `"desktop"` or `"phone"`.
    pub role: String,
    /// Expiry, Unix seconds.
    pub exp: usize,
}

/// The name of a role as it appears in a token and on the command line.
pub open spec fn role_name(role: ClientRole) -> Seq<char> {
    match role {
        ClientRole::Desktop => "desktop"@,
        ClientRole::Phone => "phone"@,
    }
}

/// The role that a name denotes, if any.
pub open spec fn role_of_name(name: Seq<char>) -> Option<ClientRole> {
    if name == "desktop"@ {
        Some(ClientRole::Desktop)
    } else if name == "phone"@ {
        Some(ClientRole::Phone)
    } else {
        None
    }
}

/// A token names a role that the gateway does not know.
#[derive(Debug, Clone)]
pub struct UnknownRole {
    /// The role string found in the token.
    pub role: String,
}

/// The text of an unknown-role error.
pub open spec fn unknown_role_text(role: Seq<char>) -> Seq<char> {
    "unknown role in token: "@ + role
}

impl UnknownRole {
    /// The error's text, naming the role found in the token.
    pub fn message(&self) -> (s: String)
        ensures
            s@ == unknown_role_text(self.role@),
    {
        join2("unknown role in token: ", self.role.as_str())
    }
}

/// The text of a role's name.
pub fn role_str(role: ClientRole) -> (s: &'static str)
    ensures
        s@ == role_name(role),
{
    match role {
        ClientRole::Desktop => "desktop",
        ClientRole::Phone => "phone",
    }
}

/// The role denoted by `name`, if any.
pub fn role_from_name(name: &str) -> (r: Option<ClientRole>)
    ensures
        r == role_of_name(name@),
{
    if str_eq(name, "desktop") {
        Some(ClientRole::Desktop)
    } else if str_eq(name, "phone") {
        Some(ClientRole::Phone)
    } else {
        None
    }
}

/// Map the role string in a token to a `ClientRole`.
pub fn role_from_claims(claims: &Claims) -> (r: Result<ClientRole, UnknownRole>)
    ensures
        match r {
            Ok(role) => role_of_name(claims.role@) == Some(role),
            Err(e) => role_of_name(claims.role@) is None && e.role@ == claims.role@,
        },
{
    match role_from_name(claims.role.as_str()) {
        Some(role) => Ok(role),
        None => Err(UnknownRole { role: owned(claims.role.as_str()) }),
    }
}

/// The error text for a role argument that names no role.
pub open spec fn bad_role_message(s: Seq<char>) -> Seq<char> {
    "role must be 'desktop' or 'phone', got "@ + s
}

/// Parse a role given on the command line.
pub fn parse_role(s: &str) -> (r: Result<ClientRole, String>)
    ensures
        match r {
            Ok(role) => role_of_name(s@) == Some(role),
            Err(msg) => role_of_name(s@) is None && msg@ == bad_role_message(s@),
        },
{
    match role_from_name(s) {
        Some(role) => Ok(role),
        None => Err(join2("role must be 'desktop' or 'phone', got ", s)),
    }
}

/// How long an issued token stays valid, in seconds (24 hours).
pub const TOKEN_LIFETIME_SECS: i64 = 86400;

/// The claims of a token issued at `now_secs` (Unix seconds) for `device_id`
/// in `role`: valid for 24 hours.
pub fn token_claims(device_id: &str, role: ClientRole, now_secs: i64) -> (c: Claims)
    requires
        now_secs <= i64::MAX - TOKEN_LIFETIME_SECS,
    ensures
        c.device_id@ == device_id@,
        c.role@ == role_name(role),
        c.exp == (now_secs + TOKEN_LIFETIME_SECS) as usize,
{
    let expiry: i64 = now_secs + TOKEN_LIFETIME_SECS;
    Claims {
        device_id: owned(device_id),
        role: owned(role_str(role)),
        exp: #[verifier::truncate] (expiry as usize),
    }
}

/// Every role's name denotes that role.
pub proof fn lemma_role_name_roundtrip(role: ClientRole)
    ensures
        role_of_name(role_name(role)) == Some(role),
{
    reveal_strlit("desktop");
    reveal_strlit("phone");
    assert("desktop"@.len() != "phone"@.len());
}


} // verus!
