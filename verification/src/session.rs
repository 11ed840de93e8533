//! The bearer token minted after successful authentication: signed with a
//! process-held key and bounded in time, carrying the user's id and role.

use vstd::prelude::*;
use crate::error::Error;
use crate::types::Role;
use crate::strutil::DIGEST_MOD;
use crate::second_factor::fold_bytes;

verus! {

/// A minted session token.  `tag` authenticates the other three fields
/// against the issuer's key.
pub struct Token {
    pub user_id: u64,
    pub role: Role,
    /// Last second at which the token is still valid.
    pub expires_at: i64,
    /// Keyed digest over the payload.
    pub tag: u64,
}

/// Mints and validates session tokens.
pub struct SessionIssuer {
    /// The signing key, held by the process and never sent out.
    pub key: Vec<u8>,
    /// Lifetime of a minted token, in seconds.
    pub ttl_seconds: i64,
}

/// Folds one value onto an accumulator, at base 131 modulo 2^52.
pub open spec fn mix64(acc: u64, v: u64) -> u64 {
    (((acc as int % DIGEST_MOD as int) * 131 + v as int % DIGEST_MOD as int) % (
    DIGEST_MOD as int)) as u64
}

/// Computes `mix64`.
pub fn mix64_exec(acc: u64, v: u64) -> (r: u64)
    ensures
        r == mix64(acc, v),
        r < DIGEST_MOD,
{
    ((acc % DIGEST_MOD) * 131 + v % DIGEST_MOD) % DIGEST_MOD
}

/// The authenticating tag of a token payload under a key: the key's bytes
/// folded onto a seed, then the payload fields folded on.
pub open spec fn tag_of(key: Seq<u8>, user_id: u64, role: Role, expires_at: i64) -> u64 {
    mix64(mix64(mix64(fold_bytes(key, 5381), user_id), role.rank_spec() as u64), expires_at as u64)
}

impl SessionIssuer {
    /// A healthy issuer has a nonnegative token lifetime.
    pub open spec fn wf(self) -> bool {
        self.ttl_seconds >= 0
    }

    /// A new issuer over a signing key.
    pub fn new(key: Vec<u8>, ttl_seconds: i64) -> (r: SessionIssuer)
        requires
            ttl_seconds >= 0,
        ensures
            r.key@ == key@,
            r.ttl_seconds == ttl_seconds,
            r.wf(),
    {
        SessionIssuer { key, ttl_seconds }
    }

    /// Computes the tag of a payload under the issuer's key.
    pub fn tag_for(&self, user_id: u64, role: Role, expires_at: i64) -> (r: u64)
        ensures
            r == tag_of(self.key@, user_id, role, expires_at),
    {
        let base = crate::second_factor::fold_bytes_from(&self.key, 5381);
        let a = mix64_exec(base, user_id);
        let b = mix64_exec(a, role.rank() as u64);
        mix64_exec(b, expires_at as u64)
    }

    /// Mints a token for a user: valid from `now` for the issuer's
    /// lifetime, tagged under the issuer's key.
    pub fn issue(&self, user_id: u64, role: Role, now: i64) -> (t: Token)
        requires
            self.wf(),
            now <= i64::MAX - self.ttl_seconds,
        ensures
            t.user_id == user_id,
            t.role == role,
            t.expires_at == now + self.ttl_seconds,
            t.tag == tag_of(self.key@, user_id, role, t.expires_at),
    {
        let expires_at = now + self.ttl_seconds;
        let tag = self.tag_for(user_id, role, expires_at);
        Token { user_id, role, expires_at, tag }
    }

    /// Validates a token at a given time: a tag that does not match the
    /// payload is rejected as invalid, a matching but outlived token as
    /// expired, and anything else yields the user id and role the token
    /// carries.
    pub fn validate(&self, t: &Token, now: i64) -> (r: Result<(u64, Role), Error>)
        ensures
            r is Ok <==> t.tag == tag_of(self.key@, t.user_id, t.role, t.expires_at) && now
                <= t.expires_at,
            r matches Ok(p) ==> p == (t.user_id, t.role),
            t.tag != tag_of(self.key@, t.user_id, t.role, t.expires_at) ==> r == Err::<(u64, Role),
                Error>(Error::TokenInvalid),
            t.tag == tag_of(self.key@, t.user_id, t.role, t.expires_at) && now > t.expires_at
                ==> r == Err::<(u64, Role), Error>(Error::TokenExpired),
    {
        let expected = self.tag_for(t.user_id, t.role, t.expires_at);
        if t.tag != expected {
            Err(Error::TokenInvalid)
        } else if now > t.expires_at {
            Err(Error::TokenExpired)
        } else {
            Ok((t.user_id, t.role))
        }
    }
}

} // verus!
