//! Instants, lifetimes and the liveness rule.

use vstd::prelude::*;

verus! {

/// Lifetime of a verification token, in milliseconds.
pub const VERIFICATION_TTL_MS: u64 = 300_000;

/// Lifetime of a temporary credential, in milliseconds.
pub const CREDENTIAL_TTL_MS: u64 = 300_000;

/// Lifetime of a session, in milliseconds.
pub const SESSION_TTL_MS: u64 = 1_800_000;

/// Period of the background sweep, in milliseconds.
pub const SWEEP_PERIOD_MS: u64 = 30_000;

/// A record is live while the current instant is strictly before its expiry.
pub open spec fn live_at(expires_at: u64, now: u64) -> bool {
    now < expires_at
}

/// The instant at which something created at `now` with lifetime `ttl` expires.
pub open spec fn deadline_of(now: u64, ttl: u64) -> int {
    now + ttl
}

/// The expiry instant of a record created at `now` that lives for `ttl`.
pub fn deadline(now: u64, ttl: u64) -> (expires_at: u64)
    requires
        deadline_of(now, ttl) <= u64::MAX,
    ensures
        expires_at == deadline_of(now, ttl),
{
    now + ttl
}

/// Whether a record that expires at `expires_at` is no longer live at `now`.
pub fn expired(expires_at: u64, now: u64) -> (gone: bool)
    ensures
        gone == !live_at(expires_at, now),
{
    now >= expires_at
}

/// Whether a record that expires at `expires_at` is live at `now`.
pub fn live(expires_at: u64, now: u64) -> (alive: bool)
    ensures
        alive == live_at(expires_at, now),
{
    now < expires_at
}

/// A lifetime in whole seconds, as it is reported to the holder of an artifact.
pub fn whole_seconds(ttl_ms: u64) -> (seconds: u64)
    ensures
        seconds == ttl_ms / 1000,
{
    ttl_ms / 1000
}

/// A record created at `now` is live from then until its lifetime has elapsed,
/// and at no instant from there on.
pub proof fn lifetime_bounds_liveness(now: u64, ttl: u64, later: u64)
    requires
        deadline_of(now, ttl) <= u64::MAX,
        now <= later,
    ensures
        live_at(deadline_of(now, ttl) as u64, later) <==> later - now < ttl,
{
}

} // verus!
