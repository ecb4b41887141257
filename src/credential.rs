//! The credential cache: a rotating code kept for a short window and
//! refreshed ahead of expiry, and a device identifier kept until cleared.

use vstd::prelude::*;

verus! {

/// A cached code is valid while younger than this many seconds.
pub const TOTP_WINDOW_SECS: u64 = 30;

/// A cached code is due for refresh this many seconds before it expires.
pub const TOTP_REFRESH_LEAD_SECS: u64 = 5;

/// Age, in seconds, from which a cached code is refreshed (window - lead).
pub const TOTP_REFRESH_AFTER_SECS: u64 = 25;

/// A code and the instant (seconds on the caller's clock) it was captured.
#[derive(Clone, Debug)]
pub struct CachedCode {
    pub value: String,
    pub captured_at: u64,
}

/// Age of a value captured at `at`, read at `now`; a clock that went
/// backwards gives age zero.
pub open spec fn age(now: nat, at: nat) -> nat {
    if now >= at {
        (now - at) as nat
    } else {
        0
    }
}

/// Rotating-code cache and identifier cache.
#[derive(Clone, Debug)]
pub struct CredentialCache {
    pub totp: Option<CachedCode>,
    pub device_id: Option<String>,
}

/// Whether a code cache read at `now` must fetch a fresh code.
pub open spec fn spec_should_refresh(totp: Option<CachedCode>, now: nat) -> bool {
    match totp {
        Some(c) => age(now, c.captured_at as nat) >= TOTP_REFRESH_AFTER_SECS,
        None => true,
    }
}

impl CredentialCache {
    /// An empty cache.
    pub fn new() -> (r: Self)
        ensures
            r.totp is None,
            r.device_id is None,
    {
        CredentialCache { totp: None, device_id: None }
    }

    /// Age of the cached code at `now`, if there is one.
    fn code_age(c: &CachedCode, now: u64) -> (r: u64)
        ensures
            r == age(now as nat, c.captured_at as nat),
    {
        if now >= c.captured_at {
            now - c.captured_at
        } else {
            0
        }
    }

    /// Whether the cached code, read at `now`, is missing or old enough
    /// (25 s or more) to be refreshed.
    pub fn should_refresh_totp(&self, now: u64) -> (r: bool)
        ensures
            r == spec_should_refresh(self.totp, now as nat),
    {
        match &self.totp {
            Some(c) => Self::code_age(c, now) >= TOTP_REFRESH_AFTER_SECS,
            None => true,
        }
    }

    /// The cached code if it is still valid at `now` (younger than 30 s).
    pub fn get_cached_totp(&self, now: u64) -> (r: Option<String>)
        ensures
            match self.totp {
                Some(c) => if age(now as nat, c.captured_at as nat) < TOTP_WINDOW_SECS {
                    r is Some && r->0@ == c.value@
                } else {
                    r is None
                },
                None => r is None,
            },
    {
        match &self.totp {
            Some(c) => {
                if Self::code_age(c, now) < TOTP_WINDOW_SECS {
                    Some(c.value.clone())
                } else {
                    None
                }
            },
            None => None,
        }
    }

    /// The code to hand out at `now` without asking the device: the cached
    /// one while it is younger than the refresh threshold, else nothing.
    pub fn fresh_totp(&self, now: u64) -> (r: Option<String>)
        ensures
            r is Some <==> !spec_should_refresh(self.totp, now as nat),
            r is Some ==> r->0@ == self.totp->0.value@,
    {
        if self.should_refresh_totp(now) {
            None
        } else {
            self.get_cached_totp(now)
        }
    }

    /// Stores `totp`, captured at `now`.
    pub fn update_totp_cache(&mut self, totp: String, now: u64)
        ensures
            final(self).totp == Some(CachedCode { value: totp, captured_at: now }),
            final(self).device_id == old(self).device_id,
    {
        self.totp = Some(CachedCode { value: totp, captured_at: now });
    }

    /// Forgets the cached code.
    pub fn clear_totp_cache(&mut self)
        ensures
            final(self).totp is None,
            final(self).device_id == old(self).device_id,
    {
        self.totp = None;
    }

    /// Stores the device identifier; it never expires.
    pub fn set_device_id(&mut self, device_id: String)
        ensures
            final(self).device_id == Some(device_id),
            final(self).totp == old(self).totp,
    {
        self.device_id = Some(device_id);
    }

    /// The cached device identifier.
    pub fn get_device_id(&self) -> (r: Option<String>)
        ensures
            r is Some <==> self.device_id is Some,
            r is Some ==> r->0@ == self.device_id->0@,
    {
        match &self.device_id {
            Some(id) => Some(id.clone()),
            None => None,
        }
    }

    /// Forgets both the code and the identifier.
    pub fn clear(&mut self)
        ensures
            final(self).totp is None,
            final(self).device_id is None,
    {
        self.totp = None;
        self.device_id = None;
    }
}

/// Refresh ahead: a code cached at `t0` and read `t` seconds later is handed
/// out from the cache when `t < 25`, and is fetched afresh when `t >= 25`,
/// five seconds before the 30 s window ends.
pub proof fn lemma_refresh_ahead(value: String, t0: nat, t: nat)
    requires
        t0 + t <= u64::MAX,
        t0 <= u64::MAX,
    ensures
        t < TOTP_REFRESH_AFTER_SECS ==> !spec_should_refresh(
            Some(CachedCode { value, captured_at: t0 as u64 }),
            t0 + t,
        ),
        t < TOTP_REFRESH_AFTER_SECS ==> age(t0 + t, t0) < TOTP_WINDOW_SECS,
        t >= TOTP_REFRESH_AFTER_SECS ==> spec_should_refresh(
            Some(CachedCode { value, captured_at: t0 as u64 }),
            t0 + t,
        ),
        TOTP_REFRESH_AFTER_SECS + TOTP_REFRESH_LEAD_SECS == TOTP_WINDOW_SECS,
{
}

} // verus!
