//! Decisions of the tenant- and audience-partitioned dynamic credential cache.
//!
//! The cache holds at most one credential per partition and at most one refresh in flight
//! per partition; the storage, the lock and the waiting live with the runtime, which asks
//! these functions what to do.

use vstd::prelude::*;

use crate::error::LlmError;

use super::dynamic::DynamicCredential;

verus! {

/// The partition a dynamic credential is cached under: tenant, provider, product, the
/// audience's binding label and origin, and the credential identity.
#[derive(PartialEq, Eq, Hash)]
pub struct AuthCacheKey {
    /// Tenant partition.
    pub tenant_id: String,
    /// Provider.
    pub provider_id: String,
    /// Product.
    pub product_id: String,
    /// Label of the audience's credential binding.
    pub audience_label: String,
    /// Scheme of the audience's origin.
    pub audience_scheme: String,
    /// Host of the audience's origin.
    pub audience_host: String,
    /// Port of the audience's origin.
    pub audience_port: u16,
    /// Credential identity partition.
    pub credential_identity: String,
}

/// `a` and `b` are the same credential.
pub open spec fn same_credential(a: DynamicCredential, b: DynamicCredential) -> bool {
    &&& a.spec_key() == b.spec_key()
    &&& a.spec_scheme() == b.spec_scheme()
    &&& a.spec_expires_at() == b.spec_expires_at()
}

/// The credential is fresh at `now`: more than the refresh window remains before expiry.
pub open spec fn fresh_at(c: DynamicCredential, now: u64, refresh_window: u64) -> bool {
    c.spec_expires_at() > now && c.spec_expires_at() - now > refresh_window
}

/// What the runtime does next for one cache partition.
pub enum CacheStep {
    /// Use this cached credential.
    Use(DynamicCredential),
    /// Wait for the refresh already in flight, then ask again.
    Wait,
    /// Fetch a new credential; the credential that has not yet expired, if any, is the
    /// fallback for a failed fetch.
    Fetch(Option<DynamicCredential>),
}

/// Decides what to do for one partition at `now`: use the cached credential while it is
/// fresh; otherwise wait when a refresh is in flight; otherwise fetch, keeping a cached
/// credential that has not yet expired as the fallback.
pub fn cache_step(
    cached: Option<&DynamicCredential>,
    refresh_in_flight: bool,
    now: u64,
    refresh_window: u64,
) -> (r: CacheStep)
    ensures
        match cached {
            Some(c) => if fresh_at(*c, now, refresh_window) {
                r matches CacheStep::Use(u) && same_credential(u, *c)
            } else if refresh_in_flight {
                r is Wait
            } else if c.spec_expires_at() > now {
                r matches CacheStep::Fetch(Some(f)) && same_credential(f, *c)
            } else {
                r matches CacheStep::Fetch(None)
            },
            None => if refresh_in_flight {
                r is Wait
            } else {
                r matches CacheStep::Fetch(None)
            },
        },
{
    if let Some(c) = cached {
        if c.is_fresh_at(now, refresh_window) {
            return CacheStep::Use(c.duplicate());
        }
    }
    let fallback = match cached {
        Some(c) => if c.expires_at() > now {
            Some(c.duplicate())
        } else {
            None
        },
        None => None,
    };
    if refresh_in_flight {
        CacheStep::Wait
    } else {
        CacheStep::Fetch(fallback)
    }
}

/// Settles a finished fetch: its credential when it succeeded; otherwise the fallback when
/// one exists and falling back is allowed; otherwise its error. Only a successful fetch is
/// stored in the cache.
pub fn settle_refresh(
    fetched: Result<DynamicCredential, LlmError>,
    fallback: Option<DynamicCredential>,
    allow_still_valid_fallback: bool,
) -> (r: Result<DynamicCredential, LlmError>)
    ensures
        match fetched {
            Ok(c) => r matches Ok(u) && same_credential(u, c),
            Err(e) => match fallback {
                Some(f) if allow_still_valid_fallback => r matches Ok(u) && same_credential(u, f),
                _ => r matches Err(x) && x == e,
            },
        },
{
    match fetched {
        Ok(c) => Ok(c),
        Err(e) => match fallback {
            Some(f) => if allow_still_valid_fallback {
                Ok(f)
            } else {
                Err(e)
            },
            None => Err(e),
        },
    }
}

} // verus!
