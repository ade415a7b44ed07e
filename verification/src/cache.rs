use vstd::prelude::*;

use crate::builder::AppModBuilder;
use crate::config::{cfg_lookup, getter_frame, AppModConfigGetter};
use crate::module::AppModInitOptions;

verus! {

/// Configuration of the response-cache module: its maximum entry count.
/// Singleton identity is structural equality of this value.
#[derive(Debug, Clone, Copy, PartialEq, Eq, Structural, Hash)]
pub struct CacheConfig {
    pub max_size: u64,
}

/// One stored cache entry: the produced value, its time-to-live in
/// seconds (zero: never expires), the instant it was created, and the
/// nonce of the production run that created it.
#[derive(Clone)]
pub struct CacheValue<V> {
    pub value: V,
    pub ttl: u64,
    pub created_at_millis: u64,
    pub nonce: u64,
}

/// Expiry policy for cache entries: an entry with a zero time-to-live
/// never expires, any other lives its time-to-live from creation.
pub struct MajordomeExpiry;

impl MajordomeExpiry {
    /// Seconds after creation at which a freshly created entry expires —
    /// none for a zero time-to-live.
    pub fn expire_after_create<V>(
        &self,
        _key: (u64, u64),
        value: &CacheValue<V>,
    ) -> (r: Option<u64>)
        ensures
            value.ttl == 0 ==> r is None,
            value.ttl != 0 ==> r == Some(value.ttl),
    {
        if value.ttl == 0 {
            None
        } else {
            Some(value.ttl)
        }
    }
}

/// One fetched cache entry as handed to the caller: the shared value, the
/// instant the entry was created, and whether it was served from the
/// cache (a hit) rather than produced by this very call.
pub struct CacheItem<T> {
    pub value: std::sync::Arc<T>,
    pub created_at_millis: u64,
    pub hit: bool,
}

impl<T> CacheItem<T> {
    /// Whether another caller's production populated this entry.
    pub fn hit(&self) -> (r: bool)
        ensures
            r == self.hit,
    {
        self.hit
    }

    /// Milliseconds since the entry was created, measured at `now_millis`.
    pub fn age(&self, now_millis: u64) -> (r: u64)
        ensures
            r == if now_millis >= self.created_at_millis {
                now_millis - self.created_at_millis
            } else {
                0
            },
    {
        if now_millis >= self.created_at_millis {
            now_millis - self.created_at_millis
        } else {
            0
        }
    }

    /// The shared value itself.
    pub fn value(self) -> (r: std::sync::Arc<T>)
        ensures
            r == self.value,
    {
        self.value
    }
}

/// A keyed, ttl-carrying fetch in the making: the pre-hashed cache key
/// and the time-to-live the produced entry will carry.
pub struct MajordomeCacheGetter {
    pub key: u64,
    pub ttl: u64,
}

impl MajordomeCacheGetter {
    /// A getter for one pre-hashed key; entries do not expire unless a
    /// time-to-live is set.
    pub fn new(key: u64) -> (r: MajordomeCacheGetter)
        ensures
            r.key == key,
            r.ttl == 0,
    {
        MajordomeCacheGetter { key, ttl: 0 }
    }

    /// Set the expiration time, in seconds.
    pub fn ttl(self, ttl: u64) -> (r: MajordomeCacheGetter)
        ensures
            r.ttl == ttl,
            r.key == self.key,
    {
        MajordomeCacheGetter { ttl, ..self }
    }
}

pub assume_specification<T>[ rand::random::<T> ]() -> (r: T)
    where
        rand::distributions::Standard: rand::distributions::Distribution<T>,
;

/// A nonce for one production run. Nothing is assumed of the drawn value:
/// hit detection must hold whatever comes back.
pub fn fresh_nonce() -> (r: u64) {
    rand::random::<u64>()
}

/// Assemble the entry one production run stores.
pub fn make_cache_value<V>(value: V, ttl: u64, created_at_millis: u64, nonce: u64) -> (r:
    CacheValue<V>)
    ensures
        r == (CacheValue { value, ttl, created_at_millis, nonce }),
{
    CacheValue { value, ttl, created_at_millis, nonce }
}

/// Turn the entry the cache handed back into the caller-facing item. The
/// entry was produced by another caller — a hit — exactly when its nonce
/// differs from the one this caller drew for its own (then unused)
/// production.
pub fn cache_item_from<T>(
    value: std::sync::Arc<T>,
    created_at_millis: u64,
    stored_nonce: u64,
    my_nonce: u64,
) -> (r: CacheItem<T>)
    ensures
        r.value == value,
        r.created_at_millis == created_at_millis,
        r.hit == (stored_nonce != my_nonce),
{
    CacheItem { value, created_at_millis, hit: stored_nonce != my_nonce }
}

/// Resolve the cache module's configuration: `max_size`, one thousand
/// entries unless configured otherwise.
pub fn cache_config(bld: &mut AppModBuilder, opts: &AppModInitOptions<()>) -> (r: CacheConfig)
    ensures
        getter_frame(*old(bld), *final(bld)),
        ({
            let ns = match opts.ns {
                Option::Some(s) => Option::Some(s@),
                Option::None => Option::<Seq<char>>::None,
            };
            let key = crate::strings::upper_of(
                crate::strings::create_key_spec(ns, "majordome_cache"@, "max_size"@),
            );
            cfg_lookup(old(bld).app.config.entries@, key) is None ==> r.max_size == 1000
        }),
{
    let c = AppModConfigGetter::new(opts, "majordome_cache");
    let default: u64 = 1000;
    let max_size = c.get_or(bld, "max_size", &default);
    CacheConfig { max_size }
}

} // verus!
