//! The cache in front of reverse DNS: what is answered from memory, and
//! what is remembered of a lookup. The lookup itself is made by the task
//! that owns the cache.

use vstd::prelude::*;
use vstd::string::StringExecFns;
use dashmap::DashMap;
use tokio::time::Instant;
use crate::clock::{clock_origin, nanos_since};
use crate::dns_table::{
    name_table_get, name_table_insert, name_table_len, name_table_new, names_of, NameMap,
};
use crate::state::{copy_opt, later, opt_text};

verus! {

/// An address as a key: the IP version, 4 or 6, and the address as a
/// number.
pub type AddressKey = (u8, u128);

/// A cached answer as mathematics: the name, if one was found, and the
/// reading of the monotonic clock at which the answer expires.
pub type CachedName = (Option<Seq<char>>, u64);

/// A cached answer. An address without a name is cached like any other.
#[derive(Debug)]
pub struct CacheEntry {
    pub hostname: Option<String>,
    /// Reading of the monotonic clock, in nanoseconds, from which on the
    /// answer is stale.
    pub expires_at: u64,
}

impl View for CacheEntry {
    type V = CachedName;

    open spec fn view(&self) -> CachedName {
        (opt_text(self.hostname), self.expires_at)
    }
}

impl Clone for CacheEntry {
    fn clone(&self) -> (copy: CacheEntry)
        ensures
            copy@ == self@,
    {
        CacheEntry { hostname: copy_opt(&self.hostname), expires_at: self.expires_at }
    }
}

/// What the cache knows of an address.
#[derive(Debug)]
pub enum CacheAnswer {
    /// A fresh answer: the name, or that there is none.
    Fresh(Option<String>),
    /// Nothing fresh: the address has to be looked up.
    Missing,
}

/// What a lookup is taken to have found: the resolver's answer, unless it
/// only gave the address back.
pub open spec fn accepted(found: Option<Seq<char>>, address: Seq<char>) -> Option<Seq<char>> {
    match found {
        Some(name) => if name == address {
            None
        } else {
            Some(name)
        },
        None => None,
    }
}

/// The time at which an answer that was stored at `now` expires.
pub open spec fn expiry(now: u64, ttl: u64) -> u64 {
    if now + ttl <= u64::MAX {
        (now + ttl) as u64
    } else {
        u64::MAX
    }
}

/// The answer that the cache gives for `key` at `now`.
pub open spec fn answer_at(names: NameMap, key: AddressKey, now: u64) -> Option<Option<Seq<char>>> {
    if names.contains_key(key) && now < names[key].1 {
        Some(names[key].0)
    } else {
        None
    }
}

/// What an answer of the cache says: the name, or that there is none, where
/// the answer is fresh, and nothing where it is missing.
pub open spec fn answer_view(answer: CacheAnswer) -> Option<Option<Seq<char>>> {
    match answer {
        CacheAnswer::Fresh(name) => Some(opt_text(name)),
        CacheAnswer::Missing => None,
    }
}

/// The reverse-DNS cache.
pub struct DnsCache {
    cache: DashMap<AddressKey, CacheEntry>,
    ttl: u64,
    timeout: u64,
    origin: Instant,
    latest: u64,
}

impl DnsCache {
    /// The answers held, fresh or not.
    pub closed spec fn names(&self) -> NameMap {
        names_of(self.cache)
    }

    /// Nanoseconds for which an answer stays fresh.
    pub closed spec fn ttl(&self) -> u64 {
        self.ttl
    }

    /// Nanoseconds that one lookup may take.
    pub closed spec fn timeout(&self) -> u64 {
        self.timeout
    }

    /// The latest reading of the monotonic clock at which an answer was
    /// stored, in nanoseconds; zero before the first.
    pub closed spec fn latest(&self) -> u64 {
        self.latest
    }

    /// An empty cache. `ttl` is how long an answer, found or not, stays
    /// fresh; `timeout` how long one lookup may take; both in nanoseconds.
    pub fn new(ttl: u64, timeout: u64) -> (cache: DnsCache)
        ensures
            cache.names() == NameMap::empty(),
            cache.ttl() == ttl,
            cache.timeout() == timeout,
            cache.latest() == 0,
    {
        DnsCache { cache: name_table_new(), ttl, timeout, origin: clock_origin(), latest: 0 }
    }

    /// Nanoseconds that one lookup may take.
    pub fn lookup_timeout(&self) -> (nanos: u64)
        ensures
            nanos == self.timeout(),
    {
        self.timeout
    }

    /// Number of answers held.
    pub fn len(&self) -> (n: usize)
        ensures
            n == self.names().dom().len(),
    {
        name_table_len(&self.cache)
    }

    /// Reading of this cache's monotonic clock, in nanoseconds. The clock
    /// does not go back: a reading that came out earlier than the latest
    /// one at which an answer was stored is given as that one.
    pub fn now(&self) -> (reading: u64)
        ensures
            reading >= self.latest(),
    {
        let reading = nanos_since(&self.origin);
        if reading < self.latest {
            self.latest
        } else {
            reading
        }
    }

    /// What the cache knows of `key` at `now`: the answer it holds, while
    /// that is fresh.
    pub fn lookup_at(&self, key: AddressKey, now: u64) -> (answer: CacheAnswer)
        ensures
            match answer {
                CacheAnswer::Fresh(name) => answer_at(self.names(), key, now) == Some(
                    opt_text(name),
                ),
                CacheAnswer::Missing => answer_at(self.names(), key, now) is None,
            },
    {
        match name_table_get(&self.cache, key) {
            Some(entry) => {
                if now < entry.expires_at {
                    CacheAnswer::Fresh(entry.hostname)
                } else {
                    CacheAnswer::Missing
                }
            },
            None => CacheAnswer::Missing,
        }
    }

    /// Remembers what a lookup of `address`, made at `now`, came back with,
    /// and gives the name to use. A lookup that failed, ran out of time or
    /// only gave the address back counts as "no name", and is remembered
    /// for as long as a name would be.
    pub fn store_at(&mut self, key: AddressKey, address: &str, found: Option<String>, now: u64) -> (name:
        Option<String>)
        ensures
            opt_text(name) == accepted(opt_text(found), address@),
            final(self).names() == old(self).names().insert(
                key,
                (accepted(opt_text(found), address@), expiry(now, old(self).ttl())),
            ),
            final(self).ttl() == old(self).ttl(),
            final(self).timeout() == old(self).timeout(),
            final(self).latest() == later(old(self).latest(), now),
    {
        let name: Option<String> = match found {
            Some(text) => {
                if text == String::from_str(address) {
                    None
                } else {
                    Some(text)
                }
            },
            None => None,
        };
        let expires_at = if now <= u64::MAX - self.ttl {
            now + self.ttl
        } else {
            u64::MAX
        };
        name_table_insert(
            &mut self.cache,
            key,
            CacheEntry { hostname: copy_opt(&name), expires_at },
        );
        if now > self.latest {
            self.latest = now;
        }
        name
    }

    /// What the cache knows of `key` now, by its monotonic clock: the
    /// answer that it gives at the reading, which is never earlier than the
    /// latest at which an answer was stored. So a key that is not held, or
    /// whose answer had expired by then, is missing whatever the clock
    /// shows, and a name that is given is the one held for the key.
    pub fn lookup(&self, key: AddressKey) -> (answer: CacheAnswer)
        ensures
            exists|now: u64|
                now >= self.latest() && #[trigger] answer_at(self.names(), key, now)
                    == answer_view(answer),
            answer matches CacheAnswer::Fresh(name) ==> self.names().contains_key(key)
                && self.names()[key].0 == opt_text(name) && self.latest()
                < self.names()[key].1,
            !self.names().contains_key(key) || self.names()[key].1 <= self.latest()
                ==> answer is Missing,
    {
        let now = self.now();
        let answer = self.lookup_at(key, now);
        assert(answer_at(self.names(), key, now) == answer_view(answer));
        answer
    }

    /// Remembers what a lookup of `address` came back with, as of now by
    /// the cache's monotonic clock, and gives the name to use. The reading,
    /// which is never earlier than the latest before, becomes the latest,
    /// and the answer expires one time to live after it.
    pub fn store(&mut self, key: AddressKey, address: &str, found: Option<String>) -> (name: Option<
        String,
    >)
        ensures
            opt_text(name) == accepted(opt_text(found), address@),
            final(self).latest() >= old(self).latest(),
            final(self).names() == old(self).names().insert(
                key,
                (
                    accepted(opt_text(found), address@),
                    expiry(final(self).latest(), old(self).ttl()),
                ),
            ),
            final(self).ttl() == old(self).ttl(),
            final(self).timeout() == old(self).timeout(),
    {
        let now = self.now();
        self.store_at(key, address, found, now)
    }
}

} // verus!
