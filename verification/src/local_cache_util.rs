//! Expiry policies and the process-local expiring cache.
//!
//! Each entry is inserted together with an [`Expiration`] policy; the
//! entry's deadline is computed once, at insertion, from the policy and
//! the insertion time, and is never extended by a read. An expired
//! entry is invisible to `get`. Time is a caller-supplied millisecond
//! clock, so the behaviour is a pure function of the call arguments.

use vstd::prelude::*;

verus! {

/// How long a cache entry lives after its insertion.
///
/// Durations are in milliseconds. `Never` means the entry does not
/// expire; `AfterDuration` carries an arbitrary lifetime.
#[derive(Clone, Copy, Debug, PartialEq, Eq, Structural)]
pub enum Expiration {
    Never,
    Minutes5,
    Seconds30,
    Seconds60,
    Hours2,
    AfterDuration(u64),
}

impl Expiration {
    /// The lifetime this policy grants, in milliseconds; `None` for `Never`.
    pub open spec fn spec_as_duration(self) -> Option<u64> {
        match self {
            Expiration::Never => None,
            Expiration::Minutes5 => Some(300_000u64),
            Expiration::Seconds30 => Some(30_000u64),
            Expiration::Seconds60 => Some(60_000u64),
            Expiration::Hours2 => Some(7_200_000u64),
            Expiration::AfterDuration(d) => Some(d),
        }
    }

    /// Lifetime in milliseconds granted by this policy, `None` for `Never`.
    pub fn as_duration(&self) -> (r: Option<u64>)
        ensures
            r == self.spec_as_duration(),
    {
        match self {
            Expiration::Never => None,
            Expiration::Minutes5 => Some(300_000u64),
            Expiration::Seconds30 => Some(30_000u64),
            Expiration::Seconds60 => Some(60_000u64),
            Expiration::Hours2 => Some(7_200_000u64),
            Expiration::AfterDuration(d) => Some(*d),
        }
    }
}

/// Computes, at insertion, how long a new entry may live.
pub struct InMemExpiry;

impl InMemExpiry {
    /// The lifetime of a fresh entry: read off the entry's own policy.
    /// The key and the insertion instant play no part.
    pub fn expire_after_create(
        &self,
        _key: &String,
        value: &(Expiration, String),
        _current_time: u64,
    ) -> (r: Option<u64>)
        ensures
            r == value.0.spec_as_duration(),
    {
        value.0.as_duration()
    }
}

/// One stored entry: the key, the policy and value pair it was inserted
/// with, and the deadline computed once at insertion (`None`: never
/// expires).
pub struct CacheEntry {
    pub key: String,
    pub policy: Expiration,
    pub value: String,
    pub expires_at: Option<u64>,
}

/// The deadline an entry inserted at `now` receives under `policy`:
/// `now` plus the policy's lifetime, saturating at the clock's maximum.
pub open spec fn spec_expiry(policy: Expiration, now: u64) -> Option<u64> {
    match policy.spec_as_duration() {
        None => None,
        Some(d) => Some(if now + d > u64::MAX { u64::MAX } else { (now + d) as u64 }),
    }
}

/// Whether an entry is still visible to a read at time `now`.
pub open spec fn entry_visible(e: CacheEntry, now: u64) -> bool {
    match e.expires_at {
        None => true,
        Some(t) => now < t,
    }
}

/// The first entry in `entries` whose key reads `k`, if any.
pub open spec fn find_in(entries: Seq<CacheEntry>, k: Seq<char>) -> Option<CacheEntry>
    decreases entries.len(),
{
    if entries.len() == 0 {
        None
    } else if entries[0].key@ == k {
        Some(entries[0])
    } else {
        find_in(entries.drop_first(), k)
    }
}

proof fn lemma_find_skip(s: Seq<CacheEntry>, k: Seq<char>, i: int)
    requires
        0 <= i <= s.len(),
        forall|j: int| 0 <= j < i ==> s[j].key@ != k,
    ensures
        find_in(s, k) == find_in(s.skip(i), k),
    decreases i,
{
    if i > 0 {
        assert(s.drop_first().skip(i - 1) =~= s.skip(i));
        lemma_find_skip(s.drop_first(), k, i - 1);
    } else {
        assert(s.skip(0) =~= s);
    }
}

proof fn lemma_find_absent(s: Seq<CacheEntry>, k: Seq<char>)
    requires
        forall|j: int| 0 <= j < s.len() ==> s[j].key@ != k,
    ensures
        find_in(s, k) is None,
    decreases s.len(),
{
    if s.len() > 0 {
        lemma_find_absent(s.drop_first(), k);
    }
}

proof fn lemma_find_update_other(s: Seq<CacheEntry>, i: int, e: CacheEntry, k2: Seq<char>)
    requires
        0 <= i < s.len(),
        s[i].key@ == e.key@,
        k2 != e.key@,
    ensures
        find_in(s.update(i, e), k2) == find_in(s, k2),
    decreases s.len(),
{
    let t = s.update(i, e);
    if i == 0 {
        assert(t.drop_first() =~= s.drop_first());
    } else {
        assert(t[0] == s[0]);
        if s[0].key@ != k2 {
            assert(t.drop_first() =~= s.drop_first().update(i - 1, e));
            lemma_find_update_other(s.drop_first(), i - 1, e, k2);
        }
    }
}

proof fn lemma_find_push(s: Seq<CacheEntry>, e: CacheEntry, k: Seq<char>)
    ensures
        find_in(s.push(e), k) == (if find_in(s, k) is Some {
            find_in(s, k)
        } else if e.key@ == k {
            Some(e)
        } else {
            None::<CacheEntry>
        }),
    decreases s.len(),
{
    let t = s.push(e);
    if s.len() == 0 {
        assert(t[0] == e);
        assert(t.drop_first() =~= Seq::<CacheEntry>::empty());
    } else {
        assert(t[0] == s[0]);
        assert(t.drop_first() =~= s.drop_first().push(e));
        lemma_find_push(s.drop_first(), e, k);
    }
}

proof fn lemma_find_remove_other(s: Seq<CacheEntry>, i: int, k2: Seq<char>)
    requires
        0 <= i < s.len(),
        k2 != s[i].key@,
    ensures
        find_in(s.remove(i), k2) == find_in(s, k2),
    decreases s.len(),
{
    let t = s.remove(i);
    if i == 0 {
        assert(t =~= s.drop_first());
    } else {
        assert(t[0] == s[0]);
        if s[0].key@ != k2 {
            assert(t.drop_first() =~= s.drop_first().remove(i - 1));
            lemma_find_remove_other(s.drop_first(), i - 1, k2);
        }
    }
}

/// Law: an entry inserted under a zero-length lifetime is invisible to
/// any read at or after its insertion time.
pub proof fn lemma_immediate_expiry_invisible(e: CacheEntry, insert_time: u64, probe_time: u64)
    requires
        e.expires_at == spec_expiry(Expiration::AfterDuration(0), insert_time),
        probe_time >= insert_time,
    ensures
        !entry_visible(e, probe_time),
{
}

/// A key-value store whose entries each carry their own deadline,
/// computed once at insertion from the entry's [`Expiration`] policy.
/// Reads never extend a deadline; an expired entry is never returned.
pub struct LocalCache {
    entries: Vec<CacheEntry>,
}

impl LocalCache {
    /// Keys are pairwise distinct, so a key identifies at most one entry.
    pub closed spec fn wf(self) -> bool {
        forall|i: int, j: int|
            0 <= i < j < self.entries@.len() ==> self.entries@[i].key@ != self.entries@[j].key@
    }

    /// The entry stored under key `k`, if any.
    pub closed spec fn spec_find(self, k: Seq<char>) -> Option<CacheEntry> {
        find_in(self.entries@, k)
    }

    /// An empty cache.
    pub fn new() -> (r: LocalCache)
        ensures
            r.wf(),
            forall|k: Seq<char>| r.spec_find(k) is None,
    {
        LocalCache { entries: Vec::new() }
    }

    fn find_index(&self, key: &String) -> (r: Option<usize>)
        ensures
            match r {
                Some(i) => i < self.entries@.len() && self.entries@[i as int].key@ == key@
                    && (forall|j: int| 0 <= j < i ==> self.entries@[j].key@ != key@)
                    && self.spec_find(key@) == Some(self.entries@[i as int]),
                None => self.spec_find(key@) is None && (forall|j: int|
                    0 <= j < self.entries@.len() ==> self.entries@[j].key@ != key@),
            },
    {
        let n = self.entries.len();
        let mut i: usize = 0;
        while i < n
            invariant
                i <= n,
                n == self.entries@.len(),
                forall|j: int| 0 <= j < i ==> self.entries@[j].key@ != key@,
            decreases n - i,
        {
            if self.entries[i].key == *key {
                proof {
                    lemma_find_skip(self.entries@, key@, i as int);
                }
                return Some(i);
            }
            i += 1;
        }
        proof {
            lemma_find_absent(self.entries@, key@);
        }
        None
    }

    fn compute_expiry(policy: Expiration, now: u64) -> (r: Option<u64>)
        ensures
            r == spec_expiry(policy, now),
    {
        match policy.as_duration() {
            None => None,
            Some(d) => if now > u64::MAX - d {
                Some(u64::MAX)
            } else {
                Some(now + d)
            },
        }
    }

    /// Stores `value` under `key` at time `now`. The entry's deadline is
    /// computed here, from the new policy and `now` alone: an insert over
    /// an existing key always replaces the prior value and the prior
    /// expiry computation, whatever they were. No other key is touched.
    pub fn insert(&mut self, key: String, value: (Expiration, String), now: u64)
        requires
            old(self).wf(),
        ensures
            final(self).wf(),
            final(self).spec_find(key@) matches Some(e) && e.key@ == key@ && e.policy == value.0
                && e.value@ == value.1@ && e.expires_at == spec_expiry(value.0, now),
            forall|k2: Seq<char>| k2 != key@ ==> final(self).spec_find(k2) == old(self).spec_find(
                k2,
            ),
    {
        let expires_at = Self::compute_expiry(value.0, now);
        match self.find_index(&key) {
            Some(i) => {
                let e = CacheEntry { key, policy: value.0, value: value.1, expires_at };
                proof {
                    assert forall|k2: Seq<char>| k2 != e.key@ implies find_in(
                        self.entries@.update(i as int, e),
                        k2,
                    ) == find_in(self.entries@, k2) by {
                        lemma_find_update_other(self.entries@, i as int, e, k2);
                    }
                    lemma_find_skip(self.entries@.update(i as int, e), e.key@, i as int);
                }
                self.entries.set(i, e);
            },
            None => {
                let e = CacheEntry { key, policy: value.0, value: value.1, expires_at };
                proof {
                    assert forall|k2: Seq<char>| true implies find_in(
                        self.entries@.push(e),
                        k2,
                    ) == (if find_in(self.entries@, k2) is Some {
                        find_in(self.entries@, k2)
                    } else if e.key@ == k2 {
                        Some(e)
                    } else {
                        None::<CacheEntry>
                    }) by {
                        lemma_find_push(self.entries@, e, k2);
                    }
                }
                self.entries.push(e);
            },
        }
    }

    /// Drops the entry stored under `key`, if any; no other key is touched.
    pub fn remove(&mut self, key: &String)
        requires
            old(self).wf(),
        ensures
            final(self).wf(),
            final(self).spec_find(key@) is None,
            forall|k2: Seq<char>| k2 != key@ ==> final(self).spec_find(k2) == old(self).spec_find(
                k2,
            ),
    {
        match self.find_index(key) {
            Some(i) => {
                proof {
                    assert forall|k2: Seq<char>| k2 != key@ implies find_in(
                        self.entries@.remove(i as int),
                        k2,
                    ) == find_in(self.entries@, k2) by {
                        lemma_find_remove_other(self.entries@, i as int, k2);
                    }
                    assert forall|j: int|
                        0 <= j < self.entries@.remove(i as int).len() implies self.entries@.remove(
                        i as int,
                    )[j].key@ != key@ by {}
                    lemma_find_absent(self.entries@.remove(i as int), key@);
                }
                self.entries.remove(i);
            },
            None => {},
        }
    }

    /// The policy and value stored under `key`, if the entry is still
    /// visible at time `now`. An expired entry is never returned, and a
    /// read never changes the cache.
    pub fn get(&self, key: &String, now: u64) -> (r: Option<(Expiration, String)>)
        ensures
            self.spec_find(key@) is None ==> r is None,
            self.spec_find(key@) matches Some(e) ==> r == (if entry_visible(e, now) {
                Some((e.policy, e.value))
            } else {
                None::<(Expiration, String)>
            }),
    {
        match self.find_index(key) {
            Some(i) => {
                let e = &self.entries[i];
                let visible = match e.expires_at {
                    None => true,
                    Some(t) => now < t,
                };
                if visible {
                    Some((e.policy, e.value.clone()))
                } else {
                    None
                }
            },
            None => None,
        }
    }
}

} // verus!
