//! The in-memory token cache: a mapping from profile fingerprint keys to
//! tokens, with the save-time filter that drops entries no longer worth
//! persisting.
//!
//! The surrounding process persists the entry list as a single file and
//! rebuilds the cache from whatever it can read back; this module owns the
//! mapping semantics — key uniqueness, lookup, replacement on insert, and
//! expiry-based filtering.

use vstd::prelude::*;

use crate::text::str_eq;
use crate::token::Token;

verus! {

/// One persisted cache entry: a fingerprint key and the token cached under
/// it.
#[derive(Debug, PartialEq)]
pub struct CacheEntry {
    pub key: String,
    pub token: Token,
}

impl Clone for CacheEntry {
    fn clone(&self) -> (r: Self)
        ensures
            r == *self,
    {
        CacheEntry { key: self.key.clone(), token: self.token.clone() }
    }
}

/// No two entries share a key.
pub open spec fn distinct_keys(s: Seq<CacheEntry>) -> bool {
    forall|i: int, j: int| 0 <= i < j < s.len() ==> s[i].key@ != s[j].key@
}

/// The mapping an entry list denotes; on duplicate keys the later entry
/// wins.
pub open spec fn entries_map(s: Seq<CacheEntry>) -> Map<Seq<char>, Token>
    decreases s.len(),
{
    if s.len() == 0 {
        Map::empty()
    } else {
        entries_map(s.drop_last()).insert(s.last().key@, s.last().token)
    }
}

/// The entries of `s` still worth persisting at time `now`, in order.
pub open spec fn live_entries(s: Seq<CacheEntry>, now: int) -> Seq<CacheEntry>
    decreases s.len(),
{
    if s.len() == 0 {
        s
    } else if s.last().token.spec_cache_expired(now) {
        live_entries(s.drop_last(), now)
    } else {
        live_entries(s.drop_last(), now).push(s.last())
    }
}

/// The entries of `s` whose key is not `k`, in order.
pub open spec fn remove_key(s: Seq<CacheEntry>, k: Seq<char>) -> Seq<CacheEntry>
    decreases s.len(),
{
    if s.len() == 0 {
        s
    } else if s.last().key@ == k {
        remove_key(s.drop_last(), k)
    } else {
        remove_key(s.drop_last(), k).push(s.last())
    }
}

proof fn lemma_entries_map_contains(s: Seq<CacheEntry>, k: Seq<char>)
    ensures
        entries_map(s).dom().contains(k) <==> exists|i: int| 0 <= i < s.len() && s[i].key@ == k,
    decreases s.len(),
{
    if s.len() > 0 {
        lemma_entries_map_contains(s.drop_last(), k);
        if entries_map(s).dom().contains(k) && s.last().key@ != k {
            let i = choose|i: int| 0 <= i < s.drop_last().len() && s.drop_last()[i].key@ == k;
            assert(s[i].key@ == k);
        }
        if exists|i: int| 0 <= i < s.len() && s[i].key@ == k {
            let i = choose|i: int| 0 <= i < s.len() && s[i].key@ == k;
            if i < s.len() - 1 {
                assert(s.drop_last()[i].key@ == k);
            }
        }
    }
}

proof fn lemma_entries_map_value(s: Seq<CacheEntry>, i: int)
    requires
        distinct_keys(s),
        0 <= i < s.len(),
    ensures
        entries_map(s).dom().contains(s[i].key@),
        entries_map(s)[s[i].key@] == s[i].token,
    decreases s.len(),
{
    if i < s.len() - 1 {
        assert(distinct_keys(s.drop_last()));
        assert(s.drop_last()[i] == s[i]);
        lemma_entries_map_value(s.drop_last(), i);
        assert(s.last().key@ != s[i].key@);
    }
}

/// What the save-time filter does to the denoted mapping: exactly the
/// entries not yet expired under the cache margin survive, unchanged.
proof fn lemma_live_entries_map(s: Seq<CacheEntry>, now: int)
    requires
        distinct_keys(s),
    ensures
        distinct_keys(live_entries(s, now)),
        forall|i: int|
            0 <= i < live_entries(s, now).len() ==> exists|j: int|
                0 <= j < s.len() && #[trigger] live_entries(s, now)[i] == s[j],
        forall|k: Seq<char>|
            #[trigger] entries_map(live_entries(s, now)).dom().contains(k) <==> (entries_map(
                s,
            ).dom().contains(k) && !entries_map(s)[k].spec_cache_expired(now)),
        forall|k: Seq<char>|
            entries_map(live_entries(s, now)).dom().contains(k) ==> #[trigger] entries_map(
                live_entries(s, now),
            )[k] == entries_map(s)[k],
    decreases s.len(),
{
    if s.len() > 0 {
        let dl = s.drop_last();
        let e = s.last();
        assert(distinct_keys(dl));
        lemma_live_entries_map(dl, now);
        lemma_entries_map_contains(dl, e.key@);
        assert(!entries_map(dl).dom().contains(e.key@));
        let live = live_entries(s, now);
        let ldl = live_entries(dl, now);
        if !e.token.spec_cache_expired(now) {
            assert(live == ldl.push(e));
            assert(ldl.push(e).drop_last() =~= ldl);
            assert(entries_map(live) == entries_map(ldl).insert(e.key@, e.token));
            // Every entry of live(dl) comes from dl, whose keys all differ
            // from e.key, so appending e keeps the keys distinct.
            assert forall|i: int| 0 <= i < live.len() implies exists|j: int|
                0 <= j < s.len() && #[trigger] live[i] == s[j] by {
                if i < live.len() - 1 {
                    let j = choose|j: int| 0 <= j < dl.len() && ldl[i] == dl[j];
                    assert(live[i] == s[j]);
                } else {
                    assert(live[i] == s[s.len() - 1]);
                }
            }
            assert forall|i: int, j: int| 0 <= i < j < live.len() implies live[i].key@
                != live[j].key@ by {
                if j < live.len() - 1 {
                    assert(ldl[i].key@ != ldl[j].key@);
                } else {
                    let jj = choose|jj: int| 0 <= jj < dl.len() && ldl[i] == dl[jj];
                    assert(dl[jj].key@ != e.key@);
                }
            }
            assert forall|k: Seq<char>| #[trigger]
                entries_map(live).dom().contains(k) <==> (entries_map(s).dom().contains(k)
                    && !entries_map(s)[k].spec_cache_expired(now)) by {
                if k != e.key@ {
                    assert(entries_map(live).dom().contains(k) <==> entries_map(
                        ldl,
                    ).dom().contains(k));
                    assert(entries_map(s).dom().contains(k) <==> entries_map(dl).dom().contains(
                        k,
                    ));
                }
            }
            assert forall|k: Seq<char>|
                entries_map(live).dom().contains(k) implies #[trigger] entries_map(live)[k]
                == entries_map(s)[k] by {
                if k != e.key@ {
                    assert(entries_map(live)[k] == entries_map(ldl)[k]);
                    assert(entries_map(s)[k] == entries_map(dl)[k]);
                }
            }
        } else {
            assert(live == ldl);
            assert forall|k: Seq<char>| #[trigger]
                entries_map(live).dom().contains(k) <==> (entries_map(s).dom().contains(k)
                    && !entries_map(s)[k].spec_cache_expired(now)) by {
                if k == e.key@ {
                    assert(!entries_map(dl).dom().contains(k));
                    assert(!entries_map(ldl).dom().contains(k));
                    assert(entries_map(s)[k] == e.token);
                } else {
                    assert(entries_map(s).dom().contains(k) <==> entries_map(dl).dom().contains(
                        k,
                    ));
                }
            }
            assert forall|k: Seq<char>|
                entries_map(live).dom().contains(k) implies #[trigger] entries_map(live)[k]
                == entries_map(s)[k] by {
                assert(k != e.key@);
                assert(entries_map(s)[k] == entries_map(dl)[k]);
            }
        }
    }
}

/// What dropping one key does to the denoted mapping.
proof fn lemma_remove_key_map(s: Seq<CacheEntry>, k: Seq<char>)
    requires
        distinct_keys(s),
    ensures
        distinct_keys(remove_key(s, k)),
        forall|i: int|
            0 <= i < remove_key(s, k).len() ==> exists|j: int|
                0 <= j < s.len() && #[trigger] remove_key(s, k)[i] == s[j],
        !entries_map(remove_key(s, k)).dom().contains(k),
        forall|k2: Seq<char>|
            k2 != k ==> (#[trigger] entries_map(remove_key(s, k)).dom().contains(k2) <==> entries_map(
                s,
            ).dom().contains(k2)),
        forall|k2: Seq<char>|
            k2 != k && entries_map(remove_key(s, k)).dom().contains(k2) ==> #[trigger] entries_map(
                remove_key(s, k),
            )[k2] == entries_map(s)[k2],
    decreases s.len(),
{
    if s.len() > 0 {
        let dl = s.drop_last();
        let e = s.last();
        assert(distinct_keys(dl));
        lemma_remove_key_map(dl, k);
        let rem = remove_key(s, k);
        let rdl = remove_key(dl, k);
        if e.key@ != k {
            assert(rem == rdl.push(e));
            assert(rdl.push(e).drop_last() =~= rdl);
            assert(entries_map(rem) == entries_map(rdl).insert(e.key@, e.token));
            assert forall|i: int| 0 <= i < rem.len() implies exists|j: int|
                0 <= j < s.len() && #[trigger] rem[i] == s[j] by {
                if i < rem.len() - 1 {
                    let j = choose|j: int| 0 <= j < dl.len() && rdl[i] == dl[j];
                    assert(rem[i] == s[j]);
                } else {
                    assert(rem[i] == s[s.len() - 1]);
                }
            }
            assert forall|i: int, j: int| 0 <= i < j < rem.len() implies rem[i].key@
                != rem[j].key@ by {
                if j < rem.len() - 1 {
                    assert(rdl[i].key@ != rdl[j].key@);
                } else {
                    let jj = choose|jj: int| 0 <= jj < dl.len() && rdl[i] == dl[jj];
                    assert(dl[jj].key@ != e.key@);
                }
            }
            assert forall|k2: Seq<char>|
                k2 != k implies (#[trigger] entries_map(rem).dom().contains(k2) <==> entries_map(
                s,
            ).dom().contains(k2)) by {
                if k2 != e.key@ {
                    assert(entries_map(rem).dom().contains(k2) <==> entries_map(
                        rdl,
                    ).dom().contains(k2));
                    assert(entries_map(s).dom().contains(k2) <==> entries_map(dl).dom().contains(
                        k2,
                    ));
                }
            }
            assert forall|k2: Seq<char>|
                k2 != k && entries_map(rem).dom().contains(k2) implies #[trigger] entries_map(
                rem,
            )[k2] == entries_map(s)[k2] by {
                if k2 != e.key@ {
                    assert(entries_map(rem)[k2] == entries_map(rdl)[k2]);
                    assert(entries_map(s)[k2] == entries_map(dl)[k2]);
                }
            }
        } else {
            assert(rem == rdl);
            assert forall|k2: Seq<char>|
                k2 != k implies (#[trigger] entries_map(rem).dom().contains(k2) <==> entries_map(
                s,
            ).dom().contains(k2)) by {
                assert(entries_map(s).dom().contains(k2) <==> entries_map(dl).dom().contains(k2));
            }
            assert forall|k2: Seq<char>|
                k2 != k && entries_map(rem).dom().contains(k2) implies #[trigger] entries_map(
                rem,
            )[k2] == entries_map(s)[k2] by {
                assert(entries_map(s)[k2] == entries_map(dl)[k2]);
            }
        }
    }
}

/// The persistent token cache, keyed by profile fingerprint.
#[derive(Debug, PartialEq)]
pub struct TokenCache {
    entries: Vec<CacheEntry>,
}

impl TokenCache {
    /// The entry list in storage order.
    pub closed spec fn spec_entries(&self) -> Seq<CacheEntry> {
        self.entries@
    }

    /// Key uniqueness: the invariant every constructor establishes and
    /// every operation preserves.
    pub open spec fn wf(&self) -> bool {
        distinct_keys(self.spec_entries())
    }

    /// The mapping this cache denotes.
    pub open spec fn as_map(&self) -> Map<Seq<char>, Token> {
        entries_map(self.spec_entries())
    }

    /// The mapping left after the save-time filter at time `now`.
    pub open spec fn spec_pruned_map(&self, now: int) -> Map<Seq<char>, Token> {
        entries_map(live_entries(self.spec_entries(), now))
    }

    /// An empty cache, as used when the persisted state is missing or
    /// unreadable.
    pub fn new() -> (r: TokenCache)
        ensures
            r.wf(),
            r.spec_entries().len() == 0,
            r.as_map() == Map::<Seq<char>, Token>::empty(),
    {
        TokenCache { entries: Vec::new() }
    }

    /// Number of entries held.
    pub fn entry_count(&self) -> (n: usize)
        ensures
            n == self.spec_entries().len(),
    {
        self.entries.len()
    }

    /// The entry at position `i`, for persisting the cache entry by entry.
    pub fn entry_at(&self, i: usize) -> (e: &CacheEntry)
        requires
            i < self.spec_entries().len(),
        ensures
            *e == self.spec_entries()[i as int],
    {
        &self.entries[i]
    }

    /// The token cached under `key`, if any.
    pub fn get(&self, key: &str) -> (r: Option<&Token>)
        requires
            self.wf(),
        ensures
            (r matches Some(t) ==> self.as_map().dom().contains(key@) && *t == self.as_map()[key@]),
            (r is None ==> !self.as_map().dom().contains(key@)),
    {
        let n = self.entries.len();
        let mut i: usize = 0;
        while i < n
            invariant
                n == self.spec_entries().len(),
                0 <= i <= n,
                self.wf(),
                forall|j: int| 0 <= j < i ==> self.spec_entries()[j].key@ != key@,
            decreases n - i,
        {
            if str_eq(self.entries[i].key.as_str(), key) {
                proof {
                    lemma_entries_map_value(self.spec_entries(), i as int);
                }
                return Some(&self.entries[i].token);
            }
            i = i + 1;
        }
        proof {
            lemma_entries_map_contains(self.spec_entries(), key@);
        }
        None
    }

    /// Caches `token` under `key`, replacing any previous entry with that
    /// key.
    pub fn insert(&mut self, key: String, token: Token)
        requires
            old(self).wf(),
        ensures
            final(self).wf(),
            final(self).as_map() == old(self).as_map().insert(key@, token),
    {
        let ghost s0 = self.spec_entries();
        let n = self.entries.len();
        let mut out: Vec<CacheEntry> = Vec::new();
        let mut i: usize = 0;
        while i < n
            invariant
                n == self.spec_entries().len(),
                0 <= i <= n,
                self.wf(),
                s0 == self.spec_entries(),
                out@ == remove_key(s0.subrange(0, i as int), key@),
            decreases n - i,
        {
            let e = &self.entries[i];
            proof {
                assert(s0.subrange(0, i as int + 1).drop_last() =~= s0.subrange(0, i as int));
                assert(s0.subrange(0, i as int + 1).last() == s0[i as int]);
            }
            if !str_eq(e.key.as_str(), key.as_str()) {
                out.push(e.clone());
            }
            i = i + 1;
        }
        proof {
            assert(s0.subrange(0, n as int) =~= s0);
            lemma_remove_key_map(s0, key@);
        }
        let ghost removed = out@;
        out.push(CacheEntry { key, token });
        proof {
            assert(out@.drop_last() =~= removed);
            // Key uniqueness of the result: every earlier entry came from
            // the removal pass, whose keys all differ from the new key.
            assert forall|i2: int, j2: int| 0 <= i2 < j2 < out@.len() implies out@[i2].key@
                != out@[j2].key@ by {
                if j2 < out@.len() - 1 {
                    assert(removed[i2].key@ != removed[j2].key@);
                } else {
                    lemma_entries_map_contains(removed, removed[i2].key@);
                }
            }
            assert(entries_map(out@) =~= entries_map(s0).insert(out@.last().key@, out@.last().token));
        }
        self.entries = out;
    }

    /// The cache as it is persisted: every entry expired under the cache
    /// margin at time `now` is dropped, everything else survives
    /// unchanged, in order.
    pub fn pruned(&self, now: i64) -> (r: TokenCache)
        requires
            self.wf(),
        ensures
            r.wf(),
            r.spec_entries() == live_entries(self.spec_entries(), now as int),
            forall|k: Seq<char>|
                #[trigger] r.as_map().dom().contains(k) <==> (self.as_map().dom().contains(k)
                    && !self.as_map()[k].spec_cache_expired(now as int)),
            forall|k: Seq<char>|
                r.as_map().dom().contains(k) ==> #[trigger] r.as_map()[k] == self.as_map()[k],
    {
        let ghost s0 = self.spec_entries();
        let n = self.entries.len();
        let mut out: Vec<CacheEntry> = Vec::new();
        let mut i: usize = 0;
        while i < n
            invariant
                n == self.spec_entries().len(),
                0 <= i <= n,
                self.wf(),
                s0 == self.spec_entries(),
                out@ == live_entries(s0.subrange(0, i as int), now as int),
            decreases n - i,
        {
            let e = &self.entries[i];
            proof {
                assert(s0.subrange(0, i as int + 1).drop_last() =~= s0.subrange(0, i as int));
                assert(s0.subrange(0, i as int + 1).last() == s0[i as int]);
            }
            if !e.token.is_cache_expired(now) {
                out.push(e.clone());
            }
            i = i + 1;
        }
        proof {
            assert(s0.subrange(0, n as int) =~= s0);
            lemma_live_entries_map(s0, now as int);
        }
        TokenCache { entries: out }
    }
}

/// Saving a mapping that holds a not-yet-expired token under some key and
/// reloading it yields that token unchanged: the save-time filter keeps
/// every live entry, with its value intact.
pub proof fn lemma_cache_round_trip(c: TokenCache, k: Seq<char>, now: int)
    requires
        c.wf(),
        c.as_map().dom().contains(k),
        !c.as_map()[k].spec_cache_expired(now),
    ensures
        c.spec_pruned_map(now).dom().contains(k),
        c.spec_pruned_map(now)[k] == c.as_map()[k],
{
    lemma_live_entries_map(c.spec_entries(), now);
}

/// The save-time filter is idempotent: filtering what one save already
/// filtered changes nothing, so saving twice in a row persists identical
/// entry lists.
pub proof fn lemma_prune_idempotent(s: Seq<CacheEntry>, now: int)
    ensures
        live_entries(live_entries(s, now), now) == live_entries(s, now),
{
    lemma_live_all_kept(s, now);
}

/// Every entry the filter keeps is itself live, so a second pass keeps
/// everything.
proof fn lemma_live_all_kept(s: Seq<CacheEntry>, now: int)
    ensures
        forall|i: int|
            0 <= i < live_entries(s, now).len() ==> !(#[trigger] live_entries(s, now)[i]).token.spec_cache_expired(
                now,
            ),
        live_entries(live_entries(s, now), now) == live_entries(s, now),
    decreases s.len(),
{
    if s.len() > 0 {
        let dl = s.drop_last();
        lemma_live_all_kept(dl, now);
        let live = live_entries(s, now);
        if !s.last().token.spec_cache_expired(now) {
            assert(live.drop_last() =~= live_entries(dl, now));
        }
    }
}

} // verus!
