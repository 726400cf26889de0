//! The decisions of the level cache: when a cached level is served, when a
//! failed load is retried, and what the log says when a load ends.
use vstd::prelude::*;
use crate::error::{load_error_detail, load_error_message, LevelLoadError};
use crate::log::LogData;
use std::collections::VecDeque;

verus! {

/// How far a cached level has come.
#[derive(Clone, Copy, PartialEq, Eq, Structural, Debug)]
pub enum LevelEntryState {
    Loading,
    Ready,
    Failed { tick: u64 },
}

/// `lru::LruCache`: a map of bounded size that drops its least recently
/// used entry to make room for a new one.
#[verifier::external_type_specification]
#[verifier::external_body]
#[verifier::reject_recursive_types(K)]
#[verifier::reject_recursive_types(V)]
#[verifier::reject_recursive_types(S)]
pub struct ExLruCache<K, V, S>(lru::LruCache<K, V, S>);

/// The hasher an `lru::LruCache` uses by default.
#[verifier::external_type_specification]
#[verifier::external_body]
pub struct ExLruHasher(lru::DefaultHasher);

/// The entries of a cache of level states, by URL.
pub uninterp spec fn lru_entries(c: lru::LruCache<String, LevelEntryState>) -> Map<Seq<char>, LevelEntryState>;

/// The most entries the cache holds, as it was made with.
pub uninterp spec fn lru_capacity(c: lru::LruCache<String, LevelEntryState>) -> nat;

/// The URLs the cache holds, most recently used first.
pub uninterp spec fn lru_recency(c: lru::LruCache<String, LevelEntryState>) -> Seq<Seq<char>>;

/// `s` without `k`.
pub open spec fn seq_without(s: Seq<Seq<char>>, k: Seq<char>) -> Seq<Seq<char>>
    decreases s.len(),
{
    if s.len() == 0 {
        s
    } else if s.last() == k {
        seq_without(s.drop_last(), k)
    } else {
        seq_without(s.drop_last(), k).push(s.last())
    }
}

/// `s` with `k` moved (or put) in front.
pub open spec fn promoted(s: Seq<Seq<char>>, k: Seq<char>) -> Seq<Seq<char>> {
    seq![k] + seq_without(s, k)
}

/// The recency order names each held URL once, and no other.
pub open spec fn lru_coherent(c: lru::LruCache<String, LevelEntryState>) -> bool {
    &&& lru_recency(c).no_duplicates()
    &&& forall|u: Seq<char>| #[trigger] lru_recency(c).contains(u) <==> lru_entries(c).dom().contains(u)
}

/// `s` without `k` holds no `k`, and keeps every other element of `s`.
proof fn lemma_without_contains(s: Seq<Seq<char>>, k: Seq<char>, x: Seq<char>)
    ensures
        seq_without(s, k).contains(x) <==> (s.contains(x) && x != k),
    decreases s.len(),
{
    if s.len() > 0 {
        let t = s.drop_last();
        lemma_without_contains(t, k, x);
        if s.contains(x) && x != s.last() {
            let i = choose|i: int| 0 <= i < s.len() && s[i] == x;
            assert(t[i] == x);
        }
        if t.contains(x) {
            let i = choose|i: int| 0 <= i < t.len() && t[i] == x;
            assert(s[i] == x);
        }
        if seq_without(t, k).contains(x) || x == s.last() {
            assert(seq_without(t, k).push(s.last()).last() == s.last());
        }
        if seq_without(t, k).push(s.last()).contains(x) && x != s.last() {
            let i = choose|i: int| 0 <= i < seq_without(t, k).push(s.last()).len() && seq_without(t, k).push(s.last())[i] == x;
            assert(seq_without(t, k)[i] == x);
        }
        if seq_without(t, k).contains(x) {
            let i = choose|i: int| 0 <= i < seq_without(t, k).len() && seq_without(t, k)[i] == x;
            assert(seq_without(t, k).push(s.last())[i] == x);
        }
    }
}

/// Taking out an element that is not there changes nothing.
proof fn lemma_without_absent(s: Seq<Seq<char>>, k: Seq<char>)
    requires
        !s.contains(k),
    ensures
        seq_without(s, k) == s,
    decreases s.len(),
{
    if s.len() > 0 {
        let t = s.drop_last();
        assert(!t.contains(k)) by {
            if t.contains(k) {
                let i = choose|i: int| 0 <= i < t.len() && t[i] == k;
                assert(s[i] == k);
            }
        }
        lemma_without_absent(t, k);
        assert(s.last() != k);
        assert(t.push(s.last()) =~= s);
    }
}

/// Taking `k` out of `s` with `k` in front is taking it out of `s`.
proof fn lemma_without_prepended(s: Seq<Seq<char>>, k: Seq<char>)
    ensures
        seq_without(seq![k] + s, k) == seq_without(s, k),
    decreases s.len(),
{
    let ks = seq![k] + s;
    if s.len() == 0 {
        assert(ks.last() == k);
        assert(ks.drop_last() =~= Seq::<Seq<char>>::empty());
        assert(seq_without(ks, k) == seq_without(ks.drop_last(), k));
    } else {
        let t = s.drop_last();
        lemma_without_prepended(t, k);
        assert(ks.drop_last() =~= seq![k] + t);
        assert(ks.last() == s.last());
        if s.last() == k {
            assert(seq_without(ks, k) == seq_without(seq![k] + t, k));
            assert(seq_without(s, k) == seq_without(t, k));
        } else {
            assert(seq_without(ks, k) == seq_without(seq![k] + t, k).push(s.last()));
            assert(seq_without(s, k) == seq_without(t, k).push(s.last()));
        }
    }
}

/// Promoting the key just taken out puts it in front of the rest.
proof fn lemma_promote_again(s: Seq<Seq<char>>, k: Seq<char>)
    ensures
        seq_without(promoted(s, k), k) == seq_without(s, k),
{
    lemma_without_prepended(seq_without(s, k), k);
    lemma_without_contains(s, k, k);
    lemma_without_absent(seq_without(s, k), k);
}

/// No entries.
pub open spec fn no_entries() -> Map<Seq<char>, LevelEntryState> {
    Map::empty()
}

/// The cache holds finitely many entries, at most its capacity.
pub open spec fn lru_bounded(c: lru::LruCache<String, LevelEntryState>) -> bool {
    lru_entries(c).dom().finite() && lru_entries(c).dom().len() <= lru_capacity(c)
}

/// `LruCache::new`: an empty cache of capacity `cap`.
#[verifier::external_body]
fn lru_new(cap: usize) -> (c: lru::LruCache<String, LevelEntryState>)
    requires
        cap > 0,
    ensures
        lru_entries(c) == no_entries(),
        lru_recency(c) == Seq::<Seq<char>>::empty(),
        lru_bounded(c),
        lru_coherent(c),
        lru_capacity(c) == cap,
{
    lru::LruCache::new(std::num::NonZeroUsize::new(cap).unwrap())
}

/// `LruCache::get`: the state under `url`, if any; the entry becomes the
/// most recently used.
#[verifier::external_body]
fn lru_get(c: &mut lru::LruCache<String, LevelEntryState>, url: &str) -> (r: Option<LevelEntryState>)
    ensures
        lru_entries(*final(c)) == lru_entries(*old(c)),
        lru_capacity(*final(c)) == lru_capacity(*old(c)),
        lru_bounded(*old(c)) ==> lru_bounded(*final(c)),
        lru_coherent(*old(c)) ==> lru_coherent(*final(c)),
        lru_recency(*final(c)) == (if lru_entries(*old(c)).dom().contains(url@) {
            promoted(lru_recency(*old(c)), url@)
        } else {
            lru_recency(*old(c))
        }),
        r == (if lru_entries(*old(c)).dom().contains(url@) {
            Some(lru_entries(*old(c))[url@])
        } else {
            None
        }),
{
    c.get(url).copied()
}

/// `LruCache::pop`: removes the entry under `url`, giving its state.
#[verifier::external_body]
fn lru_pop(c: &mut lru::LruCache<String, LevelEntryState>, url: &str) -> (r: Option<LevelEntryState>)
    ensures
        lru_entries(*final(c)) == lru_entries(*old(c)).remove(url@),
        lru_capacity(*final(c)) == lru_capacity(*old(c)),
        lru_bounded(*old(c)) ==> lru_bounded(*final(c)),
        lru_coherent(*old(c)) ==> lru_coherent(*final(c)),
        lru_recency(*final(c)) == (if lru_entries(*old(c)).dom().contains(url@) {
            seq_without(lru_recency(*old(c)), url@)
        } else {
            lru_recency(*old(c))
        }),
        r == (if lru_entries(*old(c)).dom().contains(url@) {
            Some(lru_entries(*old(c))[url@])
        } else {
            None
        }),
{
    c.pop(url)
}

/// `LruCache::push`: puts `state` under `url`, as the most recently used
/// entry. An entry already under `url` is replaced and given back; else,
/// where the cache is full, the least recently used entry is dropped and
/// given back.
#[verifier::external_body]
fn lru_push(c: &mut lru::LruCache<String, LevelEntryState>, url: String, state: LevelEntryState) -> (r: Option<(String, LevelEntryState)>)
    ensures
        lru_capacity(*final(c)) == lru_capacity(*old(c)),
        lru_bounded(*old(c)) ==> lru_bounded(*final(c)),
        lru_coherent(*old(c)) ==> lru_coherent(*final(c)),
        lru_entries(*old(c)).dom().contains(url@) ==> {
            &&& lru_entries(*final(c)) == lru_entries(*old(c)).insert(url@, state)
            &&& lru_recency(*final(c)) == promoted(lru_recency(*old(c)), url@)
            &&& r matches Some((k, v)) && k@ == url@ && v == lru_entries(*old(c))[url@]
        },
        !lru_entries(*old(c)).dom().contains(url@) && lru_entries(*old(c)).dom().len() < lru_capacity(*old(c)) ==> {
            &&& lru_entries(*final(c)) == lru_entries(*old(c)).insert(url@, state)
            &&& lru_recency(*final(c)) == seq![url@] + lru_recency(*old(c))
            &&& r is None
        },
        !lru_entries(*old(c)).dom().contains(url@) && lru_entries(*old(c)).dom().len() == lru_capacity(*old(c)) ==> {
            r matches Some((k, v)) && {
                &&& k@ == lru_recency(*old(c)).last()
                &&& lru_entries(*old(c)).dom().contains(k@)
                &&& v == lru_entries(*old(c))[k@]
                &&& lru_entries(*final(c)) == lru_entries(*old(c)).remove(k@).insert(url@, state)
                &&& lru_recency(*final(c)) == seq![url@] + lru_recency(*old(c)).drop_last()
            }
        },
{
    c.push(url, state)
}

/// `LruCache::clear`: drops every entry.
#[verifier::external_body]
fn lru_clear(c: &mut lru::LruCache<String, LevelEntryState>)
    ensures
        lru_entries(*final(c)) == no_entries(),
        lru_recency(*final(c)) == Seq::<Seq<char>>::empty(),
        lru_capacity(*final(c)) == lru_capacity(*old(c)),
        lru_bounded(*final(c)),
        lru_coherent(*final(c)),
{
    c.clear()
}

/// What a request for a level gets.
#[derive(Clone, Copy, PartialEq, Eq, Structural, Debug)]
pub enum LevelCacheDecision {
    /// The level is loading.
    Loading,
    /// The level is ready.
    Ready,
    /// The level failed to load, recently enough not to retry.
    Failed,
    /// There is no usable entry: a load starts, and the level is loading.
    Reload,
}

/// What the cache answers for a level whose entry is `entry`, at `tick`:
/// the level's state, except that a failure is served only until
/// `timeout_ticks` ticks after it; a level with no entry, or whose failure
/// is older, is loaded again.
pub open spec fn cache_decision(entry: Option<LevelEntryState>, tick: u64, timeout_ticks: u64) -> LevelCacheDecision {
    match entry {
        Some(LevelEntryState::Loading) => LevelCacheDecision::Loading,
        Some(LevelEntryState::Ready) => LevelCacheDecision::Ready,
        Some(LevelEntryState::Failed { tick: t }) => if tick <= t + timeout_ticks {
            LevelCacheDecision::Failed
        } else {
            LevelCacheDecision::Reload
        },
        None => LevelCacheDecision::Reload,
    }
}

/// A level the cache does not hold is loaded; a loading level is served as
/// loading and a ready one as ready, at every tick; a failure is served at
/// its own tick and up to `timeout` ticks later, and loaded again after.
pub proof fn law_cache_answers(tick: u64, failed: u64, timeout: u64)
    ensures
        cache_decision(None, tick, timeout) == LevelCacheDecision::Reload,
        cache_decision(Some(LevelEntryState::Loading), tick, timeout) == LevelCacheDecision::Loading,
        cache_decision(Some(LevelEntryState::Ready), tick, timeout) == LevelCacheDecision::Ready,
        cache_decision(Some(LevelEntryState::Failed { tick: failed }), failed, timeout)
            == LevelCacheDecision::Failed,
        tick <= failed + timeout ==> cache_decision(Some(LevelEntryState::Failed { tick: failed }), tick, timeout)
            == LevelCacheDecision::Failed,
        tick > failed + timeout ==> cache_decision(Some(LevelEntryState::Failed { tick: failed }), tick, timeout)
            == LevelCacheDecision::Reload,
{
}

/// What the cache answers for a level whose entry is `entry`, at `tick`: a
/// failure is served until `timeout_ticks` ticks after it, then the level is
/// loaded again.
pub fn level_cache_decide(entry: Option<LevelEntryState>, tick: u64, timeout_ticks: u64) -> (r:
    LevelCacheDecision)
    requires
        entry matches Some(LevelEntryState::Failed { tick: t }) ==> t + timeout_ticks
            <= u64::MAX,
    ensures
        r == cache_decision(entry, tick, timeout_ticks),
{
    match entry {
        Some(LevelEntryState::Loading) => LevelCacheDecision::Loading,
        Some(LevelEntryState::Ready) => LevelCacheDecision::Ready,
        Some(LevelEntryState::Failed { tick: failed_tick }) => {
            if tick <= failed_tick + timeout_ticks {
                LevelCacheDecision::Failed
            } else {
                LevelCacheDecision::Reload
            }
        },
        None => LevelCacheDecision::Reload,
    }
}

/// A load that succeeded: the entry is ready and the log names the level.
pub fn level_load_succeeded(name: &str) -> (r: (LevelEntryState, LogData))
    ensures
        r.0 == LevelEntryState::Ready,
        r.1 matches LogData::LoadSucceeded { name: n } && n@ == name@,
{
    (LevelEntryState::Ready, LogData::LoadSucceeded { name: name.to_owned() })
}

/// A load that failed at `tick`: the entry remembers when, and the log gives
/// the URL and the error's message.
pub fn level_load_failed(url: &str, error: &LevelLoadError, tick: u64) -> (r: (
    LevelEntryState,
    LogData,
))
    ensures
        r.0 == (LevelEntryState::Failed { tick }),
        r.1 matches LogData::LoadFailed { url: u, error: m } && u@ == url@ && exists|d: String|
            load_error_detail(*error, d) && m@ == load_error_message(*error, d@),
{
    (LevelEntryState::Failed { tick }, LogData::LoadFailed { url: url.to_owned(), error: error.message() })
}

/// The state under `url` in `states`, if any.
pub open spec fn state_of(states: Map<Seq<char>, LevelEntryState>, url: Seq<char>) -> Option<LevelEntryState> {
    if states.dom().contains(url) {
        Some(states[url])
    } else {
        None
    }
}

/// What a request for a level answered, and the URL whose entry was dropped
/// to make room for a new load, if any.
#[derive(Debug)]
pub struct LevelCacheRequest {
    pub decision: LevelCacheDecision,
    pub evicted: Option<String>,
}

/// The bookkeeping of the level cache: the state of each level by URL, in a
/// cache of bounded size that drops the least recently used level to make
/// room, and the URLs whose loads are pending, oldest first.
pub struct LevelCacheIndex {
    timeout_ticks: u64,
    pending: VecDeque<String>,
    entries: lru::LruCache<String, LevelEntryState>,
}

impl LevelCacheIndex {
    /// The cache holds at most its capacity, which is positive, and every
    /// failure it holds can be timed out without overflow.
    pub closed spec fn wf(&self) -> bool {
        &&& lru_bounded(self.entries)
        &&& lru_coherent(self.entries)
        &&& lru_capacity(self.entries) > 0
        &&& forall|u: Seq<char>|
            #[trigger] lru_entries(self.entries).dom().contains(u) ==> (lru_entries(self.entries)[u] matches LevelEntryState::Failed { tick }
                ==> tick + self.timeout_ticks <= u64::MAX)
    }

    /// The state of each level, by URL.
    pub closed spec fn states(&self) -> Map<Seq<char>, LevelEntryState> {
        lru_entries(self.entries)
    }

    /// The URLs of the levels held, most recently used first.
    pub closed spec fn recency(&self) -> Seq<Seq<char>> {
        lru_recency(self.entries)
    }

    /// The most levels the cache holds.
    pub closed spec fn capacity(&self) -> nat {
        lru_capacity(self.entries)
    }

    /// The URLs whose loads are pending, oldest first.
    pub closed spec fn pending_urls(&self) -> Seq<Seq<char>> {
        self.pending@.map_values(|u: String| u@)
    }

    /// How many ticks a failure is served before the level is loaded again.
    pub closed spec fn timeout(&self) -> u64 {
        self.timeout_ticks
    }

    /// An empty cache of `capacity` levels, serving failures for
    /// `timeout_ticks` ticks.
    pub fn new(capacity: usize, timeout_ticks: u64) -> (c: Self)
        requires
            capacity > 0,
        ensures
            c.wf(),
            c.states() == no_entries(),
            c.recency() == Seq::<Seq<char>>::empty(),
            c.capacity() == capacity,
            c.pending_urls() == Seq::<Seq<char>>::empty(),
            c.timeout() == timeout_ticks,
    {
        let c = LevelCacheIndex { timeout_ticks, pending: VecDeque::new(), entries: lru_new(capacity) };
        proof {
            assert(c.pending@.map_values(|u: String| u@) =~= Seq::<Seq<char>>::empty());
        }
        c
    }

    /// How many ticks a failure is served before the level is loaded again.
    pub fn timeout_ticks(&self) -> (t: u64)
        ensures
            t == self.timeout(),
    {
        self.timeout_ticks
    }

    /// Answers a request for the level at `url` at `tick`, as
    /// `cache_decision` says. Where the level is to be loaded (again), its
    /// entry starts loading, its URL joins the pending loads, and, where the
    /// cache was full, the least recently used level is dropped.
    pub fn get(&mut self, url: &str, tick: u64) -> (r: LevelCacheRequest)
        requires
            old(self).wf(),
        ensures
            final(self).wf(),
            final(self).capacity() == old(self).capacity(),
            final(self).timeout() == old(self).timeout(),
            final(self).states().dom().len() <= final(self).capacity(),
            r.decision == cache_decision(state_of(old(self).states(), url@), tick, old(self).timeout()),
            r.decision != LevelCacheDecision::Reload ==> {
                &&& final(self).recency() == promoted(old(self).recency(), url@)
                &&& final(self).states() == old(self).states()
                &&& final(self).pending_urls() == old(self).pending_urls()
                &&& r.evicted is None
            },
            r.decision == LevelCacheDecision::Reload ==> {
                &&& final(self).pending_urls() == old(self).pending_urls().push(url@)
                &&& match r.evicted {
                    None => final(self).states() == old(self).states().insert(url@, LevelEntryState::Loading)
                        && final(self).recency() == promoted(old(self).recency(), url@),
                    Some(e) => {
                        &&& e@ == old(self).recency().last()
                        &&& final(self).recency() == seq![url@] + old(self).recency().drop_last()
                        &&& e@ != url@
                        &&& old(self).states().dom().contains(e@)
                        &&& final(self).states() == old(self).states().remove(e@).insert(url@, LevelEntryState::Loading)
                    },
                }
            },
    {
        let state = lru_get(&mut self.entries, url);
        let decision = level_cache_decide(state, tick, self.timeout_ticks);
        if decision != LevelCacheDecision::Reload {
            return LevelCacheRequest { decision, evicted: None };
        }
        let ghost before = lru_entries(self.entries);
        let ghost rec0 = lru_recency(self.entries);
        let ghost pending_before = self.pending@;
        lru_pop(&mut self.entries, url);
        let ghost rec1 = lru_recency(self.entries);
        proof {
            if before.dom().contains(url@) {
                lemma_promote_again(old(self).recency(), url@);
                assert(rec1 == seq_without(old(self).recency(), url@));
            } else {
                assert(!old(self).recency().contains(url@));
                lemma_without_absent(old(self).recency(), url@);
                assert(rec1 == old(self).recency());
            }
            lemma_without_contains(old(self).recency(), url@, url@);
            assert(!rec1.contains(url@));
            lemma_without_absent(rec1, url@);
        }
        let evicted = match lru_push(&mut self.entries, url.to_owned(), LevelEntryState::Loading) {
            Some((k, _)) => Some(k),
            None => None,
        };
        self.pending.push_back(url.to_owned());
        proof {
            assert(self.pending@.map_values(|u: String| u@) =~= pending_before.map_values(|u: String| u@).push(url@));
            match &evicted {
                Some(e) => {
                    assert(lru_entries(self.entries) =~= before.remove(e@).insert(url@, LevelEntryState::Loading));
                },
                None => {
                    assert(lru_entries(self.entries) =~= before.insert(url@, LevelEntryState::Loading));
                },
            }
        }
        LevelCacheRequest { decision, evicted }
    }

    /// The oldest pending load: its URL and the state of its entry, if the
    /// cache still holds it (it becomes the most recently used level).
    pub fn pending_front(&mut self) -> (r: Option<(String, Option<LevelEntryState>)>)
        requires
            old(self).wf(),
        ensures
            final(self).wf(),
            final(self).states() == old(self).states(),
            final(self).pending_urls() == old(self).pending_urls(),
            final(self).capacity() == old(self).capacity(),
            final(self).timeout() == old(self).timeout(),
            old(self).pending_urls().len() == 0 ==> r is None && final(self).recency() == old(self).recency(),
            old(self).pending_urls().len() > 0 ==> final(self).recency() == (if old(self).states().dom().contains(
                old(self).pending_urls()[0],
            ) {
                promoted(old(self).recency(), old(self).pending_urls()[0])
            } else {
                old(self).recency()
            }),
            old(self).pending_urls().len() > 0 ==> (r matches Some((u, s)) && u@ == old(self).pending_urls()[0]
                && s == state_of(old(self).states(), u@)),
    {
        if self.pending.len() == 0 {
            return None;
        }
        let url = self.pending[0].clone();
        let state = lru_get(&mut self.entries, url.as_str());
        Some((url, state))
    }

    /// The oldest pending load has ended, at `tick`: the level is ready, or
    /// failed, from now on, its URL leaves the pending loads, and the log
    /// says which.
    pub fn load_finished(&mut self, outcome: Result<&str, &LevelLoadError>, tick: u64) -> (log: LogData)
        requires
            old(self).wf(),
            old(self).pending_urls().len() > 0,
            state_of(old(self).states(), old(self).pending_urls()[0]) == Some(LevelEntryState::Loading),
            outcome is Err ==> tick + old(self).timeout() <= u64::MAX,
        ensures
            final(self).wf(),
            final(self).capacity() == old(self).capacity(),
            final(self).timeout() == old(self).timeout(),
            final(self).pending_urls() == old(self).pending_urls().drop_first(),
            final(self).recency() == promoted(old(self).recency(), old(self).pending_urls()[0]),
            match outcome {
                Ok(name) => {
                    &&& final(self).states() == old(self).states().insert(old(self).pending_urls()[0], LevelEntryState::Ready)
                    &&& log matches LogData::LoadSucceeded { name: n } && n@ == name@
                },
                Err(error) => {
                    &&& final(self).states() == old(self).states().insert(old(self).pending_urls()[0], LevelEntryState::Failed { tick })
                    &&& log matches LogData::LoadFailed { url: u, error: m } && u@ == old(self).pending_urls()[0] && exists|d: String|
                        load_error_detail(*error, d) && m@ == load_error_message(*error, d@)
                },
            },
    {
        let ghost pending_before = self.pending@;
        let url = self.pending.pop_front().unwrap();
        proof {
            assert(self.pending@.map_values(|u: String| u@) =~= pending_before.map_values(|u: String| u@).drop_first());
        }
        let (state, log) = match outcome {
            Ok(name) => level_load_succeeded(name),
            Err(error) => level_load_failed(url.as_str(), error, tick),
        };
        lru_push(&mut self.entries, url, state);
        log
    }

    /// Forgets every level and every pending load.
    pub fn clear(&mut self)
        requires
            old(self).wf(),
        ensures
            final(self).wf(),
            final(self).states() == no_entries(),
            final(self).recency() == Seq::<Seq<char>>::empty(),
            final(self).pending_urls() == Seq::<Seq<char>>::empty(),
            final(self).capacity() == old(self).capacity(),
            final(self).timeout() == old(self).timeout(),
    {
        self.pending.clear();
        lru_clear(&mut self.entries);
        proof {
            assert(self.pending@.map_values(|u: String| u@) =~= Seq::<Seq<char>>::empty());
        }
    }
}

/// The cache never holds more levels than its capacity.
pub proof fn law_cache_within_capacity(c: LevelCacheIndex)
    requires
        c.wf(),
    ensures
        c.states().dom().len() <= c.capacity(),
{
}

/// A level whose load ended is served from then on as it ended, ready or
/// failed (the failure until its timeout), without being loaded again; a
/// failure older than the timeout is loaded again.
pub proof fn law_finished_load_is_served(
    states: Map<Seq<char>, LevelEntryState>,
    url: Seq<char>,
    finished: u64,
    tick: u64,
    timeout: u64,
)
    ensures
        cache_decision(state_of(states.insert(url, LevelEntryState::Ready), url), tick, timeout)
            == LevelCacheDecision::Ready,
        tick <= finished + timeout ==> cache_decision(
            state_of(states.insert(url, LevelEntryState::Failed { tick: finished }), url),
            tick,
            timeout,
        ) == LevelCacheDecision::Failed,
        tick > finished + timeout ==> cache_decision(
            state_of(states.insert(url, LevelEntryState::Failed { tick: finished }), url),
            tick,
            timeout,
        ) == LevelCacheDecision::Reload,
{
}

} // verus!
