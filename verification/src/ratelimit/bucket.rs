//! The limiter of the request channel.
//!
//! The service assigns every request to a bucket and reports the bucket's
//! quota with each response. The limiter keeps the quota it was last told
//! for each bucket and counts the requests made since. It does not hold a
//! request back: it is told of a response and says whether the request
//! was within the quota.

use crate::error::RateLimitError;
use crate::ratelimit::headers::header_text;
use crate::ratelimit::headers::HeadersModel;
use crate::ratelimit::headers::RateLimitHeaders;
use crate::ratelimit::headers::RateLimitState;
use crate::text::str_eq;
use vstd::prelude::*;

verus! {

/// What the limiter holds for one bucket.
#[derive(Debug, Clone)]
pub struct RateLimitBucket {
    pub key: String,
    pub state: RateLimitState,
}

/// What becomes of one bucket's entry when a response for the bucket is
/// seen at the time `now`, and the answer. `seed` is the quota that the
/// response reports.
///
/// An entry whose reset has not come counts the request: it denies it when
/// nothing remains, and otherwise has one less remaining. Where there is no
/// entry, or its reset has come, the response's quota becomes the entry
/// and the request is allowed.
pub open spec fn entry_check(
    entry: Option<RateLimitState>,
    seed: Result<RateLimitState, RateLimitError>,
    now: u64,
) -> (Option<RateLimitState>, Result<(), RateLimitError>) {
    if entry is Some && now < entry->Some_0.reset {
        let held = entry->Some_0;
        if held.remaining == 0 {
            (entry, Err(RateLimitError::Hit(held.reset)))
        } else {
            (Some(RateLimitState { remaining: (held.remaining - 1) as u32, ..held }), Ok(()))
        }
    } else {
        match seed {
            Ok(fresh) => (Some(fresh), Ok(())),
            Err(e) => (entry, Err(e)),
        }
    }
}

/// The entry that a limiter holds for `key`, if it holds one.
pub open spec fn entry_of(state: Map<Seq<char>, RateLimitState>, key: Seq<char>) -> Option<
    RateLimitState,
> {
    if state.contains_key(key) {
        Some(state[key])
    } else {
        None
    }
}

/// The limiter's entries after a response with the given headers is seen
/// at the time `now`, and the answer. Only the entry of the response's
/// bucket can change.
pub open spec fn check_spec(
    state: Map<Seq<char>, RateLimitState>,
    headers: HeadersModel,
    now: u64,
) -> (Map<Seq<char>, RateLimitState>, Result<(), RateLimitError>) {
    match header_text(headers.bucket) {
        Err(e) => (state, Err(e)),
        Ok(key) => {
            let (next, answer) = entry_check(entry_of(state, key), headers.state(), now);
            (
                match next {
                    Some(entry) => state.insert(key, entry),
                    None => state,
                },
                answer,
            )
        },
    }
}

/// The entry that is left after a run of responses for one bucket, seen
/// at `times`, each reporting the quota in `seeds`.
pub open spec fn after_checks(
    entry: Option<RateLimitState>,
    seeds: Seq<Result<RateLimitState, RateLimitError>>,
    times: Seq<u64>,
) -> Option<RateLimitState>
    decreases times.len(),
{
    if times.len() == 0 {
        entry
    } else {
        entry_check(
            after_checks(entry, seeds.drop_last(), times.drop_last()),
            seeds.last(),
            times.last(),
        ).0
    }
}

/// The answer to the last response of a run.
pub open spec fn last_answer(
    entry: Option<RateLimitState>,
    seeds: Seq<Result<RateLimitState, RateLimitError>>,
    times: Seq<u64>,
) -> Result<(), RateLimitError> {
    entry_check(
        after_checks(entry, seeds.drop_last(), times.drop_last()),
        seeds.last(),
        times.last(),
    ).1
}

/// An entry that has `remaining` left allows exactly that many requests
/// before its reset, whatever the responses report, and denies the next
/// with the time of the reset.
pub proof fn lemma_quota_drains(
    entry: RateLimitState,
    seeds: Seq<Result<RateLimitState, RateLimitError>>,
    times: Seq<u64>,
    k: int,
)
    requires
        seeds.len() == times.len(),
        1 <= k <= times.len(),
        k <= entry.remaining + 1,
        forall|i: int| 0 <= i < times.len() ==> times[i] < entry.reset,
    ensures
        k <= entry.remaining ==> last_answer(Some(entry), seeds.take(k), times.take(k)) == Ok::<
            (),
            RateLimitError,
        >(()),
        k == entry.remaining + 1 ==> last_answer(Some(entry), seeds.take(k), times.take(k)) == Err::<
            (),
            RateLimitError,
        >(RateLimitError::Hit(entry.reset)),
{
    lemma_drained(entry, seeds, times, k - 1);
    assert(seeds.take(k).drop_last() =~= seeds.take(k - 1));
    assert(times.take(k).drop_last() =~= times.take(k - 1));
}

/// After `k` requests within the quota, `k` fewer remain.
proof fn lemma_drained(
    entry: RateLimitState,
    seeds: Seq<Result<RateLimitState, RateLimitError>>,
    times: Seq<u64>,
    k: int,
)
    requires
        seeds.len() == times.len(),
        0 <= k <= times.len(),
        k <= entry.remaining,
        forall|i: int| 0 <= i < times.len() ==> times[i] < entry.reset,
    ensures
        after_checks(Some(entry), seeds.take(k), times.take(k)) == Some(
            RateLimitState { remaining: (entry.remaining - k) as u32, ..entry },
        ),
    decreases k,
{
    if k > 0 {
        lemma_drained(entry, seeds, times, k - 1);
        assert(seeds.take(k).drop_last() =~= seeds.take(k - 1));
        assert(times.take(k).drop_last() =~= times.take(k - 1));
    }
}

/// An entry seen at or after its reset counts as absent: the response's
/// quota takes its place and the request is allowed.
pub proof fn lemma_expired_reseeds(entry: RateLimitState, fresh: RateLimitState, now: u64)
    requires
        now >= entry.reset,
    ensures
        entry_check(Some(entry), Ok(fresh), now) == (Some(fresh), Ok::<(), RateLimitError>(())),
        entry_check(Some(entry), Ok(fresh), now) == entry_check(None, Ok(fresh), now),
{
}

/// A response for one bucket leaves every other bucket's entry as it was.
pub proof fn lemma_buckets_independent(
    state: Map<Seq<char>, RateLimitState>,
    headers: HeadersModel,
    now: u64,
    other: Seq<char>,
)
    requires
        header_text(headers.bucket) != Ok::<Seq<char>, RateLimitError>(other),
    ensures
        entry_of(check_spec(state, headers, now).0, other) == entry_of(state, other),
{
}

/// The entries of a list of buckets, by key.
pub open spec fn entries(buckets: Seq<RateLimitBucket>) -> Map<Seq<char>, RateLimitState> {
    Map::new(
        |key: Seq<char>| exists|i: int| 0 <= i < buckets.len() && #[trigger] buckets[i].key@ == key,
        |key: Seq<char>|
            buckets[choose|i: int| 0 <= i < buckets.len() && #[trigger] buckets[i].key@ == key].state,
    )
}

/// Whether no two buckets of a list have the same key.
pub open spec fn distinct_keys(buckets: Seq<RateLimitBucket>) -> bool {
    forall|i: int, j: int|
        0 <= i < j < buckets.len() ==> #[trigger] buckets[i].key@ != #[trigger] buckets[j].key@
}

/// The entries whose reset has not come at the time `now`.
pub open spec fn unexpired(state: Map<Seq<char>, RateLimitState>, now: u64) -> Map<
    Seq<char>,
    RateLimitState,
> {
    Map::new(
        |key: Seq<char>| state.contains_key(key) && now < state[key].reset,
        |key: Seq<char>| state[key],
    )
}

/// An entry whose reset has come counts as absent: the limiter answers a
/// response the same whether such entries were dropped first or not, and
/// holds the same unexpired entries afterwards.
pub proof fn lemma_expired_counts_as_absent(
    state: Map<Seq<char>, RateLimitState>,
    headers: HeadersModel,
    now: u64,
)
    ensures
        check_spec(unexpired(state, now), headers, now).1 == check_spec(state, headers, now).1,
        unexpired(check_spec(unexpired(state, now), headers, now).0, now) == unexpired(
            check_spec(state, headers, now).0,
            now,
        ),
{
    assert(unexpired(check_spec(unexpired(state, now), headers, now).0, now) =~= unexpired(
        check_spec(state, headers, now).0,
        now,
    ));
}

/// The limiter: the quota of each bucket seen so far.
#[derive(Debug, Clone)]
pub struct RateLimiter {
    buckets: Vec<RateLimitBucket>,
}

impl View for RateLimiter {
    type V = Map<Seq<char>, RateLimitState>;

    closed spec fn view(&self) -> Map<Seq<char>, RateLimitState> {
        entries(self.buckets@)
    }
}

impl RateLimiter {
    /// No bucket is held twice.
    pub closed spec fn wf(&self) -> bool {
        distinct_keys(self.buckets@)
    }

    /// A limiter that has seen no response.
    pub fn new() -> (limiter: RateLimiter)
        ensures
            limiter.wf(),
            limiter@ == Map::<Seq<char>, RateLimitState>::empty(),
    {
        let limiter = RateLimiter { buckets: Vec::new() };
        limiter
    }

    /// The entry held for `key`, if there is one.
    pub fn get(&self, key: &str) -> (entry: Option<RateLimitState>)
        requires
            self.wf(),
        ensures
            entry == entry_of(self@, key@),
    {
        match self.position(key) {
            Some(i) => Some(self.buckets[i].state),
            None => None,
        }
    }

    /// Where the bucket `key` stands in the list, if it is there.
    #[verifier::loop_isolation(false)]
    fn position(&self, key: &str) -> (found: Option<usize>)
        requires
            self.wf(),
        ensures
            match found {
                Some(i) => i < self.buckets@.len() && self.buckets@[i as int].key@ == key@
                    && entry_of(self@, key@) == Some(self.buckets@[i as int].state),
                None => entry_of(self@, key@) is None && forall|i: int|
                    0 <= i < self.buckets@.len() ==> self.buckets@[i].key@ != key@,
            },
    {
        let mut i: usize = 0;
        while i < self.buckets.len()
            invariant
                i <= self.buckets.len(),
                forall|k: int| 0 <= k < i ==> self.buckets@[k].key@ != key@,
            decreases self.buckets.len() - i,
        {
            if str_eq(self.buckets[i].key.as_str(), key) {
                proof {
                    lemma_entry_at(self.buckets@, i as int);
                }
                return Some(i);
            }
            i += 1;
        }
        None
    }

    /// Drops every entry whose reset has come at the time `now`. Such an
    /// entry counts as absent whether it is dropped or not; dropping it
    /// frees what it took.
    pub fn evict_expired(&mut self, now: u64)
        requires
            old(self).wf(),
        ensures
            final(self).wf(),
            final(self)@ == unexpired(old(self)@, now),
    {
        let ghost all = self.buckets@;
        let ghost mut from: Seq<int> = Seq::empty();
        let mut kept: Vec<RateLimitBucket> = Vec::new();
        let mut i: usize = 0;
        while i < self.buckets.len()
            invariant
                i <= self.buckets.len(),
                self.buckets@ == all,
                from.len() == kept@.len(),
                forall|m: int| 0 <= m < from.len() ==> 0 <= #[trigger] from[m] < i,
                forall|m: int, n: int| 0 <= m < n < from.len() ==> from[m] < from[n],
                forall|m: int|
                    0 <= m < from.len() ==> (#[trigger] kept@[m]).key@ == all[from[m]].key@
                        && kept@[m].state == all[from[m]].state && now < kept@[m].state.reset,
                forall|j: int|
                    0 <= j < i && now < (#[trigger] all[j]).state.reset ==> exists|m: int|
                        0 <= m < from.len() && #[trigger] from[m] == j,
            decreases self.buckets.len() - i,
        {
            if now < self.buckets[i].state.reset {
                let ghost before = from;
                kept.push(
                    RateLimitBucket {
                        key: self.buckets[i].key.clone(),
                        state: self.buckets[i].state,
                    },
                );
                proof {
                    from = from.push(i as int);
                    assert forall|j: int|
                        0 <= j < i + 1 && now < (#[trigger] all[j]).state.reset implies exists|
                        m: int,
                    |
                        0 <= m < from.len() && #[trigger] from[m] == j by {
                        if j < i {
                            let m = choose|m: int| 0 <= m < before.len() && #[trigger] before[m] == j;
                            assert(from[m] == j);
                        } else {
                            assert(from[before.len() as int] == j);
                        }
                    }
                }
            }
            i += 1;
        }
        proof {
            let left = kept@;
            let want = unexpired(entries(all), now);
            assert(distinct_keys(left)) by {
                assert forall|m: int, n: int| 0 <= m < n < left.len() implies #[trigger] left[m].key@
                    != #[trigger] left[n].key@ by {
                    assert(all[from[m]].key@ != all[from[n]].key@);
                }
            }
            assert forall|key: Seq<char>| #[trigger]
                entries(left).contains_key(key) == want.contains_key(key) && (want.contains_key(key)
                    ==> entries(left)[key] == want[key]) by {
                if entries(left).contains_key(key) {
                    let m = lemma_entry_from(left, key);
                    lemma_entry_at(all, from[m]);
                }
                if want.contains_key(key) {
                    let j = lemma_entry_from(all, key);
                    let m = choose|m: int| 0 <= m < from.len() && #[trigger] from[m] == j;
                    lemma_entry_at(left, m);
                }
            }
            assert(entries(left) =~= want);
        }
        self.buckets = kept;
    }

    /// Takes note of a response seen at the time `now`, and says whether
    /// its request was within the quota of its bucket.
    pub fn check(&mut self, headers: &RateLimitHeaders, now: u64) -> (answer: Result<
        (),
        RateLimitError,
    >)
        requires
            old(self).wf(),
        ensures
            final(self).wf(),
            (final(self)@, answer) == check_spec(old(self)@, headers@, now),
    {
        let key = headers.bucket.text()?;
        let ghost before = self.buckets@;
        match self.position(key.as_str()) {
            Some(i) => {
                let held = self.buckets[i].state;
                if now < held.reset {
                    if held.remaining == 0 {
                        return Err(RateLimitError::Hit(held.reset));
                    }
                    let next = RateLimitState { remaining: held.remaining - 1, ..held };
                    self.buckets.set(i, RateLimitBucket { key: key.clone(), state: next });
                    proof {
                        lemma_replaced(before, i as int, self.buckets@[i as int]);
                    }
                    Ok(())
                } else {
                    let fresh = RateLimitState::extract_state(headers)?;
                    self.buckets.set(i, RateLimitBucket { key: key.clone(), state: fresh });
                    proof {
                        lemma_replaced(before, i as int, self.buckets@[i as int]);
                    }
                    Ok(())
                }
            },
            None => {
                let fresh = RateLimitState::extract_state(headers)?;
                self.buckets.push(RateLimitBucket { key: key.clone(), state: fresh });
                proof {
                    lemma_added(before, self.buckets@[before.len() as int]);
                }
                Ok(())
            },
        }
    }
}

/// In a list without a key twice, the entry of a bucket's key is that
/// bucket's state.
proof fn lemma_entry_at(buckets: Seq<RateLimitBucket>, at: int)
    requires
        distinct_keys(buckets),
        0 <= at < buckets.len(),
    ensures
        entries(buckets).contains_key(buckets[at].key@),
        entries(buckets)[buckets[at].key@] == buckets[at].state,
{
    let key = buckets[at].key@;
    let held = choose|j: int| 0 <= j < buckets.len() && #[trigger] buckets[j].key@ == key;
    assert(held == at);
}

/// The key of every entry is the key of a bucket of the list.
proof fn lemma_entry_from(buckets: Seq<RateLimitBucket>, key: Seq<char>) -> (at: int)
    requires
        distinct_keys(buckets),
        entries(buckets).contains_key(key),
    ensures
        0 <= at < buckets.len(),
        buckets[at].key@ == key,
        entries(buckets)[key] == buckets[at].state,
{
    let at = choose|j: int| 0 <= j < buckets.len() && #[trigger] buckets[j].key@ == key;
    lemma_entry_at(buckets, at);
    at
}

/// Putting another bucket of the same key in a bucket's place changes the
/// entry of that key and no other.
proof fn lemma_replaced(buckets: Seq<RateLimitBucket>, at: int, bucket: RateLimitBucket)
    requires
        distinct_keys(buckets),
        0 <= at < buckets.len(),
        bucket.key@ == buckets[at].key@,
    ensures
        distinct_keys(buckets.update(at, bucket)),
        entries(buckets.update(at, bucket)) == entries(buckets).insert(bucket.key@, bucket.state),
{
    let after = buckets.update(at, bucket);
    let want = entries(buckets).insert(bucket.key@, bucket.state);
    assert(distinct_keys(after));
    assert forall|key: Seq<char>| #[trigger]
        entries(after).contains_key(key) == want.contains_key(key) && (want.contains_key(key)
            ==> entries(after)[key] == want[key]) by {
        if want.contains_key(key) {
            let i = if key == bucket.key@ {
                at
            } else {
                lemma_entry_from(buckets, key)
            };
            lemma_entry_at(after, i);
        }
        if entries(after).contains_key(key) {
            let i = lemma_entry_from(after, key);
            lemma_entry_at(buckets, i);
        }
    }
    assert(entries(after) =~= want);
}

/// Adding a bucket of a key that is not held adds the entry of that key.
proof fn lemma_added(buckets: Seq<RateLimitBucket>, bucket: RateLimitBucket)
    requires
        distinct_keys(buckets),
        forall|i: int| 0 <= i < buckets.len() ==> buckets[i].key@ != bucket.key@,
    ensures
        distinct_keys(buckets.push(bucket)),
        entries(buckets.push(bucket)) == entries(buckets).insert(bucket.key@, bucket.state),
{
    let after = buckets.push(bucket);
    let want = entries(buckets).insert(bucket.key@, bucket.state);
    assert(distinct_keys(after));
    assert forall|key: Seq<char>| #[trigger]
        entries(after).contains_key(key) == want.contains_key(key) && (want.contains_key(key)
            ==> entries(after)[key] == want[key]) by {
        if want.contains_key(key) {
            let i = if key == bucket.key@ {
                buckets.len() as int
            } else {
                lemma_entry_from(buckets, key)
            };
            lemma_entry_at(after, i);
        }
        if entries(after).contains_key(key) {
            let i = lemma_entry_from(after, key);
            if i < buckets.len() {
                lemma_entry_at(buckets, i);
            }
        }
    }
    assert(entries(after) =~= want);
}

} // verus!
