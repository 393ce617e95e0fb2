//! The limiter of a session's outbound messages.
//!
//! It lets through at most `quota` sends in any stretch of time as long as
//! `period`. It does so by remembering when each send of the last period
//! was let through; the caller says what time it is.

use vstd::prelude::*;

verus! {

/// What the limiter answers.
#[derive(Clone, Copy, Debug, PartialEq, Eq, Structural)]
pub enum Permit {
    /// The send may go out, and has been counted.
    Allowed,
    /// The quota is used up. After `retry_after` more units of time a send
    /// will be let through again.
    Denied { retry_after: u64 },
}

/// How many of `times` lie in the stretch from `from` up to, not
/// including, `to`.
pub open spec fn count_in(times: Seq<u64>, from: int, to: int) -> nat
    decreases times.len(),
{
    if times.len() == 0 {
        0
    } else {
        count_in(times.drop_last(), from, to) + if from <= times.last() < to {
            1nat
        } else {
            0nat
        }
    }
}

/// How many of `times` lie in the stretch of length `period` that starts at
/// `from`.
pub open spec fn window_count(times: Seq<u64>, from: int, period: nat) -> nat {
    count_in(times, from, from + period)
}

/// Whether `times` never goes back.
pub open spec fn ascending(times: Seq<u64>) -> bool {
    forall|i: int, j: int| 0 <= i <= j < times.len() ==> times[i] <= times[j]
}

/// How many of the first of `times` are a whole `period` or more before
/// `now`.
pub open spec fn stale_prefix(times: Seq<u64>, now: int, period: nat) -> nat
    decreases times.len(),
{
    if times.len() == 0 || times[0] + period > now {
        0
    } else {
        1 + stale_prefix(times.drop_first(), now, period)
    }
}

/// The state of a limiter, with all it has ever let through.
pub struct BucketModel {
    /// How many sends one period may hold. At least one.
    pub quota: nat,
    /// The length of a period. At least one.
    pub period: nat,
    /// When each send was let through, oldest first.
    pub history: Seq<u64>,
    /// How many of the latest sends the limiter still remembers.
    pub live: nat,
    /// The latest time the limiter was told.
    pub last: u64,
}

impl BucketModel {
    /// The sends that the limiter remembers, oldest first.
    pub open spec fn recent(self) -> Seq<u64> {
        self.history.skip(self.history.len() - self.live)
    }

    /// The limiter remembers exactly the sends of the last period, never
    /// more than the quota, and no period has held more than the quota.
    pub open spec fn wf(self) -> bool {
        &&& self.quota >= 1
        &&& self.period >= 1
        &&& self.live <= self.history.len()
        &&& self.live <= self.quota
        &&& ascending(self.history)
        &&& forall|i: int| 0 <= i < self.history.len() ==> self.history[i] <= self.last
        &&& forall|i: int|
            0 <= i < self.history.len() - self.live ==> self.history[i] + self.period <= self.last
        &&& forall|i: int|
            self.history.len() - self.live <= i < self.history.len() ==> self.history[i]
                + self.period > self.last
        &&& forall|from: int| #[trigger]
            window_count(self.history, from, self.period) <= self.quota
    }

    /// The time that counts when the limiter is told `now`: time does not
    /// go back.
    pub open spec fn clock(self, now: u64) -> u64 {
        if now >= self.last {
            now
        } else {
            self.last
        }
    }

    /// The limiter's state after it is asked at the time `now`, and its
    /// answer. A send is let through when fewer than `quota` sends of the
    /// last period are remembered; it is then remembered too.
    pub open spec fn step(self, now: u64) -> (BucketModel, Permit) {
        let clock = self.clock(now);
        let stale = stale_prefix(self.recent(), clock as int, self.period);
        let kept = (self.live - stale) as nat;
        if kept < self.quota {
            (
                BucketModel {
                    history: self.history.push(clock),
                    live: kept + 1,
                    last: clock,
                    ..self
                },
                Permit::Allowed,
            )
        } else {
            (
                BucketModel { live: kept, last: clock, ..self },
                Permit::Denied {
                    retry_after: (self.recent()[stale as int] + self.period - clock) as u64,
                },
            )
        }
    }

    /// The state after asking at each of `times` in turn.
    pub open spec fn after(self, times: Seq<u64>) -> BucketModel
        decreases times.len(),
    {
        if times.len() == 0 {
            self
        } else {
            self.after(times.drop_last()).step(times.last()).0
        }
    }

    /// The answer to the last of `times`, after asking at each before it.
    pub open spec fn answer(self, times: Seq<u64>) -> Permit
        recommends
            times.len() > 0,
    {
        self.after(times.drop_last()).step(times.last()).1
    }
}

/// The first `stale_prefix` of `times` are a whole period before `now`, and
/// the one after them, if there is one, is not.
pub proof fn lemma_stale_prefix(times: Seq<u64>, now: int, period: nat)
    ensures
        stale_prefix(times, now, period) <= times.len(),
        forall|i: int| 0 <= i < stale_prefix(times, now, period) ==> times[i] + period <= now,
        stale_prefix(times, now, period) < times.len() ==> times[stale_prefix(
            times,
            now,
            period,
        ) as int] + period > now,
    decreases times.len(),
{
    if times.len() == 0 || times[0] + period > now {
    } else {
        let rest = times.drop_first();
        lemma_stale_prefix(rest, now, period);
        let k = stale_prefix(rest, now, period);
        assert forall|i: int| 0 <= i < k + 1 implies times[i] + period <= now by {
            if i > 0 {
                assert(rest[i - 1] == times[i]);
            }
        }
    }
}

/// No more of `times` lie in a stretch than there are from the first that
/// is not before the stretch.
pub proof fn lemma_count_bound(times: Seq<u64>, from: int, to: int, skip: int)
    requires
        0 <= skip <= times.len(),
        forall|i: int| 0 <= i < skip ==> times[i] < from,
    ensures
        count_in(times, from, to) <= times.len() - skip,
    decreases times.len(),
{
    if times.len() > 0 {
        let init = times.drop_last();
        if skip == times.len() {
            lemma_count_bound(init, from, to, skip - 1);
        } else {
            lemma_count_bound(init, from, to, skip);
        }
    }
}

/// Where the last `k` of `times` all lie in a stretch, at least `k` of
/// `times` do.
pub proof fn lemma_count_suffix(times: Seq<u64>, from: int, to: int, k: int)
    requires
        0 <= k <= times.len(),
        forall|i: int|
            times.len() - k <= i < times.len() ==> from <= #[trigger] times[i] && times[i] < to,
    ensures
        count_in(times, from, to) >= k,
    decreases k,
{
    if k > 0 {
        lemma_count_suffix(times.drop_last(), from, to, k - 1);
    }
}

/// Asking a well-formed limiter leaves it well formed.
pub proof fn lemma_step_wf(m: BucketModel, now: u64)
    requires
        m.wf(),
    ensures
        m.step(now).0.wf(),
        m.step(now).0.quota == m.quota,
        m.step(now).0.period == m.period,
        m.step(now).0.last == m.clock(now),
        m.step(now).1 is Allowed ==> m.step(now).0.history == m.history.push(m.clock(now)),
        !(m.step(now).1 is Allowed) ==> m.step(now).0.history == m.history,
{
    let clock = m.clock(now);
    let recent = m.recent();
    let base = m.history.len() - m.live;
    lemma_stale_prefix(recent, clock as int, m.period);
    let stale = stale_prefix(recent, clock as int, m.period);
    let kept = (m.live - stale) as nat;
    assert forall|i: int| 0 <= i < recent.len() implies recent[i] == m.history[base + i] by {}
    assert forall|i: int| 0 <= i < base + stale implies m.history[i] + m.period <= clock by {
        if i >= base {
            assert(recent[i - base] == m.history[i]);
        }
    }
    assert forall|i: int| base + stale <= i < m.history.len() implies m.history[i] + m.period
        > clock by {}
    if kept < m.quota {
        let more = m.history.push(clock);
        assert(more.drop_last() =~= m.history);
        assert forall|from: int| #[trigger] window_count(more, from, m.period) <= m.quota by {
            assert(window_count(m.history, from, m.period) <= m.quota);
            if from <= clock < from + m.period {
                assert forall|i: int| 0 <= i < base + stale implies m.history[i] < from by {}
                lemma_count_bound(m.history, from, from + m.period, base + stale);
            }
        }
    }
}

/// Whatever the times a limiter is asked at, it stays well formed: no
/// stretch as long as the period ever holds more sends than the quota.
pub proof fn lemma_never_over_quota(m: BucketModel, times: Seq<u64>, from: int)
    requires
        m.wf(),
    ensures
        m.after(times).wf(),
        m.after(times).quota == m.quota,
        m.after(times).period == m.period,
        window_count(m.after(times).history, from, m.period) <= m.quota,
    decreases times.len(),
{
    if times.len() > 0 {
        lemma_never_over_quota(m, times.drop_last(), from);
        lemma_step_wf(m.after(times.drop_last()), times.last());
    }
}

/// After as many sends as the quota have been let through within one
/// period, the next attempt within that period is denied.
pub proof fn lemma_quota_exhausts(m: BucketModel, times: Seq<u64>)
    requires
        m.wf(),
        times.len() == m.quota + 1,
        ascending(times),
        times.last() < times[0] + m.period,
        forall|k: int| 1 <= k <= m.quota ==> #[trigger] m.answer(times.take(k)) is Allowed,
    ensures
        !(m.answer(times) is Allowed),
{
    let n = m.quota as int;
    lemma_run(m, times, n);
    let before = m.after(times.take(n));
    assert(times.drop_last() =~= times.take(n));
    lemma_step_wf(before, times.last());
    if m.answer(times) is Allowed {
        let end = before.step(times.last()).0;
        let from = m.clock(times[0]) as int;
        assert forall|i: int| end.history.len() - (n + 1) <= i < end.history.len() implies from
            <= #[trigger] end.history[i] && end.history[i] < from + m.period by {
            if i < before.history.len() {
                assert(before.history[i] == m.clock(times[i - (before.history.len() - n)]));
            }
        }
        lemma_count_suffix(end.history, from, from + m.period, n + 1);
        assert(window_count(end.history, from, m.period) <= m.quota);
    }
}

/// After the first `k` attempts, all let through, the state is well formed
/// and its history ends with the times that counted for those attempts.
proof fn lemma_run(m: BucketModel, times: Seq<u64>, k: int)
    requires
        m.wf(),
        0 <= k <= times.len(),
        ascending(times),
        forall|j: int| 1 <= j <= k ==> #[trigger] m.answer(times.take(j)) is Allowed,
    ensures
        m.after(times.take(k)).wf(),
        m.after(times.take(k)).quota == m.quota,
        m.after(times.take(k)).period == m.period,
        m.after(times.take(k)).history.len() >= k,
        k > 0 ==> m.after(times.take(k)).last == m.clock(times[k - 1]),
        k == 0 ==> m.after(times.take(k)) == m,
        forall|i: int|
            0 <= i < k ==> m.after(times.take(k)).history[m.after(times.take(k)).history.len() - k
                + i] == m.clock(#[trigger] times[i]),
    decreases k,
{
    if k > 0 {
        lemma_run(m, times, k - 1);
        let head = times.take(k);
        assert(head.drop_last() =~= times.take(k - 1));
        assert(head.last() == times[k - 1]);
        let before = m.after(times.take(k - 1));
        lemma_step_wf(before, times[k - 1]);
        assert(m.answer(head) is Allowed);
        assert(before.clock(times[k - 1]) == m.clock(times[k - 1])) by {
            if k > 1 {
                assert(times[k - 2] <= times[k - 1]);
            }
        }
    }
}

/// A limiter of outbound sends.
pub struct TokenBucket {
    quota: usize,
    period: u64,
    /// When each send of the last period was let through, oldest first.
    recent: Vec<u64>,
    last: u64,
    /// When each send ever was let through.
    history: Ghost<Seq<u64>>,
}

impl View for TokenBucket {
    type V = BucketModel;

    closed spec fn view(&self) -> BucketModel {
        BucketModel {
            quota: self.quota as nat,
            period: self.period as nat,
            history: self.history@,
            live: self.recent@.len(),
            last: self.last,
        }
    }
}

impl TokenBucket {
    /// The state is well formed, and what is remembered is the end of the
    /// history.
    pub closed spec fn wf(&self) -> bool {
        &&& self@.wf()
        &&& self.recent@ == self@.recent()
    }

    /// What holds of every limiter.
    pub proof fn lemma_wf(&self)
        requires
            self.wf(),
        ensures
            self@.wf(),
    {
    }

    /// A limiter that lets through `quota` sends in any stretch as long as
    /// `period`, and has let through none yet. There is none for a quota or
    /// a period of zero.
    pub fn new(quota: usize, period: u64) -> (made: Option<TokenBucket>)
        ensures
            match made {
                Some(bucket) => {
                    &&& quota >= 1
                    &&& period >= 1
                    &&& bucket.wf()
                    &&& bucket@ == (BucketModel {
                        quota: quota as nat,
                        period: period as nat,
                        history: Seq::empty(),
                        live: 0,
                        last: 0,
                    })
                },
                None => quota == 0 || period == 0,
            },
    {
        if quota == 0 || period == 0 {
            return None;
        }
        let bucket = TokenBucket {
            quota,
            period,
            recent: Vec::new(),
            last: 0,
            history: Ghost(Seq::empty()),
        };
        proof {
            assert(bucket@.recent() =~= Seq::empty());
            assert forall|from: int| #[trigger]
                window_count(bucket@.history, from, bucket@.period) <= bucket@.quota by {}
        }
        Some(bucket)
    }

    /// How many sends one period may hold.
    pub fn quota(&self) -> (quota: usize)
        ensures
            quota == self@.quota,
    {
        self.quota
    }

    /// The length of a period.
    pub fn period(&self) -> (period: u64)
        ensures
            period == self@.period,
    {
        self.period
    }

    /// Asks for one send at the time `now`. This never waits: the answer
    /// is `Allowed`, and the send is counted, or `Denied`.
    pub fn try_acquire(&mut self, now: u64) -> (permit: Permit)
        requires
            old(self).wf(),
        ensures
            final(self).wf(),
            (final(self)@, permit) == old(self)@.step(now),
    {
        let clock = if now >= self.last {
            now
        } else {
            self.last
        };
        let ghost before = self@;
        let ghost all = self.recent@;
        proof {
            lemma_step_wf(before, now);
            lemma_stale_prefix(all, clock as int, before.period);
        }
        // Forget the sends that are a whole period old.
        let mut stale: usize = 0;
        assert(all.skip(0) =~= all);
        while stale < self.recent.len() && clock - self.recent[stale] >= self.period
            invariant
                stale <= self.recent.len(),
                self.recent@ == all,
                self.period == before.period,
                forall|i: int| 0 <= i < all.len() ==> all[i] <= clock,
                stale_prefix(all, clock as int, before.period) == stale + stale_prefix(
                    all.skip(stale as int),
                    clock as int,
                    before.period,
                ),
            decreases self.recent.len() - stale,
        {
            assert(all.skip(stale as int).drop_first() =~= all.skip(stale + 1));
            stale += 1;
        }
        let mut kept: Vec<u64> = Vec::new();
        let mut i: usize = stale;
        while i < self.recent.len()
            invariant
                stale <= i <= self.recent.len(),
                self.recent@ == all,
                kept@ == all.subrange(stale as int, i as int),
            decreases self.recent.len() - i,
        {
            kept.push(self.recent[i]);
            i += 1;
        }
        self.last = clock;
        if kept.len() < self.quota {
            kept.push(clock);
            self.recent = kept;
            proof {
                self.history@ = self.history@.push(clock);
                assert(self.recent@ =~= self@.recent());
            }
            Permit::Allowed
        } else {
            let oldest = kept[0];
            self.recent = kept;
            Permit::Denied { retry_after: self.period - (clock - oldest) }
        }
    }
}

} // verus!
