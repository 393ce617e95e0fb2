//! When to probe, and how long to wait before trying a transport again.

use vstd::prelude::*;

verus! {

/// The longest wait before a transport is tried again, in milliseconds.
pub const MAX_BACKOFF: u64 = 60_000;

/// The jitter taken off the first interval: at least one millisecond, at
/// most a tenth of the interval, chosen by `seed`.
pub open spec fn jitter(interval: u64, seed: u64) -> int {
    let span = if interval / 10 >= 1 {
        interval / 10
    } else {
        1
    };
    1 + seed as int % span as int
}

/// How long after the handshake the first probe goes out: the interval
/// less the jitter. An interval of no length has no delay.
pub open spec fn first_delay_spec(interval: u64, seed: u64) -> int {
    if interval >= 1 {
        interval - jitter(interval, seed)
    } else {
        0
    }
}

/// How long after the handshake the first probe goes out. `seed` is any
/// number, best a random one: it spreads the first probes of many clients.
pub fn first_delay(interval: u64, seed: u64) -> (delay: u64)
    ensures
        delay == first_delay_spec(interval, seed),
        interval >= 1 ==> delay < interval,
        interval >= 10 ==> interval - delay <= interval / 10,
{
    if interval == 0 {
        return 0;
    }
    let span = if interval / 10 >= 1 {
        interval / 10
    } else {
        1
    };
    interval - (1 + seed % span)
}

/// The time that is `delay` after `now`, or the last time there is.
pub open spec fn later(now: u64, delay: u64) -> u64 {
    if now + delay <= u64::MAX {
        (now + delay) as u64
    } else {
        u64::MAX
    }
}

/// The time that is `delay` after `now`, or the last time there is.
pub fn add_delay(now: u64, delay: u64) -> (due: u64)
    ensures
        due == later(now, delay),
{
    if now > u64::MAX - delay {
        u64::MAX
    } else {
        now + delay
    }
}

/// How long to wait before the next try, after `failures` failed tries in
/// a row: a second, doubled with each failure, up to a minute.
pub open spec fn backoff_spec(failures: u32) -> u64 {
    if failures == 0 {
        1_000
    } else if failures == 1 {
        2_000
    } else if failures == 2 {
        4_000
    } else if failures == 3 {
        8_000
    } else if failures == 4 {
        16_000
    } else if failures == 5 {
        32_000
    } else {
        MAX_BACKOFF
    }
}

/// How long to wait before the next try, in milliseconds.
pub fn backoff(failures: u32) -> (delay: u64)
    ensures
        delay == backoff_spec(failures),
        1_000 <= delay <= MAX_BACKOFF,
{
    match failures {
        0 => 1_000,
        1 => 2_000,
        2 => 4_000,
        3 => 8_000,
        4 => 16_000,
        5 => 32_000,
        _ => MAX_BACKOFF,
    }
}

/// The wait never gets shorter as the failures go on, and doubles until it
/// reaches the longest wait.
pub proof fn lemma_backoff_grows(failures: u32)
    requires
        failures < u32::MAX,
    ensures
        backoff_spec(failures) <= backoff_spec((failures + 1) as u32),
        failures < 5 ==> backoff_spec((failures + 1) as u32) == 2 * backoff_spec(failures),
{
}

/// The first probe goes out before a whole interval has passed.
pub proof fn lemma_first_probe_early(interval: u64, seed: u64)
    requires
        interval >= 1,
    ensures
        0 <= first_delay_spec(interval, seed) < interval,
{
}

} // verus!
