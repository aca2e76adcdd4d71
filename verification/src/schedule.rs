//! The adaptive scheduler: error and same-song backoff progressions, the
//! jittered next-poll computation, and the due test the supervisor applies.

use vstd::prelude::*;

verus! {

use crate::hashing::spec_jitter;
use crate::hashing::jitter_seconds;
use crate::times::spec_sat64;
use crate::model::Connection;

/// The error backoff after one more failure: 30 seconds from rest, else
/// doubled and capped at 120.
pub open spec fn spec_next_error_backoff(current: int) -> int {
    if current == 0 {
        30
    } else if 2 * current > 120 {
        120
    } else {
        2 * current
    }
}

/// Advances the error backoff on a failure: 30 seconds first, then doubling,
/// capped at two minutes.
pub fn next_error_backoff_seconds(current: i32) -> (r: i32)
    requires
        current >= 0,
    ensures
        r == spec_next_error_backoff(current as int),
        current > 0 ==> 0 < r <= 120,
        current == 0 ==> r == 30,
{
    if current == 0 {
        30
    } else if current >= 60 {
        120
    } else {
        current * 2
    }
}

/// The same-song backoff after one more duplicate: a jittered value in
/// `[10, 30]` from rest, then 30, 60 and 120 seconds.
pub open spec fn spec_next_same_song_backoff(current: int, id: u128, now: i64) -> int {
    if current <= 0 {
        10 + spec_jitter(id, now, 20)
    } else if current < 30 {
        30
    } else if current < 60 {
        60
    } else {
        120
    }
}

/// Advances the same-song backoff on a duplicate observation.
pub fn next_same_song_backoff_seconds(current: i32, conn_id: u128, now: i64) -> (r: i32)
    ensures
        r == spec_next_same_song_backoff(current as int, conn_id, now),
        10 <= r <= 120,
{
    if current <= 0 {
        let j = jitter_seconds(conn_id, now, 20);
        10 + (j as i32)
    } else if current < 30 {
        30
    } else if current < 60 {
        60
    } else {
        120
    }
}

/// The delay before the next poll: the base plus jitter, at least one
/// second.
pub open spec fn spec_delay(id: u128, now: i64, base: int, max_jitter: i64) -> int {
    let d = base + spec_jitter(id, now, max_jitter);
    if d < 1 {
        1
    } else {
        d
    }
}

/// The next poll instant: `now` plus the jittered delay, clamped into
/// `i64`.
pub open spec fn spec_schedule_after(id: u128, now: i64, base: int, max_jitter: i64) -> i64 {
    spec_sat64(now + spec_delay(id, now, base, max_jitter))
}

/// Computes the next poll instant for a base delay, with deterministic
/// jitter of up to `max_jitter_seconds` on top and a floor of one second.
pub fn schedule_after_seconds(conn_id: u128, now: i64, base_delay_seconds: i64, max_jitter_seconds: i64) -> (r: i64)
    ensures
        r == spec_schedule_after(conn_id, now, base_delay_seconds as int, max_jitter_seconds),
        now < i64::MAX ==> r > now,
{
    let j = jitter_seconds(conn_id, now, max_jitter_seconds);
    let d: i128 = (base_delay_seconds as i128) + (j as i128);
    let d1: i128 = if d < 1 {
        1
    } else {
        d
    };
    let nx: i128 = (now as i128) + d1;
    if nx > (i64::MAX as i128) {
        i64::MAX
    } else if nx < (i64::MIN as i128) {
        i64::MIN
    } else {
        nx as i64
    }
}

/// A scheduled instant always lies after `now` while `now` is below the
/// clamp.
pub proof fn lemma_schedule_after_future(id: u128, now: i64, base: int, max_jitter: i64)
    requires
        now < i64::MAX,
    ensures
        spec_schedule_after(id, now, base, max_jitter) > now,
{
}

/// Whether a connection is due: its explicit next-poll instant when one is
/// set, else the poll interval measured from the last poll, else
/// immediately.
pub open spec fn spec_should_poll(c: Connection, now: i64) -> bool {
    match c.next_poll_at {
        Some(nxt) => now >= nxt,
        None => match c.last_polled_at {
            None => true,
            Some(last) => now - last >= c.poll_interval_seconds,
        },
    }
}

/// Decides whether a connection is due for a poll at `now`: an explicit
/// `next_poll_at` takes precedence over the interval since the last poll.
pub fn should_poll(conn: &Connection, now: i64) -> (r: bool)
    ensures
        r == spec_should_poll(*conn, now),
{
    match conn.next_poll_at {
        Some(nxt) => now >= nxt,
        None => match conn.last_polled_at {
            None => true,
            Some(last) => (now as i128) - (last as i128) >= (conn.poll_interval_seconds as i128),
        },
    }
}

/// While the stored schedule fields are held constant, becoming due is
/// monotone in the clock: a connection due at `t1` is due at every later
/// `t2`.
pub proof fn lemma_should_poll_monotone(c: Connection, t1: i64, t2: i64)
    requires
        t1 <= t2,
        spec_should_poll(c, t1),
    ensures
        spec_should_poll(c, t2),
{
}

/// The error backoff after `n` consecutive failures, starting from rest.
pub open spec fn spec_error_backoff_iter(n: nat) -> int
    decreases n,
{
    if n == 0 {
        0
    } else {
        spec_next_error_backoff(spec_error_backoff_iter((n - 1) as nat))
    }
}

/// From rest, consecutive failures drive the error backoff through
/// 30, 60 and 120 seconds, where it stays.
pub proof fn lemma_error_backoff_progression(n: nat)
    ensures
        spec_error_backoff_iter(n) == if n == 0 {
            0int
        } else if n == 1 {
            30int
        } else if n == 2 {
            60int
        } else {
            120int
        },
    decreases n,
{
    if n > 0 {
        lemma_error_backoff_progression((n - 1) as nat);
    }
}

/// The same-song backoff after `n` consecutive duplicates at one instant,
/// starting from rest.
pub open spec fn spec_same_song_iter(n: nat, id: u128, now: i64) -> int
    decreases n,
{
    if n == 0 {
        0
    } else {
        spec_next_same_song_backoff(spec_same_song_iter((n - 1) as nat, id, now), id, now)
    }
}

/// From rest, consecutive duplicates drive the same-song backoff to a
/// jittered value in `[10, 30]`, then through 30, 60 and 120 seconds, where
/// it stays. The first step reaches 30 exactly when the jitter is at its
/// cap; this progression covers the jitters below it.
pub proof fn lemma_same_song_progression(n: nat, id: u128, now: i64)
    requires
        spec_jitter(id, now, 20) < 20,
    ensures
        n == 0 ==> spec_same_song_iter(n, id, now) == 0,
        n == 1 ==> 10 <= spec_same_song_iter(n, id, now) < 30,
        n == 2 ==> spec_same_song_iter(n, id, now) == 30,
        n == 3 ==> spec_same_song_iter(n, id, now) == 60,
        n >= 4 ==> spec_same_song_iter(n, id, now) == 120,
    decreases n,
{
    if n > 0 {
        lemma_same_song_progression((n - 1) as nat, id, now);
        crate::hashing::lemma_jitter_in_range(id, now, 20);
    }
}

} // verus!
