//! When a heartbeat is due.
//!
//! Times are whole seconds on one clock. The dispatcher keeps a single
//! timestamp, the time of the last heartbeat, and compares it with the
//! current time on every tick.

use vstd::prelude::*;
use vstd::arithmetic::div_mod::{lemma_fundamental_div_mod, lemma_fundamental_div_mod_converse};

verus! {

/// The seconds from `last_time` to `now`; none if the clock stepped back.
pub open spec fn elapsed(last_time: int, now: int) -> int {
    if now >= last_time {
        now - last_time
    } else {
        0
    }
}

/// Whether a heartbeat is due at `now`: an interval is configured and at
/// least that many seconds have passed since `last_time`.
pub open spec fn ping_due(ping_interval: Option<u64>, last_time: int, now: int) -> bool {
    match ping_interval {
        Some(interval) => elapsed(last_time, now) >= interval,
        None => false,
    }
}

/// The timestamp to keep after a tick at `now`: `now` if a heartbeat was due,
/// the old timestamp otherwise.
pub open spec fn last_time_after_tick(ping_interval: Option<u64>, last_time: int, now: int) -> int {
    if ping_due(ping_interval, last_time, now) {
        now
    } else {
        last_time
    }
}

/// Tests whether a heartbeat is due.
pub fn ping_is_due(ping_interval: &Option<u64>, last_time: u64, now: u64) -> (due: bool)
    ensures
        due == ping_due(*ping_interval, last_time as int, now as int),
        *ping_interval is None ==> !due,
{
    match ping_interval {
        Some(interval) => {
            let passed: u64 = if now >= last_time {
                now - last_time
            } else {
                0
            };
            passed >= *interval
        },
        None => false,
    }
}

/// The timestamp that the dispatcher holds when it comes to tick number
/// `tick`, where the dispatcher started at `start` with the timestamp
/// `start` and ticks once a second: tick 0 at `start`, tick 1 a second
/// later, and so on.
pub open spec fn last_time_at_tick(ping_interval: Option<u64>, start: int, tick: nat) -> int
    decreases tick,
{
    if tick == 0 {
        start
    } else {
        last_time_after_tick(
            ping_interval,
            last_time_at_tick(ping_interval, start, (tick - 1) as nat),
            start + tick - 1,
        )
    }
}

/// Whether tick number `tick` of that run sends a heartbeat.
pub open spec fn beats_at_tick(ping_interval: Option<u64>, start: int, tick: nat) -> bool {
    ping_due(ping_interval, last_time_at_tick(ping_interval, start, tick), start + tick)
}

/// With no interval configured no tick ever sends a heartbeat, however much
/// time has passed.
pub proof fn lemma_no_interval_no_heartbeat(last_time: int, now: int, start: int, tick: nat)
    ensures
        !ping_due(None, last_time, now),
        !beats_at_tick(None, start, tick),
{
}

/// The remainder of a successor.
proof fn lemma_mod_successor(n: int, p: int)
    requires
        n >= 0,
        p >= 1,
    ensures
        (n + 1) % p == if n % p == p - 1 {
            0
        } else {
            n % p + 1
        },
{
    lemma_fundamental_div_mod(n, p);
    let q = n / p;
    let r = n % p;
    if r == p - 1 {
        assert(n + 1 == (q + 1) * p + 0) by (nonlinear_arith)
            requires
                n == p * q + r,
                r == p - 1,
        ;
        lemma_fundamental_div_mod_converse(n + 1, p, q + 1, 0);
    } else {
        assert(n + 1 == q * p + (r + 1)) by (nonlinear_arith)
            requires
                n == p * q + r,
        ;
        lemma_fundamental_div_mod_converse(n + 1, p, q, r + 1);
    }
}

/// The seconds since the last heartbeat, as the dispatcher finds them at
/// each tick of a run with an interval of `interval >= 1` seconds.
proof fn lemma_elapsed_at_tick(interval: u64, start: int, tick: nat)
    requires
        interval >= 1,
    ensures
        start + tick - last_time_at_tick(Some(interval), start, tick) == if tick == 0 {
            0
        } else {
            (tick - 1) % (interval as int) + 1
        },
    decreases tick,
{
    let p = interval as int;
    if tick == 0 {
    } else if tick == 1 {
        assert(last_time_at_tick(Some(interval), start, 0) == start);
        assert(0int % p == 0) by {
            lemma_fundamental_div_mod_converse(0, p, 0, 0);
        }
    } else {
        let before = (tick - 1) as nat;
        lemma_elapsed_at_tick(interval, start, before);
        lemma_mod_successor(before - 1, p);
    }
}

/// With an interval of `interval >= 1` seconds and one tick a second, a tick
/// sends a heartbeat exactly when its number is a positive multiple of the
/// interval. So no heartbeat is sent before the first interval has passed.
pub proof fn lemma_heartbeat_cadence(interval: u64, start: int, tick: nat)
    requires
        interval >= 1,
    ensures
        beats_at_tick(Some(interval), start, tick) <==> tick > 0 && tick % (interval as nat) == 0,
        tick < interval ==> !beats_at_tick(Some(interval), start, tick),
{
    let p = interval as int;
    lemma_elapsed_at_tick(interval, start, tick);
    if tick > 0 {
        lemma_mod_successor(tick - 1, p);
        if tick < interval {
            lemma_fundamental_div_mod_converse(tick as int, p, 0, tick as int);
        }
    }
}

/// With an interval of `interval >= 1` seconds and one tick a second, every
/// run of `interval` ticks in a row, after the first tick, holds exactly one
/// tick that sends a heartbeat.
pub proof fn lemma_one_heartbeat_per_interval(interval: u64, start: int, first: nat)
    requires
        interval >= 1,
        first >= 1,
    ensures
        exists|tick: nat|
            first <= tick < first + interval && #[trigger] beats_at_tick(
                Some(interval),
                start,
                tick,
            ),
        forall|a: nat, b: nat|
            first <= a < first + interval && first <= b < first + interval && #[trigger] beats_at_tick(
                Some(interval),
                start,
                a,
            ) && #[trigger] beats_at_tick(Some(interval), start, b) ==> a == b,
{
    let p = interval as int;
    lemma_fundamental_div_mod(first as int, p);
    let q = first as int / p;
    let r = first as int % p;
    let hit: nat = if r == 0 {
        first
    } else {
        (first + p - r) as nat
    };
    assert(hit == (if r == 0 {
        q
    } else {
        q + 1
    }) * p + 0) by (nonlinear_arith)
        requires
            first == p * q + r,
            hit == if r == 0 {
                first as int
            } else {
                first + p - r
            },
    ;
    lemma_fundamental_div_mod_converse(
        hit as int,
        p,
        if r == 0 {
            q
        } else {
            q + 1
        },
        0,
    );
    lemma_heartbeat_cadence(interval, start, hit);
    assert(first <= hit < first + interval && beats_at_tick(Some(interval), start, hit));
    assert forall|a: nat, b: nat|
        first <= a < first + interval && first <= b < first + interval && #[trigger] beats_at_tick(
            Some(interval),
            start,
            a,
        ) && #[trigger] beats_at_tick(Some(interval), start, b) implies a == b by {
        lemma_heartbeat_cadence(interval, start, a);
        lemma_heartbeat_cadence(interval, start, b);
        lemma_fundamental_div_mod(a as int, p);
        lemma_fundamental_div_mod(b as int, p);
        let qa = a as int / p;
        let qb = b as int / p;
        assert(qa == qb) by (nonlinear_arith)
            requires
                a == p * qa,
                b == p * qb,
                a - b < p,
                b - a < p,
                p >= 1,
        ;
    }
}

} // verus!
