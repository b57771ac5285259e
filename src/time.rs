use vstd::prelude::*;

verus! {

/// Seconds in one civil day.
pub const SECS_PER_DAY: i64 = 86400;

/// Number of days from 0001-01-01 (day 1) to 1970-01-01.
pub const UNIX_EPOCH_DAY: i64 = 719163;

/// An instant as Unix seconds, together with the local UTC offset in force
/// at that instant. Instants are ordered by `utc` alone.
#[derive(Debug, Clone, Copy, PartialEq, Eq, Structural)]
pub struct Moment {
    pub utc: i64,
    pub offset: i32,
}

/// Local wall-clock seconds since 1970-01-01T00:00 local time.
pub open spec fn local_secs(m: Moment) -> int {
    m.utc + m.offset
}

/// The local calendar day of `m`, counted as days of the common era
/// (0001-01-01 is day 1).
pub open spec fn local_day_of(m: Moment) -> int {
    local_secs(m) / (SECS_PER_DAY as int) + UNIX_EPOCH_DAY
}

/// Seconds elapsed since local midnight, in `0 .. 86400`.
pub open spec fn second_of_day(m: Moment) -> int {
    local_secs(m) % (SECS_PER_DAY as int)
}

/// Whole minutes elapsed since local midnight, in `0 .. 1440`.
pub open spec fn minute_of_day(m: Moment) -> int {
    second_of_day(m) / 60
}

/// Wall-clock seconds (since 1970-01-01T00:00 local) of second `secs` on `day`.
pub open spec fn wall_secs(day: int, secs: int) -> int {
    (day - UNIX_EPOCH_DAY) * (SECS_PER_DAY as int) + secs
}

/// Seconds to wait from `now` until `target`, never negative.
pub open spec fn wait_spec(now: Moment, target: Moment) -> int {
    if target.utc > now.utc {
        target.utc - now.utc
    } else {
        0
    }
}

proof fn lemma_floor_div(x: int, d: int, q: int, r: int)
    requires
        d > 0,
        x == q * d + r,
        0 <= r < d,
    ensures
        x / d == q,
        x % d == r,
{
    vstd::arithmetic::div_mod::lemma_fundamental_div_mod_converse(x, d, q, r);
}

/// Euclidean quotient and remainder of `x` by one day.
fn split_day(x: i128) -> (r: (i128, i128))
    requires
        -0x1_0000_0000_0000_0000 <= x <= 0x1_0000_0000_0000_0000,
    ensures
        r.0 == (x as int) / (SECS_PER_DAY as int),
        r.1 == (x as int) % (SECS_PER_DAY as int),
{
    let d: i128 = SECS_PER_DAY as i128;
    if x >= 0 {
        let q: i128 = x / d;
        let rem: i128 = x % d;
        proof {
            lemma_floor_div(x as int, d as int, q as int, rem as int);
        }
        (q, rem)
    } else {
        let y: i128 = -x - 1;
        let q0: i128 = y / d;
        let r0: i128 = y % d;
        let q: i128 = -q0 - 1;
        let rem: i128 = d - 1 - r0;
        assert(x == q * d + rem) by (nonlinear_arith)
            requires
                y == q0 * d + r0,
                y == -x - 1,
                q == -q0 - 1,
                rem == d - 1 - r0,
        ;
        proof {
            lemma_floor_div(x as int, d as int, q as int, rem as int);
        }
        (q, rem)
    }
}

/// The local calendar day of `m` (days of the common era).
pub fn local_day(m: Moment) -> (r: i64)
    ensures
        r == local_day_of(m),
{
    let x: i128 = m.utc as i128 + m.offset as i128;
    let (q, _rem) = split_day(x);
    assert(-0x1_0000_0000_0000 <= q <= 0x1_0000_0000_0000) by (nonlinear_arith)
        requires
            q == (x as int) / 86400,
            -0x1_0000_0000_0000_0000 <= x <= 0x1_0000_0000_0000_0000,
    ;
    (q + UNIX_EPOCH_DAY as i128) as i64
}

/// Whole minutes since local midnight of `m`.
pub fn minute_of(m: Moment) -> (r: u32)
    ensures
        r == minute_of_day(m),
        r < 1440,
{
    let x: i128 = m.utc as i128 + m.offset as i128;
    let (_q, rem) = split_day(x);
    (rem / 60) as u32
}

/// How long to suspend, in seconds, from `now` until `target`: the
/// difference when `target` lies ahead, zero otherwise.
pub fn wait_seconds(now: Moment, target: Moment) -> (r: u64)
    ensures
        r == wait_spec(now, target),
{
    if target.utc > now.utc {
        (target.utc as i128 - now.utc as i128) as u64
    } else {
        0
    }
}

/// A wait is never negative, and a target at or before `now` gives none.
pub proof fn lemma_wait_never_negative(now: Moment, target: Moment)
    ensures
        wait_spec(now, target) >= 0,
        target.utc <= now.utc ==> wait_spec(now, target) == 0,
        target.utc > now.utc ==> wait_spec(now, target) == target.utc - now.utc,
{
}

} // verus!
