//! When the live file is due for rotation: a fixed period after the last
//! rotation, or the next local midnight.
use vstd::prelude::*;
use chrono::TimeZone;
use crate::settings::{RotationPolicyConfig, RotationPolicyType};

verus! {

/// Milliseconds in one calendar day without a clock change.
pub const MILLIS_PER_DAY: i64 = 86_400_000;

/// A point in time, in milliseconds since the Unix epoch (UTC).
#[derive(Debug, Clone, Copy, PartialEq, Eq, Structural)]
pub struct Instant {
    pub millis: i64,
}

impl Instant {
    pub fn from_millis(millis: i64) -> (r: Instant)
        ensures
            r.millis == millis,
    {
        Instant { millis }
    }
}

/// True when `v` is representable as an `i64`.
pub open spec fn fits_i64(v: int) -> bool {
    i64::MIN <= v <= i64::MAX
}

/// The first local midnight strictly after the local wall-clock reading `local`
/// (milliseconds, as if the local clock were UTC).
pub open spec fn day_start_after(local: int) -> int {
    local - local % (MILLIS_PER_DAY as int) + MILLIS_PER_DAY
}

/// The instant of the first local midnight after `last`, where the clock reads
/// `offset_now` seconds ahead of UTC at `last` and `offset_then` at that midnight.
pub open spec fn midnight_after(last: int, offset_now: int, offset_then: int) -> int {
    day_start_after(last + offset_now * 1000) - offset_then * 1000
}

/// What `RotationByDay::next_local_midnight` returns: the midnight instant, when
/// it is representable and lies after `last`.
pub open spec fn next_midnight_spec(last: int, offset_now: int, offset_then: int) -> Option<int> {
    let m = midnight_after(last, offset_now, offset_then);
    if fits_i64(m) && m > last {
        Some(m)
    } else {
        None
    }
}

/// `last` plus `secs` seconds, when representable.
pub open spec fn period_after(last: Instant, secs: u64) -> Option<Instant> {
    if fits_i64(last.millis + secs * 1000) {
        Some(Instant { millis: (last.millis + secs * 1000) as i64 })
    } else {
        None
    }
}

/// True when `x` is the first local midnight after `last` under some pair of
/// representable clock offsets, and lies after `last`.
pub open spec fn is_midnight_after(last: Instant, x: Instant) -> bool {
    exists|o1: int, o2: int|
        valid_offset(o1) && valid_offset(o2) && #[trigger] next_midnight_spec(
            last.millis as int,
            o1,
            o2,
        ) == Some(x.millis as int)
}

/// True when `o` is a clock offset in seconds that chrono can represent.
pub open spec fn valid_offset(o: int) -> bool {
    -86_400 < o < 86_400
}

/// Relies on chrono's `Local::offset_from_utc_datetime`: the offset east of UTC,
/// in seconds, that the machine's time zone applies at an instant. chrono keeps
/// every `FixedOffset` strictly within one day. `None` where chrono cannot
/// represent the instant.
#[verifier::external_body]
fn local_offset_at(millis: i64) -> (r: Option<i32>)
    ensures
        r matches Some(o) ==> valid_offset(o as int),
{
    match chrono::DateTime::from_timestamp_millis(millis) {
        Some(t) => Some(chrono::Local.offset_from_utc_datetime(&t.naive_utc()).local_minus_utc()),
        None => None,
    }
}

/// Relies on chrono's `Local::offset_from_local_datetime` and `single`: the
/// offset east of UTC, in seconds, under which the machine's time zone shows the
/// wall-clock reading `local_millis`. `None` where that reading is skipped or
/// shown twice by a clock change, or cannot be represented.
#[verifier::external_body]
fn local_offset_of_wall_clock(local_millis: i64) -> (r: Option<i32>)
    ensures
        r matches Some(o) ==> valid_offset(o as int),
{
    match chrono::DateTime::from_timestamp_millis(local_millis) {
        Some(t) => chrono::Local.offset_from_local_datetime(&t.naive_utc()).single().map(
            |o| o.local_minus_utc(),
        ),
        None => None,
    }
}

/// A multiple of a day larger than any wall-clock reading an `i64` instant
/// can give.
const DAY_SHIFT: i128 = 12_159_718_993_900_339_200_000;

/// Computes `day_start_after(local)` for readings near the `i64` range.
fn day_start_after_exec(local: i128) -> (r: i128)
    requires
        -(DAY_SHIFT as int) <= local <= DAY_SHIFT as int,
    ensures
        r == day_start_after(local as int),
{
    let day: i128 = MILLIS_PER_DAY as i128;
    let shifted: i128 = local + DAY_SHIFT;
    let rem: i128 = shifted % day;
    proof {
        assert(DAY_SHIFT == 140_737_488_355_328 * MILLIS_PER_DAY);
        vstd::arithmetic::div_mod::lemma_mod_multiples_vanish(
            140_737_488_355_328,
            local as int,
            MILLIS_PER_DAY as int,
        );
        vstd::arithmetic::div_mod::lemma_mod_pos_bound(shifted as int, MILLIS_PER_DAY as int);
    }
    local - rem + day
}

/// Rotates a fixed number of seconds after the previous rotation.
#[derive(Debug, Clone, Copy, PartialEq, Eq, Structural)]
pub struct RotationByDuration {
    pub duration_secs: u64,
}

impl RotationByDuration {
    pub fn new(duration_secs: u64) -> (r: RotationByDuration)
        ensures
            r.duration_secs == duration_secs,
    {
        RotationByDuration { duration_secs }
    }

    /// `last` plus the period, exactly; `None` only when that instant is not
    /// representable.
    pub fn next_rotation(&self, last: Instant) -> (r: Option<Instant>)
        ensures
            r == period_after(last, self.duration_secs),
    {
        let m: i128 = last.millis as i128 + self.duration_secs as i128 * 1000;
        if m > i64::MAX as i128 || m < i64::MIN as i128 {
            None
        } else {
            Some(Instant { millis: m as i64 })
        }
    }
}

/// Rotates at the first local midnight after the previous rotation.
#[derive(Debug, Clone, Copy, PartialEq, Eq, Structural)]
pub struct RotationByDay {}

impl RotationByDay {
    pub fn new() -> (r: RotationByDay)
        ensures
            r == (RotationByDay {  }),
    {
        RotationByDay {  }
    }

    /// The first local midnight after `last`, given the clock offset (seconds
    /// east of UTC) in force at `last` and the one in force at that midnight.
    pub fn next_local_midnight(last: Instant, offset_now: i32, offset_then: i32) -> (r: Option<
        Instant,
    >)
        requires
            valid_offset(offset_now as int),
            valid_offset(offset_then as int),
        ensures
            r == (match next_midnight_spec(last.millis as int, offset_now as int, offset_then as int) {
                Some(m) => Some(Instant { millis: m as i64 }),
                None => None::<Instant>,
            }),
    {
        let local: i128 = last.millis as i128 + offset_now as i128 * 1000;
        let m: i128 = day_start_after_exec(local) - offset_then as i128 * 1000;
        if m > i64::MAX as i128 || m < i64::MIN as i128 || m <= last.millis as i128 {
            None
        } else {
            Some(Instant { millis: m as i64 })
        }
    }

    /// The first local midnight after `last` in the machine's time zone. `None`
    /// where the time zone cannot place it: the offsets are unknown, or that
    /// midnight is skipped or repeated by a clock change.
    pub fn next_rotation(&self, last: Instant) -> (r: Option<Instant>)
        ensures
            r matches Some(x) ==> is_midnight_after(last, x),
    {
        let offset_now = match local_offset_at(last.millis) {
            Some(o) => o,
            None => {
                return None;
            },
        };
        let local: i128 = last.millis as i128 + offset_now as i128 * 1000;
        let wall: i128 = day_start_after_exec(local);
        if wall > i64::MAX as i128 || wall < i64::MIN as i128 {
            return None;
        }
        let offset_then = match local_offset_of_wall_clock(wall as i64) {
            Some(o) => o,
            None => {
                return None;
            },
        };
        let r = Self::next_local_midnight(last, offset_now, offset_then);
        if let Some(x) = r {
            assert(next_midnight_spec(last.millis as int, offset_now as int, offset_then as int)
                == Some(x.millis as int));
        }
        r
    }
}

impl Default for RotationByDay {
    fn default() -> (r: RotationByDay)
        ensures
            r == (RotationByDay {  }),
    {
        RotationByDay::new()
    }
}

/// The day-based schedule's next rotation lies strictly after the previous
/// one, on a local midnight (under the offset in force then), and at most one
/// day plus the clock change between the two offsets later. Without a clock
/// change it always exists when representable.
pub proof fn lemma_day_rotation_bounds(last: int, offset_now: int, offset_then: int)
    requires
        valid_offset(offset_now),
        valid_offset(offset_then),
    ensures
        next_midnight_spec(last, offset_now, offset_then) matches Some(x) ==> {
            &&& x > last
            &&& (x + offset_then * 1000) % (MILLIS_PER_DAY as int) == 0
            &&& x - last <= MILLIS_PER_DAY + (offset_now - offset_then) * 1000
        },
        offset_now == offset_then && fits_i64(midnight_after(last, offset_now, offset_then))
            ==> next_midnight_spec(last, offset_now, offset_then) is Some,
{
    let d = MILLIS_PER_DAY as int;
    let l = last + offset_now * 1000;
    vstd::arithmetic::div_mod::lemma_fundamental_div_mod(l, d);
    vstd::arithmetic::div_mod::lemma_mod_bound(l, d);
    assert(day_start_after(l) == d * (l / d + 1)) by (nonlinear_arith)
        requires
            l == d * (l / d) + l % d,
            day_start_after(l) == l - l % d + d,
    ;
    vstd::arithmetic::div_mod::lemma_mod_multiples_vanish(l / d + 1, 0, d);
    assert(0int % d == 0);
}

/// The tagged choice between the two schedules.
#[derive(Debug, Clone, Copy, PartialEq, Eq, Structural)]
pub enum RotationPolicy {
    ByDuration(RotationByDuration),
    ByDay(RotationByDay),
}

impl RotationPolicy {
    /// The instant at which the file rotated at `last` is due again.
    pub fn next_rotation(&self, last: Instant) -> (r: Option<Instant>)
        ensures
            match *self {
                RotationPolicy::ByDuration(p) => r == period_after(last, p.duration_secs),
                RotationPolicy::ByDay(_) => r matches Some(x) ==> is_midnight_after(last, x),
            },
    {
        match self {
            RotationPolicy::ByDuration(p) => p.next_rotation(last),
            RotationPolicy::ByDay(p) => p.next_rotation(last),
        }
    }
}

impl RotationPolicyConfig {
    /// The schedule the configuration describes; `None` when rotating by
    /// duration without a positive period.
    pub fn to_policy(&self) -> (r: Option<RotationPolicy>)
        ensures
            r == (match self.policy {
                RotationPolicyType::ByDay => Some(RotationPolicy::ByDay(RotationByDay {  })),
                RotationPolicyType::ByDuration => match self.duration {
                    Some(d) => if d > 0 {
                        Some(RotationPolicy::ByDuration(RotationByDuration { duration_secs: d }))
                    } else {
                        None
                    },
                    None => None,
                },
            }),
    {
        match self.policy {
            RotationPolicyType::ByDay => Some(RotationPolicy::ByDay(RotationByDay::new())),
            RotationPolicyType::ByDuration => match self.duration {
                Some(d) => {
                    if d > 0 {
                        Some(RotationPolicy::ByDuration(RotationByDuration::new(d)))
                    } else {
                        None
                    }
                },
                None => None,
            },
        }
    }
}

} // verus!
