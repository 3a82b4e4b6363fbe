//! Host time, in whole seconds.

use std::time::{Duration, SystemTime, SystemTimeError};
use vstd::prelude::*;

verus! {

/// A source of host time.
pub trait Clock {
    /// Whether `now` is a time that this clock may show.
    open spec fn shows(&self, now: i64) -> bool {
        true
    }

    /// The current host time.
    fn now(&self) -> (now: i64)
        ensures
            self.shows(now),
    ;
}

#[verifier::external_type_specification]
#[verifier::external_body]
pub struct ExSystemTime(std::time::SystemTime);

#[verifier::external_type_specification]
#[verifier::external_body]
pub struct ExSystemTimeError(std::time::SystemTimeError);

/// How long after the Unix epoch a time is, or nothing for an earlier time.
pub uninterp spec fn since_epoch(time: SystemTime) -> Option<Duration>;

/// The whole seconds in a duration.
pub uninterp spec fn seconds_in(elapsed: Duration) -> u64;

/// `SystemTime::now` reads the clock of the machine. What it shows is left unsaid.
#[verifier::external_body]
pub(crate) fn system_time() -> (now: SystemTime) {
    std::time::SystemTime::now()
}

/// `SystemTime::duration_since` measures from the Unix epoch to `now`, and fails
/// where `now` is earlier.
#[verifier::external_body]
fn since_unix_epoch(now: &SystemTime) -> (elapsed: Result<Duration, SystemTimeError>)
    ensures
        match elapsed {
            Ok(elapsed) => since_epoch(*now) == Some(elapsed),
            Err(_) => since_epoch(*now) is None,
        },
{
    now.duration_since(std::time::UNIX_EPOCH)
}

/// `Duration::as_secs` is the number of whole seconds in a duration.
#[verifier::external_body]
fn whole_seconds(elapsed: &Duration) -> (seconds: u64)
    ensures
        seconds == seconds_in(*elapsed),
{
    elapsed.as_secs()
}

/// The host time that a machine shows `seconds` after the Unix epoch, or before
/// the epoch where there are none.
pub open spec fn shown(seconds: Option<u64>) -> i64 {
    match seconds {
        Some(seconds) => if seconds <= i64::MAX {
            seconds as i64
        } else {
            i64::MAX
        },
        None => 0,
    }
}

/// The host time that a machine shows `seconds` after the Unix epoch, or before
/// the epoch where there are none.
pub fn host_time(seconds: Option<u64>) -> (now: i64)
    ensures
        now == shown(seconds),
{
    match seconds {
        Some(seconds) => if seconds <= i64::MAX as u64 {
            seconds as i64
        } else {
            i64::MAX
        },
        None => 0,
    }
}

/// The clock of the machine.
#[derive(Debug, Clone, Copy, Default)]
pub struct SystemClock;

impl SystemClock {
    /// The host time at `time`.
    pub open spec fn shown_at(time: SystemTime) -> i64 {
        shown(
            match since_epoch(time) {
                Some(elapsed) => Some(seconds_in(elapsed)),
                None => None,
            },
        )
    }
}

impl Clock for SystemClock {
    /// The clock of the machine shows the whole seconds from the Unix epoch to some
    /// time.
    open spec fn shows(&self, now: i64) -> bool {
        exists|time: SystemTime| now == #[trigger] SystemClock::shown_at(time)
    }

    fn now(&self) -> (now: i64) {
        let time = system_time();
        let now: i64 = match since_unix_epoch(&time) {
            Ok(elapsed) => host_time(Some(whole_seconds(&elapsed))),
            Err(_) => host_time(None),
        };
        assert(now == SystemClock::shown_at(time));
        now
    }
}

/// The clock of the machine shows no time before the Unix epoch.
pub proof fn machine_time_is_not_negative(clock: SystemClock, now: i64)
    requires
        clock.shows(now),
    ensures
        now >= 0,
{
}

/// A clock that stands still until it is moved.
#[derive(Debug)]
pub struct ManualClock {
    pub now: i64,
}

impl Clock for ManualClock {
    open spec fn shows(&self, now: i64) -> bool {
        now == self.now
    }

    fn now(&self) -> (now: i64) {
        self.now
    }
}

/// `now` moved by `seconds`, wrapped into the range of host times.
pub open spec fn moved(now: i64, seconds: i64) -> int {
    if now + seconds > i64::MAX {
        now + seconds - 0x1_0000_0000_0000_0000
    } else if now + seconds < i64::MIN {
        now + seconds + 0x1_0000_0000_0000_0000
    } else {
        now + seconds
    }
}

impl ManualClock {
    /// A clock that shows `initial_timestamp`.
    pub fn new(initial_timestamp: i64) -> (clock: Self)
        ensures
            clock.now == initial_timestamp,
    {
        ManualClock { now: initial_timestamp }
    }

    /// Show `timestamp` from now on.
    pub fn set(&mut self, timestamp: i64)
        ensures
            final(self).now == timestamp,
    {
        self.now = timestamp;
    }

    /// Move the clock by `seconds`. It wraps around at the end of its range.
    pub fn advance_by(&mut self, seconds: i64)
        ensures
            final(self).now == moved(old(self).now, seconds),
    {
        self.now = self.now.wrapping_add(seconds);
    }
}

/// Two moves come to one by their sum, wrapped where the sum is out of range. Where
/// the times are in range, the clock shows the time that the sum gives.
pub proof fn moves_add_up(now: i64, seconds: i64, more: i64)
    ensures
        i64::MIN <= moved(now, seconds) <= i64::MAX,
        moved(moved(now, seconds) as i64, more) == moved(now, moved(seconds, more) as i64),
        i64::MIN <= seconds + more <= i64::MAX ==> moved(moved(now, seconds) as i64, more)
            == moved(now, (seconds + more) as i64),
        i64::MIN <= now + seconds <= i64::MAX && i64::MIN <= now + seconds + more <= i64::MAX
            ==> moved(moved(now, seconds) as i64, more) == now + seconds + more,
{
}

/// Moving a clock there and back leaves it where it was.
pub proof fn moving_back_undoes_moving(now: i64, seconds: i64)
    requires
        seconds != i64::MIN,
    ensures
        moved(moved(now, seconds) as i64, (-seconds) as i64) == now,
{
}

/// A machine shows the seconds from the Unix epoch to its time, the last host time where
/// they are beyond it, and the epoch where its time is before that.
pub proof fn machine_shows_seconds_since_the_epoch(time: SystemTime)
    ensures
        match since_epoch(time) {
            None => SystemClock::shown_at(time) == 0,
            Some(elapsed) => {
                &&& seconds_in(elapsed) <= i64::MAX ==> SystemClock::shown_at(time) == seconds_in(
                    elapsed,
                )
                &&& seconds_in(elapsed) > i64::MAX ==> SystemClock::shown_at(time) == i64::MAX
            },
        },
        shown(None) == 0,
        forall|seconds: u64|
            seconds <= i64::MAX ==> #[trigger] shown(Some(seconds)) == seconds as int,
        forall|seconds: u64| seconds > i64::MAX ==> #[trigger] shown(Some(seconds)) == i64::MAX,
{
}

/// A clock that is moved shows the sum, and wraps around where the sum is out of range.
pub proof fn moves_are_exact_in_range(now: i64, seconds: i64)
    ensures
        i64::MIN <= now + seconds <= i64::MAX ==> moved(now, seconds) == now + seconds,
        now + seconds > i64::MAX ==> moved(now, seconds) == i64::MIN + (now + seconds - i64::MAX
            - 1),
        now + seconds < i64::MIN ==> moved(now, seconds) == i64::MAX - (i64::MIN - (now + seconds)
            - 1),
{
}

/// A clock that stands still shows its own time alone, and the clock of the machine shows
/// nothing but the seconds from the Unix epoch to some time.
pub proof fn clocks_show_their_time(manual: ManualClock, machine: SystemClock, now: i64)
    ensures
        manual.shows(now) <==> now == manual.now,
        machine.shows(now) ==> exists|time: SystemTime|
            match #[trigger] since_epoch(time) {
                None => now == 0,
                Some(elapsed) => now == seconds_in(elapsed) || (now == i64::MAX && seconds_in(
                    elapsed,
                ) > i64::MAX),
            },
{
    if machine.shows(now) {
        let time = choose|time: SystemTime| now == #[trigger] SystemClock::shown_at(time);
        assert(match since_epoch(time) {
            None => now == 0,
            Some(elapsed) => now == seconds_in(elapsed) || (now == i64::MAX && seconds_in(elapsed)
                > i64::MAX),
        });
    }
}

}
