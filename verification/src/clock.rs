//! The two clocks a timer reads: a monotonic one that measures how long it
//! has run, and the wall clock that says when it was started.

use vstd::prelude::*;
use crate::duration::Duration;
use crate::text::digit;

verus! {

/// `std::time::Instant`, a point on the monotonic clock. Nothing is said of
/// what it holds: it is kept and handed back to `Instant::elapsed`.
#[verifier::external_type_specification]
#[verifier::external_body]
pub struct ExInstant(std::time::Instant);

/// `std::time::Instant::now` reads the monotonic clock. Its result depends on
/// when it is called, so nothing is claimed of it.
pub assume_specification[ std::time::Instant::now ]() -> (now: std::time::Instant)
;

/// `std::time::Instant::elapsed` measures the time since `start`. Its result
/// depends on when it is called, so nothing is claimed of it.
pub assume_specification[ std::time::Instant::elapsed ](start: &std::time::Instant) -> (span:
    core::time::Duration)
;

/// `core::time::Duration::as_secs` gives the whole seconds of a span. The
/// span is opaque here, so nothing is claimed of the number.
pub assume_specification[ core::time::Duration::as_secs ](span: &core::time::Duration) -> (secs:
    u64)
;

/// `core::time::Duration::subsec_nanos` gives the part of a span beyond its
/// whole seconds, in nanoseconds: always less than one second.
pub assume_specification[ core::time::Duration::subsec_nanos ](
    span: &core::time::Duration,
) -> (nanos: u32)
    ensures
        nanos < 1_000_000_000,
;

/// A monotonic clock that counts from the moment it was started.
#[derive(Clone, Copy, Debug)]
pub struct Clock {
    origin: std::time::Instant,
}

impl Clock {
    /// Starts a clock at the present moment.
    pub fn start() -> Clock {
        Clock { origin: std::time::Instant::now() }
    }

    /// The time since the clock was started, as the monotonic clock of the
    /// machine measures it. What a reading is depends on the moment, so no
    /// contract says it.
    pub fn now(&self) -> Duration {
        let span = self.origin.elapsed();
        Duration::new(span.as_secs(), span.subsec_nanos())
    }
}

/// Minutes in a day.
pub const MINUTES_PER_DAY: u16 = 1440;

/// The time a wall clock shows, to the minute.
///
/// Its view is the number of minutes since midnight, below
/// [`MINUTES_PER_DAY`].
#[derive(Clone, Copy, Debug, PartialEq, Eq, Hash)]
pub struct TimeOfDay {
    minutes: u16,
}

impl View for TimeOfDay {
    type V = nat;

    closed spec fn view(&self) -> nat {
        self.minutes as nat
    }
}

/// A time of day on a twelve-hour dial: the hour from 01 to 12 and the
/// minute, two digits each with a colon between them, then `AM` before noon
/// and `PM` from noon on. `minutes` counts from midnight.
pub open spec fn clock_text(minutes: nat) -> Seq<char> {
    let hour = minutes / 60;
    let minute = minutes % 60;
    let dial: nat = if hour % 12 == 0 {
        12
    } else {
        hour % 12
    };
    seq![
        digit(dial / 10),
        digit(dial % 10),
        ':',
        digit(minute / 10),
        digit(minute % 10),
        if hour >= 12 {
            'P'
        } else {
            'A'
        },
        'M',
    ]
}

/// `chrono::Local::now`, of which the hour and the minute of the local time
/// are kept. The reading depends on the moment and on the machine's time
/// zone; what holds of every reading is that the hour is below 24 and the
/// minute below 60, as `chrono::Timelike` documents.
#[verifier::external_body]
fn local_hour_minute() -> (reading: (u32, u32))
    ensures
        reading.0 < 24,
        reading.1 < 60,
{
    let now = chrono::Local::now();
    (chrono::Timelike::hour(&now), chrono::Timelike::minute(&now))
}

/// `chrono::NaiveTime::format`, on the time that
/// `chrono::NaiveTime::from_hms_opt` makes of `hour`, `minute` and no
/// seconds, for the one pattern `%I:%M%p`. chrono documents `%I` as the hour
/// of a twelve-hour dial and `%M` as the minute, both padded with zeros to
/// two digits, and `%p` as `AM` or `PM`.
#[verifier::external_body]
fn format_time(hour: u32, minute: u32, pattern: &str) -> (text: String)
    requires
        hour < 24,
        minute < 60,
        pattern@ == "%I:%M%p"@,
    ensures
        text@ == clock_text((hour * 60 + minute) as nat),
{
    chrono::NaiveTime::from_hms_opt(hour, minute, 0).unwrap().format(pattern).to_string()
}

impl TimeOfDay {
    #[verifier::type_invariant]
    spec fn within_day(self) -> bool {
        self.minutes < MINUTES_PER_DAY
    }

    /// The time `hour`:`minute` on a twenty-four-hour clock, where there is
    /// such a time.
    pub fn new(hour: u8, minute: u8) -> (time: Option<TimeOfDay>)
        ensures
            time is Some <==> hour < 24 && minute < 60,
            time matches Some(t) ==> t@ == hour * 60 + minute,
    {
        if hour < 24 && minute < 60 {
            Some(TimeOfDay { minutes: (hour as u16) * 60 + (minute as u16) })
        } else {
            None
        }
    }

    /// Midnight.
    pub fn midnight() -> (time: TimeOfDay)
        ensures
            time@ == 0,
    {
        TimeOfDay { minutes: 0 }
    }

    /// What the local wall clock shows at the present moment.
    pub fn now() -> (time: TimeOfDay)
        ensures
            time@ < MINUTES_PER_DAY,
    {
        let (hour, minute) = local_hour_minute();
        TimeOfDay { minutes: (hour * 60 + minute) as u16 }
    }

    /// The hour, from 0 to 23.
    pub fn hour(&self) -> (hour: u8)
        ensures
            hour == self@ / 60,
            hour < 24,
    {
        proof {
            use_type_invariant(self);
        }
        (self.minutes / 60) as u8
    }

    /// The minute, from 0 to 59.
    pub fn minute(&self) -> (minute: u8)
        ensures
            minute == self@ % 60,
    {
        (self.minutes % 60) as u8
    }

    /// The time as a twelve-hour clock shows it, such as `03:45PM`.
    pub fn label(&self) -> (text: String)
        ensures
            text@ == clock_text(self@),
            self@ < MINUTES_PER_DAY,
    {
        proof {
            use_type_invariant(self);
        }
        let hour: u32 = (self.minutes / 60) as u32;
        let minute: u32 = (self.minutes % 60) as u32;
        format_time(hour, minute, "%I:%M%p")
    }
}

} // verus!
