//! The countdown itself: how much time has run against the target, with the
//! clock stopped while the timer is paused.

use vstd::prelude::*;
use crate::clock::{Clock, TimeOfDay, MINUTES_PER_DAY};
use crate::duration::{Duration, MAX_NANOS};

verus! {

/// A fraction `num / den`.
pub struct Ratio {
    pub num: nat,
    pub den: nat,
}

impl Ratio {
    /// The fraction lies between zero and one, both included.
    pub open spec fn is_fraction(self) -> bool {
        0 < self.den && self.num <= self.den
    }

    /// The fraction is one.
    pub open spec fn is_whole(self) -> bool {
        self.num == self.den
    }

    /// The fraction of `scale`, rounded down.
    pub open spec fn of(self, scale: nat) -> nat {
        self.num * scale / self.den
    }
}

/// What a timer is, with every time a number of nanoseconds on the timer's
/// own monotonic clock.
pub struct TimerView {
    /// The label, if the timer has one.
    pub name: Option<Seq<char>>,
    /// When the timer was created: minutes since midnight on the wall clock.
    pub start_time: nat,
    /// The target.
    pub duration: nat,
    /// The time run in the segments that a pause has ended.
    pub elapsed_before_pause: nat,
    /// When the segment that is running began.
    pub resume_time: Option<nat>,
    /// Whether the clock is stopped.
    pub is_paused: bool,
}

impl TimerView {
    /// A timer is paused exactly when no segment is running.
    pub open spec fn wf(self) -> bool {
        self.is_paused <==> self.resume_time is None
    }

    /// Every time in the timer is one that a [`Duration`] can hold.
    pub open spec fn in_range(self) -> bool {
        &&& self.duration <= MAX_NANOS
        &&& self.elapsed_before_pause <= MAX_NANOS
        &&& self.resume_time matches Some(t) ==> t <= MAX_NANOS
    }

    /// How long the running segment has lasted at the time `now`: nothing
    /// while the timer is paused, and nothing before the segment began.
    pub open spec fn segment_at(self, now: nat) -> nat {
        match self.resume_time {
            Some(t) if !self.is_paused && now >= t => (now - t) as nat,
            _ => 0,
        }
    }

    /// The time run at the time `now`, over all segments.
    pub open spec fn elapsed_at(self, now: nat) -> nat {
        self.elapsed_before_pause + self.segment_at(now)
    }

    /// The time left at the time `now`: the target less the time run, and
    /// zero once the target is reached.
    pub open spec fn remaining_at(self, now: nat) -> nat {
        if self.elapsed_at(now) >= self.duration {
            0
        } else {
            (self.duration - self.elapsed_at(now)) as nat
        }
    }

    /// Whether the target is reached at the time `now`.
    pub open spec fn is_finished_at(self, now: nat) -> bool {
        self.remaining_at(now) == 0
    }

    /// The part of the target that has run at the time `now`. A timer with
    /// an empty target is complete from the start.
    pub open spec fn progress_at(self, now: nat) -> Ratio {
        if self.duration == 0 {
            Ratio { num: 1, den: 1 }
        } else {
            Ratio { num: (self.duration - self.remaining_at(now)) as nat, den: self.duration }
        }
    }

    /// The timer after its pause was toggled at the time `now`. A paused
    /// timer starts a segment at `now`. A running timer adds the segment to
    /// the time run before, up to the longest span that can be held, and
    /// stops.
    pub open spec fn toggled_at(self, now: nat) -> TimerView {
        if self.is_paused {
            TimerView { resume_time: Some(now), is_paused: false, ..self }
        } else {
            TimerView {
                elapsed_before_pause: if self.elapsed_at(now) <= MAX_NANOS {
                    self.elapsed_at(now)
                } else {
                    MAX_NANOS as nat
                },
                resume_time: None,
                is_paused: true,
                ..self
            }
        }
    }

    /// The timer after its pause was toggled at each of `times` in turn.
    pub open spec fn toggled_at_each(self, times: Seq<nat>) -> TimerView
        decreases times.len(),
    {
        if times.len() == 0 {
            self
        } else {
            self.toggled_at(times[0]).toggled_at_each(times.drop_first())
        }
    }
}

/// How far a timer has come: a fraction between zero and one.
///
/// Its view is the fraction as a [`Ratio`] of nanoseconds run to
/// nanoseconds of target.
#[derive(Clone, Copy, Debug, PartialEq, Eq)]
pub struct Progress {
    done: u128,
    total: u128,
}

impl View for Progress {
    type V = Ratio;

    closed spec fn view(&self) -> Ratio {
        Ratio { num: self.done as nat, den: self.total as nat }
    }
}

/// The widest scale that [`Progress::scale`] takes.
pub const MAX_SCALE: usize = 0xffff_ffff;

impl Progress {
    #[verifier::type_invariant]
    spec fn is_fraction(self) -> bool {
        0 < self.total <= MAX_NANOS && self.done <= self.total
    }

    /// The fraction one.
    pub fn complete() -> (progress: Progress)
        ensures
            progress@ == (Ratio { num: 1, den: 1 }),
    {
        Progress { done: 1, total: 1 }
    }

    /// The fraction `done / total`.
    pub fn new(done: Duration, total: Duration) -> (progress: Progress)
        requires
            0 < total@,
            done@ <= total@,
        ensures
            progress@ == (Ratio { num: done@, den: total@ }),
    {
        Progress { done: done.as_nanos(), total: total.as_nanos() }
    }

    /// The numerator of the fraction.
    pub fn numerator(&self) -> (num: u128)
        ensures
            num == self@.num,
            self@.is_fraction(),
    {
        proof {
            use_type_invariant(self);
        }
        self.done
    }

    /// The denominator of the fraction, which is not zero.
    pub fn denominator(&self) -> (den: u128)
        ensures
            den == self@.den,
            self@.is_fraction(),
    {
        proof {
            use_type_invariant(self);
        }
        self.total
    }

    /// Whether the fraction is one.
    pub fn is_complete(&self) -> (whole: bool)
        ensures
            whole == self@.is_whole(),
    {
        self.done == self.total
    }

    /// The progress in whole percent, rounded down.
    pub fn percent(&self) -> (percent: u16)
        ensures
            percent == self@.of(100),
            percent <= 100,
    {
        let scaled = self.scale(100);
        scaled as u16
    }

    /// The part of `width` that the progress covers, rounded down.
    pub fn scale(&self, width: usize) -> (part: usize)
        requires
            width <= MAX_SCALE,
        ensures
            part == self@.of(width as nat),
            part <= width,
    {
        proof {
            use_type_invariant(self);
            lemma_scaled_fraction(self.done as nat, self.total as nat, width as nat);
            assert(self.done * width <= MAX_NANOS * MAX_SCALE) by (nonlinear_arith)
                requires
                    self.done <= MAX_NANOS,
                    width <= MAX_SCALE,
            ;
        }
        let product: u128 = self.done * (width as u128);
        (product / self.total) as usize
    }
}

/// A fraction of a scale is no more than the scale.
pub proof fn lemma_scaled_fraction(num: nat, den: nat, scale: nat)
    requires
        0 < den,
        num <= den,
    ensures
        num * scale / den <= scale,
{
    assert(num * scale <= den * scale) by (nonlinear_arith)
        requires
            num <= den,
    ;
    assert(den * scale / den == scale) by (nonlinear_arith)
        requires
            0 < den,
    ;
    assert(num * scale / den <= den * scale / den) by (nonlinear_arith)
        requires
            num * scale <= den * scale,
            0 < den,
    ;
}

/// The characters of an optional label.
pub open spec fn label_text(name: Option<String>) -> Option<Seq<char>> {
    match name {
        Some(name) => Some(name@),
        None => None,
    }
}

impl TimerView {
    /// A timer that has just been made: running, with nothing run yet, its
    /// clock at zero.
    pub open spec fn fresh(name: Option<Seq<char>>, start_time: nat, duration: nat) -> TimerView {
        TimerView {
            name,
            start_time,
            duration,
            elapsed_before_pause: 0,
            resume_time: Some(0nat),
            is_paused: false,
        }
    }
}

/// A countdown timer.
///
/// `name`, `start_time` and `duration` are set when the timer is made and
/// are not meant to change. The timer's own times are readings of a
/// monotonic clock that it starts when it is made.
pub struct Timer {
    /// The label shown with the timer.
    pub name: Option<String>,
    /// What the wall clock showed when the timer was made.
    pub start_time: TimeOfDay,
    /// The target.
    pub duration: Duration,
    elapsed_before_pause: Duration,
    resume_time: Option<Duration>,
    /// Whether the clock is stopped.
    pub is_paused: bool,
    clock: Clock,
}

impl View for Timer {
    type V = TimerView;

    closed spec fn view(&self) -> TimerView {
        TimerView {
            name: label_text(self.name),
            start_time: self.start_time@,
            duration: self.duration@,
            elapsed_before_pause: self.elapsed_before_pause@,
            resume_time: match self.resume_time {
                Some(t) => Some(t@),
                None => None,
            },
            is_paused: self.is_paused,
        }
    }
}

impl Timer {
    /// A running timer for `duration`, made at the present moment.
    pub fn new(name: Option<String>, duration: Duration) -> (timer: Timer)
        ensures
            exists|start_time: nat|
                start_time < MINUTES_PER_DAY && #[trigger] TimerView::fresh(
                    label_text(name),
                    start_time,
                    duration@,
                ) == timer@,
            timer@.name == label_text(name),
            timer@.duration == duration@,
            !timer@.is_paused,
            timer@.wf(),
            timer@.in_range(),
    {
        Timer::started_at(name, duration, TimeOfDay::now())
    }

    /// A running timer for `duration`, made at the present moment, that
    /// shows `start_time` as the time it was made.
    pub fn started_at(name: Option<String>, duration: Duration, start_time: TimeOfDay) -> (timer:
        Timer)
        ensures
            timer@ == TimerView::fresh(label_text(name), start_time@, duration@),
            timer@.wf(),
            timer@.in_range(),
    {
        duration.bounded();
        Timer {
            name,
            start_time,
            duration,
            elapsed_before_pause: Duration::zero(),
            resume_time: Some(Duration::zero()),
            is_paused: false,
            clock: Clock::start(),
        }
    }

    /// The label, if the timer has one.
    pub fn name(&self) -> (name: &Option<String>)
        ensures
            label_text(*name) == self@.name,
    {
        &self.name
    }

    /// What the wall clock showed when the timer was made.
    pub fn start_time(&self) -> (start_time: TimeOfDay)
        ensures
            start_time@ == self@.start_time,
    {
        self.start_time
    }

    /// The target.
    pub fn duration(&self) -> (duration: Duration)
        ensures
            duration@ == self@.duration,
    {
        self.duration
    }

    /// Whether the clock is stopped.
    pub fn is_paused(&self) -> (paused: bool)
        ensures
            paused == self@.is_paused,
    {
        self.is_paused
    }

    /// The present moment on the timer's clock.
    pub fn now(&self) -> (now: Duration)
        ensures
            now@ <= MAX_NANOS,
    {
        let now = self.clock.now();
        now.bounded();
        now
    }

    /// Pauses a running timer and resumes a paused one, as of the time
    /// `now` on the timer's clock.
    pub fn toggle_pause_at(&mut self, now: Duration)
        ensures
            final(self)@ == old(self)@.toggled_at(now@),
            final(self)@.wf(),
    {
        if self.is_paused {
            self.resume_time = Some(now);
            self.is_paused = false;
        } else {
            let segment = match self.resume_time {
                Some(resume_time) => now.saturating_sub(resume_time),
                None => Duration::zero(),
            };
            self.elapsed_before_pause = self.elapsed_before_pause.saturating_add(segment);
            self.resume_time = None;
            self.is_paused = true;
        }
    }

    /// Pauses a running timer and resumes a paused one, as of the present
    /// moment.
    pub fn toggle_pause(&mut self)
        ensures
            exists|now: nat| #[trigger] old(self)@.toggled_at(now) == final(self)@,
            final(self)@.is_paused == !old(self)@.is_paused,
            final(self)@.wf(),
            final(self)@.name == old(self)@.name,
            final(self)@.start_time == old(self)@.start_time,
            final(self)@.duration == old(self)@.duration,
    {
        let now = self.now();
        self.toggle_pause_at(now);
    }

    /// The time left at the time `now` on the timer's clock.
    pub fn remaining_time_at(&self, now: Duration) -> (left: Duration)
        ensures
            left@ == self@.remaining_at(now@),
    {
        let segment = match self.resume_time {
            Some(resume_time) if !self.is_paused => now.saturating_sub(resume_time),
            _ => Duration::zero(),
        };
        let elapsed = self.elapsed_before_pause.saturating_add(segment);
        self.duration.bounded();
        self.duration.saturating_sub(elapsed)
    }

    /// The time left at the present moment. Of a paused timer it is the time
    /// that was left when it was paused.
    pub fn remaining_time(&self) -> (left: Duration)
        ensures
            exists|now: nat| #[trigger] self@.remaining_at(now) == left@,
            self@.is_paused ==> left@ == self@.remaining_at(0),
            left@ <= self@.duration,
    {
        let now = self.now();
        self.remaining_time_at(now)
    }

    /// Whether the target is reached at the time `now` on the timer's clock.
    pub fn is_finished_at(&self, now: Duration) -> (finished: bool)
        ensures
            finished == self@.is_finished_at(now@),
    {
        self.remaining_time_at(now).is_zero()
    }

    /// Whether the target is reached at the present moment. A timer with an
    /// empty target is finished from the start.
    pub fn is_finished(&self) -> (finished: bool)
        ensures
            exists|now: nat| #[trigger] self@.is_finished_at(now) == finished,
            self@.is_paused ==> finished == self@.is_finished_at(0),
            self@.duration == 0 ==> finished,
    {
        let now = self.now();
        self.is_finished_at(now)
    }

    /// How far the timer has come at the time `now` on its clock.
    pub fn progress_at(&self, now: Duration) -> (progress: Progress)
        ensures
            progress@ == self@.progress_at(now@),
            progress@.is_fraction(),
            progress@.is_whole() <==> self@.remaining_at(now@) == 0,
    {
        if self.duration.is_zero() {
            Progress::complete()
        } else {
            let left = self.remaining_time_at(now);
            let done = self.duration.saturating_sub(left);
            Progress::new(done, self.duration)
        }
    }

    /// How far the timer has come at the present moment.
    pub fn progress(&self) -> (progress: Progress)
        ensures
            exists|now: nat| #[trigger] self@.progress_at(now) == progress@,
            self@.is_paused ==> progress@ == self@.progress_at(0),
            progress@.is_fraction(),
    {
        let now = self.now();
        self.progress_at(now)
    }
}

/// `times` are in order, none before `from` and none after `until`.
pub open spec fn in_order(from: nat, times: Seq<nat>, until: nat) -> bool {
    &&& from <= until
    &&& forall|i: int| 0 <= i < times.len() ==> from <= #[trigger] times[i] <= until
    &&& forall|i: int, j: int| 0 <= i <= j < times.len() ==> times[i] <= times[j]
}

/// The time left is never more than the target, and it is never negative:
/// it is a natural number.
pub proof fn lemma_remaining_bounded(timer: TimerView, now: nat)
    ensures
        0 <= timer.remaining_at(now) <= timer.duration,
{
}

/// The time left does not grow as time goes by.
pub proof fn lemma_remaining_non_increasing(timer: TimerView, earlier: nat, later: nat)
    requires
        earlier <= later,
    ensures
        timer.remaining_at(later) <= timer.remaining_at(earlier),
{
}

/// While a timer is paused the time left stands still.
pub proof fn lemma_remaining_constant_while_paused(timer: TimerView, a: nat, b: nat)
    requires
        timer.is_paused,
    ensures
        timer.remaining_at(a) == timer.remaining_at(b),
{
}

/// Toggling the pause changes nothing about the time left at that moment,
/// and flips the pause.
pub proof fn lemma_toggle_keeps_remaining(timer: TimerView, now: nat)
    requires
        timer.in_range(),
    ensures
        timer.toggled_at(now).remaining_at(now) == timer.remaining_at(now),
        timer.toggled_at(now).is_paused == !timer.is_paused,
        timer.toggled_at(now).wf(),
        timer.toggled_at(now).duration == timer.duration,
        now <= MAX_NANOS ==> timer.toggled_at(now).in_range(),
{
}

/// The time run in the segments that a pause has ended never shrinks.
pub proof fn lemma_elapsed_before_pause_never_shrinks(timer: TimerView, now: nat)
    requires
        timer.in_range(),
    ensures
        timer.toggled_at(now).elapsed_before_pause >= timer.elapsed_before_pause,
{
}

/// Toggling the pause twice gives back the time left, short of what ran
/// between the two toggles at most: at `second` the timer has as much left
/// as it had at `first`, less no more than the time from `first` to
/// `second`. Two toggles at one moment leave the time left as it was. The
/// timer is paused afterwards exactly if it was before.
pub proof fn lemma_toggle_round_trip(timer: TimerView, first: nat, second: nat)
    requires
        timer.in_range(),
        first <= second,
    ensures
        timer.toggled_at(first).toggled_at(second).remaining_at(second) <= timer.remaining_at(
            first,
        ),
        timer.remaining_at(first) <= timer.toggled_at(first).toggled_at(second).remaining_at(
            second,
        ) + (second - first),
        first == second ==> timer.toggled_at(first).toggled_at(second).remaining_at(second)
            == timer.remaining_at(first),
        timer.toggled_at(first).toggled_at(second).is_paused == timer.is_paused,
{
}

/// Whatever toggles happen between two moments, and whenever, the time left
/// at the later moment is no more than it was at the earlier one.
pub proof fn lemma_remaining_non_increasing_over_toggles(
    timer: TimerView,
    earlier: nat,
    toggles: Seq<nat>,
    later: nat,
)
    requires
        timer.in_range(),
        later <= MAX_NANOS,
        in_order(earlier, toggles, later),
    ensures
        timer.toggled_at_each(toggles).remaining_at(later) <= timer.remaining_at(earlier),
        timer.toggled_at_each(toggles).duration == timer.duration,
    decreases toggles.len(),
{
    if toggles.len() > 0 {
        let at = toggles[0];
        let next = timer.toggled_at(at);
        let rest = toggles.drop_first();
        lemma_toggle_keeps_remaining(timer, at);
        lemma_remaining_non_increasing_over_toggles(next, at, rest, later);
        lemma_remaining_non_increasing(timer, earlier, at);
    }
}

/// A timer with an empty target is finished at every moment.
pub proof fn lemma_empty_target_is_finished(timer: TimerView, now: nat)
    requires
        timer.duration == 0,
    ensures
        timer.is_finished_at(now),
        timer.progress_at(now).is_whole(),
{
}

/// The progress of a timer is a fraction between zero and one, and it is
/// one exactly when no time is left.
pub proof fn lemma_progress_whole_iff_finished(timer: TimerView, now: nat)
    ensures
        timer.progress_at(now).is_fraction(),
        timer.progress_at(now).is_whole() <==> timer.remaining_at(now) == 0,
{
}

} // verus!
