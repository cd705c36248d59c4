//! Desktop notifications that follow the timer: when one is due, and what
//! it says. Sending it is left to the caller.

use vstd::prelude::*;
use crate::args::Args;
use crate::duration::{Duration, MAX_NANOS, NANOS_PER_SEC};
use crate::text::{decimal, padded, push_decimal, push_padded};
use crate::timer::{Timer, TimerView};

verus! {

/// The least time between two notifications that follow the timer, in
/// nanoseconds.
pub const NOTIFY_INTERVAL_NANOS: u128 = 1_000_000_000;

/// What the notifier remembers.
pub struct NotificationView {
    /// When the last notification was sent, on the timer's clock.
    pub last_notify: nat,
    /// Whether notifications are sent at all.
    pub enabled: bool,
}

/// The notifier. Where notifications are switched off it never asks for
/// one.
#[derive(Clone, Copy, Debug)]
pub struct NotificationState {
    last_notify: Duration,
    enabled: bool,
}

impl View for NotificationState {
    type V = NotificationView;

    closed spec fn view(&self) -> NotificationView {
        NotificationView { last_notify: self.last_notify@, enabled: self.enabled }
    }
}

/// The texts in `list`, each as its characters.
pub open spec fn texts(list: Seq<String>) -> Seq<Seq<char>> {
    list.map_values(|text: String| text@)
}

/// The name a notification goes by: the timer's, or `Timer` for one
/// without a name.
pub open spec fn notify_name(timer: TimerView) -> Seq<char> {
    match timer.name {
        Some(name) => name,
        None => "Timer"@,
    }
}

/// The body of a notification: the time left at `now` in minutes and
/// seconds, two digits each at least, and a note while the timer is paused.
pub open spec fn notify_body(timer: TimerView, now: nat) -> Seq<char> {
    let secs = timer.remaining_at(now) / (NANOS_PER_SEC as nat);
    "Remaining: "@ + padded(secs / 60, 2, '0') + seq![':'] + padded(secs % 60, 2, '0') + (
    if timer.is_paused {
        " (Paused)"@
    } else {
        Seq::empty()
    })
}

/// The arguments that `notify-send` is called with for the timer at the
/// time `now`: name and body, the progress in percent as a hint, a tag
/// under which a later notification replaces this one, the name of the
/// application, and the urgency once the timer is finished.
pub open spec fn notify_args(timer: TimerView, now: nat) -> Seq<Seq<char>> {
    seq![
        notify_name(timer),
        notify_body(timer, now),
        "-h"@,
        "int:value:"@ + decimal(timer.progress_at(now).of(100)),
        "-h"@,
        "string:x-dunst-stack-tag:timerrs-"@ + notify_name(timer),
        "-a"@,
        "timerrs"@,
    ] + (if timer.is_finished_at(now) {
        seq!["-u"@, "critical"@]
    } else {
        Seq::empty()
    })
}

/// Whether a notification is due at `now`: notifications are on, and the
/// interval has passed since the last one.
pub open spec fn notify_due(state: NotificationView, now: nat) -> bool {
    state.enabled && now >= state.last_notify + NOTIFY_INTERVAL_NANOS
}

fn push_text(out: &mut Vec<String>, text: String)
    ensures
        texts(final(out)@) == texts(old(out)@).push(text@),
{
    out.push(text);
}

fn push_word(out: &mut Vec<String>, word: &str)
    ensures
        texts(final(out)@) == texts(old(out)@).push(word@),
{
    push_text(out, String::from_str(word));
}

impl NotificationState {
    /// A notifier for a run with the settings `args`, made at the time
    /// `now` on the timer's clock. `found` says whether `notify-send` could
    /// be started; where notifications are asked for and it could not, this
    /// is an error.
    pub fn new(args: &Args, found: bool, now: Duration) -> (made: Result<NotificationState, String>)
        ensures
            made is Err <==> args.notify && !found,
            made matches Ok(state) ==> state@ == (NotificationView {
                last_notify: now@,
                enabled: args.notify,
            }),
            made matches Err(message) ==> message@
                == "notify-send not found. Please install it to use notifications."@,
    {
        if args.notify && !found {
            return Err(
                String::from_str("notify-send not found. Please install it to use notifications."),
            );
        }
        Ok(NotificationState { last_notify: now, enabled: args.notify })
    }

    /// A notifier that never asks for a notification.
    pub fn disabled() -> (state: NotificationState)
        ensures
            state@ == (NotificationView { last_notify: 0, enabled: false }),
    {
        NotificationState { last_notify: Duration::zero(), enabled: false }
    }

    /// Whether notifications are sent at all.
    pub fn is_enabled(&self) -> (enabled: bool)
        ensures
            enabled == self@.enabled,
    {
        self.enabled
    }

    /// The arguments for `notify-send`, for `timer` at the time `now` on
    /// its clock, if a notification is due then: see [`notify_due`] and
    /// [`notify_args`]. A notification that is asked for counts as sent at
    /// `now`.
    pub fn update_at(&mut self, timer: &Timer, now: Duration) -> (call: Option<Vec<String>>)
        ensures
            call is Some <==> notify_due(old(self)@, now@),
            call matches Some(args) ==> texts(args@) == notify_args(timer@, now@),
            final(self)@ == if notify_due(old(self)@, now@) {
                NotificationView { last_notify: now@, ..old(self)@ }
            } else {
                old(self)@
            },
    {
        if !self.enabled {
            return None;
        }
        let since = now.saturating_sub(self.last_notify);
        if since.as_nanos() >= NOTIFY_INTERVAL_NANOS {
            let args = self.send(timer, now);
            self.last_notify = now;
            Some(args)
        } else {
            None
        }
    }

    /// The arguments for `notify-send`, for `timer` at the present moment,
    /// if a notification is due. The moment is read once from the timer's
    /// clock, and the call does what [`NotificationState::update_at`] does
    /// at that moment: a notification that is asked for was due then, is
    /// worded for then, and counts as sent then. A notifier that is off
    /// asks for none, and a call that asks for none changes nothing.
    pub fn update(&mut self, timer: &Timer) -> (call: Option<Vec<String>>)
        ensures
            exists|now: nat|
                #![trigger notify_due(old(self)@, now)]
                {
                    &&& now <= MAX_NANOS
                    &&& call is Some <==> notify_due(old(self)@, now)
                    &&& call matches Some(args) ==> texts(args@) == notify_args(timer@, now)
                    &&& final(self)@ == if notify_due(old(self)@, now) {
                        NotificationView { last_notify: now, ..old(self)@ }
                    } else {
                        old(self)@
                    }
                },
            !old(self)@.enabled ==> call is None,
            call is None ==> final(self)@ == old(self)@,
            final(self)@.enabled == old(self)@.enabled,
    {
        let now = timer.now();
        self.update_at(timer, now)
    }

    /// The arguments for `notify-send`, for `timer` at the time `now` on
    /// its clock, whether or not a notification is due; none where
    /// notifications are off. A notification that is asked for counts as
    /// sent at `now`.
    pub fn force_update_at(&mut self, timer: &Timer, now: Duration) -> (call: Option<Vec<String>>)
        ensures
            call is Some <==> old(self)@.enabled,
            call matches Some(args) ==> texts(args@) == notify_args(timer@, now@),
            final(self)@ == if old(self)@.enabled {
                NotificationView { last_notify: now@, ..old(self)@ }
            } else {
                old(self)@
            },
    {
        if !self.enabled {
            return None;
        }
        let args = self.send(timer, now);
        self.last_notify = now;
        Some(args)
    }

    /// The arguments for `notify-send`, for `timer` at the present moment;
    /// none where notifications are off. The moment is read once from the
    /// timer's clock, and the call does what
    /// [`NotificationState::force_update_at`] does at that moment.
    pub fn force_update(&mut self, timer: &Timer) -> (call: Option<Vec<String>>)
        ensures
            call is Some <==> old(self)@.enabled,
            exists|now: nat|
                #![trigger notify_args(timer@, now)]
                {
                    &&& now <= MAX_NANOS
                    &&& call matches Some(args) ==> texts(args@) == notify_args(timer@, now)
                    &&& final(self)@ == if old(self)@.enabled {
                        NotificationView { last_notify: now, ..old(self)@ }
                    } else {
                        old(self)@
                    }
                },
            final(self)@.enabled == old(self)@.enabled,
    {
        let now = timer.now();
        let call = self.force_update_at(timer, now);
        proof {
            let worded = notify_args(timer@, now@);
            assert(call matches Some(args) ==> texts(args@) == worded);
        }
        call
    }

    /// The arguments that `notify-send` is called with for `timer` at the
    /// time `now` on its clock: see [`notify_args`].
    pub fn send(&self, timer: &Timer, now: Duration) -> (args: Vec<String>)
        ensures
            texts(args@) == notify_args(timer@, now@),
    {
        let name: String = match timer.name() {
            Some(name) => name.clone(),
            None => String::from_str("Timer"),
        };
        let percent: u16 = timer.progress_at(now).percent();
        let remaining = timer.remaining_time_at(now);
        let secs: u64 = remaining.as_secs();
        let mut body = String::from_str("Remaining: ");
        proof {
            reveal_strlit("0");
            reveal_strlit(":");
        }
        push_padded(&mut body, secs / 60, 2, "0");
        body.append(":");
        push_padded(&mut body, secs % 60, 2, "0");
        if timer.is_paused() {
            body.append(" (Paused)");
        }
        assert(body@ =~= notify_body(timer@, now@));
        let mut value = String::from_str("int:value:");
        push_decimal(&mut value, percent as u64);
        let mut tag = String::from_str("string:x-dunst-stack-tag:timerrs-");
        tag.append(name.as_str());
        let mut args: Vec<String> = Vec::new();
        push_text(&mut args, name);
        push_text(&mut args, body);
        push_word(&mut args, "-h");
        push_text(&mut args, value);
        push_word(&mut args, "-h");
        push_text(&mut args, tag);
        push_word(&mut args, "-a");
        push_word(&mut args, "timerrs");
        if remaining.is_zero() {
            push_word(&mut args, "-u");
            push_word(&mut args, "critical");
        }
        args
    }
}

} // verus!
