//! The control loop, one decision at a time: what to ask of the terminal
//! before and after the run, what a request does to the timer, whether the
//! loop goes on, and how the run is reported when it is over.
//!
//! The caller owns the loop. It polls for a request, reads the size of the
//! terminal, calls [`tick`], carries out what comes back, and stops when
//! told to.

use vstd::prelude::*;
use crate::args::Args;
use crate::duration::Duration;
use crate::input::InputEvent;
use crate::ops::{emit, ops_view, Op, TermOp};
use crate::timer::{label_text, Timer, TimerView};
use crate::ui::{conemu_text, draw_ops, Ui, PROGRESS_NONE};

verus! {

/// Whether the loop goes on.
#[derive(Clone, Copy, Debug, PartialEq, Eq, Structural)]
pub enum Flow {
    /// Go round again.
    Continue,
    /// Leave the loop.
    Stop,
}

/// How a run ended.
#[derive(Clone, Copy, Debug, PartialEq, Eq, Structural)]
pub enum Outcome {
    /// The timer reached its target.
    Finished,
    /// The user ended the run before that.
    Cancelled,
    /// The terminal could not be set up or drawn to.
    Failed,
}

/// What makes the terminal ready for a run. Keys are handed over as they
/// are pressed. A display that owns the screen moves to the alternate
/// screen; one that shares it makes room below the cursor, a row for the
/// bar and one more for the status line, and goes back up. Without a
/// display nothing of this is done. Last the cursor is hidden.
pub open spec fn enter_ops(fullscreen: bool, no_status: bool, no_ui: bool) -> Seq<Op> {
    seq![Op::EnableRawMode] + (if no_ui {
        Seq::empty()
    } else if fullscreen {
        seq![Op::EnterAlternateScreen]
    } else if no_status {
        seq![Op::NewLine, Op::MoveUp(1)]
    } else {
        seq![Op::NewLine, Op::NewLine, Op::MoveUp(2)]
    }) + seq![Op::HideCursor]
}

/// What gives the terminal back after a run, however it ended. A display
/// that owned the screen leaves the alternate screen; one that shared it
/// moves the cursor below its rows. Then the cursor is shown, the report of
/// progress is taken back, the cursor goes to the left edge, and the
/// terminal gets its line discipline back.
pub open spec fn leave_ops(fullscreen: bool, no_status: bool, no_ui: bool) -> Seq<Op> {
    (if no_ui {
        Seq::empty()
    } else if fullscreen {
        seq![Op::LeaveAlternateScreen]
    } else if no_status {
        seq![Op::MoveDown(1)]
    } else {
        seq![Op::MoveDown(2)]
    }) + seq![
        Op::ShowCursor,
        Op::Write(conemu_text(PROGRESS_NONE as nat, 0)),
        Op::MoveToColumn(0),
        Op::DisableRawMode,
    ]
}

/// The timer after a request that came in at the time `now`. Toggling
/// flips the pause; pausing stops a running timer and leaves a paused one
/// alone; resuming does the opposite. The other requests leave the timer
/// as it is.
pub open spec fn after_event(timer: TimerView, event: InputEvent, now: nat) -> TimerView {
    match event {
        InputEvent::TogglePause => timer.toggled_at(now),
        InputEvent::Pause => if timer.is_paused {
            timer
        } else {
            timer.toggled_at(now)
        },
        InputEvent::Resume => if timer.is_paused {
            timer.toggled_at(now)
        } else {
            timer
        },
        InputEvent::Quit | InputEvent::Idle => timer,
    }
}

/// What one round of the loop asks of the terminal. A request to quit is
/// obeyed before anything is drawn. Otherwise the timer is drawn as the
/// request left it, unless there is no display.
pub open spec fn tick_ops(
    last_size: Option<(u16, u16)>,
    timer: TimerView,
    args: Args,
    event: InputEvent,
    now: nat,
    cols: u16,
    rows: u16,
) -> Seq<Op> {
    if event == InputEvent::Quit || args.no_ui {
        Seq::empty()
    } else {
        draw_ops(
            last_size,
            after_event(timer, event, now),
            now,
            args.color,
            args.fullscreen,
            args.no_status,
            cols,
            rows,
        )
    }
}

/// Whether the loop goes on after one round: it stops on a request to quit,
/// and when the timer, as the request left it, has reached its target.
pub open spec fn tick_flow(timer: TimerView, event: InputEvent, now: nat) -> Flow {
    if event == InputEvent::Quit || after_event(timer, event, now).is_finished_at(now) {
        Flow::Stop
    } else {
        Flow::Continue
    }
}

/// The size that the renderer remembers after one round: the terminal's,
/// where the round drew.
pub open spec fn tick_size(
    last_size: Option<(u16, u16)>,
    args: Args,
    event: InputEvent,
    cols: u16,
    rows: u16,
) -> Option<(u16, u16)> {
    if event == InputEvent::Quit || args.no_ui {
        last_size
    } else {
        Some((cols, rows))
    }
}

/// How a run ended: in failure if the terminal failed, else finished if the
/// timer has reached its target, else cancelled.
pub open spec fn outcome_of(failed: bool, finished: bool) -> Outcome {
    if failed {
        Outcome::Failed
    } else if finished {
        Outcome::Finished
    } else {
        Outcome::Cancelled
    }
}

/// The status that the process exits with: zero for a finished timer and
/// one for a run that was cancelled or that failed.
pub open spec fn exit_code_of(outcome: Outcome) -> u8 {
    match outcome {
        Outcome::Finished => 0,
        Outcome::Cancelled | Outcome::Failed => 1,
    }
}

/// What a talkative run says at its end, of a timer with or without a
/// name. A quiet run says nothing, and a failure is reported by whoever
/// knows what failed.
pub open spec fn farewell_text(outcome: Outcome, verbose: bool, name: Option<Seq<char>>) -> Option<
    Seq<char>,
> {
    if !verbose || outcome == Outcome::Failed {
        None
    } else {
        let ending = if outcome == Outcome::Finished {
            "finished!"@
        } else {
            "cancelled."@
        };
        match name {
            Some(name) => Some("Timer '"@ + name + "' "@ + ending),
            None => Some("Timer "@ + ending),
        }
    }
}

/// An unknown message from outside leaves the timer as it is, and so does
/// a round without a request.
pub proof fn lemma_idle_changes_nothing(timer: TimerView, now: nat)
    ensures
        after_event(timer, InputEvent::Idle, now) == timer,
{
}

/// A request to pause and then one to resume leave a running timer
/// running, paused in between; the time left afterwards is what it was at
/// the pause.
pub proof fn lemma_pause_then_resume(timer: TimerView, paused_at: nat, resumed_at: nat)
    requires
        timer.in_range(),
        !timer.is_paused,
        paused_at <= resumed_at,
    ensures
        after_event(timer, InputEvent::Pause, paused_at).is_paused,
        !after_event(
            after_event(timer, InputEvent::Pause, paused_at),
            InputEvent::Resume,
            resumed_at,
        ).is_paused,
        after_event(
            after_event(timer, InputEvent::Pause, paused_at),
            InputEvent::Resume,
            resumed_at,
        ).remaining_at(resumed_at) == timer.remaining_at(paused_at),
{
}

/// The requests that make the terminal ready for a run with the settings
/// `args`: see [`enter_ops`].
pub fn enter_screen(args: &Args) -> (ops: Vec<TermOp>)
    ensures
        ops_view(ops@) == enter_ops(args.fullscreen, args.no_status, args.no_ui),
{
    let mut ops: Vec<TermOp> = Vec::new();
    emit(&mut ops, TermOp::EnableRawMode);
    if args.no_ui {
    } else if args.fullscreen {
        emit(&mut ops, TermOp::EnterAlternateScreen);
    } else if args.no_status {
        emit(&mut ops, TermOp::NewLine);
        emit(&mut ops, TermOp::MoveUp(1));
    } else {
        emit(&mut ops, TermOp::NewLine);
        emit(&mut ops, TermOp::NewLine);
        emit(&mut ops, TermOp::MoveUp(2));
    }
    emit(&mut ops, TermOp::HideCursor);
    ops
}

/// The requests that give the terminal back after a run with the settings
/// `args`: see [`leave_ops`].
pub fn leave_screen(args: &Args, ui: &Ui) -> (ops: Vec<TermOp>)
    ensures
        ops_view(ops@) == leave_ops(args.fullscreen, args.no_status, args.no_ui),
{
    let mut ops: Vec<TermOp> = Vec::new();
    if args.no_ui {
    } else if args.fullscreen {
        emit(&mut ops, TermOp::LeaveAlternateScreen);
    } else if args.no_status {
        emit(&mut ops, TermOp::MoveDown(1));
    } else {
        emit(&mut ops, TermOp::MoveDown(2));
    }
    emit(&mut ops, TermOp::ShowCursor);
    emit(&mut ops, ui.conemu_reset_progress());
    emit(&mut ops, TermOp::MoveToColumn(0));
    emit(&mut ops, TermOp::DisableRawMode);
    ops
}

/// Does to `timer` what `event` asks, as of the time `now` on the timer's
/// clock: see [`after_event`].
pub fn apply_event_at(timer: &mut Timer, event: InputEvent, now: Duration)
    ensures
        final(timer)@ == after_event(old(timer)@, event, now@),
{
    match event {
        InputEvent::TogglePause => timer.toggle_pause_at(now),
        InputEvent::Pause => {
            if !timer.is_paused() {
                timer.toggle_pause_at(now);
            }
        },
        InputEvent::Resume => {
            if timer.is_paused() {
                timer.toggle_pause_at(now);
            }
        },
        InputEvent::Quit => {},
        InputEvent::Idle => {},
    }
}

/// One round of the loop at the time `now` on the timer's clock, on a
/// terminal of `cols` by `rows`: does what `event` asks, and gives what is
/// to be drawn and whether the loop goes on. See [`tick_ops`],
/// [`tick_flow`] and [`after_event`].
pub fn tick_at(
    timer: &mut Timer,
    ui: &mut Ui,
    args: &Args,
    event: InputEvent,
    now: Duration,
    cols: u16,
    rows: u16,
) -> (round: (Flow, Vec<TermOp>))
    ensures
        round.0 == tick_flow(old(timer)@, event, now@),
        ops_view(round.1@) == tick_ops(
            old(ui)@,
            old(timer)@,
            *args,
            event,
            now@,
            cols,
            rows,
        ),
        final(timer)@ == after_event(old(timer)@, event, now@),
        final(ui)@ == tick_size(old(ui)@, *args, event, cols, rows),
{
    if event == InputEvent::Quit {
        let ops: Vec<TermOp> = Vec::new();
        return (Flow::Stop, ops);
    }
    apply_event_at(timer, event, now);
    let ops: Vec<TermOp> = if args.no_ui {
        let ops: Vec<TermOp> = Vec::new();
        ops
    } else {
        ui.draw_at(timer, now, args.color, args.fullscreen, args.no_status, cols, rows)
    };
    let flow = if timer.is_finished_at(now) {
        Flow::Stop
    } else {
        Flow::Continue
    };
    (flow, ops)
}

/// One round of the loop at the present moment, on a terminal of `cols` by
/// `rows`.
pub fn tick(
    timer: &mut Timer,
    ui: &mut Ui,
    args: &Args,
    event: InputEvent,
    cols: u16,
    rows: u16,
) -> (round: (Flow, Vec<TermOp>))
    ensures
        exists|now: nat|
            {
                &&& round.0 == #[trigger] tick_flow(old(timer)@, event, now)
                &&& ops_view(round.1@) == tick_ops(
                    old(ui)@,
                    old(timer)@,
                    *args,
                    event,
                    now,
                    cols,
                    rows,
                )
                &&& final(timer)@ == after_event(old(timer)@, event, now)
            },
        event == InputEvent::Quit ==> round.0 == Flow::Stop,
        event == InputEvent::Quit || event == InputEvent::Idle ==> final(timer)@ == old(timer)@,
        final(ui)@ == tick_size(old(ui)@, *args, event, cols, rows),
{
    let now = timer.now();
    tick_at(timer, ui, args, event, now, cols, rows)
}

/// How a run ended: see [`outcome_of`].
pub fn outcome(failed: bool, finished: bool) -> (outcome: Outcome)
    ensures
        outcome == outcome_of(failed, finished),
{
    if failed {
        Outcome::Failed
    } else if finished {
        Outcome::Finished
    } else {
        Outcome::Cancelled
    }
}

/// The status that the process exits with: see [`exit_code_of`].
pub fn exit_code(outcome: Outcome) -> (code: u8)
    ensures
        code == exit_code_of(outcome),
{
    match outcome {
        Outcome::Finished => 0,
        Outcome::Cancelled => 1,
        Outcome::Failed => 1,
    }
}

/// What the run says at its end, if anything: see [`farewell_text`].
pub fn farewell(outcome: Outcome, verbose: bool, name: &Option<String>) -> (message: Option<String>)
    ensures
        match message {
            Some(message) => farewell_text(outcome, verbose, label_text(*name))
                == Some(message@),
            None => farewell_text(outcome, verbose, label_text(*name)) is None,
        },
{
    if !verbose {
        return None;
    }
    let ending = match outcome {
        Outcome::Finished => "finished!",
        Outcome::Cancelled => "cancelled.",
        Outcome::Failed => {
            return None;
        },
    };
    let mut message = String::from_str("Timer ");
    match name {
        Some(name) => {
            message = String::from_str("Timer '");
            message.append(name.as_str());
            message.append("' ");
        },
        None => {},
    }
    message.append(ending);
    Some(message)
}

} // verus!
