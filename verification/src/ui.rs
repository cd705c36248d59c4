//! The display: a status line and a progress bar, redrawn in place.
//!
//! A draw clears no more than it rewrites. Only when the terminal has
//! changed its size since the last draw, and the display owns the whole
//! screen, is the screen cleared as a whole.

use vstd::prelude::*;
use crate::clock::clock_text;
use crate::color::Color;
use crate::duration::{Duration, NANOS_PER_SEC};
use crate::ops::{emit, emit_text, ops_view, Op, Style, TermOp};
use crate::text::{
    decimal, lemma_decimal_len, lemma_padded_len, padded, push_decimal, push_padded,
    push_repeated, repeated,
};
use crate::timer::{Progress, Ratio, Timer, TimerView, MAX_SCALE};

verus! {

/// The widest bar that is drawn where the display shares the screen.
pub const INLINE_BAR_MAX: usize = 40;

/// The columns kept free of the bar, beside the percentage, where the
/// display shares the screen.
pub const INLINE_MARGIN: usize = 10;

/// The columns kept free of the bar, beside the percentage, where the
/// display owns the screen.
pub const FULLSCREEN_MARGIN: usize = 4;

/// The state reported to the terminal while the timer runs.
pub const PROGRESS_RUNNING: u16 = 1;

/// The state reported to the terminal while the timer is paused.
pub const PROGRESS_PAUSED: u16 = 4;

/// The state reported to the terminal when there is nothing to report.
pub const PROGRESS_NONE: u16 = 0;

/// `a` less `b`, and zero where `b` is the larger.
pub open spec fn less(a: nat, b: nat) -> nat {
    if a >= b {
        (a - b) as nat
    } else {
        0
    }
}

/// A span of `secs` seconds as the status line shows it: the hours with an
/// `h` and the minutes with an `m`, each only where it is not zero, and
/// always the seconds with an `s`.
pub open spec fn duration_text(secs: nat) -> Seq<char> {
    let hours = secs / 3600;
    let mins = (secs % 3600) / 60;
    let s = secs % 60;
    (if hours > 0 {
        decimal(hours) + seq!['h']
    } else {
        Seq::empty()
    }) + (if mins > 0 {
        decimal(mins) + seq!['m']
    } else {
        Seq::empty()
    }) + decimal(s) + seq!['s']
}

/// The percentage as it stands behind the bar: a space, the number set to
/// the right in three columns, and a percent sign.
pub open spec fn percent_text(percent: nat) -> Seq<char> {
    seq![' '] + padded(percent, 3, ' ') + seq!['%']
}

/// The escape sequence that reports `progress` percent of a task in the
/// given `state` to a terminal that shows task progress.
pub open spec fn conemu_text(state: nat, progress: nat) -> Seq<char> {
    "\x1b]9;4;"@ + decimal(state) + seq![';'] + decimal(progress) + "\x07"@
}

/// The width of the bar on a terminal of `cols` columns, with a percentage
/// of `percent_len` characters behind it: what the margin and the
/// percentage leave of the columns, and where the display shares the screen
/// no more than [`INLINE_BAR_MAX`].
pub open spec fn bar_width(cols: nat, fullscreen: bool, percent_len: nat) -> nat {
    if fullscreen {
        less(cols, percent_len + FULLSCREEN_MARGIN as nat)
    } else {
        let room = less(cols, percent_len + INLINE_MARGIN as nat);
        if room <= INLINE_BAR_MAX {
            room
        } else {
            INLINE_BAR_MAX as nat
        }
    }
}

/// The column where the bar begins: the bar and its percentage stand in
/// the middle of the screen where the display owns it, and at the left
/// edge where it does not.
pub open spec fn bar_start(cols: nat, fullscreen: bool, percent_len: nat) -> nat {
    if fullscreen {
        less(cols, bar_width(cols, fullscreen, percent_len) + percent_len) / 2
    } else {
        0
    }
}

/// What draws the status line.
///
/// First the place is made ready. Where the display owns the screen, a
/// changed terminal has the whole screen cleared, and an unchanged one the
/// two rows of the display; either way the cursor goes to `col`, `row`.
/// Where it shares the screen, the cursor goes to the left edge of its row,
/// and that row is cleared. Then come the start time in bold, the name in
/// italics if there is one, the time left in bold, and a yellow mark while
/// the timer is paused.
pub open spec fn status_ops(
    timer: TimerView,
    now: nat,
    fullscreen: bool,
    full_clear: bool,
    col: u16,
    row: u16,
) -> Seq<Op> {
    (if fullscreen && full_clear {
        seq![Op::ClearAll, Op::MoveTo(col, row)]
    } else if fullscreen {
        seq![
            Op::MoveTo(0, row),
            Op::ClearLine,
            Op::MoveTo(0, (row + 1) as u16),
            Op::ClearLine,
            Op::MoveTo(col, row),
        ]
    } else {
        seq![Op::MoveToColumn(0), Op::ClearLine]
    }) + seq![Op::Print(Style::Bold, clock_text(timer.start_time))] + (match timer.name {
        Some(name) => seq![Op::Print(Style::Plain, ": "@), Op::Print(Style::Italic, name)],
        None => Seq::empty(),
    }) + seq![
        Op::Print(Style::Plain, " - "@),
        Op::Print(
            Style::Bold,
            duration_text(timer.remaining_at(now) / (NANOS_PER_SEC as nat)),
        ),
    ] + (if timer.is_paused {
        seq![Op::Print(Style::Colored(Color::Yellow), " PAUSED"@)]
    } else {
        Seq::empty()
    })
}

/// What draws the bar.
///
/// Where the display owns the screen, the cursor goes to the bar's column,
/// in the row below the status line or, without a status line, in the
/// middle row; that row is cleared only where nothing else has cleared it.
/// Where the display shares the screen, the cursor goes down a row if there
/// is a status line, then to the left edge, and the row is cleared. Then
/// come the filled part of the bar in `color`, the empty part in dark grey,
/// and the percentage. Where the cursor went down a row, it goes up again.
pub open spec fn bar_ops(
    progress: Ratio,
    color: Color,
    fullscreen: bool,
    no_status: bool,
    full_clear: bool,
    center_row: u16,
    text_row: u16,
    bar_start_col: u16,
    bar_width: nat,
    percent_str: Seq<char>,
) -> Seq<Op> {
    let filled = progress.of(bar_width);
    let empty = less(bar_width, filled);
    (if fullscreen {
        seq![
            Op::MoveTo(
                bar_start_col,
                if no_status {
                    center_row
                } else {
                    (text_row + 1) as u16
                },
            ),
        ] + (if no_status && !full_clear {
            seq![Op::ClearLine]
        } else {
            Seq::empty()
        })
    } else {
        (if !no_status {
            seq![Op::MoveDown(1)]
        } else {
            Seq::empty()
        }) + seq![Op::MoveToColumn(0), Op::ClearLine]
    }) + seq![
        Op::Print(Style::Colored(color), repeated("\u{2588}"@, filled)),
        Op::Print(Style::Colored(Color::DarkGrey), repeated("\u{2591}"@, empty)),
        Op::Print(Style::Plain, percent_str),
    ] + (if !fullscreen && !no_status {
        seq![Op::MoveUp(1)]
    } else {
        Seq::empty()
    })
}

/// Whether a terminal of `cols` by `rows` has another size than the one
/// seen last, if any was seen.
pub open spec fn resized(last_size: Option<(u16, u16)>, cols: u16, rows: u16) -> bool {
    last_size != Some((cols, rows))
}

/// What one draw asks of a terminal of `cols` by `rows`, for a timer at the
/// time `now` on its clock, after a draw that saw the size `last_size`.
///
/// The status line comes first, unless it is left out; without it a changed
/// terminal still has the screen cleared where the display owns it. The bar
/// follows, and last the report of the progress to the terminal.
pub open spec fn draw_ops(
    last_size: Option<(u16, u16)>,
    timer: TimerView,
    now: nat,
    color: Color,
    fullscreen: bool,
    no_status: bool,
    cols: u16,
    rows: u16,
) -> Seq<Op> {
    let full_clear = resized(last_size, cols, rows);
    let progress = timer.progress_at(now);
    let percent = progress.of(100);
    let percent_str = percent_text(percent);
    let width = bar_width(cols as nat, fullscreen, percent_str.len());
    let start = bar_start(cols as nat, fullscreen, percent_str.len());
    let center_row = rows / 2;
    let text_col = if fullscreen {
        start as u16
    } else {
        0
    };
    let text_row = if fullscreen {
        center_row
    } else {
        0
    };
    (if !no_status {
        status_ops(timer, now, fullscreen, full_clear, text_col, text_row)
    } else if fullscreen && full_clear {
        seq![Op::ClearAll]
    } else {
        Seq::empty()
    }) + bar_ops(
        progress,
        color,
        fullscreen,
        no_status,
        full_clear,
        center_row,
        text_row,
        start as u16,
        width,
        percent_str,
    ) + seq![
        Op::Write(
            conemu_text(
                if timer.is_paused {
                    PROGRESS_PAUSED as nat
                } else {
                    PROGRESS_RUNNING as nat
                },
                percent,
            ),
        ),
    ]
}

/// The percentage of a progress takes five characters.
pub proof fn lemma_percent_text_len(percent: nat)
    requires
        percent <= 100,
    ensures
        percent_text(percent).len() == 5,
{
    lemma_decimal_len(percent);
    lemma_padded_len(percent, 3, ' ');
}

/// The bar and its percentage fit on the screen: the bar is no wider than
/// the terminal, and it begins in the left half.
pub proof fn lemma_bar_fits(cols: nat, fullscreen: bool, percent_len: nat)
    ensures
        bar_width(cols, fullscreen, percent_len) <= cols,
        bar_start(cols, fullscreen, percent_len) <= cols / 2,
        bar_width(cols, fullscreen, percent_len) > 0 ==> bar_start(cols, fullscreen, percent_len)
            + bar_width(cols, fullscreen, percent_len) + percent_len <= cols,
{
}

/// How often `ops` clear the whole screen.
pub open spec fn full_clears(ops: Seq<Op>) -> nat
    decreases ops.len(),
{
    if ops.len() == 0 {
        0
    } else {
        full_clears(ops.drop_last()) + if ops.last() is ClearAll {
            1nat
        } else {
            0nat
        }
    }
}

/// The full clears of two runs of requests add up.
pub proof fn lemma_full_clears_add(a: Seq<Op>, b: Seq<Op>)
    ensures
        full_clears(a + b) == full_clears(a) + full_clears(b),
    decreases b.len(),
{
    if b.len() == 0 {
    } else {
        assert((a + b).drop_last() =~= a + b.drop_last());
        lemma_full_clears_add(a, b.drop_last());
    }
}

/// The status line clears the whole screen once where the display owns the
/// screen and the terminal has changed, and not at all otherwise.
pub proof fn lemma_status_full_clears(
    timer: TimerView,
    now: nat,
    fullscreen: bool,
    full_clear: bool,
    col: u16,
    row: u16,
)
    ensures
        full_clears(status_ops(timer, now, fullscreen, full_clear, col, row)) == if fullscreen
            && full_clear {
            1nat
        } else {
            0nat
        },
{
    reveal_with_fuel(full_clears, 6);
    let place: Seq<Op> = if fullscreen && full_clear {
        seq![Op::ClearAll, Op::MoveTo(col, row)]
    } else if fullscreen {
        seq![
            Op::MoveTo(0, row),
            Op::ClearLine,
            Op::MoveTo(0, (row + 1) as u16),
            Op::ClearLine,
            Op::MoveTo(col, row),
        ]
    } else {
        seq![Op::MoveToColumn(0), Op::ClearLine]
    };
    let started: Seq<Op> = seq![Op::Print(Style::Bold, clock_text(timer.start_time))];
    let named: Seq<Op> = match timer.name {
        Some(name) => seq![Op::Print(Style::Plain, ": "@), Op::Print(Style::Italic, name)],
        None => Seq::empty(),
    };
    let left: Seq<Op> = seq![
        Op::Print(Style::Plain, " - "@),
        Op::Print(
            Style::Bold,
            duration_text(timer.remaining_at(now) / (NANOS_PER_SEC as nat)),
        ),
    ];
    let paused: Seq<Op> = if timer.is_paused {
        seq![Op::Print(Style::Colored(Color::Yellow), " PAUSED"@)]
    } else {
        Seq::empty()
    };
    assert(status_ops(timer, now, fullscreen, full_clear, col, row) == place + started + named
        + left + paused);
    lemma_full_clears_add(place + started + named + left, paused);
    lemma_full_clears_add(place + started + named, left);
    lemma_full_clears_add(place + started, named);
    lemma_full_clears_add(place, started);
}

/// The bar never clears the whole screen.
pub proof fn lemma_bar_full_clears(
    progress: Ratio,
    color: Color,
    fullscreen: bool,
    no_status: bool,
    full_clear: bool,
    center_row: u16,
    text_row: u16,
    bar_start_col: u16,
    bar_width: nat,
    percent_str: Seq<char>,
)
    ensures
        full_clears(
            bar_ops(
                progress,
                color,
                fullscreen,
                no_status,
                full_clear,
                center_row,
                text_row,
                bar_start_col,
                bar_width,
                percent_str,
            ),
        ) == 0,
{
    reveal_with_fuel(full_clears, 4);
    let filled = progress.of(bar_width);
    let empty = less(bar_width, filled);
    let go: Seq<Op> = seq![
        Op::MoveTo(
            bar_start_col,
            if no_status {
                center_row
            } else {
                (text_row + 1) as u16
            },
        ),
    ];
    let wipe: Seq<Op> = if no_status && !full_clear {
        seq![Op::ClearLine]
    } else {
        Seq::empty()
    };
    let down: Seq<Op> = if !no_status {
        seq![Op::MoveDown(1)]
    } else {
        Seq::empty()
    };
    let edge: Seq<Op> = seq![Op::MoveToColumn(0), Op::ClearLine];
    let place: Seq<Op> = if fullscreen {
        go + wipe
    } else {
        down + edge
    };
    let bar: Seq<Op> = seq![
        Op::Print(Style::Colored(color), repeated("\u{2588}"@, filled)),
        Op::Print(Style::Colored(Color::DarkGrey), repeated("\u{2591}"@, empty)),
        Op::Print(Style::Plain, percent_str),
    ];
    let up: Seq<Op> = if !fullscreen && !no_status {
        seq![Op::MoveUp(1)]
    } else {
        Seq::empty()
    };
    assert(bar_ops(
        progress,
        color,
        fullscreen,
        no_status,
        full_clear,
        center_row,
        text_row,
        bar_start_col,
        bar_width,
        percent_str,
    ) == place + bar + up);
    lemma_full_clears_add(go, wipe);
    lemma_full_clears_add(down, edge);
    lemma_full_clears_add(place + bar, up);
    lemma_full_clears_add(place, bar);
}

/// A draw clears the whole screen exactly once where the display owns the
/// screen and the terminal has another size than at the last draw, and not
/// at all otherwise.
pub proof fn lemma_full_clear_only_on_resize(
    last_size: Option<(u16, u16)>,
    timer: TimerView,
    now: nat,
    color: Color,
    fullscreen: bool,
    no_status: bool,
    cols: u16,
    rows: u16,
)
    ensures
        full_clears(draw_ops(last_size, timer, now, color, fullscreen, no_status, cols, rows))
            == if fullscreen && resized(last_size, cols, rows) {
            1nat
        } else {
            0nat
        },
{
    reveal_with_fuel(full_clears, 2);
    let full_clear = resized(last_size, cols, rows);
    let progress = timer.progress_at(now);
    let percent = progress.of(100);
    let percent_str = percent_text(percent);
    let width = bar_width(cols as nat, fullscreen, percent_str.len());
    let start = bar_start(cols as nat, fullscreen, percent_str.len());
    let center_row = (rows / 2) as u16;
    let text_col: u16 = if fullscreen {
        start as u16
    } else {
        0
    };
    let text_row: u16 = if fullscreen {
        center_row
    } else {
        0
    };
    let status: Seq<Op> = if !no_status {
        status_ops(timer, now, fullscreen, full_clear, text_col, text_row)
    } else if fullscreen && full_clear {
        seq![Op::ClearAll]
    } else {
        Seq::empty()
    };
    let bar = bar_ops(
        progress,
        color,
        fullscreen,
        no_status,
        full_clear,
        center_row,
        text_row,
        start as u16,
        width,
        percent_str,
    );
    let report: Seq<Op> = seq![
        Op::Write(
            conemu_text(
                if timer.is_paused {
                    PROGRESS_PAUSED as nat
                } else {
                    PROGRESS_RUNNING as nat
                },
                percent,
            ),
        ),
    ];
    assert(draw_ops(last_size, timer, now, color, fullscreen, no_status, cols, rows) == status
        + bar + report);
    lemma_status_full_clears(timer, now, fullscreen, full_clear, text_col, text_row);
    lemma_bar_full_clears(
        progress,
        color,
        fullscreen,
        no_status,
        full_clear,
        center_row,
        text_row,
        start as u16,
        width,
        percent_str,
    );
    lemma_full_clears_add(status + bar, report);
    lemma_full_clears_add(status, bar);
}

/// Two draws in a row on a terminal that keeps its size: the second one
/// does not clear the whole screen. The first draw leaves the size of the
/// terminal as the size seen last.
pub proof fn lemma_same_size_never_clears(
    timer: TimerView,
    now: nat,
    color: Color,
    fullscreen: bool,
    no_status: bool,
    cols: u16,
    rows: u16,
)
    ensures
        !resized(Some((cols, rows)), cols, rows),
        full_clears(
            draw_ops(Some((cols, rows)), timer, now, color, fullscreen, no_status, cols, rows),
        ) == 0,
{
    lemma_full_clear_only_on_resize(
        Some((cols, rows)),
        timer,
        now,
        color,
        fullscreen,
        no_status,
        cols,
        rows,
    );
}

/// The renderer, which remembers the size of the terminal at its last draw.
///
/// Its view is that size, or `None` before the first draw.
#[derive(Clone, Copy, Debug, PartialEq, Eq)]
pub struct Ui {
    last_size: Option<(u16, u16)>,
}

impl View for Ui {
    type V = Option<(u16, u16)>;

    closed spec fn view(&self) -> Option<(u16, u16)> {
        self.last_size
    }
}

impl Ui {
    /// A renderer that has not drawn yet.
    pub fn new() -> (ui: Ui)
        ensures
            ui@ is None,
    {
        Ui { last_size: None }
    }

    /// The size of the terminal at the last draw.
    pub fn last_size(&self) -> (size: Option<(u16, u16)>)
        ensures
            size == self@,
    {
        self.last_size
    }

    /// The request that tells the terminal there is no progress to show.
    pub fn conemu_reset_progress(&self) -> (op: TermOp)
        ensures
            op@ == Op::Write(conemu_text(PROGRESS_NONE as nat, 0)),
    {
        self.set_conemu_progress(PROGRESS_NONE, 0)
    }

    /// The request that reports `progress` percent in the given `state` to
    /// the terminal.
    pub fn set_conemu_progress(&self, state: u16, progress: u16) -> (op: TermOp)
        ensures
            op@ == Op::Write(conemu_text(state as nat, progress as nat)),
    {
        let mut text = String::from_str("\x1b]9;4;");
        push_decimal(&mut text, state as u64);
        text.append(";");
        push_decimal(&mut text, progress as u64);
        text.append("\x07");
        proof {
            reveal_strlit(";");
            assert(text@ =~= conemu_text(state as nat, progress as nat));
        }
        TermOp::Write(text)
    }

    /// Takes note of the terminal's size, and says whether it is another
    /// one than at the last draw. Before the first draw every size is.
    pub fn check_resize(&mut self, cols: u16, rows: u16) -> (changed: bool)
        ensures
            changed == resized(old(self)@, cols, rows),
            final(self)@ == Some((cols, rows)),
    {
        let same = match self.last_size {
            Some((last_cols, last_rows)) => last_cols == cols && last_rows == rows,
            None => false,
        };
        if same {
            false
        } else {
            self.last_size = Some((cols, rows));
            true
        }
    }

    /// The width of the bar and the column where it begins, on a terminal
    /// of `cols` columns with a percentage of `percent_len` characters.
    pub fn get_bar_size(&self, cols: u16, fullscreen: bool, percent_len: usize) -> (size: (
        usize,
        usize,
    ))
        ensures
            size.0 == bar_width(cols as nat, fullscreen, percent_len as nat),
            size.1 == bar_start(cols as nat, fullscreen, percent_len as nat),
            size.0 <= cols,
            size.1 <= cols / 2,
    {
        let cols: usize = cols as usize;
        let width: usize = if fullscreen {
            cols.saturating_sub(percent_len.saturating_add(FULLSCREEN_MARGIN))
        } else {
            let room: usize = cols.saturating_sub(percent_len.saturating_add(INLINE_MARGIN));
            if room <= INLINE_BAR_MAX {
                room
            } else {
                INLINE_BAR_MAX
            }
        };
        let start: usize = if fullscreen {
            cols.saturating_sub(width.saturating_add(percent_len)) / 2
        } else {
            0
        };
        (width, start)
    }

    /// The span as the status line shows it, such as `1h1m5s`: see
    /// [`duration_text`]. What the span has beyond its whole seconds is
    /// left out.
    pub fn format_duration(&self, duration: Duration) -> (text: String)
        ensures
            text@ == duration_text(duration@ / (NANOS_PER_SEC as nat)),
    {
        let secs: u64 = duration.as_secs();
        let hours: u64 = secs / 3600;
        let mins: u64 = (secs % 3600) / 60;
        let secs: u64 = secs % 60;
        let mut text = String::new();
        if hours > 0 {
            push_decimal(&mut text, hours);
            text.append("h");
        }
        if mins > 0 {
            push_decimal(&mut text, mins);
            text.append("m");
        }
        push_decimal(&mut text, secs);
        text.append("s");
        proof {
            reveal_strlit("h");
            reveal_strlit("m");
            reveal_strlit("s");
            assert("h"@ =~= seq!['h']);
            assert("m"@ =~= seq!['m']);
            assert("s"@ =~= seq!['s']);
            assert(text@ =~= duration_text(duration@ / (NANOS_PER_SEC as nat)));
        }
        text
    }

    /// The percentage as it stands behind the bar: see [`percent_text`].
    pub fn percent_label(&self, percent: u16) -> (text: String)
        ensures
            text@ == percent_text(percent as nat),
    {
        let mut text = String::from_str(" ");
        proof {
            reveal_strlit(" ");
            reveal_strlit("%");
            assert(" "@ =~= seq![' ']);
            assert("%"@ =~= seq!['%']);
        }
        push_padded(&mut text, percent as u64, 3, " ");
        text.append("%");
        assert(text@ =~= percent_text(percent as nat));
        text
    }

    /// Adds to `out` what draws the status line of `timer` at the time
    /// `now` on its clock: see [`status_ops`].
    pub fn draw_status(
        &self,
        out: &mut Vec<TermOp>,
        timer: &Timer,
        now: Duration,
        fullscreen: bool,
        full_clear: bool,
        col: u16,
        row: u16,
    )
        requires
            fullscreen && !full_clear ==> row < u16::MAX,
        ensures
            ops_view(final(out)@) == ops_view(old(out)@) + status_ops(
                timer@,
                now@,
                fullscreen,
                full_clear,
                col,
                row,
            ),
    {
        if fullscreen && full_clear {
            emit(out, TermOp::ClearAll);
            emit(out, TermOp::MoveTo(col, row));
        } else if fullscreen {
            emit(out, TermOp::MoveTo(0, row));
            emit(out, TermOp::ClearLine);
            emit(out, TermOp::MoveTo(0, row + 1));
            emit(out, TermOp::ClearLine);
            emit(out, TermOp::MoveTo(col, row));
        } else {
            emit(out, TermOp::MoveToColumn(0));
            emit(out, TermOp::ClearLine);
        }
        emit(out, TermOp::Print(Style::Bold, timer.start_time().label()));
        match timer.name() {
            Some(name) => {
                emit_text(out, Style::Plain, ": ");
                emit(out, TermOp::Print(Style::Italic, name.clone()));
            },
            None => {},
        }
        let remaining = self.format_duration(timer.remaining_time_at(now));
        emit_text(out, Style::Plain, " - ");
        emit(out, TermOp::Print(Style::Bold, remaining));
        if timer.is_paused() {
            emit_text(out, Style::Colored(Color::Yellow), " PAUSED");
        }
    }

    /// Adds to `out` what draws a bar of `bar_width` columns for
    /// `progress`: see [`bar_ops`].
    pub fn draw_bar(
        &self,
        out: &mut Vec<TermOp>,
        progress: Progress,
        color: Color,
        fullscreen: bool,
        no_status: bool,
        full_clear: bool,
        center_row: u16,
        text_row: u16,
        bar_start_col: u16,
        bar_width: usize,
        percent_str: &str,
    )
        requires
            bar_width <= MAX_SCALE,
            fullscreen && !no_status ==> text_row < u16::MAX,
        ensures
            ops_view(final(out)@) == ops_view(old(out)@) + bar_ops(
                progress@,
                color,
                fullscreen,
                no_status,
                full_clear,
                center_row,
                text_row,
                bar_start_col,
                bar_width as nat,
                percent_str@,
            ),
    {
        let filled_width: usize = progress.scale(bar_width);
        let empty_width: usize = bar_width - filled_width;
        let mut filled_bar = String::new();
        push_repeated(&mut filled_bar, "\u{2588}", filled_width);
        let mut empty_bar = String::new();
        push_repeated(&mut empty_bar, "\u{2591}", empty_width);
        assert(filled_bar@ =~= repeated("\u{2588}"@, filled_width as nat));
        assert(empty_bar@ =~= repeated("\u{2591}"@, empty_width as nat));
        if fullscreen {
            let bar_row: u16 = if no_status {
                center_row
            } else {
                text_row + 1
            };
            emit(out, TermOp::MoveTo(bar_start_col, bar_row));
            if no_status && !full_clear {
                emit(out, TermOp::ClearLine);
            }
        } else {
            if !no_status {
                emit(out, TermOp::MoveDown(1));
            }
            emit(out, TermOp::MoveToColumn(0));
            emit(out, TermOp::ClearLine);
        }
        emit(out, TermOp::Print(Style::Colored(color), filled_bar));
        emit(out, TermOp::Print(Style::Colored(Color::DarkGrey), empty_bar));
        emit_text(out, Style::Plain, percent_str);
        if !fullscreen && !no_status {
            emit(out, TermOp::MoveUp(1));
        }
        assert(ops_view(out@) =~= ops_view(old(out)@) + bar_ops(
            progress@,
            color,
            fullscreen,
            no_status,
            full_clear,
            center_row,
            text_row,
            bar_start_col,
            bar_width as nat,
            percent_str@,
        ));
    }

    /// What one draw asks of a terminal of `cols` by `rows`, for `timer` at
    /// the time `now` on its clock: see [`draw_ops`]. The size is kept for
    /// the next draw.
    pub fn draw_at(
        &mut self,
        timer: &Timer,
        now: Duration,
        color: Color,
        fullscreen: bool,
        no_status: bool,
        cols: u16,
        rows: u16,
    ) -> (ops: Vec<TermOp>)
        ensures
            ops_view(ops@) == draw_ops(
                old(self)@,
                timer@,
                now@,
                color,
                fullscreen,
                no_status,
                cols,
                rows,
            ),
            final(self)@ == Some((cols, rows)),
    {
        let full_clear = self.check_resize(cols, rows);
        let progress = timer.progress_at(now);
        let percent: u16 = progress.percent();
        let percent_str = self.percent_label(percent);
        proof {
            lemma_percent_text_len(percent as nat);
        }
        let percent_len: usize = percent_str.as_str().unicode_len();
        let (bar_width, bar_start_col) = self.get_bar_size(cols, fullscreen, percent_len);
        let center_row: u16 = rows / 2;
        let text_col: u16 = if fullscreen {
            bar_start_col as u16
        } else {
            0
        };
        let text_row: u16 = if fullscreen {
            center_row
        } else {
            0
        };
        let mut ops: Vec<TermOp> = Vec::new();
        if !no_status {
            self.draw_status(&mut ops, timer, now, fullscreen, full_clear, text_col, text_row);
        } else if fullscreen && full_clear {
            emit(&mut ops, TermOp::ClearAll);
        }
        self.draw_bar(
            &mut ops,
            progress,
            color,
            fullscreen,
            no_status,
            full_clear,
            center_row,
            text_row,
            bar_start_col as u16,
            bar_width,
            percent_str.as_str(),
        );
        let state: u16 = if timer.is_paused() {
            PROGRESS_PAUSED
        } else {
            PROGRESS_RUNNING
        };
        emit(&mut ops, self.set_conemu_progress(state, percent));
        ops
    }

    /// What one draw asks of a terminal of `cols` by `rows`, for `timer` at
    /// the present moment. The size is kept for the next draw.
    pub fn draw(
        &mut self,
        timer: &Timer,
        color: Color,
        fullscreen: bool,
        no_status: bool,
        cols: u16,
        rows: u16,
    ) -> (ops: Vec<TermOp>)
        ensures
            exists|now: nat| #[trigger]
                draw_ops(old(self)@, timer@, now, color, fullscreen, no_status, cols, rows)
                    == ops_view(ops@),
            final(self)@ == Some((cols, rows)),
    {
        let now = timer.now();
        self.draw_at(timer, now, color, fullscreen, no_status, cols, rows)
    }
}

} // verus!
