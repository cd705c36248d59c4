//! What the command line says, and how its values are read.

use vstd::prelude::*;
use vstd::string::StringSliceAdditionalSpecFns;
use crate::color::{color_named, Color};
use crate::duration::{Duration, NANOS_PER_SEC};

verus! {

/// The settings of one run.
#[derive(Debug)]
pub struct Args {
    /// The target of the timer.
    pub duration: Duration,
    /// The name of the timer.
    pub name: Option<String>,
    /// The colour of the filled part of the bar.
    pub color: Color,
    /// Whether the display owns the whole screen.
    pub fullscreen: bool,
    /// Whether the end of the run is reported in words.
    pub verbose: bool,
    /// Whether the status line is left out.
    pub no_status: bool,
    /// Whether nothing is drawn at all.
    pub no_ui: bool,
    /// Whether desktop notifications are sent.
    pub notify: bool,
}

/// The most decimal digits that the text of a duration may hold.
pub const MAX_DURATION_DIGITS: usize = 11;

/// How many of `bytes` are decimal digits.
pub open spec fn digit_count(bytes: Seq<u8>) -> nat
    decreases bytes.len(),
{
    if bytes.len() == 0 {
        0
    } else {
        digit_count(bytes.drop_last()) + if 0x30 <= bytes.last() <= 0x39 {
            1nat
        } else {
            0nat
        }
    }
}

/// What `humantime::parse_duration` makes of a text: the whole seconds and
/// the nanoseconds beyond them of the duration it reads, or the message of
/// the error it reports.
pub uninterp spec fn humantime_parsed(text: Seq<char>) -> Result<(u64, u32), Seq<char>>;

/// What `str::to_lowercase` makes of a text.
pub uninterp spec fn lowercase(text: Seq<char>) -> Seq<char>;

/// `humantime::parse_duration`, with the duration it reads taken apart by
/// `Duration::as_secs` and `Duration::subsec_nanos`, and the error it
/// reports turned into its message. The result depends on the text alone.
/// The nanoseconds are less than a second.
///
/// The parser adds up one span for each number in the text and panics where
/// the sum reaches `u64::MAX` seconds and the nanoseconds carry over. A
/// number of `d` digits stands for less than `10^d` units of at most
/// 31,557,600 seconds, so a text with no more than eleven digits in all
/// stays below 3.2e18 seconds, far from that sum.
#[verifier::external_body]
fn humantime_parse(text: &str) -> (parsed: Result<(u64, u32), String>)
    requires
        digit_count(text.spec_bytes()) <= MAX_DURATION_DIGITS,
    ensures
        match parsed {
            Ok(parts) => humantime_parsed(text@) == Ok::<(u64, u32), Seq<char>>(parts)
                && parts.1 < NANOS_PER_SEC,
            Err(message) => humantime_parsed(text@) == Err::<(u64, u32), Seq<char>>(message@),
        },
{
    match humantime::parse_duration(text) {
        Ok(span) => Ok((span.as_secs(), span.subsec_nanos())),
        Err(error) => Err(error.to_string()),
    }
}

/// `str::to_lowercase`, which gives the text with every character in lower
/// case. The result depends on the text alone.
#[verifier::external_body]
fn to_lowercase(text: &str) -> (lower: String)
    ensures
        lower@ == lowercase(text@),
{
    text.to_lowercase()
}

/// What reading a duration gives for each outcome of the parser, and for a
/// text with too many digits.
pub open spec fn duration_read(digits: nat, parsed: Result<(u64, u32), Seq<char>>) -> Result<
    nat,
    Seq<char>,
> {
    if digits > MAX_DURATION_DIGITS {
        Err("a duration is written with eleven digits at most"@)
    } else {
        match parsed {
            Ok(parts) => Ok((parts.0 * NANOS_PER_SEC + parts.1) as nat),
            Err(message) => Err(message),
        }
    }
}

/// What reading a colour gives for a name and its lower-case form.
pub open spec fn color_read(arg: Seq<char>, lower: Seq<char>) -> Result<Color, Seq<char>> {
    match color_named(lower) {
        Some(color) => Ok(color),
        None => Err("Invalid color: "@ + arg),
    }
}

/// The view of what reading a duration gave.
pub open spec fn duration_result_view(parsed: Result<Duration, String>) -> Result<nat, Seq<char>> {
    match parsed {
        Ok(duration) => Ok(duration@),
        Err(message) => Err(message@),
    }
}

/// The view of what reading a colour gave.
pub open spec fn color_result_view(parsed: Result<Color, String>) -> Result<Color, Seq<char>> {
    match parsed {
        Ok(color) => Ok(color),
        Err(message) => Err(message@),
    }
}

/// Counts the decimal digits in `text`.
pub fn count_digits(text: &str) -> (count: usize)
    ensures
        count == digit_count(text.spec_bytes()),
{
    let bytes = text.as_bytes();
    let mut count: usize = 0;
    let mut at: usize = 0;
    while at < bytes.len()
        invariant
            at <= bytes@.len(),
            count <= at,
            count == digit_count(bytes@.take(at as int)),
            bytes@ == text.spec_bytes(),
        decreases bytes@.len() - at,
    {
        let byte = bytes[at];
        assert(bytes@.take(at + 1).drop_last() =~= bytes@.take(at as int));
        if 0x30 <= byte && byte <= 0x39 {
            count = count + 1;
        }
        at = at + 1;
    }
    assert(bytes@.take(at as int) =~= bytes@);
    count
}

/// Reads a duration such as `5m`, `30s` or `1h 12min`: a row of numbers,
/// each with a unit of time behind it. A text with more than
/// [`MAX_DURATION_DIGITS`] digits is not read; any other is read as
/// `humantime` reads it.
pub fn parse_duration(arg: &str) -> (parsed: Result<Duration, String>)
    ensures
        duration_result_view(parsed) == duration_read(
            digit_count(arg.spec_bytes()),
            humantime_parsed(arg@),
        ),
{
    if count_digits(arg) > MAX_DURATION_DIGITS {
        return Err(String::from_str("a duration is written with eleven digits at most"));
    }
    match humantime_parse(arg) {
        Ok((secs, nanos)) => Ok(Duration::new(secs, nanos)),
        Err(message) => Err(message),
    }
}

/// Reads a colour by its name, in any mix of upper and lower case.
pub fn parse_color(arg: &str) -> (parsed: Result<Color, String>)
    ensures
        color_result_view(parsed) == color_read(arg@, lowercase(arg@)),
{
    let lower = to_lowercase(arg);
    match Color::from_name(lower.as_str()) {
        Some(color) => Ok(color),
        None => {
            let mut message = String::from_str("Invalid color: ");
            message.append(arg);
            Err(message)
        },
    }
}

} // verus!
