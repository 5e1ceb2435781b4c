use chrono::{Datelike, Timelike};
use vstd::prelude::*;

use super::{severity, Level, Logger};
use crate::text::{decimal, push_padded_decimal, to_owned_string, zero_padded};

verus! {

/// Writes one line per message to standard error, in the form
/// `date time | LEVEL | panorama-mail | message`, leaving out messages below
/// its minimum level. With colours on, the level label is wrapped in an ANSI
/// colour code and a reset.
pub struct LoguruLogger {
    min_level: Level,
    color: bool,
}

/// The five-character label of a level.
pub open spec fn level_label(l: Level) -> Seq<char> {
    match l {
        Level::Debug => "DEBUG"@,
        Level::Info => "INFO "@,
        Level::Warn => "WARN "@,
        Level::Error => "ERROR"@,
    }
}

/// The ANSI colour that starts a level's label.
pub open spec fn level_color(l: Level) -> Seq<char> {
    match l {
        Level::Debug => "\x1b[36m"@,
        Level::Info => "\x1b[32m"@,
        Level::Warn => "\x1b[33m"@,
        Level::Error => "\x1b[31m"@,
    }
}

/// The line written for a message.
pub open spec fn log_line(now: Seq<char>, level: Level, color: bool, message: Seq<char>) -> Seq<char> {
    let tag = if color {
        level_color(level) + level_label(level) + "\x1b[0m"@
    } else {
        level_label(level)
    };
    now + " | "@ + tag + " | panorama-mail | "@ + message
}

#[verifier::external_type_specification]
#[verifier::external_body]
pub struct ExStderr(std::io::Stderr);

#[verifier::external_type_specification]
#[verifier::external_body]
pub struct ExIoError(std::io::Error);

/// `std::io::stderr()`: a handle on the process's standard error.
#[verifier::external_body]
fn stderr_handle() -> std::io::Stderr {
    std::io::stderr()
}

/// `IsTerminal::is_terminal`: whether the stream is a terminal; depends on
/// how the process was started.
#[verifier::external_body]
fn is_terminal(s: &std::io::Stderr) -> bool {
    std::io::IsTerminal::is_terminal(s)
}

/// `Write::write_all`: writes all of `bytes` to the stream, or fails.
#[verifier::external_body]
fn write_all_to(s: &mut std::io::Stderr, bytes: &[u8]) -> Result<(), std::io::Error> {
    std::io::Write::write_all(s, bytes)
}

/// Whether standard error is a terminal.
fn stderr_is_terminal() -> bool {
    is_terminal(&stderr_handle())
}

/// A local date and time, field by field as chrono reports them.
pub struct LocalDateTime {
    pub year: i32,
    pub month: u32,
    pub day: u32,
    pub hour: u32,
    pub minute: u32,
    pub second: u32,
    /// Nanoseconds past the second; 1_000_000_000 and above mark a leap second.
    pub nanosecond: u32,
}

/// The local date and time from `chrono::Local::now()`, read out with the
/// `Datelike` and `Timelike` accessors. Depends on the clock and the time zone.
#[verifier::external_body]
fn local_now() -> LocalDateTime {
    let now = chrono::Local::now();
    LocalDateTime {
        year: now.year(),
        month: now.month(),
        day: now.day(),
        hour: now.hour(),
        minute: now.minute(),
        second: now.second(),
        nanosecond: now.nanosecond(),
    }
}

/// Writes `text` to standard error as it is; a failed write is ignored.
fn write_stderr(text: &str) {
    let mut handle = stderr_handle();
    let _ = write_all_to(&mut handle, text.as_bytes());
}

/// The year as written in a log line: four digits with leading zeros for
/// years 0 to 9999, otherwise a sign and at least four digits.
pub open spec fn year_text(y: int) -> Seq<char> {
    if 0 <= y < 10000 {
        zero_padded(decimal(y as nat), 4)
    } else if y >= 10000 {
        seq!['+'] + zero_padded(decimal(y as nat), 4)
    } else {
        seq!['-'] + zero_padded(decimal((-y) as nat), 4)
    }
}

/// A two-digit field of a log line's time stamp.
pub open spec fn two_digits(v: nat) -> Seq<char> {
    zero_padded(decimal(v), 2)
}

/// The time stamp of a log line, `YYYY-MM-DD HH:MM:SS.mmm`: a leap second
/// shows as second 60, and the milliseconds are the nanoseconds cut to
/// thousandths of a second.
pub open spec fn timestamp_text(t: LocalDateTime) -> Seq<char> {
    year_text(t.year as int) + "-"@ + two_digits(t.month as nat) + "-"@ + two_digits(t.day as nat)
        + " "@ + two_digits(t.hour as nat) + ":"@ + two_digits(t.minute as nat) + ":"@ + two_digits(
        (t.second + t.nanosecond / 1_000_000_000) as nat,
    ) + "."@ + zero_padded(decimal((t.nanosecond / 1_000_000 % 1000) as nat), 3)
}

fn push_year(out: &mut String, year: i32)
    ensures
        final(out)@ == old(out)@ + year_text(year as int),
{
    let ghost start = out@;
    if 0 <= year && year < 10000 {
        push_padded_decimal(out, year as u64, 4);
    } else if year >= 10000 {
        out.push('+');
        push_padded_decimal(out, year as u64, 4);
        assert(out@ =~= start + year_text(year as int));
    } else {
        let magnitude: i64 = -(year as i64);
        out.push('-');
        push_padded_decimal(out, magnitude as u64, 4);
        assert(out@ =~= start + year_text(year as int));
    }
}

/// The time stamp of a log line, `YYYY-MM-DD HH:MM:SS.mmm`.
pub fn format_timestamp(t: &LocalDateTime) -> (r: String)
    ensures
        r@ == timestamp_text(*t),
{
    let mut out = String::new();
    push_year(&mut out, t.year);
    out.append("-");
    push_padded_decimal(&mut out, t.month as u64, 2);
    out.append("-");
    push_padded_decimal(&mut out, t.day as u64, 2);
    out.append(" ");
    push_padded_decimal(&mut out, t.hour as u64, 2);
    out.append(":");
    push_padded_decimal(&mut out, t.minute as u64, 2);
    out.append(":");
    let second: u64 = t.second as u64 + (t.nanosecond / 1_000_000_000) as u64;
    push_padded_decimal(&mut out, second, 2);
    out.append(".");
    push_padded_decimal(&mut out, (t.nanosecond / 1_000_000 % 1000) as u64, 3);
    assert(out@ =~= timestamp_text(*t));
    out
}

fn label_text(level: Level) -> (r: &'static str)
    ensures
        r@ == level_label(level),
{
    match level {
        Level::Debug => "DEBUG",
        Level::Info => "INFO ",
        Level::Warn => "WARN ",
        Level::Error => "ERROR",
    }
}

fn color_text(level: Level) -> (r: &'static str)
    ensures
        r@ == level_color(level),
{
    match level {
        Level::Debug => "\x1b[36m",
        Level::Info => "\x1b[32m",
        Level::Warn => "\x1b[33m",
        Level::Error => "\x1b[31m",
    }
}

impl LoguruLogger {
    pub closed spec fn spec_min_level(&self) -> Level {
        self.min_level
    }

    pub closed spec fn spec_color(&self) -> bool {
        self.color
    }

    /// A logger at DEBUG level; colours are on when standard error is a terminal.
    pub fn new() -> (r: Self)
        ensures
            r.spec_min_level() == Level::Debug,
    {
        LoguruLogger { min_level: Level::Debug, color: stderr_is_terminal() }
    }

    /// A logger with the given minimum level; colours are on when standard
    /// error is a terminal.
    pub fn with_level(level: Level) -> (r: Self)
        ensures
            r.spec_min_level() == level,
    {
        LoguruLogger { min_level: level, color: stderr_is_terminal() }
    }

    /// A logger with the given minimum level and colour setting.
    pub fn with_options(level: Level, color: bool) -> (r: Self)
        ensures
            r.spec_min_level() == level,
            r.spec_color() == color,
    {
        LoguruLogger { min_level: level, color }
    }

    /// The line this logger writes for `message` at `level`, stamped `now`;
    /// `None` when the level is below the logger's minimum.
    pub fn render(&self, level: Level, now: &str, message: &str) -> (r: Option<String>)
        ensures
            severity(level) < severity(self.spec_min_level()) ==> r is None,
            severity(level) >= severity(self.spec_min_level()) ==> (r matches Some(line) && line@
                == log_line(now@, level, self.spec_color(), message@)),
            severity(level) >= severity(self.spec_min_level()) ==> (r matches Some(line) && line@
                == now@ + " | "@ + (if self.spec_color() {
                (match level {
                    Level::Debug => "\x1b[36m"@ + "DEBUG"@,
                    Level::Info => "\x1b[32m"@ + "INFO "@,
                    Level::Warn => "\x1b[33m"@ + "WARN "@,
                    Level::Error => "\x1b[31m"@ + "ERROR"@,
                }) + "\x1b[0m"@
            } else {
                match level {
                    Level::Debug => "DEBUG"@,
                    Level::Info => "INFO "@,
                    Level::Warn => "WARN "@,
                    Level::Error => "ERROR"@,
                }
            }) + " | panorama-mail | "@ + message@),
    {
        if level.is_below(&self.min_level) {
            return None;
        }
        let mut out = to_owned_string(now);
        out.append(" | ");
        if self.color {
            out.append(color_text(level));
            out.append(label_text(level));
            out.append("\x1b[0m");
        } else {
            out.append(label_text(level));
        }
        out.append(" | panorama-mail | ");
        out.append(message);
        proof {
            let tag = if self.color {
                level_color(level) + level_label(level) + "\x1b[0m"@
            } else {
                level_label(level)
            };
            assert(out@ =~= now@ + " | "@ + tag + " | panorama-mail | "@ + message@);
        }
        Some(out)
    }
}

impl Default for LoguruLogger {
    fn default() -> (r: Self)
        ensures
            r.spec_min_level() == Level::Debug,
    {
        Self::new()
    }
}

impl Logger for LoguruLogger {
    /// Writes the rendered line, stamped with the local time as in
    /// `format_timestamp`, and a newline to standard error.
    fn log(&self, level: Level, message: &str) {
        let now = format_timestamp(&local_now());
        match self.render(level, now.as_str(), message) {
            Some(line) => {
                let mut text = line;
                text.push('\n');
                write_stderr(text.as_str());
            },
            None => {},
        }
    }
}

} // verus!
