//! The statistics stage: consumes byte counts, accumulates the running
//! total, and renders at most one progress line per refresh period on the
//! error stream.

use crossterm::style::Stylize;
use crossterm::QueueableCommand;
use std::io::Write;
use std::time::Instant;
use vstd::prelude::*;
use vstd::string::StringExecFns;

pub mod timer;

use timer::{clock_sample, instant_now, Timer};

verus! {

/// The decimal digit character for `d < 10`.
pub open spec fn digit_char(d: nat) -> char {
    if d == 0 {
        '0'
    } else if d == 1 {
        '1'
    } else if d == 2 {
        '2'
    } else if d == 3 {
        '3'
    } else if d == 4 {
        '4'
    } else if d == 5 {
        '5'
    } else if d == 6 {
        '6'
    } else if d == 7 {
        '7'
    } else if d == 8 {
        '8'
    } else {
        '9'
    }
}

/// The decimal rendering of `n`, without leading zeros.
pub open spec fn dec_chars(n: nat) -> Seq<char>
    decreases n,
{
    if n < 10 {
        seq![digit_char(n)]
    } else {
        dec_chars(n / 10) + seq![digit_char(n % 10)]
    }
}

/// The two-digit, zero-padded rendering of `n < 100`.
pub open spec fn two_digit_chars(n: nat) -> Seq<char> {
    seq![digit_char(n / 10), digit_char(n % 10)]
}

/// `total` seconds rendered as `H:MM:SS`: hours without padding, minutes and
/// seconds zero-padded to two digits.
pub open spec fn spec_time_string(total: nat) -> Seq<char> {
    dec_chars(total / 3600) + seq![':'] + two_digit_chars((total % 3600) / 60) + seq![':']
        + two_digit_chars(total % 60)
}

fn digit_str(d: u64) -> (s: &'static str)
    requires
        d < 10,
    ensures
        s@ == seq![digit_char(d as nat)],
{
    if d == 0 {
        proof {
            reveal_strlit("0");
            assert("0"@ =~= seq![digit_char(d as nat)]);
        }
        "0"
    } else if d == 1 {
        proof {
            reveal_strlit("1");
            assert("1"@ =~= seq![digit_char(d as nat)]);
        }
        "1"
    } else if d == 2 {
        proof {
            reveal_strlit("2");
            assert("2"@ =~= seq![digit_char(d as nat)]);
        }
        "2"
    } else if d == 3 {
        proof {
            reveal_strlit("3");
            assert("3"@ =~= seq![digit_char(d as nat)]);
        }
        "3"
    } else if d == 4 {
        proof {
            reveal_strlit("4");
            assert("4"@ =~= seq![digit_char(d as nat)]);
        }
        "4"
    } else if d == 5 {
        proof {
            reveal_strlit("5");
            assert("5"@ =~= seq![digit_char(d as nat)]);
        }
        "5"
    } else if d == 6 {
        proof {
            reveal_strlit("6");
            assert("6"@ =~= seq![digit_char(d as nat)]);
        }
        "6"
    } else if d == 7 {
        proof {
            reveal_strlit("7");
            assert("7"@ =~= seq![digit_char(d as nat)]);
        }
        "7"
    } else if d == 8 {
        proof {
            reveal_strlit("8");
            assert("8"@ =~= seq![digit_char(d as nat)]);
        }
        "8"
    } else {
        proof {
            reveal_strlit("9");
            assert("9"@ =~= seq![digit_char(d as nat)]);
        }
        "9"
    }
}

/// Renders `n` in decimal, without leading zeros.
pub fn u64_to_decimal(n: u64) -> (s: String)
    ensures
        s@ == dec_chars(n as nat),
    decreases n,
{
    if n < 10 {
        String::from_str(digit_str(n))
    } else {
        proof {
            assert(n / 10 < n) by (nonlinear_arith)
                requires
                    10 <= n,
            ;
        }
        let mut s = u64_to_decimal(n / 10);
        s.append(digit_str(n % 10));
        s
    }
}

/// Renders `n < 100` as exactly two digits, zero-padded.
pub fn two_digit_string(n: u64) -> (s: String)
    requires
        n < 100,
    ensures
        s@ == two_digit_chars(n as nat),
{
    let mut s = String::from_str(digit_str(n / 10));
    s.append(digit_str(n % 10));
    proof {
        assert(s@ =~= two_digit_chars(n as nat));
    }
    s
}

/// Trait for formatting elapsed time, adding an `as_time` method.
pub trait TimeOutput {
    /// The number of seconds the value stands for.
    spec fn time_secs(&self) -> nat;

    /// Renders the value as `H:MM:SS`.
    fn as_time(&self) -> (s: String)
        ensures
            s@ == spec_time_string(self.time_secs()),
    ;
}

impl TimeOutput for u64 {
    open spec fn time_secs(&self) -> nat {
        *self as nat
    }

    fn as_time(&self) -> (s: String) {
        let n = *self;
        let hours = n / 3600;
        let left = n % 3600;
        let minutes = left / 60;
        let seconds = left % 60;
        proof {
            assert(left / 60 < 60) by (nonlinear_arith)
                requires
                    left < 3600,
            ;
        }
        let mut s = u64_to_decimal(hours);
        s.append(":");
        let m = two_digit_string(minutes);
        s.append(m.as_str());
        s.append(":");
        let sec = two_digit_string(seconds);
        s.append(sec.as_str());
        proof {
            reveal_strlit(":");
            assert(":"@ =~= seq![':']);
            assert(s@ =~= spec_time_string(n as nat));
        }
        s
    }
}

/// The instantaneous transfer rate in bytes per second: `num` bytes over
/// `delta_ms` milliseconds, zero when no time passed, saturated at the
/// largest 64-bit value.
pub open spec fn spec_rate(num: nat, delta_ms: nat) -> nat {
    if delta_ms == 0 {
        0
    } else {
        let r = num * 1000 / delta_ms;
        if r > u64::MAX {
            u64::MAX as nat
        } else {
            r
        }
    }
}

/// Computes the instantaneous rate for one received count, guarding the
/// division when no measurable time has passed.
pub fn rate_bps(num_bytes: usize, delta_ms: u64) -> (r: u64)
    ensures
        r as nat == spec_rate(num_bytes as nat, delta_ms as nat),
{
    if delta_ms == 0 {
        0
    } else {
        proof {
            assert((num_bytes as u128) * 1000 < u128::MAX) by (nonlinear_arith)
                requires
                    num_bytes as u128 <= u64::MAX,
            ;
        }
        let q: u128 = (num_bytes as u128) * 1000 / (delta_ms as u128);
        if q > u64::MAX as u128 {
            u64::MAX
        } else {
            q as u64
        }
    }
}

/// Adds one received count to the running total, which never decreases and
/// saturates rather than overflow.
pub fn add_total(total: u64, num_bytes: usize) -> (r: u64)
    ensures
        total <= r,
        r as int == if total + num_bytes <= u64::MAX {
            total + num_bytes
        } else {
            u64::MAX as int
        },
{
    let n = num_bytes as u64;
    if n <= u64::MAX - total {
        total + n
    } else {
        u64::MAX
    }
}

/// A progress line is rendered exactly when silence is off and the timer
/// signals that a refresh period has passed; under silence nothing at all is
/// written to the error stream.
pub fn should_render(silent: bool, ready: bool) -> (r: bool)
    ensures
        r == (!silent && ready),
{
    !silent && ready
}

/// The first field of the progress line: the running total and a separating
/// space.
pub open spec fn spec_bytes_part(total: nat) -> Seq<char> {
    dec_chars(total) + seq![' ']
}

/// Renders the running total field of the progress line.
pub fn bytes_part_string(total: u64) -> (s: String)
    ensures
        s@ == spec_bytes_part(total as nat),
{
    let mut s = u64_to_decimal(total);
    s.append(" ");
    proof {
        reveal_strlit(" ");
        assert(s@ =~= spec_bytes_part(total as nat));
    }
    s
}

/// The last field of the progress line: the rate in bytes per second.
pub open spec fn spec_rate_part(rate: nat) -> Seq<char> {
    seq![' ', '['] + dec_chars(rate) + seq!['b', '/', 's', ']']
}

/// Renders the rate field of the progress line.
pub fn rate_part_string(rate: u64) -> (s: String)
    ensures
        s@ == spec_rate_part(rate as nat),
{
    let mut s = String::from_str(" [");
    let digits = u64_to_decimal(rate);
    s.append(digits.as_str());
    s.append("b/s]");
    proof {
        reveal_strlit(" [");
        reveal_strlit("b/s]");
        assert(s@ =~= spec_rate_part(rate as nat));
    }
    s
}

/// Relies on crossterm's cursor, terminal and style commands: moves the
/// cursor to the left edge, clears the line, and redraws one colored
/// progress line in place on the error stream.
#[verifier::external_body]
fn output_progress(bytes_part: &String, time_part: &String, rate_part: &String) {
    let mut err = std::io::stderr();
    let _ = err.queue(crossterm::cursor::MoveToColumn(0));
    let _ = err.queue(crossterm::terminal::Clear(crossterm::terminal::ClearType::CurrentLine));
    let _ = err.queue(crossterm::style::PrintStyledContent(bytes_part.as_str().with(crossterm::style::Color::Red)));
    let _ = err.queue(crossterm::style::PrintStyledContent(time_part.as_str().with(crossterm::style::Color::Green)));
    let _ = err.queue(crossterm::style::PrintStyledContent(rate_part.as_str().with(crossterm::style::Color::Blue)));
    let _ = err.flush();
}

/// Relies on `std::io::stderr`: emits the newline that preserves the final
/// progress line on clean termination.
#[verifier::external_body]
fn stderr_newline() {
    let mut err = std::io::stderr();
    let _ = writeln!(err);
}

/// The state of the statistics stage: when it started, its refresh timer,
/// the running total, and whether rendering is silenced.
pub struct StatsState {
    pub start: Instant,
    pub timer: Timer,
    pub total_bytes: u64,
    pub silent: bool,
}

impl StatsState {
    pub open spec fn wf(&self) -> bool {
        self.timer.wf()
    }

    /// Starts the statistics stage: an empty total and a timer that is
    /// immediately ready, so the first count renders at once.
    pub fn begin(silent: bool) -> (s: StatsState)
        ensures
            s.wf(),
            s.silent == silent,
            s.total_bytes == 0,
            s.timer.ready,
    {
        StatsState { start: instant_now(), timer: Timer::new(), total_bytes: 0, silent }
    }

    /// Consumes one received byte count: advances the timer by the time since
    /// the previous count, folds the count into the running total, and - only
    /// when silence is off and the timer is ready - consumes the ready signal
    /// and redraws the progress line. Returns whether the count was the
    /// termination sentinel, which ends the stage.
    ///
    /// Under silence the ready signal is never consumed and nothing is
    /// written to the error stream; without silence every ready signal is
    /// consumed by exactly one redraw.
    pub fn on_count(&mut self, num_bytes: usize) -> (done: bool)
        ensures
            old(self).wf() ==> final(self).wf(),
            done == (num_bytes == 0),
            final(self).silent == old(self).silent,
            final(self).start == old(self).start,
            old(self).total_bytes <= final(self).total_bytes,
            final(self).total_bytes as int == if old(self).total_bytes + num_bytes <= u64::MAX {
                old(self).total_bytes + num_bytes
            } else {
                u64::MAX as int
            },
            final(self).timer.period == old(self).timer.period,
            final(self).timer.countdown == if final(self).timer.delta <= old(self).timer.countdown {
                (old(self).timer.countdown - final(self).timer.delta) as u64
            } else {
                old(self).timer.period
            },
            old(self).silent ==> final(self).timer.ready == (old(self).timer.ready
                || final(self).timer.delta > old(self).timer.countdown),
            !old(self).silent ==> !final(self).timer.ready,
    {
        self.timer.update();
        let rate = rate_bps(num_bytes, self.timer.delta);
        self.total_bytes = add_total(self.total_bytes, num_bytes);
        if should_render(self.silent, self.timer.ready) {
            self.timer.ready = false;
            let sample = clock_sample(&self.start);
            let elapsed_secs = sample.1 / 1000;
            let bytes_part = bytes_part_string(self.total_bytes);
            let time_part = elapsed_secs.as_time();
            let rate_part = rate_part_string(rate);
            output_progress(&bytes_part, &time_part, &rate_part);
        }
        num_bytes == 0
    }

    /// Ends the stage after the sentinel: when silence is off, emits the
    /// newline that preserves the final progress line.
    pub fn finish(&self) {
        if should_render(self.silent, true) {
            stderr_newline();
        }
    }
}

} // verus!
