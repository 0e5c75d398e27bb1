//! The verified compute behind the periodic stats report: the smoothed
//! messages-per-second estimator and the `HH:MM:SS` uptime text. The
//! reporting thread itself (its sleep loop and terminal output) runs
//! outside this crate and hands in the current wall-clock time.

use vstd::prelude::*;
use vstd::arithmetic::div_mod::lemma_div_is_ordered;
use vstd::arithmetic::div_mod::lemma_div_multiples_vanish;
use vstd::arithmetic::div_mod::lemma_fundamental_div_mod;
use vstd::arithmetic::div_mod::lemma_mod_bound;
use vstd::string::StringExecFns;

verus! {

/// Width of the estimator's sample window, in milliseconds.
pub const SAMPLE_WINDOW_MS: u64 = 1000;

/// The estimator's history: the global message count at the last two
/// sample rollovers, and when the more recent rollover happened.
pub struct ThroughputState {
    last_rollover_ms: u64,
    recent_count: u64,
    older_count: u64,
}

/// A rollover is due once more than a full window has passed since the
/// last one.
pub open spec fn rollover_due(last: u64, now: u64) -> bool {
    now > last + SAMPLE_WINDOW_MS
}

/// Weight of the previous window's delta: the unexpired fraction of the
/// current window, in thousandths. Zero once the window has fully
/// elapsed, so a stale previous delta contributes nothing.
pub open spec fn interp_factor(elapsed: int) -> int {
    if elapsed <= SAMPLE_WINDOW_MS {
        SAMPLE_WINDOW_MS - elapsed
    } else {
        0
    }
}

/// The smoothed rate: the delta since the last rollover, plus the
/// previous window's delta weighted down linearly as the current window
/// elapses (integer floor).
pub open spec fn estimate_from(recent: int, older: int, msg: int, elapsed: int) -> int {
    (msg - recent) + ((recent - older) * interp_factor(elapsed)) / 1000
}

impl ThroughputState {
    /// Wall-clock time (ms) of the most recent sample rollover.
    pub closed spec fn last_rollover(self) -> u64 {
        self.last_rollover_ms
    }

    /// Message count sampled at the most recent rollover.
    pub closed spec fn recent(self) -> u64 {
        self.recent_count
    }

    /// Message count sampled at the rollover before that.
    pub closed spec fn older(self) -> u64 {
        self.older_count
    }

    /// Samples of a monotone counter never decrease.
    pub open spec fn wf(self) -> bool {
        self.older() <= self.recent()
    }

    /// Fresh history: both samples zero, the window starting now.
    pub fn new(now_ms: u64) -> (t: ThroughputState)
        ensures
            t.wf(),
            t.last_rollover() == now_ms,
            t.recent() == 0,
            t.older() == 0,
    {
        ThroughputState { last_rollover_ms: now_ms, recent_count: 0, older_count: 0 }
    }

    /// Wall-clock time (ms) of the most recent sample rollover.
    pub fn last_rollover_millis(&self) -> (t: u64)
        ensures
            t == self.last_rollover(),
    {
        self.last_rollover_ms
    }

    /// Message count sampled at the most recent rollover.
    pub fn recent_sample(&self) -> (n: u64)
        ensures
            n == self.recent(),
    {
        self.recent_count
    }

    /// One estimator tick. If more than a full window has elapsed since
    /// the last rollover, shift the samples (the current count becomes
    /// the recent sample) and advance the rollover time by exactly one
    /// window — not to `now_ms`, so no drift accumulates. Then return
    /// the smoothed rate for the post-rollover state.
    pub fn get_messages_per_sec(&mut self, msg_count: u64, now_ms: u64) -> (rate: u64)
        requires
            old(self).wf(),
            now_ms >= old(self).last_rollover(),
            msg_count >= old(self).recent(),
        ensures
            final(self).wf(),
            rollover_due(old(self).last_rollover(), now_ms) ==> {
                &&& final(self).last_rollover() == old(self).last_rollover() + SAMPLE_WINDOW_MS
                &&& final(self).recent() == msg_count
                &&& final(self).older() == old(self).recent()
            },
            !rollover_due(old(self).last_rollover(), now_ms) ==> *final(self) == *old(self),
            rate == estimate_from(
                final(self).recent() as int,
                final(self).older() as int,
                msg_count as int,
                now_ms - final(self).last_rollover(),
            ),
    {
        if now_ms - self.last_rollover_ms > SAMPLE_WINDOW_MS {
            self.older_count = self.recent_count;
            self.recent_count = msg_count;
            self.last_rollover_ms = self.last_rollover_ms + SAMPLE_WINDOW_MS;
        }
        let elapsed = now_ms - self.last_rollover_ms;
        let factor = if elapsed <= SAMPLE_WINDOW_MS {
            SAMPLE_WINDOW_MS - elapsed
        } else {
            0
        };
        let delta_prev = self.recent_count - self.older_count;
        let ghost dd = delta_prev as int;
        let ghost ff = factor as int;
        proof {
            assert(dd * ff <= 0xffff_ffff_ffff_ffffint * 1000) by (nonlinear_arith)
                requires
                    0 <= dd <= 0xffff_ffff_ffff_ffffint,
                    0 <= ff <= 1000,
            ;
            assert(dd * ff <= 1000 * dd) by (nonlinear_arith)
                requires
                    0 <= dd,
                    ff <= 1000,
            ;
            lemma_div_is_ordered(dd * ff, 1000 * dd, 1000);
            lemma_div_multiples_vanish(dd, 1000);
        }
        let interp = ((delta_prev as u128 * factor as u128) / 1000) as u64;
        let diff_current = msg_count - self.recent_count;
        diff_current + interp
    }
}

/// Convergence of the estimator under steady traffic of `rate` messages
/// per second: if the previous full window advanced the counter by
/// exactly `rate`, and the counter is `elapsed` ms into the current
/// window with the proportional share of a further `rate` arrived, the
/// estimate is `rate` itself or `rate - 1` (one floor step below).
pub proof fn lemma_estimate_converges(
    recent: int,
    older: int,
    msg: int,
    elapsed: int,
    rate: int,
)
    requires
        0 <= elapsed <= 1000,
        0 <= rate,
        recent - older == rate,
        msg - recent == (rate * elapsed) / 1000,
    ensures
        rate - 1 <= estimate_from(recent, older, msg, elapsed) <= rate,
{
    let f = 1000 - elapsed;
    let a = (rate * elapsed) / 1000;
    let b = (rate * f) / 1000;
    assert(interp_factor(elapsed) == f);
    assert(estimate_from(recent, older, msg, elapsed) == a + b);
    lemma_fundamental_div_mod(rate * elapsed, 1000);
    lemma_fundamental_div_mod(rate * f, 1000);
    lemma_mod_bound(rate * elapsed, 1000);
    lemma_mod_bound(rate * f, 1000);
    let r1 = (rate * elapsed) % 1000;
    let r2 = (rate * f) % 1000;
    assert(rate * elapsed + rate * f == 1000 * rate) by (nonlinear_arith)
        requires
            f == 1000 - elapsed,
    ;
    assert(1000 * rate == 1000 * (a + b) + r1 + r2);
}

/// The decimal digit character for `d` (0 through 9).
pub open spec fn digit_char(d: int) -> char {
    if d == 0 {
        '0'
    } else if d == 1 {
        '1'
    } else if d == 2 {
        '2'
    } else if d == 3 {
        '3'
    } else if d == 4 {
        '4'
    } else if d == 5 {
        '5'
    } else if d == 6 {
        '6'
    } else if d == 7 {
        '7'
    } else if d == 8 {
        '8'
    } else {
        '9'
    }
}

/// The decimal digits of `n`, most significant first, no leading zeros
/// (a single zero for zero).
pub open spec fn dec_digits(n: int) -> Seq<char>
    decreases n,
{
    if n < 10 {
        seq![digit_char(n)]
    } else {
        dec_digits(n / 10).push(digit_char(n % 10))
    }
}

/// Decimal text of `n`, zero-padded on the left to at least two digits.
pub open spec fn padded2(n: int) -> Seq<char> {
    if n < 10 {
        seq!['0'] + dec_digits(n)
    } else {
        dec_digits(n)
    }
}

/// The uptime display text: hours, minutes and seconds, colon-separated,
/// each zero-padded to two digits (hours may take more).
pub open spec fn uptime_text(total_secs: int) -> Seq<char> {
    padded2(total_secs / 3600) + seq![':'] + padded2((total_secs / 60) % 60) + seq![':']
        + padded2(total_secs % 60)
}

/// The one-character text of a single decimal digit.
fn digit_str(d: u64) -> (s: &'static str)
    requires
        d < 10,
    ensures
        s@ =~= seq![digit_char(d as int)],
{
    proof {
        reveal_strlit("0");
        reveal_strlit("1");
        reveal_strlit("2");
        reveal_strlit("3");
        reveal_strlit("4");
        reveal_strlit("5");
        reveal_strlit("6");
        reveal_strlit("7");
        reveal_strlit("8");
        reveal_strlit("9");
    }
    if d == 0 {
        "0"
    } else if d == 1 {
        "1"
    } else if d == 2 {
        "2"
    } else if d == 3 {
        "3"
    } else if d == 4 {
        "4"
    } else if d == 5 {
        "5"
    } else if d == 6 {
        "6"
    } else if d == 7 {
        "7"
    } else if d == 8 {
        "8"
    } else {
        "9"
    }
}

/// Append the decimal digits of `n` to `out`.
fn push_decimal(out: &mut String, n: u64)
    ensures
        final(out)@ == old(out)@ + dec_digits(n as int),
    decreases n,
{
    if n >= 10 {
        push_decimal(out, n / 10);
    }
    let ghost before = out@;
    out.append(digit_str(n % 10));
    proof {
        if n < 10 {
            assert(out@ =~= old(out)@ + dec_digits(n as int));
        } else {
            assert(before == old(out)@ + dec_digits(n as int / 10));
            assert(out@ =~= old(out)@ + dec_digits(n as int));
        }
    }
}

/// Append the decimal digits of `n`, left-padded with a zero to at least
/// two characters.
fn push_padded2(out: &mut String, n: u64)
    ensures
        final(out)@ == old(out)@ + padded2(n as int),
    decreases n,
{
    if n < 10 {
        let ghost before = out@;
        out.append(digit_str(0));
        out.append(digit_str(n));
        proof {
            assert(out@ =~= old(out)@ + padded2(n as int));
        }
    } else {
        push_decimal(out, n);
    }
}

/// Render an uptime of `uptime_secs` seconds as `HH:MM:SS` (hours widen
/// past two digits as needed).
pub fn format_uptime(uptime_secs: u64) -> (s: String)
    ensures
        s@ == uptime_text(uptime_secs as int),
{
    proof {
        reveal_strlit(":");
    }
    let hours = uptime_secs / 3600;
    let minutes = (uptime_secs / 60) % 60;
    let seconds = uptime_secs % 60;
    let mut out = String::new();
    push_padded2(&mut out, hours);
    out.append(":");
    push_padded2(&mut out, minutes);
    out.append(":");
    push_padded2(&mut out, seconds);
    proof {
        assert(out@ =~= uptime_text(uptime_secs as int));
    }
    out
}

} // verus!
