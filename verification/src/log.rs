//! Log-file policy: the shape of a log line and when an oversized log is
//! truncated.

use vstd::prelude::*;
use crate::text::{decimal, digit, digit_char, push_char, push_decimal};

verus! {

/// The log is capped at roughly 1 MiB; on opening, an oversized file is
/// truncated so it cannot grow unbounded.
pub const MAX_LOG_BYTES: u64 = 1024 * 1024;

/// A log file of `len` bytes (`None` when its size is unknown, e.g. it does
/// not exist yet) is truncated when it is opened.
pub fn needs_truncation(len: Option<u64>) -> (r: bool)
    ensures
        r == (len matches Some(n) && n > MAX_LOG_BYTES),
{
    match len {
        Some(n) => n > MAX_LOG_BYTES,
        None => false,
    }
}

/// A number zero-padded to at least three digits.
pub open spec fn padded3(m: u32) -> Seq<char> {
    if m < 1000 {
        seq![digit_char(m as int / 100), digit_char((m as int / 10) % 10), digit_char(m as int % 10)]
    } else {
        decimal(m as nat)
    }
}

/// The timestamp of a log line: `seconds.millis` since the Unix epoch, or
/// `0.000` when the clock reads earlier than the epoch.
pub open spec fn stamp(time: Option<(u64, u32)>) -> Seq<char> {
    match time {
        Some((secs, millis)) => decimal(secs as nat) + "."@ + padded3(millis),
        None => "0.000"@,
    }
}

/// One log line: `[stamp] message` and a newline.
pub open spec fn log_line_text(time: Option<(u64, u32)>, msg: Seq<char>) -> Seq<char> {
    "["@ + stamp(time) + "] "@ + msg + "\n"@
}

/// The line that logging `msg` appends, timestamped with millisecond
/// precision. `time` is the time since the Unix epoch as whole seconds and
/// the milliseconds within that second, or `None` when the clock reads
/// earlier than the epoch.
pub fn log_line(time: Option<(u64, u32)>, msg: &str) -> (r: String)
    ensures
        r@ == log_line_text(time, msg@),
{
    let mut line = "[".to_owned();
    match time {
        Some((secs, millis)) => {
            push_decimal(&mut line, secs);
            line.append(".");
            if millis < 1000 {
                let hundreds: u64 = (millis / 100) as u64;
                let tens: u64 = ((millis / 10) % 10) as u64;
                let ones: u64 = (millis % 10) as u64;
                push_char(&mut line, digit(hundreds));
                push_char(&mut line, digit(tens));
                push_char(&mut line, digit(ones));
            } else {
                push_decimal(&mut line, millis as u64);
            }
        },
        None => {
            line.append("0.000");
        },
    }
    line.append("] ");
    line.append(msg);
    line.append("\n");
    proof {
        reveal_strlit("[");
        reveal_strlit(".");
        reveal_strlit("0.000");
        reveal_strlit("] ");
        reveal_strlit("\n");
        assert(line@ =~= log_line_text(time, msg@));
    }
    line
}

/// A log line is `[`, the time stamp, `] `, the message and a newline; the
/// milliseconds of a stamp are three digits that read back as their value.
pub proof fn law_log_line_shape(time: Option<(u64, u32)>, msg: Seq<char>)
    ensures
        log_line_text(time, msg)[0] == '[',
        log_line_text(time, msg).last() == '\n',
        log_line_text(time, msg).subrange(
            log_line_text(time, msg).len() - 1 - msg.len(),
            log_line_text(time, msg).len() - 1,
        ) == msg,
        time is None ==> stamp(time) == "0.000"@,
        time matches Some((secs, millis)) ==> (millis < 1000 ==> {
            &&& padded3(millis).len() == 3
            &&& crate::text::decimal_value(padded3(millis)) == millis
            &&& stamp(time) == decimal(secs as nat) + "."@ + padded3(millis)
        }),
{
    reveal_strlit("[");
    reveal_strlit("] ");
    reveal_strlit("\n");
    let t = log_line_text(time, msg);
    assert(t.subrange(t.len() - 1 - msg.len(), t.len() - 1) =~= msg);
    if let Some((secs, millis)) = time {
        if millis < 1000 {
            let p = padded3(millis);
            assert(p.drop_last().drop_last().drop_last() =~= Seq::<char>::empty());
            assert(p.drop_last().drop_last() =~= seq![p[0]]);
            assert(p.drop_last() =~= seq![p[0], p[1]]);
            assert(digit_char(millis as int / 100) as u32 == 48 + millis as int / 100);
            assert(digit_char((millis as int / 10) % 10) as u32 == 48 + (millis as int / 10) % 10);
            assert(digit_char(millis as int % 10) as u32 == 48 + millis as int % 10);
            let a: int = millis as int / 100;
            let b: int = (millis as int / 10) % 10;
            let c: int = millis as int % 10;
            assert(crate::text::decimal_value(seq![p[0]]) == a) by {
                assert(seq![p[0]].drop_last() =~= Seq::<char>::empty());
                assert(p[0] == digit_char(a));
                assert(seq![p[0]].last() == p[0]);
                assert(crate::text::decimal_value(Seq::<char>::empty()) == 0);
            }
            assert(crate::text::decimal_value(seq![p[0], p[1]]) == a * 10 + b) by {
                assert(seq![p[0], p[1]].drop_last() =~= seq![p[0]]);
                assert(p[1] == digit_char(b));
                assert(seq![p[0], p[1]].last() == p[1]);
            }
            assert(p[2] == digit_char(c));
            assert(crate::text::decimal_value(p) == (a * 10 + b) * 10 + c);
            assert((a * 10 + b) * 10 + c == millis);
        }
    }
}

} // verus!
