//! Rendering of a running time in hours, minutes and seconds.

use crate::text::{nth_field, parse_decimal, parse_number, space_fields, to_chars};
use vstd::prelude::*;

verus! {

/// The text of one decimal digit.
pub open spec fn digit_text(d: nat) -> Seq<char> {
    if d == 0 {
        "0"@
    } else if d == 1 {
        "1"@
    } else if d == 2 {
        "2"@
    } else if d == 3 {
        "3"@
    } else if d == 4 {
        "4"@
    } else if d == 5 {
        "5"@
    } else if d == 6 {
        "6"@
    } else if d == 7 {
        "7"@
    } else if d == 8 {
        "8"@
    } else {
        "9"@
    }
}

/// The decimal numeral of `n`, without leading zeros.
pub open spec fn decimal_text(n: nat) -> Seq<char>
    decreases n,
{
    if n < 10 {
        digit_text(n)
    } else {
        decimal_text(n / 10) + digit_text(n % 10)
    }
}

/// What `format_uptime` renders for a number of seconds.
pub open spec fn uptime_text(secs: nat) -> Seq<char> {
    let h = secs / 3600;
    let m = (secs % 3600) / 60;
    let s = secs % 60;
    if h > 0 {
        decimal_text(h) + "h "@ + decimal_text(m) + "m "@ + decimal_text(s) + "s"@
    } else if m > 0 {
        decimal_text(m) + "m "@ + decimal_text(s) + "s"@
    } else {
        decimal_text(s) + "s"@
    }
}

fn digit_str(d: u64) -> (r: &'static str)
    requires
        d < 10,
    ensures
        r@ == digit_text(d as nat),
{
    if d == 0 {
        "0"
    } else if d == 1 {
        "1"
    } else if d == 2 {
        "2"
    } else if d == 3 {
        "3"
    } else if d == 4 {
        "4"
    } else if d == 5 {
        "5"
    } else if d == 6 {
        "6"
    } else if d == 7 {
        "7"
    } else if d == 8 {
        "8"
    } else {
        "9"
    }
}

/// Appends the decimal numeral of `n` to `out`.
pub fn push_decimal(out: &mut String, n: u64)
    ensures
        final(out)@ == old(out)@ + decimal_text(n as nat),
    decreases n,
{
    if n >= 10 {
        push_decimal(out, n / 10);
    }
    out.append(digit_str(n % 10));
    proof {
        if n >= 10 {
            assert(old(out)@ + decimal_text((n / 10) as nat) + digit_text((n % 10) as nat)
                =~= old(out)@ + decimal_text(n as nat));
        }
    }
}

/// Renders a running time as `"{h}h {m}m {s}s"`, leaving out the hours when
/// they are zero, and the minutes too when both are zero.
pub fn format_uptime(running_secs: u64) -> (r: String)
    ensures
        r@ == uptime_text(running_secs as nat),
{
    let hours: u64 = running_secs / 3600;
    let mins: u64 = (running_secs % 3600) / 60;
    let secs: u64 = running_secs % 60;
    let mut out = String::new();
    if hours > 0 {
        push_decimal(&mut out, hours);
        out.append("h ");
    }
    if hours > 0 || mins > 0 {
        push_decimal(&mut out, mins);
        out.append("m ");
    }
    push_decimal(&mut out, secs);
    out.append("s");
    proof {
        assert(out@ =~= uptime_text(running_secs as nat));
    }
    out
}

/// The index of the start time among the fields of a process's stat line.
pub const START_TIME_FIELD: usize = 21;

/// The seconds for which a process has run: the system's uptime less the
/// process's start, which its stat line gives in clock ticks since boot.
/// Nothing where the line has too few fields, the field is no numeral of
/// 64 bits, the tick rate is zero, or the start lies after the uptime.
pub open spec fn running_seconds(stat: Seq<char>, uptime_secs: nat, ticks_per_sec: nat) -> Option<
    nat,
> {
    let fields = space_fields(stat, 0);
    if fields.len() <= 21 || ticks_per_sec == 0 {
        None
    } else {
        match parse_decimal(fields[21], u64::MAX as nat) {
            Some(start_ticks) => if start_ticks / ticks_per_sec <= uptime_secs {
                Some((uptime_secs - start_ticks / ticks_per_sec) as nat)
            } else {
                None
            },
            None => None,
        }
    }
}

/// The uptime of a process, rendered, from the text of its stat line, the
/// system's uptime in whole seconds and the clock ticks per second.
pub fn read_process_uptime(stat: &str, uptime_secs: u64, ticks_per_sec: u64) -> (r: Option<String>)
    ensures
        (match running_seconds(stat@, uptime_secs as nat, ticks_per_sec as nat) {
            Some(secs) => r matches Some(text) && text@ == uptime_text(secs),
            None => r is None,
        }),
{
    let chars = to_chars(stat);
    let (from, to) = match nth_field(&chars, START_TIME_FIELD) {
        Some(range) => range,
        None => {
            return None;
        },
    };
    let start_ticks: u64 = match parse_number(&chars, from, to, u64::MAX) {
        Some(n) => n,
        None => {
            return None;
        },
    };
    if ticks_per_sec == 0 {
        return None;
    }
    let start_secs: u64 = start_ticks / ticks_per_sec;
    if start_secs > uptime_secs {
        return None;
    }
    Some(format_uptime(uptime_secs - start_secs))
}

} // verus!
