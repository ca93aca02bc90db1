//! Names for the pair of log files one run of the application writes: a
//! timestamp taken once from the local clock, rendered into one file name
//! for standard output and one for standard error.

use vstd::prelude::*;
use vstd::string::StringExecFns;

use chrono::Datelike;
use chrono::Timelike;

verus! {

/// The decimal rendering of a number, most significant digit first.
pub open spec fn dec_str(n: nat) -> Seq<char>
    decreases n,
{
    if n < 10 {
        seq![dec_digit(n)]
    } else {
        dec_str(n / 10) + seq![dec_digit(n % 10)]
    }
}

/// The digit character for a value below ten.
pub open spec fn dec_digit(d: nat) -> char {
    if d == 0 { '0' }
    else if d == 1 { '1' }
    else if d == 2 { '2' }
    else if d == 3 { '3' }
    else if d == 4 { '4' }
    else if d == 5 { '5' }
    else if d == 6 { '6' }
    else if d == 7 { '7' }
    else if d == 8 { '8' }
    else { '9' }
}

/// Append the decimal rendering of a number.
fn push_u32(out: &mut String, n: u32)
    ensures
        final(out)@ == old(out)@ + dec_str(n as nat),
    decreases n,
{
    if n >= 10 {
        push_u32(out, n / 10);
    }
    let d = n % 10;
    let c = if d == 0 { '0' }
    else if d == 1 { '1' }
    else if d == 2 { '2' }
    else if d == 3 { '3' }
    else if d == 4 { '4' }
    else if d == 5 { '5' }
    else if d == 6 { '6' }
    else if d == 7 { '7' }
    else if d == 8 { '8' }
    else { '9' };
    out.push(c);
    assert(out@ =~= old(out)@ + dec_str(n as nat));
}

/// The timestamp part of a log file name: date and time joined the way the
/// log folder sorts well.
pub open spec fn spec_timestamp(
    year: nat,
    month: nat,
    day: nat,
    hour: nat,
    minute: nat,
    second: nat,
) -> Seq<char> {
    dec_str(year) + "-"@ + dec_str(month) + "-"@ + dec_str(day) + "_"@ + dec_str(hour) + "-"@
        + dec_str(minute) + "-"@ + dec_str(second)
}

/// The names of the two log files for a run started at the given local
/// time: one for standard output, one for standard error.
pub fn log_file_names(year: i32, month: u32, day: u32, hour: u32, minute: u32, second: u32) -> (r:
    (String, String))
    requires
        year >= 0,
    ensures
        r.0@ == "LOG__"@ + spec_timestamp(
            year as nat,
            month as nat,
            day as nat,
            hour as nat,
            minute as nat,
            second as nat,
        ) + "__STDOUT.txt"@,
        r.1@ == "LOG__"@ + spec_timestamp(
            year as nat,
            month as nat,
            day as nat,
            hour as nat,
            minute as nat,
            second as nat,
        ) + "__STDERR.txt"@,
{
    let mut stamp = String::new();
    push_u32(&mut stamp, year as u32);
    stamp.append("-");
    push_u32(&mut stamp, month);
    stamp.append("-");
    push_u32(&mut stamp, day);
    stamp.append("_");
    push_u32(&mut stamp, hour);
    stamp.append("-");
    push_u32(&mut stamp, minute);
    stamp.append("-");
    push_u32(&mut stamp, second);
    let mut stdout_name = "LOG__".to_owned();
    stdout_name.append(stamp.as_str());
    stdout_name.append("__STDOUT.txt");
    let mut stderr_name = "LOG__".to_owned();
    stderr_name.append(stamp.as_str());
    stderr_name.append("__STDERR.txt");
    (stdout_name, stderr_name)
}

/// Relies on chrono's `Local::now` with `Datelike` and `Timelike`: the local
/// wall-clock date and time, as year, month (one to twelve), day (one to
/// thirty-one), hour (below twenty-four), minute and second (below sixty).
/// The clock decides the values; only the documented ranges hold of every
/// outcome.
#[verifier::external_body]
pub fn local_now_parts() -> (r: (i32, u32, u32, u32, u32, u32))
    ensures
        1 <= r.1 <= 12,
        1 <= r.2 <= 31,
        r.3 < 24,
        r.4 < 60,
        r.5 < 60,
{
    let now = chrono::Local::now();
    (now.year(), now.month(), now.day(), now.hour(), now.minute(), now.second())
}

} // verus!
