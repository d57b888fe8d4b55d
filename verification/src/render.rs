//! Rendering the report text: decimal and fixed-point figures, the status
//! line shown while a run progresses, and the per-file log lines.

use vstd::prelude::*;

use crate::stats::{
    spec_kb_hundredths, spec_mb_hundredths_wide, spec_savings_percent_hundredths, CompressionStats,
    kb_hundredths, mb_hundredths_wide, savings_percent_hundredths, MAX_RUN_FILES,
};

verus! {

/// The decimal digit character for a value below ten.
pub open spec fn digit_char(d: int) -> char {
    if d == 0 {
        '0'
    } else if d == 1 {
        '1'
    } else if d == 2 {
        '2'
    } else if d == 3 {
        '3'
    } else if d == 4 {
        '4'
    } else if d == 5 {
        '5'
    } else if d == 6 {
        '6'
    } else if d == 7 {
        '7'
    } else if d == 8 {
        '8'
    } else {
        '9'
    }
}

/// The decimal rendering of a non-negative integer, most significant digit
/// first and without leading zeros (`0` itself is the single digit `0`).
pub open spec fn spec_decimal(n: int) -> Seq<char>
    decreases n,
{
    if n < 10 {
        seq![digit_char(n)]
    } else {
        spec_decimal(n / 10).push(digit_char(n % 10))
    }
}

/// A fixed-point figure with two decimals, from a value in hundredths:
/// 4000 renders as `40.00`.
pub open spec fn spec_fixed_hundredths(h: int) -> Seq<char> {
    spec_decimal(h / 100) + seq!['.'] + seq![digit_char((h % 100) / 10), digit_char((h % 100) % 10)]
}

/// A signed fixed-point figure: negative values carry a leading minus.
pub open spec fn spec_signed_fixed_hundredths(h: int) -> Seq<char> {
    if h < 0 {
        seq!['-'] + spec_fixed_hundredths(-h)
    } else {
        spec_fixed_hundredths(h)
    }
}

fn digit_str(d: u128) -> (s: &'static str)
    requires
        d < 10,
    ensures
        s@ =~= seq![digit_char(d as int)],
{
    proof {
        reveal_strlit("0");
        reveal_strlit("1");
        reveal_strlit("2");
        reveal_strlit("3");
        reveal_strlit("4");
        reveal_strlit("5");
        reveal_strlit("6");
        reveal_strlit("7");
        reveal_strlit("8");
        reveal_strlit("9");
    }
    if d == 0 {
        "0"
    } else if d == 1 {
        "1"
    } else if d == 2 {
        "2"
    } else if d == 3 {
        "3"
    } else if d == 4 {
        "4"
    } else if d == 5 {
        "5"
    } else if d == 6 {
        "6"
    } else if d == 7 {
        "7"
    } else if d == 8 {
        "8"
    } else {
        "9"
    }
}

/// The decimal rendering of `n`.
pub fn decimal(n: u128) -> (r: String)
    ensures
        r@ == spec_decimal(n as int),
    decreases n,
{
    if n < 10 {
        let mut s = String::new();
        s.append(digit_str(n));
        proof {
            assert(s@ =~= spec_decimal(n as int));
        }
        s
    } else {
        let mut s = decimal(n / 10);
        s.append(digit_str(n % 10));
        proof {
            assert(s@ =~= spec_decimal(n as int));
        }
        s
    }
}

/// The two-decimal rendering of a value in hundredths.
pub fn fixed_hundredths(h: u128) -> (r: String)
    ensures
        r@ == spec_fixed_hundredths(h as int),
{
    let mut s = decimal(h / 100);
    s.append(".");
    let frac = h % 100;
    s.append(digit_str(frac / 10));
    s.append(digit_str(frac % 10));
    proof {
        reveal_strlit(".");
        assert(s@ =~= spec_fixed_hundredths(h as int));
    }
    s
}

/// The signed two-decimal rendering of a value in hundredths.
pub fn signed_fixed_hundredths(h: i128) -> (r: String)
    ensures
        r@ == spec_signed_fixed_hundredths(h as int),
{
    if h < 0 {
        let mag: u128 = ((-(h + 1)) as u128) + 1;
        proof {
            assert(mag as int == -(h as int));
        }
        let mut s = String::from_str("-");
        let fig = fixed_hundredths(mag);
        s.append(fig.as_str());
        proof {
            reveal_strlit("-");
            assert(s@ =~= spec_signed_fixed_hundredths(h as int));
        }
        s
    } else {
        fixed_hundredths(h as u128)
    }
}

/// The status line once the scan has finished: how many candidate files it
/// found, or that there is nothing to compress.
pub open spec fn spec_scan_status(total: int) -> Seq<char> {
    if total > 0 {
        "Found "@ + spec_decimal(total) + " image files"@
    } else {
        "No compressible images found"@
    }
}

/// Render the post-scan status line.
pub fn scan_status(total: usize) -> (r: String)
    ensures
        r@ == spec_scan_status(total as int),
{
    if total > 0 {
        let mut s = String::from_str("Found ");
        let figure = decimal(total as u128);
        s.append(figure.as_str());
        s.append(" image files");
        s
    } else {
        String::from_str("No compressible images found")
    }
}

/// The status line while a file is handled: its path and the position in
/// the run, as in `Processing: a.jpg (3/7)`.
pub open spec fn spec_processing_status(path: Seq<char>, processed: int, total: int) -> Seq<char> {
    "Processing: "@ + path + " ("@ + spec_decimal(processed) + "/"@ + spec_decimal(total) + ")"@
}

/// Render the per-file status line.
pub fn processing_status(path: &str, processed: usize, total: usize) -> (r: String)
    ensures
        r@ == spec_processing_status(path@, processed as int, total as int),
{
    let mut s = String::from_str("Processing: ");
    s.append(path);
    s.append(" (");
    let p = decimal(processed as u128);
    s.append(p.as_str());
    s.append("/");
    let t = decimal(total as u128);
    s.append(t.as_str());
    s.append(")");
    s
}

/// The log line for a file that was re-encoded: its path, the size before
/// and after in KB, and the percentage saved.
pub open spec fn spec_success_log_line(path: Seq<char>, original: u64, new: u64) -> Seq<char> {
    "OK "@ + path + " | "@ + spec_fixed_hundredths(spec_kb_hundredths(original)) + " KB -> "@
        + spec_fixed_hundredths(spec_kb_hundredths(new)) + " KB (saved "@
        + spec_signed_fixed_hundredths(spec_savings_percent_hundredths(original, new)) + "%)"@
}

/// Render the log line for a successfully re-encoded file.
pub fn success_log_line(path: &str, stats: &CompressionStats) -> (r: String)
    ensures
        r@ == spec_success_log_line(path@, stats.original_size, stats.new_size),
{
    let mut s = String::from_str("OK ");
    s.append(path);
    s.append(" | ");
    let kb_before = fixed_hundredths(kb_hundredths(stats.original_size) as u128);
    s.append(kb_before.as_str());
    s.append(" KB -> ");
    let kb_after = fixed_hundredths(kb_hundredths(stats.new_size) as u128);
    s.append(kb_after.as_str());
    s.append(" KB (saved ");
    let pct = signed_fixed_hundredths(savings_percent_hundredths(
        stats.original_size,
        stats.new_size,
    ));
    s.append(pct.as_str());
    s.append("%)");
    s
}

/// The log line for a file that failed: its path and the reason.
pub open spec fn spec_failure_log_line(path: Seq<char>, reason: Seq<char>) -> Seq<char> {
    "FAIL "@ + path + " | "@ + reason
}

/// Render the log line for a failed file.
pub fn failure_log_line(path: &str, reason: &str) -> (r: String)
    ensures
        r@ == spec_failure_log_line(path@, reason@),
{
    let mut s = String::from_str("FAIL ");
    s.append(path);
    s.append(" | ");
    s.append(reason);
    s
}

/// A log after one more line: the line's text and a newline appended.
pub open spec fn spec_appended_log(log: Seq<char>, line: Seq<char>) -> Seq<char> {
    log + line + "\n"@
}

/// Append one line and a newline to the running log text.
pub fn append_log_line(log: &mut String, line: &str)
    ensures
        final(log)@ == spec_appended_log(old(log)@, line@),
{
    log.append(line);
    log.append("\n");
}

/// The closing status line: with a non-negative byte total, how many MB the
/// run saved; with a negative one, by how many MB the files grew in all --
/// always the magnitude, never a negative figure.
pub open spec fn spec_final_status(total: int, saved: int) -> Seq<char> {
    if saved >= 0 {
        "Done: processed "@ + spec_decimal(total) + " images, saved "@ + spec_fixed_hundredths(
            spec_mb_hundredths_wide(saved),
        ) + " MB"@
    } else {
        "Done: processed "@ + spec_decimal(total) + " images, total size increased "@
            + spec_fixed_hundredths(spec_mb_hundredths_wide(-saved)) + " MB"@
    }
}

/// Render the closing status line.
pub fn final_status(total: usize, saved: i128) -> (r: String)
    requires
        -((MAX_RUN_FILES as int) * (u64::MAX as int)) <= saved as int <= (MAX_RUN_FILES as int) * (
        u64::MAX as int),
    ensures
        r@ == spec_final_status(total as int, saved as int),
{
    if saved >= 0 {
        let mut s = String::from_str("Done: processed ");
        let count = decimal(total as u128);
        s.append(count.as_str());
        s.append(" images, saved ");
        let mb = fixed_hundredths(mb_hundredths_wide(saved as u128));
        s.append(mb.as_str());
        s.append(" MB");
        s
    } else {
        let mag: u128 = ((-(saved + 1)) as u128) + 1;
        proof {
            assert(mag as int == -(saved as int));
        }
        let mut s = String::from_str("Done: processed ");
        let count = decimal(total as u128);
        s.append(count.as_str());
        s.append(" images, total size increased ");
        let mb = fixed_hundredths(mb_hundredths_wide(mag));
        s.append(mb.as_str());
        s.append(" MB");
        s
    }
}

} // verus!
