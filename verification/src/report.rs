//! Report formatter: one labeled duration line per measurement, in the order
//! the measurements were taken. The formatter never reorders or aggregates
//! entries, so successive runs are diff-able.

use vstd::prelude::*;

use vstd::string::StringExecFns;

verus! {

/// One measurement, ready for the report.
#[derive(Debug)]
pub struct BenchmarkResult {
    /// Which comparison row this is.
    pub label: String,
    /// The measured wall-clock time, in nanoseconds.
    pub elapsed_nanos: u64,
}

/// The character of one decimal digit.
pub open spec fn digit_char(d: nat) -> char {
    if d == 0 {
        '0'
    } else if d == 1 {
        '1'
    } else if d == 2 {
        '2'
    } else if d == 3 {
        '3'
    } else if d == 4 {
        '4'
    } else if d == 5 {
        '5'
    } else if d == 6 {
        '6'
    } else if d == 7 {
        '7'
    } else if d == 8 {
        '8'
    } else {
        '9'
    }
}

/// The decimal rendering of a number, most significant digit first.
pub open spec fn dec_chars(n: nat) -> Seq<char>
    decreases n,
{
    if n < 10 {
        seq![digit_char(n)]
    } else {
        dec_chars(n / 10) + seq![digit_char(n % 10)]
    }
}

/// A duration rendered for humans: the largest fitting unit, with one
/// fractional digit for scaled units.
pub open spec fn duration_chars(nanos: nat) -> Seq<char> {
    if nanos < 1000 {
        dec_chars(nanos) + "ns"@
    } else if nanos < 1000000 {
        dec_chars(nanos / 1000) + "."@ + dec_chars((nanos % 1000) / 100) + "us"@
    } else if nanos < 1000000000 {
        dec_chars(nanos / 1000000) + "."@ + dec_chars((nanos % 1000000) / 100000) + "ms"@
    } else {
        dec_chars(nanos / 1000000000) + "."@ + dec_chars((nanos % 1000000000) / 100000000) + "s"@
    }
}

/// One report line: the label, a colon and two spaces, the duration.
pub open spec fn report_line_chars(label: Seq<char>, nanos: nat) -> Seq<char> {
    label + ":  "@ + duration_chars(nanos)
}

/// A one-character string slice for each decimal digit.
fn digit_str(d: u64) -> (r: &'static str)
    requires
        d < 10,
    ensures
        r@ =~= seq![digit_char(d as nat)],
{
    if d == 0 {
        proof {
            reveal_strlit("0");
            assert("0"@ =~= seq!['0']);
        }
        "0"
    } else if d == 1 {
        proof {
            reveal_strlit("1");
            assert("1"@ =~= seq!['1']);
        }
        "1"
    } else if d == 2 {
        proof {
            reveal_strlit("2");
            assert("2"@ =~= seq!['2']);
        }
        "2"
    } else if d == 3 {
        proof {
            reveal_strlit("3");
            assert("3"@ =~= seq!['3']);
        }
        "3"
    } else if d == 4 {
        proof {
            reveal_strlit("4");
            assert("4"@ =~= seq!['4']);
        }
        "4"
    } else if d == 5 {
        proof {
            reveal_strlit("5");
            assert("5"@ =~= seq!['5']);
        }
        "5"
    } else if d == 6 {
        proof {
            reveal_strlit("6");
            assert("6"@ =~= seq!['6']);
        }
        "6"
    } else if d == 7 {
        proof {
            reveal_strlit("7");
            assert("7"@ =~= seq!['7']);
        }
        "7"
    } else if d == 8 {
        proof {
            reveal_strlit("8");
            assert("8"@ =~= seq!['8']);
        }
        "8"
    } else {
        proof {
            reveal_strlit("9");
            assert("9"@ =~= seq!['9']);
        }
        "9"
    }
}

/// Appends the decimal rendering of `n` to a string.
fn append_u64(s: &mut String, n: u64)
    ensures
        final(s)@ == old(s)@ + dec_chars(n as nat),
    decreases n,
{
    if n >= 10 {
        append_u64(s, n / 10);
    }
    s.append(digit_str(n % 10));
    assert(final(s)@ =~= old(s)@ + dec_chars(n as nat));
}

/// Renders a duration for humans: the largest fitting unit, one fractional
/// digit for scaled units.
pub fn format_duration(nanos: u64) -> (r: String)
    ensures
        r@ == duration_chars(nanos as nat),
{
    let mut s = String::new();
    if nanos < 1000 {
        append_u64(&mut s, nanos);
        s.append("ns");
    } else if nanos < 1000000 {
        append_u64(&mut s, nanos / 1000);
        s.append(".");
        append_u64(&mut s, (nanos % 1000) / 100);
        s.append("us");
    } else if nanos < 1000000000 {
        append_u64(&mut s, nanos / 1000000);
        s.append(".");
        append_u64(&mut s, (nanos % 1000000) / 100000);
        s.append("ms");
    } else {
        append_u64(&mut s, nanos / 1000000000);
        s.append(".");
        append_u64(&mut s, (nanos % 1000000000) / 100000000);
        s.append("s");
    }
    assert(s@ =~= duration_chars(nanos as nat));
    s
}

/// Renders one report line.
pub fn format_benchmark_line(label: &str, elapsed_nanos: u64) -> (r: String)
    ensures
        r@ == report_line_chars(label@, elapsed_nanos as nat),
{
    let mut s = String::new();
    s.append(label);
    s.append(":  ");
    let d = format_duration(elapsed_nanos);
    s.append(d.as_str());
    assert(s@ =~= report_line_chars(label@, elapsed_nanos as nat));
    s
}

/// Renders the whole report: one line per measurement, in insertion order —
/// the declared comparison order — with nothing reordered, aggregated,
/// dropped, or added.
pub fn format_report(results: &Vec<BenchmarkResult>) -> (r: Vec<String>)
    ensures
        r@.len() == results@.len(),
        forall|i: int|
            0 <= i < results@.len() ==> r@[i]@ == report_line_chars(
                results@[i].label@,
                results@[i].elapsed_nanos as nat,
            ),
{
    let mut lines: Vec<String> = Vec::new();
    let n = results.len();
    let mut i: usize = 0;
    while i < n
        invariant
            i <= n,
            n == results@.len(),
            lines@.len() == i,
            forall|j: int|
                0 <= j < i ==> lines@[j]@ == report_line_chars(
                    results@[j].label@,
                    results@[j].elapsed_nanos as nat,
                ),
        decreases n - i,
    {
        let line = format_benchmark_line(results[i].label.as_str(), results[i].elapsed_nanos);
        lines.push(line);
        i = i + 1;
    }
    lines
}

} // verus!
