use vstd::prelude::*;
use vstd::string::StringExecFns;

use crate::severity::Severity;
use crate::severity::severity_label;

verus! {

/// One leveled log record: a severity, the target that emitted it, the
/// formatted message, and an optional source location. A line number is
/// meaningful only together with a file name; a record with a line but no
/// file is rendered as if it had no location at all.
pub struct LogRecord {
    pub severity: Severity,
    pub target: String,
    pub message: String,
    pub file: Option<String>,
    pub line: Option<u32>,
}

/// The decimal digit characters of `n`, most significant first, with no
/// leading zeros (a lone `'0'` for zero).
pub open spec fn decimal_digits(n: nat) -> Seq<char>
    decreases n,
{
    if n < 10 {
        seq![digit_char(n)]
    } else {
        decimal_digits(n / 10) + seq![digit_char(n % 10)]
    }
}

/// The character for a single decimal digit.
pub open spec fn digit_char(d: nat) -> char {
    if d == 0 {
        '0'
    } else if d == 1 {
        '1'
    } else if d == 2 {
        '2'
    } else if d == 3 {
        '3'
    } else if d == 4 {
        '4'
    } else if d == 5 {
        '5'
    } else if d == 6 {
        '6'
    } else if d == 7 {
        '7'
    } else if d == 8 {
        '8'
    } else {
        '9'
    }
}

/// The single line that a record is rendered to, by the location
/// information it carries:
/// file and line present: `SEVERITY|target|file:line: message`;
/// file only: `SEVERITY|target|file: message`;
/// otherwise: `SEVERITY|target: message`.
pub open spec fn record_line(rec: LogRecord) -> Seq<char> {
    severity_label(rec.severity) + "|"@ + rec.target@ + match (rec.file, rec.line) {
        (Some(f), Some(l)) => "|"@ + f@ + ":"@ + decimal_digits(l as nat) + ": "@ + rec.message@,
        (Some(f), None) => "|"@ + f@ + ": "@ + rec.message@,
        _ => ": "@ + rec.message@,
    }
}

/// The string for a single decimal digit.
fn digit_str(d: u32) -> (r: &'static str)
    requires
        d < 10,
    ensures
        r@ == seq![digit_char(d as nat)],
{
    proof {
        reveal_strlit("0");
        reveal_strlit("1");
        reveal_strlit("2");
        reveal_strlit("3");
        reveal_strlit("4");
        reveal_strlit("5");
        reveal_strlit("6");
        reveal_strlit("7");
        reveal_strlit("8");
        reveal_strlit("9");
    }
    let r: &'static str = match d {
        0 => "0",
        1 => "1",
        2 => "2",
        3 => "3",
        4 => "4",
        5 => "5",
        6 => "6",
        7 => "7",
        8 => "8",
        _ => "9",
    };
    proof {
        assert(r@ =~= seq![digit_char(d as nat)]);
    }
    r
}

/// Append the decimal rendering of `n` to `out`.
fn push_decimal(out: &mut String, n: u32)
    ensures
        final(out)@ == old(out)@ + decimal_digits(n as nat),
    decreases n,
{
    if n < 10 {
        out.append(digit_str(n));
    } else {
        push_decimal(out, n / 10);
        out.append(digit_str(n % 10));
        proof {
            assert(out@ =~= old(out)@ + decimal_digits(n as nat));
        }
    }
}

/// Render a record to the single line that `record_line` specifies.
pub fn format_record(rec: &LogRecord) -> (line: String)
    ensures
        line@ == record_line(*rec),
{
    let mut line = String::new();
    line.append(rec.severity.name());
    line.append("|");
    line.append(rec.target.as_str());
    match (&rec.file, &rec.line) {
        (Some(f), Some(l)) => {
            line.append("|");
            line.append(f.as_str());
            line.append(":");
            push_decimal(&mut line, *l);
            line.append(": ");
        },
        (Some(f), None) => {
            line.append("|");
            line.append(f.as_str());
            line.append(": ");
        },
        _ => {
            line.append(": ");
        },
    }
    line.append(rec.message.as_str());
    proof {
        assert(line@ =~= record_line(*rec));
    }
    line
}

} // verus!
