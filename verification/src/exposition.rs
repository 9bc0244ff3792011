//! The text exposition of the metric registers: four named gauges, each with
//! a help line, a type line and a value, sorted alphabetically by name. The
//! whole format, including the decimal rendering of the fixed-point
//! registers, is specified and proved here.

use vstd::prelude::*;
use vstd::string::StringExecFns;

use crate::metrics::MetricsState;

verus! {

/// The decimal digit character for a value below ten.
pub open spec fn spec_digit(d: nat) -> char {
    if d == 0 {
        '0'
    } else if d == 1 {
        '1'
    } else if d == 2 {
        '2'
    } else if d == 3 {
        '3'
    } else if d == 4 {
        '4'
    } else if d == 5 {
        '5'
    } else if d == 6 {
        '6'
    } else if d == 7 {
        '7'
    } else if d == 8 {
        '8'
    } else {
        '9'
    }
}

/// The decimal notation of a natural number, most significant digit first,
/// without leading zeroes (a single zero for zero itself).
pub open spec fn spec_decimal(n: nat) -> Seq<char>
    decreases n,
{
    if n < 10 {
        seq![spec_digit(n)]
    } else {
        spec_decimal(n / 10).push(spec_digit(n % 10))
    }
}

/// The decimal notation of a value held in tenths of a unit: the whole part,
/// then a fractional digit only when it is not zero, with a leading minus
/// sign for negative values.
pub open spec fn spec_tenths(t: int) -> Seq<char> {
    let m = if t < 0 {
        -t
    } else {
        t
    };
    let sign: Seq<char> = if t < 0 {
        seq!['-']
    } else {
        Seq::empty()
    };
    if m % 10 == 0 {
        sign + spec_decimal((m / 10) as nat)
    } else {
        sign + spec_decimal((m / 10) as nat) + seq!['.', spec_digit((m % 10) as nat)]
    }
}

/// The single-character text of a decimal digit.
fn digit_str(d: u64) -> (r: &'static str)
    requires
        d < 10,
    ensures
        r@ == seq![spec_digit(d as nat)],
{
    let r: &'static str = match d {
        0 => "0",
        1 => "1",
        2 => "2",
        3 => "3",
        4 => "4",
        5 => "5",
        6 => "6",
        7 => "7",
        8 => "8",
        _ => "9",
    };
    proof {
        reveal_strlit("0");
        reveal_strlit("1");
        reveal_strlit("2");
        reveal_strlit("3");
        reveal_strlit("4");
        reveal_strlit("5");
        reveal_strlit("6");
        reveal_strlit("7");
        reveal_strlit("8");
        reveal_strlit("9");
        assert(r@ =~= seq![spec_digit(d as nat)]);
    }
    r
}

/// The decimal text of an unsigned value.
pub fn decimal_text(n: u64) -> (r: String)
    ensures
        r@ == spec_decimal(n as nat),
    decreases n,
{
    if n < 10 {
        digit_str(n).to_owned()
    } else {
        let mut s = decimal_text(n / 10);
        s.append(digit_str(n % 10));
        proof {
            assert(s@ =~= spec_decimal(n as nat));
        }
        s
    }
}

/// The decimal text of a signed value held in tenths of a unit.
pub fn tenths_text(t: i64) -> (r: String)
    ensures
        r@ == spec_tenths(t as int),
{
    let magnitude: u64 = if t < 0 {
        (-(t as i128)) as u64
    } else {
        t as u64
    };
    let mut s: String = if t < 0 {
        "-".to_owned()
    } else {
        String::new()
    };
    let whole = decimal_text(magnitude / 10);
    s.append(whole.as_str());
    if magnitude % 10 != 0 {
        s.append(".");
        s.append(digit_str(magnitude % 10));
    }
    proof {
        reveal_strlit("-");
        reveal_strlit(".");
        assert(s@ =~= spec_tenths(t as int));
    }
    s
}

/// The three exposition lines of one gauge: a help line, a type line, and
/// the gauge's name with its current value.
pub open spec fn spec_gauge_text(name: Seq<char>, help: Seq<char>, value: Seq<char>) -> Seq<char> {
    "# HELP "@ + name + " "@ + help + "\n# TYPE "@ + name + " gauge\n"@ + name + " "@ + value
        + "\n"@
}

/// Append one gauge's three lines to the output.
fn push_gauge(out: &mut String, name: &str, help: &str, value: &str)
    ensures
        final(out)@ == old(out)@ + spec_gauge_text(name@, help@, value@),
{
    out.append("# HELP ");
    out.append(name);
    out.append(" ");
    out.append(help);
    out.append("\n# TYPE ");
    out.append(name);
    out.append(" gauge\n");
    out.append(name);
    out.append(" ");
    out.append(value);
    out.append("\n");
    proof {
        assert(out@ =~= old(out)@ + spec_gauge_text(name@, help@, value@));
    }
}

/// The full exposition text of a set of registers: the four gauges in
/// alphabetical order, each rendered by [`spec_gauge_text`], the counters in
/// plain decimal and the fixed-point registers in tenths notation.
pub open spec fn spec_exposition(s: MetricsState) -> Seq<char> {
    spec_gauge_text(
        "error_count"@,
        "Number of unsuccessful sensor reads"@,
        spec_decimal(s.error_count as nat),
    ) + spec_gauge_text(
        "humidity"@,
        "Current humidity (percent)"@,
        spec_tenths(s.humidity as int),
    ) + spec_gauge_text(
        "ok_count"@,
        "Number of successful sensor reads"@,
        spec_decimal(s.ok_count as nat),
    ) + spec_gauge_text(
        "temperature"@,
        "Current temperature (Celsius)"@,
        spec_tenths(s.temperature as int),
    )
}

/// Render a snapshot of the registers in the text exposition format.
pub fn render_exposition(s: &MetricsState) -> (r: String)
    ensures
        r@ == spec_exposition(*s),
{
    let mut out = String::new();
    let error_count = decimal_text(s.error_count);
    push_gauge(&mut out, "error_count", "Number of unsuccessful sensor reads", error_count.as_str());
    let humidity = tenths_text(s.humidity);
    push_gauge(&mut out, "humidity", "Current humidity (percent)", humidity.as_str());
    let ok_count = decimal_text(s.ok_count);
    push_gauge(&mut out, "ok_count", "Number of successful sensor reads", ok_count.as_str());
    let temperature = tenths_text(s.temperature);
    push_gauge(&mut out, "temperature", "Current temperature (Celsius)", temperature.as_str());
    proof {
        assert(out@ =~= spec_exposition(*s));
    }
    out
}

/// The content type identifying the exposition format and its version.
pub fn format_type() -> (r: String)
    ensures
        r@ == "text/plain; version=0.0.4"@,
{
    "text/plain; version=0.0.4".to_owned()
}

} // verus!
