//! The two lines that bracket an invocation on the console.
//!
//! A successful invocation of the test case `name` is reported as
//!
//! ```text
//! <name> [start]
//! <name> [end]: took <ms> ms...
//! ```
//!
//! where `<ms>` is the elapsed time in whole milliseconds, written in
//! decimal without sign or padding.

use crate::util::numeral::decimal;
use crate::util::numeral::decimal_holds_digits;
use crate::util::numeral::decimal_reads_back;
use crate::util::numeral::is_digit;
use crate::util::numeral::push_decimal;
use vstd::prelude::*;
use vstd::string::*;

verus! {

/// The line that opens the report of the test case `name`.
pub open spec fn start_line(name: Seq<char>) -> Seq<char> {
    name + " [start]"@
}

/// The line that closes the report of the test case `name`, which took
/// `millis` whole milliseconds.
pub open spec fn end_line(name: Seq<char>, millis: nat) -> Seq<char> {
    name + " [end]: took "@ + decimal(millis) + " ms..."@
}

/// Both lines of a report begin with the name of the test case.
pub proof fn lines_begin_with_name(name: Seq<char>, millis: nat)
    ensures
        name.is_prefix_of(start_line(name)),
        name.is_prefix_of(end_line(name, millis)),
{
}

/// Where the parts of a closing line stand in it.
proof fn end_line_layout(name: Seq<char>, millis: nat)
    ensures
        end_line(name, millis).len() == name.len() + 13 + decimal(millis).len() + 6,
        end_line(name, millis).subrange(0, name.len() as int) == name,
        end_line(name, millis)[name.len() as int + 12] == ' ',
        end_line(name, millis).subrange(
            name.len() as int + 13,
            name.len() as int + 13 + decimal(millis).len(),
        ) == decimal(millis),
        end_line(name, millis).last() == '.',
{
    reveal_strlit(" [end]: took ");
    reveal_strlit(" ms...");
}

/// The closing lines of two test cases are equal only where the numerals
/// in them have the same length.
proof fn equal_end_lines_have_equal_numerals(a: Seq<char>, b: Seq<char>, m: nat, n: nat)
    requires
        end_line(a, m) == end_line(b, n),
    ensures
        decimal(m).len() >= decimal(n).len(),
{
    end_line_layout(a, m);
    end_line_layout(b, n);
    decimal_holds_digits(n);
    if decimal(m).len() < decimal(n).len() {
        // The blank before the numeral of `a` would stand inside the numeral of `b`.
        let at: int = a.len() as int + 12;
        let from: int = b.len() as int + 13;
        let within: int = at - from;
        assert(is_digit(decimal(n)[within]));
    }
}

/// A line tells which test case it reports: the lines of two test cases
/// with different names differ, an opening line is never a closing line,
/// and a closing line fixes the elapsed time that it reports.
pub proof fn lines_tell_cases_apart(a: Seq<char>, b: Seq<char>, m: nat, n: nat)
    ensures
        start_line(a) == start_line(b) ==> a == b,
        end_line(a, m) == end_line(b, n) ==> a == b && m == n,
        start_line(a) != end_line(b, n),
{
    if start_line(a) == start_line(b) {
        assert(start_line(a).subrange(0, a.len() as int) =~= a);
        assert(start_line(b).subrange(0, b.len() as int) =~= b);
    }
    if end_line(a, m) == end_line(b, n) {
        equal_end_lines_have_equal_numerals(a, b, m, n);
        equal_end_lines_have_equal_numerals(b, a, n, m);
        end_line_layout(a, m);
        end_line_layout(b, n);
        decimal_reads_back(m);
        decimal_reads_back(n);
    }
    reveal_strlit(" [start]");
    end_line_layout(b, n);
}

/// Formats the line that opens the report of the test case `name`.
pub fn format_start(name: &str) -> (line: String)
    ensures
        line@ == start_line(name@),
{
    let mut line = name.to_owned();
    line.append(" [start]");
    line
}

/// Formats the line that closes the report of the test case `name`.
pub fn format_end(name: &str, millis: u128) -> (line: String)
    ensures
        line@ == end_line(name@, millis as nat),
{
    let mut line = name.to_owned();
    line.append(" [end]: took ");
    push_decimal(&mut line, millis);
    line.append(" ms...");
    line
}

} // verus!
