//! Small verified text helpers: string equality, the names of the status
//! values, and decimal rendering of the unsigned quantities that appear in
//! display mappings.

use vstd::prelude::*;
use vstd::string::StringExecFns;
use crate::records::Status;

verus! {

/// Whether two string slices hold the same characters.
pub fn str_eq(a: &str, b: &str) -> (r: bool)
    ensures
        r == (a@ == b@),
{
    let a_owned: String = a.to_owned();
    let b_owned: String = b.to_owned();
    a_owned == b_owned
}

/// The name under which a status value travels in notifications, display
/// mappings, and update requests.
pub open spec fn spec_status_name(s: Status) -> Seq<char> {
    match s {
        Status::Active => "active"@,
        Status::Pending => "pending"@,
        Status::Failed => "failed"@,
    }
}

/// The status value a name denotes, if any: exactly the three legal names
/// parse, everything else is rejected.
pub open spec fn spec_status_of_name(name: Seq<char>) -> Option<Status> {
    if name == "active"@ {
        Some(Status::Active)
    } else if name == "pending"@ {
        Some(Status::Pending)
    } else if name == "failed"@ {
        Some(Status::Failed)
    } else {
        None
    }
}

/// The name of a status value.
pub fn status_name(s: Status) -> (r: &'static str)
    ensures
        r@ == spec_status_name(s),
{
    match s {
        Status::Active => "active",
        Status::Pending => "pending",
        Status::Failed => "failed",
    }
}

/// Parses a status name; returns `None` exactly on names outside the legal
/// set.
pub fn status_of_name(name: &str) -> (r: Option<Status>)
    ensures
        r == spec_status_of_name(name@),
{
    if str_eq(name, "active") {
        Some(Status::Active)
    } else if str_eq(name, "pending") {
        Some(Status::Pending)
    } else if str_eq(name, "failed") {
        Some(Status::Failed)
    } else {
        None
    }
}

/// The decimal numeral of `n`, most significant digit first, without leading
/// zeros (the numeral of zero is "0").
pub open spec fn spec_decimal(n: nat) -> Seq<char>
    decreases n,
{
    if n < 10 {
        seq![spec_digit_char(n)]
    } else {
        spec_decimal(n / 10) + seq![spec_digit_char(n % 10)]
    }
}

/// The character of a single decimal digit.
pub open spec fn spec_digit_char(d: nat) -> char {
    if d == 0 {
        '0'
    } else if d == 1 {
        '1'
    } else if d == 2 {
        '2'
    } else if d == 3 {
        '3'
    } else if d == 4 {
        '4'
    } else if d == 5 {
        '5'
    } else if d == 6 {
        '6'
    } else if d == 7 {
        '7'
    } else if d == 8 {
        '8'
    } else {
        '9'
    }
}

/// The string slice holding one decimal digit.
fn digit_str(d: u128) -> (r: &'static str)
    requires
        d < 10,
    ensures
        r@ == seq![spec_digit_char(d as nat)],
{
    proof {
        reveal_strlit("0");
        reveal_strlit("1");
        reveal_strlit("2");
        reveal_strlit("3");
        reveal_strlit("4");
        reveal_strlit("5");
        reveal_strlit("6");
        reveal_strlit("7");
        reveal_strlit("8");
        reveal_strlit("9");
    }
    if d == 0 {
        "0"
    } else if d == 1 {
        "1"
    } else if d == 2 {
        "2"
    } else if d == 3 {
        "3"
    } else if d == 4 {
        "4"
    } else if d == 5 {
        "5"
    } else if d == 6 {
        "6"
    } else if d == 7 {
        "7"
    } else if d == 8 {
        "8"
    } else {
        "9"
    }
}

/// Appends the decimal numeral of `n` to `out`.
fn push_decimal(n: u128, out: &mut String)
    ensures
        final(out)@ == old(out)@ + spec_decimal(n as nat),
    decreases n,
{
    if n >= 10 {
        push_decimal(n / 10, out);
    }
    let d: &str = digit_str(n % 10);
    out.append(d);
    proof {
        assert(out@ =~= old(out)@ + spec_decimal(n as nat));
    }
}

/// The decimal numeral of `n` as a `String`.
pub fn decimal_string(n: u128) -> (r: String)
    ensures
        r@ == spec_decimal(n as nat),
{
    let mut out = String::new();
    push_decimal(n, &mut out);
    proof {
        assert(out@ =~= spec_decimal(n as nat));
    }
    out
}

} // verus!
