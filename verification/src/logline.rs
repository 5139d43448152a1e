//! The completion log line emitted when a request's span is closed: it
//! names the correlation identifier and the final HTTP status, rendered
//! as three decimal digits.

use vstd::prelude::*;
use vstd::string::StringExecFns;

verus! {

/// The character for one decimal digit.
pub open spec fn digit_char(d: int) -> char {
    if d == 0 {
        '0'
    } else if d == 1 {
        '1'
    } else if d == 2 {
        '2'
    } else if d == 3 {
        '3'
    } else if d == 4 {
        '4'
    } else if d == 5 {
        '5'
    } else if d == 6 {
        '6'
    } else if d == 7 {
        '7'
    } else if d == 8 {
        '8'
    } else {
        '9'
    }
}

/// A three-digit decimal rendering of a status code, most significant
/// digit first.
pub open spec fn status_seq(status: int) -> Seq<char> {
    seq![digit_char(status / 100), digit_char((status / 10) % 10), digit_char(status % 10)]
}

/// The informational line logged when a request completes: it contains
/// the correlation identifier and the final status.
pub open spec fn completion_line(id: Seq<char>, status: int) -> Seq<char> {
    "Returning request "@ + id + " with "@ + status_seq(status)
}

/// One decimal digit as a string slice.
fn digit_str(d: u16) -> (r: &'static str)
    requires
        d < 10,
    ensures
        r@ == seq![digit_char(d as int)],
{
    proof {
        reveal_strlit("0");
        reveal_strlit("1");
        reveal_strlit("2");
        reveal_strlit("3");
        reveal_strlit("4");
        reveal_strlit("5");
        reveal_strlit("6");
        reveal_strlit("7");
        reveal_strlit("8");
        reveal_strlit("9");
    }
    let r: &'static str = if d == 0 {
        "0"
    } else if d == 1 {
        "1"
    } else if d == 2 {
        "2"
    } else if d == 3 {
        "3"
    } else if d == 4 {
        "4"
    } else if d == 5 {
        "5"
    } else if d == 6 {
        "6"
    } else if d == 7 {
        "7"
    } else if d == 8 {
        "8"
    } else {
        "9"
    };
    proof {
        assert(r@ =~= seq![digit_char(d as int)]);
    }
    r
}

/// Render a status code as its three decimal digits.
pub fn status_to_string(status: u16) -> (r: String)
    requires
        status <= 999,
    ensures
        r@ == status_seq(status as int),
{
    let mut s = String::new();
    s.append(digit_str(status / 100));
    s.append(digit_str((status / 10) % 10));
    s.append(digit_str(status % 10));
    proof {
        assert(s@ =~= status_seq(status as int));
    }
    s
}

/// Build the completion log line for one request.
pub fn completion_log_line(request_id: &str, status: u16) -> (r: String)
    requires
        status <= 999,
    ensures
        r@ == completion_line(request_id@, status as int),
{
    let mut s = String::from_str("Returning request ");
    s.append(request_id);
    s.append(" with ");
    let digits = status_to_string(status);
    s.append(digits.as_str());
    proof {
        assert(s@ =~= completion_line(request_id@, status as int));
    }
    s
}

} // verus!
