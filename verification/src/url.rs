//! Construction of the backend's base URL.
//!
//! The backend is only ever reachable on the loopback interface, so the
//! base URL is `http://127.0.0.1:{port}` with the port rendered in
//! decimal.

use vstd::prelude::*;
use vstd::string::*;

verus! {

/// The decimal digit character for `d < 10`.
pub open spec fn digit_char(d: nat) -> char {
    if d == 0 {
        '0'
    } else if d == 1 {
        '1'
    } else if d == 2 {
        '2'
    } else if d == 3 {
        '3'
    } else if d == 4 {
        '4'
    } else if d == 5 {
        '5'
    } else if d == 6 {
        '6'
    } else if d == 7 {
        '7'
    } else if d == 8 {
        '8'
    } else {
        '9'
    }
}

/// The usual decimal rendering of `n`: no sign, no leading zero except
/// for `n == 0` itself.
pub open spec fn decimal_seq(n: nat) -> Seq<char>
    decreases n,
{
    if n < 10 {
        seq![digit_char(n)]
    } else {
        decimal_seq(n / 10).push(digit_char(n % 10))
    }
}

/// The base URL under which a backend on `port` is reachable.
pub open spec fn base_url_seq(port: u16) -> Seq<char> {
    "http://127.0.0.1:"@ + decimal_seq(port as nat)
}

/// The one-character string for the digit `d`.
fn digit_str(d: u16) -> (r: &'static str)
    requires
        d < 10,
    ensures
        r@ == seq![digit_char(d as nat)],
{
    proof {
        reveal_strlit("0");
        reveal_strlit("1");
        reveal_strlit("2");
        reveal_strlit("3");
        reveal_strlit("4");
        reveal_strlit("5");
        reveal_strlit("6");
        reveal_strlit("7");
        reveal_strlit("8");
        reveal_strlit("9");
    }
    let r: &'static str = match d {
        0 => "0",
        1 => "1",
        2 => "2",
        3 => "3",
        4 => "4",
        5 => "5",
        6 => "6",
        7 => "7",
        8 => "8",
        _ => "9",
    };
    proof {
        assert(r@ =~= seq![digit_char(d as nat)]);
    }
    r
}

/// Appends the decimal rendering of `n` to `s`.
fn append_decimal(s: &mut String, n: u16)
    ensures
        final(s)@ == old(s)@ + decimal_seq(n as nat),
    decreases n,
{
    if n >= 10 {
        append_decimal(s, n / 10);
    }
    s.append(digit_str(n % 10));
    proof {
        assert(s@ =~= old(s)@ + decimal_seq(n as nat));
    }
}

/// Renders the decimal digits of `n`.
pub fn decimal_string(n: u16) -> (r: String)
    ensures
        r@ == decimal_seq(n as nat),
{
    let mut s = String::new();
    append_decimal(&mut s, n);
    proof {
        assert(s@ =~= decimal_seq(n as nat));
    }
    s
}

/// Builds the loopback base URL for a backend listening on `port`.
pub fn base_url(port: u16) -> (r: String)
    ensures
        r@ == base_url_seq(port),
{
    let mut s = String::from_str("http://127.0.0.1:");
    append_decimal(&mut s, port);
    s
}

/// The readiness endpoint polled during `start`.
pub open spec fn health_url_seq(port: u16) -> Seq<char> {
    base_url_seq(port) + "/health"@
}

/// Builds the URL of the backend's readiness endpoint.
pub fn health_url(port: u16) -> (r: String)
    ensures
        r@ == health_url_seq(port),
{
    let s = base_url(port);
    s.concat("/health")
}

} // verus!
