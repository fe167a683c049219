//! Endpoints: an address and a port, written as `host:port`.
use vstd::prelude::*;
use vstd::string::*;
use crate::text::{decimal_text, digit_char};

verus! {

/// The largest payload, in bytes, that one UDP datagram carries.
pub const MAX_DATAGRAM: usize = 65535;

/// The text of an endpoint: the host, a colon, and the port in decimal.
pub open spec fn endpoint_text(host: Seq<char>, port: u16) -> Seq<char> {
    host + seq![':'] + decimal_text(port as nat)
}

/// The timeout that a socket is given for `seconds`: none for zero, which
/// blocks without limit.
pub open spec fn effective_timeout_spec(seconds: u64) -> Option<u64> {
    if seconds == 0 {
        None
    } else {
        Some(seconds)
    }
}

/// The timeout that a socket is given for `seconds`: none for zero, which
/// blocks without limit.
pub fn effective_timeout(seconds: u64) -> (r: Option<u64>)
    ensures
        r == effective_timeout_spec(seconds),
{
    if seconds == 0 {
        None
    } else {
        Some(seconds)
    }
}

/// The one-character text of the decimal digit `d`.
fn digit_text(d: u16) -> (r: &'static str)
    requires
        d < 10,
    ensures
        r@ == seq![digit_char(d as nat)],
{
    proof {
        reveal_strlit("0");
        reveal_strlit("1");
        reveal_strlit("2");
        reveal_strlit("3");
        reveal_strlit("4");
        reveal_strlit("5");
        reveal_strlit("6");
        reveal_strlit("7");
        reveal_strlit("8");
        reveal_strlit("9");
    }
    let r = if d == 0 {
        "0"
    } else if d == 1 {
        "1"
    } else if d == 2 {
        "2"
    } else if d == 3 {
        "3"
    } else if d == 4 {
        "4"
    } else if d == 5 {
        "5"
    } else if d == 6 {
        "6"
    } else if d == 7 {
        "7"
    } else if d == 8 {
        "8"
    } else {
        "9"
    };
    assert(r@ =~= seq![digit_char(d as nat)]);
    r
}

/// Appends the decimal text of `n` to `out`.
pub fn push_decimal(out: &mut String, n: u16)
    ensures
        final(out)@ == old(out)@ + decimal_text(n as nat),
    decreases n,
{
    if n < 10 {
        out.append(digit_text(n));
    } else {
        push_decimal(out, n / 10);
        out.append(digit_text(n % 10));
        proof {
            assert(final(out)@ =~= old(out)@ + decimal_text(n as nat));
        }
    }
}

/// Writes the endpoint of `host` and `port` as `host:port`.
pub fn format_endpoint(host: &str, port: u16) -> (r: String)
    ensures
        r@ == endpoint_text(host@, port),
{
    let mut out = String::from_str(host);
    proof {
        reveal_strlit(":");
    }
    out.append(":");
    assert(out@ =~= host@ + seq![':']);
    push_decimal(&mut out, port);
    out
}

} // verus!
