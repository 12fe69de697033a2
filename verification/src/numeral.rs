//! Decimal rendering of port numbers and the listener bind address.

use vstd::prelude::*;
use vstd::string::StringExecFns;

verus! {

/// The character for one decimal digit value.
pub open spec fn digit_char(d: int) -> char {
    if d == 0 {
        '0'
    } else if d == 1 {
        '1'
    } else if d == 2 {
        '2'
    } else if d == 3 {
        '3'
    } else if d == 4 {
        '4'
    } else if d == 5 {
        '5'
    } else if d == 6 {
        '6'
    } else if d == 7 {
        '7'
    } else if d == 8 {
        '8'
    } else {
        '9'
    }
}

/// Decimal numeral of a non-negative integer, most significant digit first,
/// with no leading zeros (the numeral of 0 is "0").
pub open spec fn decimal(n: int) -> Seq<char>
    decreases n,
{
    if n < 10 {
        seq![digit_char(n)]
    } else {
        decimal(n / 10).push(digit_char(n % 10))
    }
}

/// Every character of a decimal numeral is a digit, and a numeral is never
/// empty.
pub proof fn lemma_decimal_digits(n: int)
    requires
        n >= 0,
    ensures
        decimal(n).len() >= 1,
        forall|i: int|
            0 <= i < decimal(n).len() ==> '0' <= #[trigger] decimal(n)[i] && decimal(n)[i] <= '9',
    decreases n,
{
    if n >= 10 {
        lemma_decimal_digits(n / 10);
    }
}

/// A one-character string for a single decimal digit.
fn digit_str(d: u16) -> (r: &'static str)
    requires
        d < 10,
    ensures
        r@ == seq![digit_char(d as int)],
{
    proof {
        reveal_strlit("0");
        reveal_strlit("1");
        reveal_strlit("2");
        reveal_strlit("3");
        reveal_strlit("4");
        reveal_strlit("5");
        reveal_strlit("6");
        reveal_strlit("7");
        reveal_strlit("8");
        reveal_strlit("9");
    }
    let r = match d {
        0 => "0",
        1 => "1",
        2 => "2",
        3 => "3",
        4 => "4",
        5 => "5",
        6 => "6",
        7 => "7",
        8 => "8",
        _ => "9",
    };
    proof {
        assert(r@ =~= seq![digit_char(d as int)]);
    }
    r
}

/// Renders a port number as its decimal numeral.
pub fn u16_decimal(n: u16) -> (r: String)
    ensures
        r@ == decimal(n as int),
    decreases n,
{
    if n < 10 {
        let r = digit_str(n).to_owned();
        r
    } else {
        let mut prefix = u16_decimal(n / 10);
        prefix.append(digit_str(n % 10));
        proof {
            assert(prefix@ =~= decimal(n as int));
        }
        prefix
    }
}

/// The all-interfaces bind address for a port (port 0 asks the OS for an
/// ephemeral port).
pub open spec fn bind_addr(port: int) -> Seq<char> {
    "[::]:"@ + decimal(port)
}

/// Renders the bind address a listener is given for a port.
pub fn listen_addr(port: u16) -> (r: String)
    ensures
        r@ == bind_addr(port as int),
{
    let mut r = String::from_str("[::]:");
    r.append(u16_decimal(port).as_str());
    r
}

} // verus!
