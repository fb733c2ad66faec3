//! Decimal and dotted-quad text, as the flow keys and the stored rows hold it.

use vstd::prelude::*;
use vstd::string::StringExecFns;

verus! {

/// The character of one decimal digit.
pub open spec fn digit_char(d: int) -> char {
    if d == 0 {
        '0'
    } else if d == 1 {
        '1'
    } else if d == 2 {
        '2'
    } else if d == 3 {
        '3'
    } else if d == 4 {
        '4'
    } else if d == 5 {
        '5'
    } else if d == 6 {
        '6'
    } else if d == 7 {
        '7'
    } else if d == 8 {
        '8'
    } else {
        '9'
    }
}

/// The decimal numeral of `n`, without leading zeros.
pub open spec fn decimal(n: nat) -> Seq<char>
    decreases n,
{
    if n < 10 {
        seq![digit_char(n as int)]
    } else {
        decimal(n / 10).push(digit_char((n % 10) as int))
    }
}

/// The dotted-quad text of an IPv4 address held as a number in host byte
/// order: its four bytes in decimal, most significant first.
pub open spec fn dotted_quad(addr: u32) -> Seq<char> {
    decimal((addr / 16777216) as nat) + seq!['.'] + decimal(((addr / 65536) % 256) as nat)
        + seq!['.'] + decimal(((addr / 256) % 256) as nat) + seq!['.'] + decimal(
        (addr % 256) as nat,
    )
}

fn digit_str(d: u64) -> (s: &'static str)
    requires
        d < 10,
    ensures
        s@ == seq![digit_char(d as int)],
{
    proof {
        reveal_strlit("0");
        reveal_strlit("1");
        reveal_strlit("2");
        reveal_strlit("3");
        reveal_strlit("4");
        reveal_strlit("5");
        reveal_strlit("6");
        reveal_strlit("7");
        reveal_strlit("8");
        reveal_strlit("9");
    }
    if d == 0 {
        "0"
    } else if d == 1 {
        "1"
    } else if d == 2 {
        "2"
    } else if d == 3 {
        "3"
    } else if d == 4 {
        "4"
    } else if d == 5 {
        "5"
    } else if d == 6 {
        "6"
    } else if d == 7 {
        "7"
    } else if d == 8 {
        "8"
    } else {
        "9"
    }
}

/// Appends the decimal numeral of `n` to `out`.
pub fn push_decimal(out: &mut String, n: u64)
    ensures
        final(out)@ == old(out)@ + decimal(n as nat),
    decreases n,
{
    if n >= 10 {
        push_decimal(out, n / 10);
    }
    out.append(digit_str(n % 10));
}

/// Appends the dotted-quad text of `addr` to `out`.
pub fn push_dotted_quad(out: &mut String, addr: u32)
    ensures
        final(out)@ == old(out)@ + dotted_quad(addr),
{
    proof {
        reveal_strlit(".");
    }
    push_decimal(out, (addr / 16777216) as u64);
    out.append(".");
    push_decimal(out, ((addr / 65536) % 256) as u64);
    out.append(".");
    push_decimal(out, ((addr / 256) % 256) as u64);
    out.append(".");
    push_decimal(out, (addr % 256) as u64);
}

/// The dotted-quad text of an IPv4 address.
pub fn format_ipv4(addr: u32) -> (text: String)
    ensures
        text@ == dotted_quad(addr),
{
    let mut text = String::new();
    push_dotted_quad(&mut text, addr);
    text
}

} // verus!
