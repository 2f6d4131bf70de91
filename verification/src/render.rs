//! Rendering of drained verdict records as log lines.
//!
//! One line is emitted per record: the destination address in dotted-quad
//! form and the action code in decimal. The exact character sequence of
//! every line is pinned by spec functions, so the drain loop's output is
//! determined by the bytes the channel yielded.

use vstd::prelude::*;
use vstd::string::StringExecFns;
use crate::codec::PacketLog;

verus! {

/// The character for one decimal digit.
pub open spec fn spec_digit_char(d: int) -> char {
    if d == 0 {
        '0'
    } else if d == 1 {
        '1'
    } else if d == 2 {
        '2'
    } else if d == 3 {
        '3'
    } else if d == 4 {
        '4'
    } else if d == 5 {
        '5'
    } else if d == 6 {
        '6'
    } else if d == 7 {
        '7'
    } else if d == 8 {
        '8'
    } else {
        '9'
    }
}

/// The decimal rendering of a nonnegative number, most significant digit
/// first, with no leading zeros except for the number zero itself.
pub open spec fn spec_decimal(n: int) -> Seq<char>
    recommends
        n >= 0,
    decreases n,
{
    if n < 10 {
        seq![spec_digit_char(n)]
    } else {
        spec_decimal(n / 10).push(spec_digit_char(n % 10))
    }
}

/// The dotted-quad rendering of an address, most significant byte first.
pub open spec fn spec_ipv4_chars(addr: u32) -> Seq<char> {
    spec_decimal(addr as int / 0x1000000) + seq!['.'] + spec_decimal(
        addr as int / 0x10000 % 0x100,
    ) + seq!['.'] + spec_decimal(addr as int / 0x100 % 0x100) + seq!['.'] + spec_decimal(
        addr as int % 0x100,
    )
}

/// The log line for one verdict record.
pub open spec fn spec_log_line(rec: PacketLog) -> Seq<char> {
    "LOG: DST "@ + spec_ipv4_chars(rec.ipv4_address) + ", ACTION "@ + spec_decimal(
        rec.action as int,
    )
}

/// The address representation is consistent end to end: rendering the
/// packed host value of `a.b.c.d` yields the four octets back, in the
/// same order and separated by dots.
pub proof fn lemma_dotted_quad_of_octets(a: u8, b: u8, c: u8, d: u8)
    ensures
        spec_ipv4_chars(crate::codec::spec_ipv4_value(a, b, c, d)) == spec_decimal(a as int)
            + seq!['.'] + spec_decimal(b as int) + seq!['.'] + spec_decimal(c as int)
            + seq!['.'] + spec_decimal(d as int),
{
    let v = crate::codec::spec_ipv4_value(a, b, c, d) as int;
    vstd::arithmetic::div_mod::lemma_fundamental_div_mod_converse(
        v,
        0x1000000,
        a as int,
        b * 0x10000 + c * 0x100 + d,
    );
    vstd::arithmetic::div_mod::lemma_fundamental_div_mod_converse(
        v,
        0x10000,
        a * 0x100 + b,
        c * 0x100 + d,
    );
    vstd::arithmetic::div_mod::lemma_fundamental_div_mod_converse(
        a * 0x100 + b,
        0x100,
        a as int,
        b as int,
    );
    vstd::arithmetic::div_mod::lemma_fundamental_div_mod_converse(
        v,
        0x100,
        a * 0x10000 + b * 0x100 + c,
        d as int,
    );
    vstd::arithmetic::div_mod::lemma_fundamental_div_mod_converse(
        a * 0x10000 + b * 0x100 + c,
        0x100,
        a * 0x100 + b,
        c as int,
    );
}

/// The one-character string for a decimal digit.
fn digit_str(d: u32) -> (r: &'static str)
    requires
        d < 10,
    ensures
        r@ == seq![spec_digit_char(d as int)],
{
    proof {
        reveal_strlit("0");
        reveal_strlit("1");
        reveal_strlit("2");
        reveal_strlit("3");
        reveal_strlit("4");
        reveal_strlit("5");
        reveal_strlit("6");
        reveal_strlit("7");
        reveal_strlit("8");
        reveal_strlit("9");
    }
    let r = if d == 0 {
        "0"
    } else if d == 1 {
        "1"
    } else if d == 2 {
        "2"
    } else if d == 3 {
        "3"
    } else if d == 4 {
        "4"
    } else if d == 5 {
        "5"
    } else if d == 6 {
        "6"
    } else if d == 7 {
        "7"
    } else if d == 8 {
        "8"
    } else {
        "9"
    };
    proof {
        assert(r@ =~= seq![spec_digit_char(d as int)]);
    }
    r
}

/// Render a number in decimal, most significant digit first.
pub fn decimal_string(n: u32) -> (r: String)
    ensures
        r@ == spec_decimal(n as int),
    decreases n,
{
    if n < 10 {
        let r = digit_str(n).to_owned();
        r
    } else {
        let mut prefix = decimal_string(n / 10);
        let d = digit_str(n % 10);
        prefix.append(d);
        proof {
            assert(prefix@ =~= spec_decimal(n as int / 10).push(spec_digit_char(n as int % 10)));
        }
        prefix
    }
}

/// Render an address in dotted-quad form.
pub fn format_ipv4(addr: u32) -> (r: String)
    ensures
        r@ == spec_ipv4_chars(addr),
{
    proof {
        reveal_strlit(".");
    }
    let mut s = decimal_string(addr / 0x1000000);
    s.append(".");
    let o2 = decimal_string(addr / 0x10000 % 0x100);
    s.append(o2.as_str());
    s.append(".");
    let o3 = decimal_string(addr / 0x100 % 0x100);
    s.append(o3.as_str());
    s.append(".");
    let o4 = decimal_string(addr % 0x100);
    s.append(o4.as_str());
    proof {
        assert("."@ =~= seq!['.']);
        assert(s@ =~= spec_ipv4_chars(addr));
    }
    s
}

/// Render the log line for one verdict record: the destination address in
/// dotted-quad form, then the action code.
pub fn render_log_line(rec: &PacketLog) -> (r: String)
    ensures
        r@ == spec_log_line(*rec),
{
    let mut s = String::from_str("LOG: DST ");
    let ip = format_ipv4(rec.ipv4_address);
    s.append(ip.as_str());
    s.append(", ACTION ");
    let act = decimal_string(rec.action);
    s.append(act.as_str());
    proof {
        assert(s@ =~= spec_log_line(*rec));
    }
    s
}

} // verus!
