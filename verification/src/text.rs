//! The rectangle as well-known text: its boundary ring as a `POLYGON`, with the
//! coordinates in decimal.

use vstd::prelude::*;
use crate::mbr::MBR;

verus! {

/// The character that stands for the decimal digit `d`.
pub open spec fn digit_char(d: int) -> char
    recommends
        0 <= d <= 9,
{
    if d == 0 {
        '0'
    } else if d == 1 {
        '1'
    } else if d == 2 {
        '2'
    } else if d == 3 {
        '3'
    } else if d == 4 {
        '4'
    } else if d == 5 {
        '5'
    } else if d == 6 {
        '6'
    } else if d == 7 {
        '7'
    } else if d == 8 {
        '8'
    } else {
        '9'
    }
}

/// The decimal digits of `n`, most significant first, without leading zeros.
pub open spec fn decimal_digits(n: nat) -> Seq<char>
    decreases n,
{
    if n < 10 {
        seq![digit_char(n as int)]
    } else {
        decimal_digits(n / 10).push(digit_char((n % 10) as int))
    }
}

/// The decimal numeral of `n`: its digits, after a minus sign if it is negative.
pub open spec fn decimal(n: int) -> Seq<char> {
    if n < 0 {
        seq!['-'] + decimal_digits((-n) as nat)
    } else {
        decimal_digits(n as nat)
    }
}

/// The numerals of `x` and `y` with one space between them.
pub open spec fn coordinate_pair(x: int, y: int) -> Seq<char> {
    decimal(x) + seq![' '] + decimal(y)
}

/// The text of one decimal digit.
fn digit_str(d: u64) -> (r: &'static str)
    requires
        d <= 9,
    ensures
        r@ == seq![digit_char(d as int)],
{
    proof {
        reveal_strlit("0");
        reveal_strlit("1");
        reveal_strlit("2");
        reveal_strlit("3");
        reveal_strlit("4");
        reveal_strlit("5");
        reveal_strlit("6");
        reveal_strlit("7");
        reveal_strlit("8");
        reveal_strlit("9");
    }
    let r = if d == 0 {
        "0"
    } else if d == 1 {
        "1"
    } else if d == 2 {
        "2"
    } else if d == 3 {
        "3"
    } else if d == 4 {
        "4"
    } else if d == 5 {
        "5"
    } else if d == 6 {
        "6"
    } else if d == 7 {
        "7"
    } else if d == 8 {
        "8"
    } else {
        "9"
    };
    assert(r@ =~= seq![digit_char(d as int)]);
    r
}

/// Appends the decimal digits of `n` to `out`.
fn push_digits(out: &mut String, n: u64)
    ensures
        final(out)@ == old(out)@ + decimal_digits(n as nat),
    decreases n,
{
    if n >= 10 {
        push_digits(out, n / 10);
    }
    out.append(digit_str(n % 10));
    assert(out@ =~= old(out)@ + decimal_digits(n as nat));
}

/// Appends the decimal numeral of `n` to `out`.
pub fn push_decimal(out: &mut String, n: i32)
    ensures
        final(out)@ == old(out)@ + decimal(n as int),
{
    if n < 0 {
        proof {
            reveal_strlit("-");
        }
        out.append("-");
        push_digits(out, (-(n as i64)) as u64);
        assert(out@ =~= old(out)@ + decimal(n as int));
    } else {
        push_digits(out, n as u64);
    }
}

/// Appends the numerals of `x` and `y`, with one space between them, to `out`.
fn push_pair(out: &mut String, x: i32, y: i32)
    ensures
        final(out)@ == old(out)@ + coordinate_pair(x as int, y as int),
{
    proof {
        reveal_strlit(" ");
    }
    push_decimal(out, x);
    out.append(" ");
    push_decimal(out, y);
    assert(out@ =~= old(out)@ + coordinate_pair(x as int, y as int));
}

impl MBR {
    /// The well-known text of the rectangle: the five points of its boundary
    /// ring, lower-left first and last, each as `x y`, with commas between them.
    pub open spec fn spec_wkt(self) -> Seq<char> {
        "POLYGON (("@ + coordinate_pair(self.minx as int, self.miny as int) + seq![',']
            + coordinate_pair(self.minx as int, self.maxy as int) + seq![','] + coordinate_pair(
            self.maxx as int,
            self.maxy as int,
        ) + seq![','] + coordinate_pair(self.maxx as int, self.miny as int) + seq![',']
            + coordinate_pair(self.minx as int, self.miny as int) + "))"@
    }

    /// Writes the rectangle as well-known text:
    /// `POLYGON ((minx miny,minx maxy,maxx maxy,maxx miny,minx miny))`.
    pub fn wkt(&self) -> (r: String)
        ensures
            r@ == self.spec_wkt(),
    {
        proof {
            reveal_strlit(",");
        }
        let mut out = String::from_str("POLYGON ((");
        push_pair(&mut out, self.minx, self.miny);
        out.append(",");
        push_pair(&mut out, self.minx, self.maxy);
        out.append(",");
        push_pair(&mut out, self.maxx, self.maxy);
        out.append(",");
        push_pair(&mut out, self.maxx, self.miny);
        out.append(",");
        push_pair(&mut out, self.minx, self.miny);
        out.append("))");
        assert(out@ =~= self.spec_wkt());
        out
    }
}

} // verus!
