//! Small numeric helpers: Gray-code generation for the gene code table and a
//! total modulus.

use vstd::prelude::*;
use vstd::string::StringExecFns;

verus! {

/// The Gray code of an index: the index xored with itself shifted right once.
pub open spec fn gray_byte(i: u8) -> u8 {
    i ^ (i >> 1u8)
}

/// Build the Gray-code sequence of length `2^bits`; entry `i` holds the Gray
/// code of `i`, so neighbouring entries differ in exactly one bit.
pub fn generate_gray_code(bits: u32) -> (codes: Vec<u8>)
    requires
        1 <= bits <= 8,
    ensures
        codes@.len() == (1usize << bits),
        forall|i: int| 0 <= i < codes@.len() ==> codes@[i] == gray_byte(i as u8),
{
    let n: usize = 1usize << bits;
    assert(n <= 256) by (bit_vector)
        requires
            n == 1usize << bits && 1 <= bits <= 8,
    ;
    let mut codes: Vec<u8> = Vec::new();
    let mut i: usize = 0;
    while i < n
        invariant
            i <= n,
            n <= 256,
            codes@.len() == i,
            forall|j: int| 0 <= j < i ==> codes@[j] == gray_byte(j as u8),
        decreases n - i,
    {
        let b: u8 = (i as u8) ^ ((i as u8) >> 1u8);
        codes.push(b);
        i = i + 1;
    }
    codes
}

/// Remainder of `a` by `b`, total for every positive divisor.
pub fn modulus(a: u128, b: u128) -> (r: u128)
    requires
        b > 0,
    ensures
        r == a % b,
{
    a % b
}

/// The character of one decimal digit.
pub open spec fn digit_char(d: int) -> char {
    if d == 0 {
        '0'
    } else if d == 1 {
        '1'
    } else if d == 2 {
        '2'
    } else if d == 3 {
        '3'
    } else if d == 4 {
        '4'
    } else if d == 5 {
        '5'
    } else if d == 6 {
        '6'
    } else if d == 7 {
        '7'
    } else if d == 8 {
        '8'
    } else {
        '9'
    }
}

/// The decimal digits of a non-negative number, most significant first, with
/// no leading zeroes.
pub open spec fn decimal_chars(n: int) -> Seq<char>
    decreases n,
{
    if n < 10 {
        seq![digit_char(n)]
    } else {
        decimal_chars(n / 10) + seq![digit_char(n % 10)]
    }
}

/// The character of one decimal digit.
fn digit_str(d: u128) -> (s: &'static str)
    requires
        d < 10,
    ensures
        s@ == seq![digit_char(d as int)],
{
    proof {
        reveal_strlit("0");
        reveal_strlit("1");
        reveal_strlit("2");
        reveal_strlit("3");
        reveal_strlit("4");
        reveal_strlit("5");
        reveal_strlit("6");
        reveal_strlit("7");
        reveal_strlit("8");
        reveal_strlit("9");
    }
    if d == 0 {
        "0"
    } else if d == 1 {
        "1"
    } else if d == 2 {
        "2"
    } else if d == 3 {
        "3"
    } else if d == 4 {
        "4"
    } else if d == 5 {
        "5"
    } else if d == 6 {
        "6"
    } else if d == 7 {
        "7"
    } else if d == 8 {
        "8"
    } else {
        "9"
    }
}

/// Render a number in decimal.
pub fn decimal_string(n: u128) -> (s: String)
    ensures
        s@ == decimal_chars(n as int),
    decreases n,
{
    if n < 10 {
        String::from_str(digit_str(n))
    } else {
        let mut s = decimal_string(n / 10);
        s.append(digit_str(n % 10));
        s
    }
}

/// A nanosecond count split into `seconds:milliseconds:microseconds:nanoseconds`,
/// each component reduced modulo one thousand.
pub open spec fn time_chars(t: int) -> Seq<char> {
    let nanos = t % 1000;
    let t1 = t / 1000;
    let micros = t1 % 1000;
    let t2 = t1 / 1000;
    let millis = t2 % 1000;
    let t3 = t2 / 1000;
    let secs = t3 % 1000;
    decimal_chars(secs) + seq![':'] + decimal_chars(millis) + seq![':'] + decimal_chars(micros)
        + seq![':'] + decimal_chars(nanos)
}

/// Render a nanosecond count as `seconds:milliseconds:microseconds:nanoseconds`.
pub fn time_from(t: u128) -> (s: String)
    ensures
        s@ == time_chars(t as int),
{
    proof {
        reveal_strlit(":");
    }
    let mut rest = t;
    let nanos = modulus(rest, 1000);
    rest = rest / 1000;
    let micros = modulus(rest, 1000);
    rest = rest / 1000;
    let millis = modulus(rest, 1000);
    rest = rest / 1000;
    let secs = modulus(rest, 1000);
    let mut s = decimal_string(secs);
    s.append(":");
    s.append(decimal_string(millis).as_str());
    s.append(":");
    s.append(decimal_string(micros).as_str());
    s.append(":");
    s.append(decimal_string(nanos).as_str());
    proof {
        assert(s@ =~= time_chars(t as int));
    }
    s
}

} // verus!

