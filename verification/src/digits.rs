//! Verified rendering of integers as lowercase hexadecimal and decimal text.

use vstd::prelude::*;

verus! {

/// The lowercase hexadecimal digit character for a value below sixteen.
pub open spec fn hex_digit(n: u128) -> char
    recommends
        n < 16,
{
    if n == 0 {
        '0'
    } else if n == 1 {
        '1'
    } else if n == 2 {
        '2'
    } else if n == 3 {
        '3'
    } else if n == 4 {
        '4'
    } else if n == 5 {
        '5'
    } else if n == 6 {
        '6'
    } else if n == 7 {
        '7'
    } else if n == 8 {
        '8'
    } else if n == 9 {
        '9'
    } else if n == 10 {
        'a'
    } else if n == 11 {
        'b'
    } else if n == 12 {
        'c'
    } else if n == 13 {
        'd'
    } else if n == 14 {
        'e'
    } else {
        'f'
    }
}

/// The low `width` hexadecimal digits of `n`, most significant first,
/// with leading zeros kept.
pub open spec fn hex_seq(n: u128, width: nat) -> Seq<char>
    decreases width,
{
    if width == 0 {
        Seq::empty()
    } else {
        hex_seq(n / 16, (width - 1) as nat) + seq![hex_digit(n % 16)]
    }
}

/// The minimal hexadecimal form of `n`: no leading zeros, a single `0` for zero.
pub open spec fn hex_min(n: u128) -> Seq<char>
    decreases n,
{
    if n < 16 {
        seq![hex_digit(n)]
    } else {
        hex_min(n / 16) + seq![hex_digit(n % 16)]
    }
}

/// The decimal digit character for a value below ten.
pub open spec fn dec_digit(n: u32) -> char
    recommends
        n < 10,
{
    hex_digit(n as u128)
}

/// The decimal form of `n`: no leading zeros, a single `0` for zero.
pub open spec fn dec_min(n: u32) -> Seq<char>
    decreases n,
{
    if n < 10 {
        seq![dec_digit(n)]
    } else {
        dec_min(n / 10) + seq![dec_digit(n % 10)]
    }
}

/// The decimal form of a signed value, with a leading minus sign when negative.
pub open spec fn dec_i16(v: i16) -> Seq<char> {
    if v < 0 {
        "-"@ + dec_min((-(v as int)) as u32)
    } else {
        dec_min(v as u32)
    }
}

/// A one-character string slice holding the hexadecimal digit for `n`.
fn hex_digit_str(n: u128) -> (r: &'static str)
    requires
        n < 16,
    ensures
        r@ == seq![hex_digit(n)],
{
    let r: &'static str = if n == 0 {
        "0"
    } else if n == 1 {
        "1"
    } else if n == 2 {
        "2"
    } else if n == 3 {
        "3"
    } else if n == 4 {
        "4"
    } else if n == 5 {
        "5"
    } else if n == 6 {
        "6"
    } else if n == 7 {
        "7"
    } else if n == 8 {
        "8"
    } else if n == 9 {
        "9"
    } else if n == 10 {
        "a"
    } else if n == 11 {
        "b"
    } else if n == 12 {
        "c"
    } else if n == 13 {
        "d"
    } else if n == 14 {
        "e"
    } else {
        "f"
    };
    proof {
        reveal_strlit("0");
        reveal_strlit("1");
        reveal_strlit("2");
        reveal_strlit("3");
        reveal_strlit("4");
        reveal_strlit("5");
        reveal_strlit("6");
        reveal_strlit("7");
        reveal_strlit("8");
        reveal_strlit("9");
        reveal_strlit("a");
        reveal_strlit("b");
        reveal_strlit("c");
        reveal_strlit("d");
        reveal_strlit("e");
        reveal_strlit("f");
        assert(r@ =~= seq![hex_digit(n)]);
    }
    r
}

/// The low `width` hexadecimal digits of `n`, leading zeros kept.
pub fn hex_text(n: u128, width: usize) -> (r: String)
    ensures
        r@ == hex_seq(n, width as nat),
    decreases width,
{
    if width == 0 {
        String::new()
    } else {
        let mut s = hex_text(n / 16, width - 1);
        s.append(hex_digit_str(n % 16));
        s
    }
}

/// The minimal hexadecimal form of `n`.
pub fn hex_min_text(n: u128) -> (r: String)
    ensures
        r@ == hex_min(n),
    decreases n,
{
    if n < 16 {
        hex_digit_str(n).to_owned()
    } else {
        proof {
            assert(n / 16 < n) by (nonlinear_arith)
                requires
                    n >= 16,
            ;
        }
        let mut s = hex_min_text(n / 16);
        s.append(hex_digit_str(n % 16));
        s
    }
}

/// The decimal form of `n`.
pub fn dec_min_text(n: u32) -> (r: String)
    ensures
        r@ == dec_min(n),
    decreases n,
{
    if n < 10 {
        hex_digit_str(n as u128).to_owned()
    } else {
        proof {
            assert(n / 10 < n) by (nonlinear_arith)
                requires
                    n >= 10,
            ;
        }
        let mut s = dec_min_text(n / 10);
        s.append(hex_digit_str((n % 10) as u128));
        s
    }
}

/// The decimal form of a signed value, as shown in the scan table.
pub fn dec_i16_text(v: i16) -> (r: String)
    ensures
        r@ == dec_i16(v),
{
    if v < 0 {
        let wide: i32 = -(v as i32);
        let magnitude: u32 = wide as u32;
        let mut s = "-".to_owned();
        let rest = dec_min_text(magnitude);
        s.append(rest.as_str());
        s
    } else {
        dec_min_text(v as u32)
    }
}

} // verus!
