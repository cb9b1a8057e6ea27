//! One-time login codes: six decimal digits.
use vstd::prelude::*;
use crate::text::push_char;

verus! {

/// There are one million six-digit codes.
pub const OTP_CODE_SPACE: u32 = 1_000_000;

/// The decimal digit character for `d` (meaningful for `d < 10`).
pub open spec fn digit_char(d: nat) -> char {
    ((48 + d) as u8) as char
}

/// The code for `n`: `n` in six decimal digits, zero-padded on the left
/// (as `format!("{:06}", n)` writes it for `n < 1_000_000`).
pub open spec fn otp_code_text(n: nat) -> Seq<char> {
    seq![
        digit_char(n / 100000 % 10),
        digit_char(n / 10000 % 10),
        digit_char(n / 1000 % 10),
        digit_char(n / 100 % 10),
        digit_char(n / 10 % 10),
        digit_char(n % 10),
    ]
}

/// The number that a string of decimal digits denotes.
pub open spec fn decimal_value(s: Seq<char>) -> int
    decreases s.len(),
{
    if s.len() == 0 {
        0
    } else {
        decimal_value(s.drop_last()) * 10 + ((s.last() as u32) - 48)
    }
}

fn digit(d: u32) -> (c: char)
    requires
        d < 10,
    ensures
        c == digit_char(d as nat),
{
    (48u8 + d as u8) as char
}

/// Writes `n` as a six-digit code.
pub fn format_otp_code(n: u32) -> (res: String)
    requires
        n < OTP_CODE_SPACE,
    ensures
        res@ == otp_code_text(n as nat),
{
    let mut res = String::new();
    push_char(&mut res, digit(n / 100000 % 10));
    push_char(&mut res, digit(n / 10000 % 10));
    push_char(&mut res, digit(n / 1000 % 10));
    push_char(&mut res, digit(n / 100 % 10));
    push_char(&mut res, digit(n / 10 % 10));
    push_char(&mut res, digit(n % 10));
    assert(res@ =~= otp_code_text(n as nat));
    res
}

/// The digit character for `d` stands for `d`.
pub proof fn lemma_digit_char_value(d: nat)
    requires
        d < 10,
    ensures
        (digit_char(d) as u32) - 48 == d,
{
}

/// A code reads back as the number it was written from, and every code is six
/// decimal digits.
pub proof fn lemma_otp_code_round_trip(n: nat)
    requires
        n < OTP_CODE_SPACE,
    ensures
        otp_code_text(n).len() == 6,
        forall|i: int| 0 <= i < 6 ==> '0' <= #[trigger] otp_code_text(n)[i] <= '9',
        decimal_value(otp_code_text(n)) == n,
{
    let s = otp_code_text(n);
    let d0 = n / 100000 % 10;
    let d1 = n / 10000 % 10;
    let d2 = n / 1000 % 10;
    let d3 = n / 100 % 10;
    let d4 = n / 10 % 10;
    let d5 = n % 10;
    lemma_digit_char_value(d0);
    lemma_digit_char_value(d1);
    lemma_digit_char_value(d2);
    lemma_digit_char_value(d3);
    lemma_digit_char_value(d4);
    lemma_digit_char_value(d5);
    reveal_with_fuel(decimal_value, 7);
    assert(s.drop_last().drop_last().drop_last().drop_last().drop_last().drop_last() =~= Seq::<char>::empty());
    assert(decimal_value(s) == ((((d0 * 10 + d1) * 10 + d2) * 10 + d3) * 10 + d4) * 10 + d5);
    assert(((((d0 * 10 + d1) * 10 + d2) * 10 + d3) * 10 + d4) * 10 + d5 == n) by (nonlinear_arith)
        requires
            n < 1000000,
            d0 == n / 100000 % 10,
            d1 == n / 10000 % 10,
            d2 == n / 1000 % 10,
            d3 == n / 100 % 10,
            d4 == n / 10 % 10,
            d5 == n % 10,
    ;
}

} // verus!
