use vstd::prelude::*;
use crate::grammar::decimal_digits;
use crate::parser::DIGIT_ZERO;

verus! {

/// The minus sign.
pub const MINUS: u8 = 45;

/// The text that a pid file holds: the process id in decimal, with a minus
/// sign before it where it is negative.
pub open spec fn pid_text(pid: int) -> Seq<u8> {
    if pid < 0 {
        seq![MINUS] + decimal_digits((-pid) as nat)
    } else {
        decimal_digits(pid as nat)
    }
}

/// Writes the decimal numeral of `n` behind what `out` holds.
fn push_decimal(n: u32, out: &mut Vec<u8>)
    ensures
        final(out)@ == old(out)@ + decimal_digits(n as nat),
    decreases n,
{
    if n >= 10 {
        push_decimal(n / 10, out);
    }
    out.push(DIGIT_ZERO + (n % 10) as u8);
}

/// The bytes to write into the pid file of the process `pid`.
pub fn pid_file_contents(pid: i32) -> (text: Vec<u8>)
    ensures
        text@ == pid_text(pid as int),
{
    let mut text: Vec<u8> = Vec::new();
    if pid < 0 {
        text.push(MINUS);
        push_decimal((-(pid as i64)) as u32, &mut text);
    } else {
        push_decimal(pid as u32, &mut text);
    }
    text
}

} // verus!
