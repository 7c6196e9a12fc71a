//! Unsigned integers as decimal text, the way amounts and timestamps stand in a log line.

use vstd::prelude::*;

verus! {

/// The character that stands for one decimal digit.
pub open spec fn digit_char(d: nat) -> char
    recommends
        d < 10,
{
    ('0' as u8 + d) as u8 as char
}

/// The decimal text of `n`: most significant digit first, no sign, no leading zero, and
/// `"0"` for zero.
pub open spec fn text(n: nat) -> Seq<char>
    decreases n,
{
    if n < 10 {
        seq![digit_char(n)]
    } else {
        text(n / 10).push(digit_char(n % 10))
    }
}

/// One digit as a string of one character.
fn digit(d: u8) -> (s: &'static str)
    requires
        d < 10,
    ensures
        s@ == seq![digit_char(d as nat)],
{
    proof {
        reveal_strlit("0");
        reveal_strlit("1");
        reveal_strlit("2");
        reveal_strlit("3");
        reveal_strlit("4");
        reveal_strlit("5");
        reveal_strlit("6");
        reveal_strlit("7");
        reveal_strlit("8");
        reveal_strlit("9");
    }
    let s = match d {
        0 => "0",
        1 => "1",
        2 => "2",
        3 => "3",
        4 => "4",
        5 => "5",
        6 => "6",
        7 => "7",
        8 => "8",
        _ => "9",
    };
    assert(s@ =~= seq![digit_char(d as nat)]);
    s
}

/// Writes `n` in decimal.
pub fn to_decimal(n: u128) -> (s: String)
    ensures
        s@ == text(n as nat),
    decreases n,
{
    if n < 10 {
        String::from_str(digit(n as u8))
    } else {
        let mut s = to_decimal(n / 10);
        s.append(digit((n % 10) as u8));
        assert(s@ =~= text(n as nat));
        s
    }
}

/// The number that a digit character stands for.
pub open spec fn digit_value(c: char) -> nat
    recommends
        '0' <= c <= '9',
{
    (c as u8 - '0' as u8) as nat
}

/// The number that a text of decimal digits stands for.
pub open spec fn value(s: Seq<char>) -> nat
    decreases s.len(),
{
    if s.len() == 0 {
        0
    } else {
        value(s.drop_last()) * 10 + digit_value(s.last())
    }
}

/// The text of a number is made of digits, begins with `0` only for zero, and reads back
/// as the number.
pub proof fn text_reads_back(n: nat)
    ensures
        text(n).len() >= 1,
        forall|i: int| 0 <= i < text(n).len() ==> '0' <= #[trigger] text(n)[i] <= '9',
        text(n)[0] == '0' <==> n == 0,
        value(text(n)) == n,
    decreases n,
{
    assert(digit_value(digit_char(n % 10)) == n % 10);
    if n < 10 {
        assert(text(n).drop_last() =~= Seq::<char>::empty());
        assert(value(text(n).drop_last()) == 0);
    } else {
        text_reads_back(n / 10);
        assert(text(n).drop_last() =~= text(n / 10));
    }
}

/// No two numbers share a text.
pub proof fn text_is_injective(m: nat, n: nat)
    requires
        text(m) == text(n),
    ensures
        m == n,
{
    text_reads_back(m);
    text_reads_back(n);
}

} // verus!
