//! Decimal text of scaling factors.
use vstd::prelude::*;
use vstd::string::StringExecFns;

verus! {

/// The character of the decimal digit `d`.
pub open spec fn digit_char(d: int) -> char {
    if d == 0 {
        '0'
    } else if d == 1 {
        '1'
    } else if d == 2 {
        '2'
    } else if d == 3 {
        '3'
    } else if d == 4 {
        '4'
    } else if d == 5 {
        '5'
    } else if d == 6 {
        '6'
    } else if d == 7 {
        '7'
    } else if d == 8 {
        '8'
    } else {
        '9'
    }
}

/// The decimal digits of `n`, most significant first, without leading zeros.
pub open spec fn decimal_digits(n: nat) -> Seq<char>
    decreases n,
{
    if n < 10 {
        seq![digit_char(n as int)]
    } else {
        decimal_digits(n / 10).push(digit_char((n % 10) as int))
    }
}

/// The decimal texts of `values`, joined by commas.
pub open spec fn comma_joined(values: Seq<u64>) -> Seq<char>
    decreases values.len(),
{
    if values.len() == 0 {
        seq![]
    } else if values.len() == 1 {
        decimal_digits(values[0] as nat)
    } else {
        comma_joined(values.drop_last()) + seq![','] + decimal_digits(values.last() as nat)
    }
}

fn digit_text(d: u64) -> (r: &'static str)
    requires
        d < 10,
    ensures
        r@ == seq![digit_char(d as int)],
{
    proof {
        reveal_strlit("0");
        reveal_strlit("1");
        reveal_strlit("2");
        reveal_strlit("3");
        reveal_strlit("4");
        reveal_strlit("5");
        reveal_strlit("6");
        reveal_strlit("7");
        reveal_strlit("8");
        reveal_strlit("9");
    }
    match d {
        0 => "0",
        1 => "1",
        2 => "2",
        3 => "3",
        4 => "4",
        5 => "5",
        6 => "6",
        7 => "7",
        8 => "8",
        _ => "9",
    }
}

/// The decimal text of `value`.
pub fn decimal_text(value: u64) -> (r: String)
    ensures
        r@ == decimal_digits(value as nat),
{
    let mut n: u64 = value / 10;
    let mut text = String::from_str(digit_text(value % 10));
    while n > 0
        invariant
            n == 0 ==> decimal_digits(value as nat) == text@,
            n > 0 ==> decimal_digits(value as nat) == decimal_digits(n as nat) + text@,
        decreases n,
    {
        let ghost before = text@;
        text = String::from_str(digit_text(n % 10)).concat(text.as_str());
        proof {
            if n >= 10 {
                assert(decimal_digits(n as nat) + before =~= decimal_digits((n / 10) as nat)
                    + text@);
            } else {
                assert(decimal_digits(n as nat) + before =~= text@);
            }
        }
        n = n / 10;
    }
    text
}

/// The decimal texts of `values`, joined by commas: `"11,10"` for `[11, 10]`.
pub fn comma_joined_text(values: &Vec<u64>) -> (r: String)
    ensures
        r@ == comma_joined(values@),
{
    let mut text = String::new();
    let mut i: usize = 0;
    while i < values.len()
        invariant
            i <= values@.len(),
            text@ == comma_joined(values@.subrange(0, i as int)),
        decreases values@.len() - i,
    {
        let ghost before = values@.subrange(0, i as int);
        if i > 0 {
            text.append(",");
        }
        let digits = decimal_text(values[i]);
        text.append(digits.as_str());
        proof {
            reveal_strlit(",");
            let after = values@.subrange(0, i + 1);
            assert(after.drop_last() =~= before);
            assert(after.last() == values@[i as int]);
        }
        i = i + 1;
    }
    assert(values@.subrange(0, values@.len() as int) =~= values@);
    text
}

} // verus!
