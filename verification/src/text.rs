//! Text helpers that the traces and the records share.

use vstd::prelude::*;
use vstd::std_specs::iter::IteratorSpec;

verus! {

/// Tells whether `text` begins with `prefix`.
pub fn starts_with(text: &str, prefix: &str) -> (found: bool)
    ensures
        found == prefix@.is_prefix_of(text@),
{
    broadcast use vstd::string::group_string_axioms;

    let mut rest = text.chars();
    let mut want = prefix.chars();
    let ghost mut n: int = 0;
    loop
        invariant
            0 <= n <= prefix@.len(),
            n <= text@.len(),
            want.remaining() == prefix@.skip(n),
            rest.remaining() == text@.skip(n),
            prefix@.take(n) =~= text@.take(n),
        decreases prefix@.len() - n,
    {
        match want.next() {
            None => {
                return true;
            },
            Some(w) => {
                match rest.next() {
                    None => {
                        return false;
                    },
                    Some(r) => {
                        if r != w {
                            return false;
                        }
                        proof {
                            n = n + 1;
                        }
                    },
                }
            },
        }
    }
}

/// The character of a decimal digit.
pub open spec fn digit_char(digit: nat) -> char {
    if digit == 0 {
        '0'
    } else if digit == 1 {
        '1'
    } else if digit == 2 {
        '2'
    } else if digit == 3 {
        '3'
    } else if digit == 4 {
        '4'
    } else if digit == 5 {
        '5'
    } else if digit == 6 {
        '6'
    } else if digit == 7 {
        '7'
    } else if digit == 8 {
        '8'
    } else {
        '9'
    }
}

/// The number in decimal digits, without a sign and without leading zeros.
pub open spec fn decimal_text(number: nat) -> Seq<char>
    decreases number,
{
    if number < 10 {
        seq![digit_char(number)]
    } else {
        decimal_text(number / 10).push(digit_char(number % 10))
    }
}

/// The text of one decimal digit.
fn digit_text(digit: u32) -> (text: &'static str)
    requires
        digit < 10,
    ensures
        text@ == seq![digit_char(digit as nat)],
{
    proof {
        reveal_strlit("0");
        reveal_strlit("1");
        reveal_strlit("2");
        reveal_strlit("3");
        reveal_strlit("4");
        reveal_strlit("5");
        reveal_strlit("6");
        reveal_strlit("7");
        reveal_strlit("8");
        reveal_strlit("9");
    }
    if digit == 0 {
        "0"
    } else if digit == 1 {
        "1"
    } else if digit == 2 {
        "2"
    } else if digit == 3 {
        "3"
    } else if digit == 4 {
        "4"
    } else if digit == 5 {
        "5"
    } else if digit == 6 {
        "6"
    } else if digit == 7 {
        "7"
    } else if digit == 8 {
        "8"
    } else {
        "9"
    }
}

/// Writes the number in decimal digits.
pub fn decimal(number: u32) -> (text: String)
    ensures
        text@ == decimal_text(number as nat),
{
    let mut left: u32 = number / 10;
    let mut text = String::from_str(digit_text(number % 10));
    let ghost mut tail: Seq<char> = seq![digit_char((number % 10) as nat)];
    while left > 0
        invariant
            text@ == tail,
            decimal_text(number as nat) == if left == 0 {
                tail
            } else {
                decimal_text(left as nat) + tail
            },
        decreases left,
    {
        let digit = digit_text(left % 10);
        proof {
            tail = seq![digit_char((left % 10) as nat)] + tail;
        }
        text = String::from_str(digit).concat(text.as_str());
        left = left / 10;
    }
    text
}

} // verus!
