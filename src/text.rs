use vstd::prelude::*;

use crate::money::Money;

verus! {

/// The character of one decimal digit.
pub open spec fn digit_char(d: nat) -> char {
    if d == 0 { '0' }
    else if d == 1 { '1' }
    else if d == 2 { '2' }
    else if d == 3 { '3' }
    else if d == 4 { '4' }
    else if d == 5 { '5' }
    else if d == 6 { '6' }
    else if d == 7 { '7' }
    else if d == 8 { '8' }
    else { '9' }
}

/// The decimal digits of a number, most significant first, without leading zeros.
pub open spec fn decimal_text(n: nat) -> Seq<char>
    decreases n,
{
    if n < 10 {
        seq![digit_char(n)]
    } else {
        decimal_text(n / 10).push(digit_char(n % 10))
    }
}

/// Relies on `u64`'s `Display` in std (through `ToString`): the number in
/// decimal digits, most significant first, with no sign, padding or leading zero.
#[verifier::external_body]
pub(crate) fn decimal(n: u64) -> (r: String)
    ensures
        r@ == decimal_text(n as nat),
{
    n.to_string()
}

/// How an amount is written in messages: `{real: 3, bonus: 0}`.
pub open spec fn money_text(m: Money) -> Seq<char> {
    "{real: "@ + decimal_text(m.real as nat) + ", bonus: "@ + decimal_text(m.bonus as nat) + "}"@
}

impl Money {
    /// The amount as text, `{real: 3, bonus: 0}`.
    pub fn describe(&self) -> (r: String)
        ensures
            r@ == money_text(*self),
    {
        let s = String::from_str("{real: ");
        let s = s.concat(decimal(self.real).as_str());
        let s = s.concat(", bonus: ");
        let s = s.concat(decimal(self.bonus).as_str());
        s.concat("}")
    }
}

} // verus!
