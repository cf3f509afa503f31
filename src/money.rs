use vstd::prelude::*;
use vstd::string::StringExecFns;

use crate::error::TxError;

verus! {

/// Number of scaled units in one whole unit of money: four fractional digits.
pub const SCALE: u64 = 10000;

/// True when `x` can be held by the scaled integer of a `Money`.
pub open spec fn fits(x: int) -> bool {
    i64::MIN <= x <= i64::MAX
}

/// A fixed-point amount: a signed integer counting ten-thousandths of a unit.
#[derive(Clone, Copy, Debug, PartialEq, Eq, Structural, PartialOrd, Ord)]
pub struct Money(pub i64);

/// The character of a decimal digit.
pub open spec fn digit_char(d: int) -> char {
    if d == 0 {
        '0'
    } else if d == 1 {
        '1'
    } else if d == 2 {
        '2'
    } else if d == 3 {
        '3'
    } else if d == 4 {
        '4'
    } else if d == 5 {
        '5'
    } else if d == 6 {
        '6'
    } else if d == 7 {
        '7'
    } else if d == 8 {
        '8'
    } else {
        '9'
    }
}

/// Decimal digits of `n`, most significant first, with no leading zeros
/// (zero is the single digit `0`).
pub open spec fn decimal(n: nat) -> Seq<char>
    decreases n,
{
    if n < 10 {
        seq![digit_char(n as int)]
    } else {
        decimal(n / 10) + seq![digit_char((n % 10) as int)]
    }
}

/// Exactly four decimal digits of `f`, zero-padded on the left.
pub open spec fn four_digits(f: nat) -> Seq<char> {
    seq![
        digit_char(((f / 1000) % 10) as int),
        digit_char(((f / 100) % 10) as int),
        digit_char(((f / 10) % 10) as int),
        digit_char((f % 10) as int),
    ]
}

/// Absolute value of a scaled amount.
pub open spec fn magnitude(x: int) -> nat {
    if x < 0 {
        (-x) as nat
    } else {
        x as nat
    }
}

/// Canonical text of a scaled amount: `[-]<integer>.<four digits>`, the sign
/// only on negative amounts.
pub open spec fn money_text(x: int) -> Seq<char> {
    let sign = if x < 0 {
        seq!['-']
    } else {
        Seq::<char>::empty()
    };
    sign + decimal(magnitude(x) / SCALE as nat) + seq!['.'] + four_digits(
        magnitude(x) % SCALE as nat,
    )
}

impl Money {
    /// Result of adding two amounts: the sum, or `Overflow` when it does not fit.
    pub open spec fn add_spec(self, rhs: Money) -> Result<Money, TxError> {
        if fits(self.0 + rhs.0) {
            Ok(Money((self.0 + rhs.0) as i64))
        } else {
            Err(TxError::Overflow)
        }
    }

    /// Result of subtracting two amounts: the difference, or `Overflow`.
    pub open spec fn sub_spec(self, rhs: Money) -> Result<Money, TxError> {
        if fits(self.0 - rhs.0) {
            Ok(Money((self.0 - rhs.0) as i64))
        } else {
            Err(TxError::Overflow)
        }
    }

    /// Checked addition.
    pub fn add(self, rhs: Money) -> (r: Result<Money, TxError>)
        ensures
            r == self.add_spec(rhs),
    {
        match self.0.checked_add(rhs.0) {
            Some(v) => Ok(Money(v)),
            None => Err(TxError::Overflow),
        }
    }

    /// Checked subtraction.
    pub fn sub(self, rhs: Money) -> (r: Result<Money, TxError>)
        ensures
            r == self.sub_spec(rhs),
    {
        match self.0.checked_sub(rhs.0) {
            Some(v) => Ok(Money(v)),
            None => Err(TxError::Overflow),
        }
    }

    /// Renders the amount in its canonical text form, such as `-1.2345`.
    pub fn to_text(&self) -> (r: String)
        ensures
            r@ == money_text(self.0 as int),
    {
        let mag: u64 = if self.0 >= 0 {
            self.0 as u64
        } else {
            ((-(self.0 + 1)) as u64) + 1
        };
        let mut s = if self.0 < 0 {
            String::from_str("-")
        } else {
            String::new()
        };
        proof {
            reveal_strlit("-");
            reveal_strlit(".");
        }
        push_decimal(&mut s, mag / SCALE);
        s.append(".");
        let frac = mag % SCALE;
        s.append(digit_str(frac / 1000));
        s.append(digit_str((frac / 100) % 10));
        s.append(digit_str((frac / 10) % 10));
        s.append(digit_str(frac % 10));
        proof {
            let sign = if self.0 < 0 {
                seq!['-']
            } else {
                Seq::<char>::empty()
            };
            assert(magnitude(self.0 as int) == mag);
            assert(((frac / 1000) % 10) == frac / 1000);
            assert(s@ =~= money_text(self.0 as int));
        }
        s
    }
}

/// The one-character text of a decimal digit.
fn digit_str(d: u64) -> (r: &'static str)
    requires
        d < 10,
    ensures
        r@ == seq![digit_char(d as int)],
{
    proof {
        reveal_strlit("0");
        reveal_strlit("1");
        reveal_strlit("2");
        reveal_strlit("3");
        reveal_strlit("4");
        reveal_strlit("5");
        reveal_strlit("6");
        reveal_strlit("7");
        reveal_strlit("8");
        reveal_strlit("9");
    }
    match d {
        0 => "0",
        1 => "1",
        2 => "2",
        3 => "3",
        4 => "4",
        5 => "5",
        6 => "6",
        7 => "7",
        8 => "8",
        _ => "9",
    }
}

/// Appends the decimal digits of `n` to `s`.
fn push_decimal(s: &mut String, n: u64)
    ensures
        final(s)@ == old(s)@ + decimal(n as nat),
    decreases n,
{
    if n < 10 {
        s.append(digit_str(n));
    } else {
        push_decimal(s, n / 10);
        s.append(digit_str(n % 10));
        assert(final(s)@ =~= old(s)@ + decimal(n as nat));
    }
}

} // verus!
