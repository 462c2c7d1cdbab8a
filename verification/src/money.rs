//! Fixed-point currency values: a signed amount of minor units (cents),
//! with checked arithmetic that reports overflow instead of wrapping.

use vstd::prelude::*;
use vstd::string::*;

use crate::numfmt::dec_digits;
use crate::numfmt::two_digit_string;
use crate::numfmt::two_digits;
use crate::numfmt::u64_to_string;

verus! {

/// The canonical rendering of a cent amount: an optional minus sign, a
/// dollar sign, the dollar part in decimal, a point, and exactly two
/// cent digits.
pub open spec fn money_string(c: int) -> Seq<char> {
    (if c < 0 {
        seq!['-']
    } else {
        Seq::<char>::empty()
    }) + seq!['$'] + dec_digits((abs_cents(c) / 100) as nat) + seq!['.'] + two_digits(
        abs_cents(c) % 100,
    )
}

/// Currencies the system knows about.
#[derive(Debug, Clone, Copy, PartialEq, Eq)]
pub enum Currency {
    USD,
    EUR,
    GBP,
    JPY,
}

/// Errors from money operations.
#[derive(Debug, Clone, PartialEq, Eq)]
pub enum MoneyError {
    InvalidAmount(String),
    CurrencyMismatch,
    DivisionByZero,
    Overflow,
    Underflow,
}

/// A monetary amount held as whole cents, so that no floating-point
/// rounding can creep into the arithmetic.
#[derive(Debug, Clone, Copy, PartialEq, Eq, PartialOrd, Ord, Hash, Structural)]
pub struct Money {
    cents: i64,
}

impl View for Money {
    type V = int;

    closed spec fn view(&self) -> int {
        self.cents as int
    }
}

/// Magnitude of a cent amount.
pub open spec fn abs_cents(c: int) -> int {
    if c >= 0 {
        c
    } else {
        -c
    }
}

/// Division truncating toward zero, as Rust's `/` computes it on integers.
pub open spec fn trunc_div(x: int, d: int) -> int
    recommends
        d != 0,
{
    if x >= 0 && d > 0 {
        x / d
    } else if x < 0 && d < 0 {
        (x * -1) / (d * -1)
    } else if x < 0 {
        ((x * -1) / d) * -1
    } else {
        (x / (d * -1)) * -1
    }
}

/// The message each money error renders to.
pub open spec fn money_error_string(e: MoneyError) -> Seq<char> {
    match e {
        MoneyError::InvalidAmount(msg) => "Invalid amount: "@ + msg@,
        MoneyError::CurrencyMismatch => "Currency mismatch"@,
        MoneyError::DivisionByZero => "Division by zero"@,
        MoneyError::Overflow => "Arithmetic overflow"@,
        MoneyError::Underflow => "Arithmetic underflow"@,
    }
}

impl MoneyError {
    /// The human-readable message for this error.
    pub fn to_string(&self) -> (s: String)
        ensures
            s@ == money_error_string(*self),
    {
        match self {
            MoneyError::InvalidAmount(msg) => {
                let mut s = String::from_str("Invalid amount: ");
                s.append(msg.as_str());
                s
            },
            MoneyError::CurrencyMismatch => String::from_str("Currency mismatch"),
            MoneyError::DivisionByZero => String::from_str("Division by zero"),
            MoneyError::Overflow => String::from_str("Arithmetic overflow"),
            MoneyError::Underflow => String::from_str("Arithmetic underflow"),
        }
    }
}

/// The plain two-decimal rendering of a non-negative cent amount,
/// without a currency sign.
pub open spec fn money_decimal(c: int) -> Seq<char>
    recommends
        c >= 0,
{
    dec_digits((c / 100) as nat) + seq!['.'] + two_digits(c % 100)
}

impl Money {
    /// Renders a non-negative amount as a plain two-decimal string such
    /// as "1.50", the form money takes at the service boundary.
    pub fn to_decimal_string(&self) -> (s: String)
        requires
            self@ >= 0,
        ensures
            s@ == money_decimal(self@),
    {
        let mag = self.cents as u64;
        proof {
            vstd::arithmetic::div_mod::lemma_mod_bound(mag as int, 100);
        }
        let mut s = u64_to_string(mag / 100);
        s.append(".");
        let cs = two_digit_string(mag % 100);
        s.append(cs.as_str());
        proof {
            reveal_strlit(".");
            assert(s@ =~= money_decimal(self@));
        }
        s
    }

    /// Builds an amount from whole dollars plus a cent part in 0..=99.
    /// For negative dollar amounts the cents move the value further from
    /// zero, mirroring how a human reads "-$2.50".
    pub fn from_dollars_cents(dollars: i64, cents: u8) -> (r: Result<Money, MoneyError>)
        ensures
            cents > 99 ==> (r matches Err(MoneyError::InvalidAmount(m)) && m@
                == "Cents must be between 0 and 99"@),
            cents <= 99 && !(i64::MIN <= dollars * 100 <= i64::MAX) ==> r == Err::<Money,
                MoneyError,
            >(MoneyError::Overflow),
            cents <= 99 && i64::MIN <= dollars * 100 <= i64::MAX && dollars >= 0 ==> if dollars
                * 100 + cents <= i64::MAX {
                r matches Ok(m) && m@ == dollars * 100 + cents
            } else {
                r == Err::<Money, MoneyError>(MoneyError::Overflow)
            },
            cents <= 99 && i64::MIN <= dollars * 100 <= i64::MAX && dollars < 0 ==> if i64::MIN
                <= dollars * 100 - cents {
                r matches Ok(m) && m@ == dollars * 100 - cents
            } else {
                r == Err::<Money, MoneyError>(MoneyError::Underflow)
            },
    {
        if cents > 99 {
            return Err(MoneyError::InvalidAmount("Cents must be between 0 and 99".to_owned()));
        }
        let total_cents = match dollars.checked_mul(100) {
            Some(dollars_cents) => {
                if dollars >= 0 {
                    match dollars_cents.checked_add(cents as i64) {
                        Some(total) => total,
                        None => {
                            return Err(MoneyError::Overflow);
                        },
                    }
                } else {
                    match dollars_cents.checked_sub(cents as i64) {
                        Some(total) => total,
                        None => {
                            return Err(MoneyError::Underflow);
                        },
                    }
                }
            },
            None => {
                return Err(MoneyError::Overflow);
            },
        };
        Ok(Money { cents: total_cents })
    }

    /// Builds an amount directly from a cent count; always succeeds.
    pub fn from_cents(cents: i64) -> (r: Money)
        ensures
            r@ == cents,
    {
        Money { cents }
    }

    /// The zero amount.
    pub fn zero() -> (r: Money)
        ensures
            r@ == 0,
    {
        Money { cents: 0 }
    }

    /// Total amount in cents.
    pub fn cents(&self) -> (r: i64)
        ensures
            r == self@,
    {
        self.cents
    }

    /// Whole-dollar part, truncated toward zero.
    pub fn dollars(&self) -> (r: i64)
        ensures
            r == trunc_div(self@, 100),
    {
        proof {
            Self::lemma_trunc_div_in_range(self.cents as int, 100);
        }
        match self.cents.checked_div(100) {
            Some(d) => d,
            None => {
                proof {
                    assert(false);
                }
                0
            },
        }
    }

    /// Cent part of the magnitude, in 0..=99.
    pub fn cents_portion(&self) -> (r: u8)
        ensures
            r == abs_cents(self@) % 100,
    {
        proof {
            if self.cents < 0 {
                vstd::arithmetic::div_mod::lemma_mod_bound(-(self.cents as int), 100);
            } else {
                vstd::arithmetic::div_mod::lemma_mod_bound(self.cents as int, 100);
            }
        }
        let rem = match self.cents.checked_rem(100) {
            Some(m) => m,
            None => {
                proof {
                    assert(false);
                }
                0
            },
        };
        if rem < 0 {
            (-rem) as u8
        } else {
            rem as u8
        }
    }

    /// True when the amount is exactly zero.
    pub fn is_zero(&self) -> (r: bool)
        ensures
            r == (self@ == 0),
    {
        self.cents == 0
    }

    /// True when the amount is strictly positive.
    pub fn is_positive(&self) -> (r: bool)
        ensures
            r == (self@ > 0),
    {
        self.cents > 0
    }

    /// True when the amount is strictly negative.
    pub fn is_negative(&self) -> (r: bool)
        ensures
            r == (self@ < 0),
    {
        self.cents < 0
    }

    /// Magnitude of the amount.
    pub fn abs(self) -> (r: Money)
        requires
            self@ != i64::MIN,
        ensures
            r@ == abs_cents(self@),
    {
        if self.cents < 0 {
            Money { cents: -self.cents }
        } else {
            self
        }
    }

    /// The amount with its sign flipped.
    pub fn neg(self) -> (r: Money)
        requires
            self@ != i64::MIN,
        ensures
            r@ == -self@,
    {
        Money { cents: -self.cents }
    }

    /// Checked addition: the exact sum, or `Overflow` when it leaves the
    /// representable range in either direction.
    pub fn checked_add(self, other: Money) -> (r: Result<Money, MoneyError>)
        ensures
            i64::MIN <= self@ + other@ <= i64::MAX ==> (r matches Ok(m) && m@ == self@ + other@),
            !(i64::MIN <= self@ + other@ <= i64::MAX) ==> r == Err::<Money, MoneyError>(
                MoneyError::Overflow,
            ),
    {
        match self.cents.checked_add(other.cents) {
            Some(cents) => Ok(Money { cents }),
            None => Err(MoneyError::Overflow),
        }
    }

    /// Checked subtraction: the exact difference, or `Underflow` when it
    /// leaves the representable range in either direction.
    pub fn checked_sub(self, other: Money) -> (r: Result<Money, MoneyError>)
        ensures
            i64::MIN <= self@ - other@ <= i64::MAX ==> (r matches Ok(m) && m@ == self@ - other@),
            !(i64::MIN <= self@ - other@ <= i64::MAX) ==> r == Err::<Money, MoneyError>(
                MoneyError::Underflow,
            ),
    {
        match self.cents.checked_sub(other.cents) {
            Some(cents) => Ok(Money { cents }),
            None => Err(MoneyError::Underflow),
        }
    }

    /// Checked scalar multiplication by a count.
    pub fn checked_mul(self, multiplier: i64) -> (r: Result<Money, MoneyError>)
        ensures
            i64::MIN <= self@ * multiplier <= i64::MAX ==> (r matches Ok(m) && m@ == self@
                * multiplier),
            !(i64::MIN <= self@ * multiplier <= i64::MAX) ==> r == Err::<Money, MoneyError>(
                MoneyError::Overflow,
            ),
    {
        match self.cents.checked_mul(multiplier) {
            Some(cents) => Ok(Money { cents }),
            None => Err(MoneyError::Overflow),
        }
    }

    /// Checked scalar division, truncating toward zero.
    pub fn checked_div(self, divisor: i64) -> (r: Result<Money, MoneyError>)
        requires
            !(self@ == i64::MIN && divisor == -1),
        ensures
            divisor == 0 ==> r == Err::<Money, MoneyError>(MoneyError::DivisionByZero),
            divisor != 0 ==> (r matches Ok(m) && m@ == trunc_div(self@, divisor as int)),
    {
        if divisor == 0 {
            return Err(MoneyError::DivisionByZero);
        }
        proof {
            Self::lemma_trunc_div_in_range(self.cents as int, divisor as int);
        }
        match self.cents.checked_div(divisor) {
            Some(cents) => Ok(Money { cents }),
            None => {
                proof {
                    assert(false);
                }
                Err(MoneyError::DivisionByZero)
            },
        }
    }

    /// Renders the amount as a signed two-decimal dollar string,
    /// such as "$0.00" or "-$2.50".
    pub fn to_string(&self) -> (s: String)
        ensures
            s@ == money_string(self@),
    {
        let neg = self.cents < 0;
        let mag: u64 = if self.cents == i64::MIN {
            9223372036854775808u64
        } else if self.cents < 0 {
            (-self.cents) as u64
        } else {
            self.cents as u64
        };
        proof {
            assert(mag == abs_cents(self@));
            vstd::arithmetic::div_mod::lemma_mod_bound(mag as int, 100);
        }
        let mut s = String::new();
        if neg {
            s.append("-");
        }
        s.append("$");
        let ds = u64_to_string(mag / 100);
        s.append(ds.as_str());
        s.append(".");
        let cs = two_digit_string(mag % 100);
        s.append(cs.as_str());
        proof {
            reveal_strlit("-");
            reveal_strlit("$");
            reveal_strlit(".");
            assert(s@ =~= money_string(self@));
        }
        s
    }

    proof fn lemma_trunc_div_in_range(x: int, d: int)
        requires
            i64::MIN <= x <= i64::MAX,
            d != 0,
            !(x == i64::MIN && d == -1),
        ensures
            i64::MIN <= trunc_div(x, d) <= i64::MAX,
    {
        let m = abs_cents(x);
        let n = abs_cents(d);
        if m > 0 {
            vstd::arithmetic::div_mod::lemma_div_nonincreasing(m, n);
            vstd::arithmetic::div_mod::lemma_div_pos_is_pos(m, n);
            if n > 1 {
                vstd::arithmetic::div_mod::lemma_div_decreases(m, n);
            }
        }
    }
}

/// Adding an amount and then subtracting it again restores the original
/// value whenever the intermediate sum stays representable, and the
/// subtraction itself can never fail in that situation.
pub proof fn lemma_add_sub_round_trip(a: Money, b: Money)
    requires
        i64::MIN <= a@ + b@ <= i64::MAX,
    ensures
        i64::MIN <= (a@ + b@) - b@ <= i64::MAX,
        (a@ + b@) - b@ == a@,
{
}

} // verus!
