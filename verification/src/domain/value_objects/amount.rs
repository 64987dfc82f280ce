//! A payment amount in cents, bounded between one cent and one million reais.

use vstd::prelude::*;

use crate::domain::error::ValidationError;
use crate::text::{decimal, decimal_value, digit_char, lemma_decimal_value, lemma_digit_char, push, push_decimal};

verus! {

/// An amount of money in cents (centavos), from `Amount::MIN` to `Amount::MAX`.
pub struct Amount(u64);

impl View for Amount {
    type V = u64;

    closed spec fn view(&self) -> u64 {
        self.0
    }
}

/// The two-digit, zero-padded rendering of `c` (`0 <= c < 100`).
pub open spec fn two_digits(c: nat) -> Seq<char> {
    seq![digit_char((c / 10) as int), digit_char((c % 10) as int)]
}

/// `"<reais>.<centavos>"` for an amount of `cents` cents, the centavos on two digits.
pub open spec fn currency_text(cents: nat) -> Seq<char> {
    decimal(cents / 100) + seq!['.'] + two_digits(cents % 100)
}

/// `currency()` renders the amount exactly: the digits before the `'.'` are
/// the reais, the two after it the centavos, and together they make the cents.
pub proof fn law_currency_is_exact(cents: nat)
    ensures
        ({
            let t = currency_text(cents);
            &&& t.len() >= 4
            &&& t[t.len() - 3] == '.'
            &&& decimal_value(t.take(t.len() - 3)) * 100 + decimal_value(t.skip(t.len() - 2)) == cents
        }),
{
    let t = currency_text(cents);
    let r = decimal(cents / 100);
    lemma_decimal_value(cents / 100);
    assert(t.take(t.len() - 3) =~= r);
    lemma_digit_char(((cents % 100) / 10) as int);
    lemma_digit_char(((cents % 100) % 10) as int);
    let c = t.skip(t.len() - 2);
    assert(c =~= two_digits(cents % 100));
    let hi = ((cents % 100) / 10) as int;
    let lo = ((cents % 100) % 10) as int;
    assert(c.drop_last() =~= seq![digit_char(hi)]);
    assert(c.drop_last().drop_last() =~= Seq::<char>::empty());
    assert(decimal_value(c.drop_last().drop_last()) == 0);
    assert(decimal_value(c.drop_last()) == hi);
    assert(decimal_value(c) == hi * 10 + lo);
    assert(cents == (cents / 100) * 100 + hi * 10 + lo);
}

impl Amount {
    /// The smallest amount accepted, in cents.
    pub const MIN: u64 = 1;

    /// The largest amount accepted, in cents (one million reais).
    pub const MAX: u64 = 100_000_000;

    #[verifier::type_invariant]
    spec fn well_formed(self) -> bool {
        Self::MIN <= self.0 <= Self::MAX
    }

    /// Accepts `value` cents when it lies in `MIN..=MAX`; otherwise `InvalidAmount`.
    pub fn new(value: u64) -> (r: Result<Self, ValidationError>)
        ensures
            r is Ok <==> Self::MIN <= value <= Self::MAX,
            r matches Ok(a) ==> a@ == value,
            r matches Err(e) ==> e == ValidationError::InvalidAmount,
    {
        if value < Self::MIN {
            return Err(ValidationError::InvalidAmount);
        }
        if value > Self::MAX {
            return Err(ValidationError::InvalidAmount);
        }
        Ok(Self(value))
    }

    /// The amount in cents.
    pub fn cents(&self) -> (r: u64)
        ensures
            r == self@,
            Self::MIN <= r <= Self::MAX,
    {
        proof {
            use_type_invariant(self);
        }
        self.0
    }

    /// The amount in reais with two decimals, such as `"10.50"`.
    pub fn currency(&self) -> (r: String)
        ensures
            r@ == currency_text(self@ as nat),
    {
        let reais = self.0 / 100;
        let centavos = self.0 % 100;
        let mut r = String::new();
        push_decimal(&mut r, reais);
        push(&mut r, '.');
        push_decimal(&mut r, centavos / 10);
        push_decimal(&mut r, centavos % 10);
        assert(decimal((centavos / 10) as nat) == seq![digit_char((centavos / 10) as int)]);
        assert(decimal((centavos % 10) as nat) == seq![digit_char((centavos % 10) as int)]);
        assert(r@ =~= currency_text(self@ as nat));
        r
    }
}

} // verus!
