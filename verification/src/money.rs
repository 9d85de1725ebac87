use crate::expression::{sum_of, Expression, Sum};
use crate::rational::{in_i64, lemma_i64_mul_fits, lemma_mul_pos, rat_eq, rat_mul, Rational};
use crate::render::{dec_seq, dec_string, int_seq, int_string};
use vstd::prelude::*;
use vstd::string::StringExecFns;

verus! {

/// An immutable amount in a named currency.
///
/// The currency is an opaque, case-sensitive identifier such as `"USD"`;
/// it is not validated against any registry.
#[derive(Clone, Debug)]
pub struct Money {
    pub amount: Rational,
    pub currency: String,
}

/// Two `Money` values are equal when their amounts are numerically equal
/// and their currencies are exactly the same string.
pub open spec fn money_eq(a: Money, b: Money) -> bool {
    rat_eq(a.amount@, b.amount@) && a.currency@ == b.currency@
}

/// The rendering of a money value: the amount in decimal — as `num/den`
/// when the denominator is not `1` — a space, and the currency.
pub open spec fn money_string(m: Money) -> Seq<char> {
    let amount = if m.amount.den == 1 {
        int_seq(m.amount.num as int)
    } else {
        int_seq(m.amount.num as int) + seq!['/'] + dec_seq(m.amount.den as nat)
    };
    amount + seq![' '] + m.currency@
}

impl Money {
    /// The amount's denominator is positive.
    pub open spec fn wf(self) -> bool {
        self.amount.wf()
    }

    /// Builds a money value; the currency string is taken as given.
    pub fn new(amount: Rational, currency: &str) -> (r: Money)
        ensures
            r.amount == amount,
            r.currency@ == currency@,
    {
        Money { amount, currency: currency.to_owned() }
    }

    /// The amount.
    pub fn amount(&self) -> (a: Rational)
        ensures
            a == self.amount,
    {
        self.amount
    }

    /// The currency identifier.
    pub fn currency(&self) -> (c: String)
        ensures
            c@ == self.currency@,
    {
        self.currency.clone()
    }

    /// True when the amounts are numerically equal and the currencies are
    /// exactly the same string; never true across differing currencies,
    /// whatever the amounts.
    pub fn equals(&self, other: &Money) -> (r: bool)
        ensures
            r == money_eq(*self, *other),
    {
        self.amount.equals(&other.amount) && self.currency == other.currency
    }

    /// Scales the amount by `multiplier`; the currency is unchanged.
    pub fn times(&self, multiplier: Rational) -> (r: Money)
        requires
            self.wf(),
            multiplier.wf(),
            in_i64(rat_mul(self.amount@, multiplier@).0),
            in_i64(rat_mul(self.amount@, multiplier@).1),
        ensures
            r.amount@ == rat_mul(self.amount@, multiplier@),
            r.currency@ == self.currency@,
            r.wf(),
    {
        proof {
            lemma_i64_mul_fits(self.amount.num as int, multiplier.num as int);
            lemma_i64_mul_fits(self.amount.den as int, multiplier.den as int);
            lemma_mul_pos(self.amount.den as int, multiplier.den as int);
        }
        let n: i128 = (self.amount.num as i128) * (multiplier.num as i128);
        let d: i128 = (self.amount.den as i128) * (multiplier.den as i128);
        let amount = Rational { num: n as i64, den: d as i64 };
        Money { amount, currency: self.currency.clone() }
    }

    /// Renders this value as `"<amount> <currency>"`.
    pub fn to_string(&self) -> (r: String)
        requires
            self.wf(),
        ensures
            r@ == money_string(*self),
    {
        let mut s = int_string(self.amount.num);
        if self.amount.den != 1 {
            s = s.concat("/");
            let den = dec_string(self.amount.den as u64);
            s = s.concat(den.as_str());
        }
        s = s.concat(" ");
        let r = s.concat(self.currency.as_str());
        proof {
            reveal_strlit("/");
            reveal_strlit(" ");
            assert(r@ =~= money_string(*self));
        }
        r
    }

    /// Wraps copies of `self` and `other` into a sum expression; the two
    /// amounts are not combined here, since their currencies may differ.
    pub fn plus(&self, addend: &Money) -> (r: Expression)
        ensures
            sum_of(r, Expression::Money(*self), Expression::Money(*addend)),
            r.wf() == (self.wf() && addend.wf()),
    {
        proof {
            reveal_with_fuel(Expression::wf, 2);
        }
        let augend_copy = Money { amount: self.amount, currency: self.currency.clone() };
        let addend_copy = Money { amount: addend.amount, currency: addend.currency.clone() };
        Expression::Sum(
            Box::new(Sum::new(Expression::Money(augend_copy), Expression::Money(addend_copy))),
        )
    }
}

impl PartialEq for Money {
    /// Same meaning as [`Money::equals`].
    fn eq(&self, other: &Money) -> (r: bool) {
        self.equals(other)
    }
}

impl vstd::std_specs::cmp::PartialEqSpecImpl for Money {
    open spec fn obeys_eq_spec() -> bool {
        true
    }

    open spec fn eq_spec(&self, other: &Money) -> bool {
        money_eq(*self, *other)
    }
}

} // verus!
