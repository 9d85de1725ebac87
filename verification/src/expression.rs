use crate::bank::{Bank, Error};
use crate::money::Money;
use crate::rational::{in_i64, rat_add, rat_div};
use vstd::prelude::*;

verus! {

/// Anything that can be reduced to a single `Money` in a target currency:
/// either a bare money value, or a sum of two sub-expressions, nested
/// arbitrarily.
#[derive(Debug)]
pub enum Expression {
    Money(Money),
    Sum(Box<Sum>),
}

/// The sum of two sub-expressions; the children are fixed at construction.
#[derive(Debug)]
pub struct Sum {
    pub augend: Expression,
    pub addend: Expression,
}

/// `e` is a sum expression with children `augend` and `addend`.
pub open spec fn sum_of(e: Expression, augend: Expression, addend: Expression) -> bool {
    match e {
        Expression::Sum(s) => s.augend == augend && s.addend == addend,
        _ => false,
    }
}

impl Expression {
    /// Every money leaf has a positive denominator.
    pub open spec fn wf(self) -> bool
        decreases self,
    {
        match self {
            Expression::Money(m) => m.wf(),
            Expression::Sum(s) => s.augend.wf() && s.addend.wf(),
        }
    }
}

impl Sum {
    /// Both children are well-formed.
    pub open spec fn wf(self) -> bool {
        self.augend.wf() && self.addend.wf()
    }

    /// Builds the sum of two expressions.
    pub fn new(augend: Expression, addend: Expression) -> (r: Sum)
        ensures
            r.augend == augend,
            r.addend == addend,
    {
        Sum { augend, addend }
    }
}

/// The exact value, as a rational, of a money leaf reduced to `to`:
/// its amount divided by the bank's rate, or nothing when the rate is
/// missing.
pub open spec fn money_reduce_spec(m: Money, to: Seq<char>, bank: Bank) -> Option<(int, int)> {
    match bank.rate_spec(m.currency@, to) {
        Some(r) => Some(rat_div(m.amount@, r@)),
        None => None,
    }
}

/// Whether reducing a money leaf to `to` stays in the representable range.
pub open spec fn money_fits_spec(m: Money, to: Seq<char>, bank: Bank) -> bool {
    match bank.rate_spec(m.currency@, to) {
        Some(r) => in_i64(rat_div(m.amount@, r@).0) && in_i64(rat_div(m.amount@, r@).1),
        None => true,
    }
}

/// The exact value of an expression reduced to `to`: money leaves are
/// converted through the bank's rates, and a sum adds the exact values of
/// its children. Nothing, when a rate is missing anywhere in the tree.
pub open spec fn reduce_spec(e: Expression, to: Seq<char>, bank: Bank) -> Option<(int, int)>
    decreases e,
{
    match e {
        Expression::Money(m) => money_reduce_spec(m, to, bank),
        Expression::Sum(s) => sum_reduce_spec(*s, to, bank),
    }
}

/// The exact value of a sum reduced to `to`; see [`reduce_spec`].
pub open spec fn sum_reduce_spec(s: Sum, to: Seq<char>, bank: Bank) -> Option<(int, int)>
    decreases s,
{
    match (reduce_spec(s.augend, to, bank), reduce_spec(s.addend, to, bank)) {
        (Some(a), Some(b)) => Some(rat_add(a, b)),
        _ => None,
    }
}

/// Whether every intermediate value of the reduction stays in the
/// representable range.
pub open spec fn fits_spec(e: Expression, to: Seq<char>, bank: Bank) -> bool
    decreases e,
{
    match e {
        Expression::Money(m) => money_fits_spec(m, to, bank),
        Expression::Sum(s) => sum_fits_spec(*s, to, bank),
    }
}

/// Whether reducing a sum stays in the representable range; see
/// [`fits_spec`].
pub open spec fn sum_fits_spec(s: Sum, to: Seq<char>, bank: Bank) -> bool
    decreases s,
{
    &&& fits_spec(s.augend, to, bank)
    &&& fits_spec(s.addend, to, bank)
    &&& match (reduce_spec(s.augend, to, bank), reduce_spec(s.addend, to, bank)) {
        (Some(a), Some(b)) => in_i64(rat_add(a, b).0) && in_i64(rat_add(a, b).1),
        _ => true,
    }
}

/// What a reduction returns, given the exact value `v` and whether the
/// computation fits: the exact money in currency `to` where both hold,
/// `MissingRate` exactly when a rate is missing, and `Overflow` exactly
/// when the exact value exists but leaves the representable range.
pub open spec fn reduce_result_ok(
    v: Option<(int, int)>,
    fits: bool,
    to: Seq<char>,
    r: Result<Money, Error>,
) -> bool {
    match r {
        Ok(m) => {
            &&& v is Some
            &&& fits
            &&& m.amount@ == v.unwrap()
            &&& m.currency@ == to
            &&& m.wf()
        },
        Err(Error::MissingRate) => v is None,
        Err(Error::Overflow) => v is Some && !fits,
    }
}

impl Money {
    /// Converts this amount to the currency `to`: the amount is divided by
    /// `bank`'s rate for `(self.currency, to)`.
    pub fn reduce(&self, to: &str, bank: &Bank) -> (r: Result<Money, Error>)
        requires
            self.wf(),
            bank.wf(),
        ensures
            reduce_result_ok(
                money_reduce_spec(*self, to@, *bank),
                money_fits_spec(*self, to@, *bank),
                to@,
                r,
            ),
    {
        match bank.rate(self.currency.as_str(), to) {
            Ok(rate) => match self.amount.checked_div(&rate) {
                Some(v) => Ok(Money { amount: v, currency: to.to_owned() }),
                None => Err(Error::Overflow),
            },
            Err(e) => Err(e),
        }
    }
}

impl Sum {
    /// Reduces both children to the currency `to` and adds the resulting
    /// amounts. A missing rate anywhere in either child invalidates the
    /// whole reduction.
    pub fn reduce(&self, to: &str, bank: &Bank) -> (r: Result<Money, Error>)
        requires
            self.wf(),
            bank.wf(),
        ensures
            reduce_result_ok(
                sum_reduce_spec(*self, to@, *bank),
                sum_fits_spec(*self, to@, *bank),
                to@,
                r,
            ),
        decreases *self,
    {
        let ra = self.augend.reduce(to, bank);
        let rb = self.addend.reduce(to, bank);
        match (ra, rb) {
            (Ok(ma), Ok(mb)) => match ma.amount.checked_add(&mb.amount) {
                Some(v) => Ok(Money { amount: v, currency: to.to_owned() }),
                None => Err(Error::Overflow),
            },
            (Err(Error::MissingRate), _) => Err(Error::MissingRate),
            (_, Err(Error::MissingRate)) => Err(Error::MissingRate),
            _ => Err(Error::Overflow),
        }
    }
}

impl Expression {
    /// Reduces this expression to a single money value in the currency
    /// `to`, using `bank`'s rate table.
    pub fn reduce(&self, to: &str, bank: &Bank) -> (r: Result<Money, Error>)
        requires
            self.wf(),
            bank.wf(),
        ensures
            reduce_result_ok(reduce_spec(*self, to@, *bank), fits_spec(*self, to@, *bank), to@, r),
        decreases *self,
    {
        match self {
            Expression::Money(m) => m.reduce(to, bank),
            Expression::Sum(s) => s.reduce(to, bank),
        }
    }
}

} // verus!
