use crate::bank::Bank;
use crate::expression::{fits_spec, reduce_spec, sum_of, sum_reduce_spec, Expression};
use crate::money::{money_eq, Money};
use crate::rational::{rat_add, rat_eq, Rational};
use vstd::prelude::*;

verus! {

/// A money value equals itself, and equality fails as soon as the amounts
/// differ numerically or the currencies differ at all — never true across
/// differing currencies, whatever the amounts.
pub proof fn lemma_money_equality(a: Money, b: Money)
    ensures
        money_eq(a, a),
        !rat_eq(a.amount@, b.amount@) ==> !money_eq(a, b),
        a.currency@ != b.currency@ ==> !money_eq(a, b),
{
}

/// Any bank — in particular one with no stored rates — answers rate `1`
/// for an identity pair.
pub proof fn lemma_identity_rate(bank: Bank, x: Seq<char>)
    ensures
        bank.rate_spec(x, x) == Some(Rational { num: 1, den: 1 }),
{
}

/// Rational addition of unnormalized fractions is associative, exactly.
#[verifier::rlimit(50)]
proof fn lemma_add_assoc_products(x0: int, x1: int, y0: int, y1: int, z0: int, z1: int)
    by (nonlinear_arith)
    ensures
        (x0 * y1 + y0 * x1) * z1 + z0 * (x1 * y1) == x0 * (y1 * z1) + (y0 * z1 + z0 * y1) * x1,
        (x1 * y1) * z1 == x1 * (y1 * z1),
{
}

/// Adding three rationals gives the same exact value whichever pair is
/// added first.
pub proof fn lemma_rat_add_assoc(x: (int, int), y: (int, int), z: (int, int))
    ensures
        rat_add(rat_add(x, y), z) == rat_add(x, rat_add(y, z)),
{
    lemma_add_assoc_products(x.0, x.1, y.0, y.1, z.0, z.1);
}

/// The shape of the tree does not affect the exact result of a reduction:
/// `(a + b) + c` and `a + (b + c)` reduce to the same value in any
/// currency, against any bank — and the one is missing a rate exactly
/// when the other is.
pub proof fn lemma_reduce_structure_insensitive(
    e1: Expression,
    e2: Expression,
    l: Expression,
    r: Expression,
    a: Expression,
    b: Expression,
    c: Expression,
    to: Seq<char>,
    bank: Bank,
)
    requires
        sum_of(e1, l, c),
        sum_of(l, a, b),
        sum_of(e2, a, r),
        sum_of(r, b, c),
    ensures
        reduce_spec(e1, to, bank) == reduce_spec(e2, to, bank),
{
    let ra = reduce_spec(a, to, bank);
    let rb = reduce_spec(b, to, bank);
    let rc = reduce_spec(c, to, bank);
    let s1 = e1->Sum_0;
    let sl = l->Sum_0;
    let s2 = e2->Sum_0;
    let sr = r->Sum_0;
    assert(reduce_spec(l, to, bank) == sum_reduce_spec(*sl, to, bank));
    assert(reduce_spec(r, to, bank) == sum_reduce_spec(*sr, to, bank));
    assert(reduce_spec(e1, to, bank) == sum_reduce_spec(*s1, to, bank));
    assert(reduce_spec(e2, to, bank) == sum_reduce_spec(*s2, to, bank));
    if ra is Some && rb is Some && rc is Some {
        lemma_rat_add_assoc(ra.unwrap(), rb.unwrap(), rc.unwrap());
    }
}

/// Reducing a bare money leaf to its own currency is the identity path
/// through rate `1`: the exact value is the leaf's own amount, and it
/// always fits.
pub proof fn lemma_reduce_bare_leaf(m: Money, bank: Bank)
    requires
        m.wf(),
    ensures
        reduce_spec(Expression::Money(m), m.currency@, bank) == Some(m.amount@),
        fits_spec(Expression::Money(m), m.currency@, bank),
{
}

} // verus!
