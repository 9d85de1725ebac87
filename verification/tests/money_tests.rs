use money::{dec_string, int_string, Bank, Error, Expression, Money, Rational, Sum};

#[test]
fn test_multiplication() {
    let five = Money::new(Rational::from_int(5), "USD");
    assert!(Money::new(Rational::from_int(10), "USD") == five.times(Rational::from_int(2)));
    assert!(Money::new(Rational::from_int(15), "USD").equals(&five.times(Rational::from_int(3))));
}

#[test]
fn test_equality() {
    assert!(Money::new(Rational::from_int(5), "USD").equals(&Money::new(Rational::from_int(5), "USD")));
    assert!(!Money::new(Rational::from_int(5), "USD").equals(&Money::new(Rational::from_int(6), "USD")));
    assert!(Money::new(Rational::from_int(5), "CHF").equals(&Money::new(Rational::from_int(5), "CHF")));
}

#[test]
fn test_trait_based_equality() {
    assert!(Money::new(Rational::from_int(5), "USD") == Money::new(Rational::from_int(5), "USD"));
    assert!(Money::new(Rational::from_int(5), "USD") != Money::new(Rational::from_int(6), "USD"));
    assert!(Money::new(Rational::from_int(5), "CHF") != Money::new(Rational::from_int(5), "USD"));
}

#[test]
fn test_currency() {
    assert_eq!("USD", Money::new(Rational::from_int(5), "USD").currency());
    assert_eq!("CHF", Money::new(Rational::from_int(5), "CHF").currency());
}

#[test]
fn test_to_string() {
    assert_eq!("5 USD", Money::new(Rational::from_int(5), "USD").to_string());
}

#[test]
fn test_simple_addition() {
    let five = Money::new(Rational::from_int(5), "USD");
    let sum = five.plus(&five);
    let bank = Bank::new();
    let reduced = bank.reduce(sum, "USD").unwrap();
    assert!(reduced == Money::new(Rational::from_int(10), "USD"))
}

#[test]
fn test_plus_returns_sum() {
    let five = Money::new(Rational::from_int(5), "USD");
    let result = five.plus(&five);
    match result {
        Expression::Sum(sum) => {
            assert!(matches!(&sum.augend, Expression::Money(m) if five == *m));
            assert!(matches!(&sum.addend, Expression::Money(m) if five == *m));
        }
        Expression::Money(_) => panic!("plus must build a sum"),
    }
}

#[test]
fn test_reduce_sum() {
    let bank = Bank::new();
    let sum = Sum::new(
        Expression::Money(Money::new(Rational::from_int(3), "USD")),
        Expression::Money(Money::new(Rational::from_int(4), "USD")),
    );
    let result = bank.reduce(Expression::Sum(Box::new(sum)), "USD").unwrap();
    assert!(Money::new(Rational::from_int(7), "USD") == result);
}

#[test]
fn test_reduce_money() {
    let bank = Bank::new();
    let result = bank
        .reduce(Expression::Money(Money::new(Rational::from_int(1), "USD")), "USD")
        .unwrap();
    assert!(Money::new(Rational::from_int(1), "USD") == result)
}

#[test]
fn test_reduce_money_different_currency() {
    let mut bank = Bank::new();
    bank.add_rate("CHF", "USD", Rational::from_int(2));
    let result = bank
        .reduce(Expression::Money(Money::new(Rational::from_int(2), "CHF")), "USD")
        .unwrap();
    assert!(Money::new(Rational::from_int(1), "USD") == result)
}

#[test]
fn test_identity_rate() {
    assert!(Rational::from_int(1) == Bank::new().rate("USD", "USD").unwrap())
}

#[test]
fn test_mixed_addition() {
    let five_bucks = Money::new(Rational::from_int(5), "USD");
    let ten_francs = Money::new(Rational::from_int(10), "CHF");
    let mut bank = Bank::new();
    bank.add_rate("CHF", "USD", Rational::from_int(2));
    let result = bank.reduce(five_bucks.plus(&ten_francs), "USD").unwrap();
    assert!(Money::new(Rational::from_int(10), "USD") == result);
}

#[test]
fn test_missing_rate() {
    let bank = Bank::new();
    let r = bank.reduce(Expression::Money(Money::new(Rational::from_int(1), "CHF")), "USD");
    assert!(r == Err(Error::MissingRate));
}

#[test]
fn test_overflow_on_addition() {
    let bank = Bank::new();
    let big = Money::new(Rational::new(i64::MAX, 1), "USD");
    let e = big.plus(&big);
    assert!(matches!(bank.reduce(e, "USD"), Err(Error::Overflow)));
}

#[test]
fn test_overflow_on_conversion() {
    let mut bank = Bank::new();
    bank.add_rate("CHF", "USD", Rational::new(1, 2));
    let r = bank.reduce(
        Expression::Money(Money::new(Rational::new(i64::MAX, 1), "CHF")),
        "USD",
    );
    assert!(matches!(r, Err(Error::Overflow)));
}

#[test]
fn test_rate_overwrite() {
    let mut bank = Bank::new();
    bank.add_rate("CHF", "USD", Rational::from_int(3));
    bank.add_rate("CHF", "USD", Rational::from_int(2));
    assert!(Rational::from_int(2) == bank.rate("CHF", "USD").unwrap());
}

#[test]
fn test_identity_pair_never_stored() {
    let mut bank = Bank::new();
    bank.add_rate("USD", "USD", Rational::from_int(5));
    assert!(Rational::from_int(1) == bank.rate("USD", "USD").unwrap());
    assert!(bank.rate("CHF", "USD") == Err(Error::MissingRate));
}

#[test]
fn test_rates_are_directional() {
    let mut bank = Bank::new();
    bank.add_rate("CHF", "USD", Rational::from_int(2));
    assert!(Rational::from_int(2) == bank.rate("CHF", "USD").unwrap());
    assert!(bank.rate("USD", "CHF") == Err(Error::MissingRate));
}

#[test]
fn test_structure_insensitive() {
    let mut bank = Bank::new();
    bank.add_rate("CHF", "USD", Rational::from_int(2));
    let a = Money::new(Rational::from_int(1), "USD");
    let b = Money::new(Rational::from_int(3), "CHF");
    let c = Money::new(Rational::from_int(5), "USD");
    let left = Expression::Sum(Box::new(Sum::new(a.plus(&b), Expression::Money(c.clone()))));
    let right = Expression::Sum(Box::new(Sum::new(Expression::Money(a.clone()), b.plus(&c))));
    let reduced_left = bank.reduce(left, "USD").unwrap();
    let reduced_right = bank.reduce(right, "USD").unwrap();
    assert!(reduced_left == reduced_right);
    assert!(reduced_left == Money::new(Rational::new(15, 2), "USD"));
}

#[test]
fn test_reduce_bare_leaf_identity() {
    let bank = Bank::new();
    let m = Money::new(Rational::new(7, 3), "GBP");
    let r = bank.reduce(Expression::Money(m.clone()), "GBP").unwrap();
    assert!(r == m);
    assert_eq!("7/3 GBP", r.to_string());
}

#[test]
fn test_rational_numeric_equality() {
    assert!(Rational::new(10, 2).equals(&Rational::from_int(5)));
    assert!(!Rational::new(10, 2).equals(&Rational::from_int(4)));
    assert!(Money::new(Rational::new(10, 2), "USD") == Money::new(Rational::from_int(5), "USD"));
}

#[test]
fn test_times_scales_fractions_exactly() {
    let m = Money::new(Rational::new(3, 2), "EUR");
    let r = m.times(Rational::new(5, 3));
    assert!(r.equals(&Money::new(Rational::new(15, 6), "EUR")));
    assert_eq!("EUR", r.currency());
    assert!(Rational::new(15, 6) == r.amount());
}

#[test]
fn test_checked_arithmetic() {
    let a = Rational::new(1, 3);
    let b = Rational::new(1, 6);
    assert!(a.checked_add(&b).unwrap().equals(&Rational::new(1, 2)));
    assert!(Rational::new(i64::MAX, 1).checked_add(&Rational::from_int(1)).is_none());
    assert!(a.checked_mul(&b).unwrap().equals(&Rational::new(1, 18)));
    assert!(a.checked_div(&b).unwrap().equals(&Rational::from_int(2)));
}

#[test]
fn test_to_string_fraction_and_sign() {
    assert_eq!("-10/4 CHF", Money::new(Rational::new(-10, 4), "CHF").to_string());
    assert_eq!("0 EUR", Money::new(Rational::from_int(0), "EUR").to_string());
}

#[test]
fn test_decimal_rendering() {
    assert_eq!("0", dec_string(0));
    assert_eq!("907", dec_string(907));
    assert_eq!("-35", int_string(-35));
    assert_eq!("9223372036854775807", int_string(i64::MAX));
    assert_eq!("-9223372036854775808", int_string(i64::MIN));
}
