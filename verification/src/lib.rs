//! Monetary values in multiple currencies, combined into expression trees
//! and reduced to a single currency through a bank's table of exchange rates.
//!
//! Amounts are exact rational numbers, so every conversion and sum is
//! computed and specified without rounding.

mod bank;
mod expression;
mod laws;
mod money;
mod rational;
mod render;

pub use bank::entries_map;
pub use bank::entry_key;
pub use bank::Bank;
pub use bank::Error;
pub use bank::RateEntry;
pub use expression::fits_spec;
pub use expression::money_fits_spec;
pub use expression::money_reduce_spec;
pub use expression::reduce_result_ok;
pub use expression::reduce_spec;
pub use expression::sum_fits_spec;
pub use expression::sum_of;
pub use expression::sum_reduce_spec;
pub use expression::Expression;
pub use expression::Sum;
pub use laws::lemma_identity_rate;
pub use laws::lemma_money_equality;
pub use laws::lemma_rat_add_assoc;
pub use laws::lemma_reduce_bare_leaf;
pub use laws::lemma_reduce_structure_insensitive;
pub use money::money_eq;
pub use money::money_string;
pub use money::Money;
pub use rational::in_i64;
pub use rational::rat_add;
pub use rational::rat_div;
pub use rational::rat_eq;
pub use rational::rat_mul;
pub use rational::Rational;
pub use render::dec_seq;
pub use render::dec_string;
pub use render::digit_char;
pub use render::int_seq;
pub use render::int_string;
