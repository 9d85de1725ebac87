use crate::expression::{fits_spec, reduce_result_ok, reduce_spec, Expression};
use crate::money::Money;
use crate::rational::Rational;
use vstd::prelude::*;

verus! {

/// Why a reduction or a rate lookup fails.
#[derive(Clone, Copy, Debug, PartialEq, Eq, Structural)]
pub enum Error {
    /// No rate is stored for the requested ordered currency pair.
    MissingRate,
    /// An exact amount left the representable range.
    Overflow,
}

/// One stored exchange rate: the directed pair `(from, to)` and a positive
/// divisor, meaning `amount_in_from / rate == amount_in_to`.
#[derive(Debug)]
pub struct RateEntry {
    pub from: String,
    pub to: String,
    pub rate: Rational,
}

/// The key under which a stored entry is looked up.
pub open spec fn entry_key(e: RateEntry) -> (Seq<char>, Seq<char>) {
    (e.from@, e.to@)
}

/// The rate table that a sequence of stored entries denotes: a map from
/// ordered currency pairs to rates, later entries overriding earlier ones.
pub open spec fn entries_map(s: Seq<RateEntry>) -> Map<(Seq<char>, Seq<char>), Rational>
    decreases s.len(),
{
    if s.len() == 0 {
        Map::empty()
    } else {
        entries_map(s.drop_last()).insert(entry_key(s.last()), s.last().rate)
    }
}

/// Holds directed currency-pair conversion rates and drives the reduction
/// of expressions to a requested currency.
///
/// The table starts empty and grows only through [`Bank::add_rate`];
/// an identity pair is never stored.
#[derive(Debug)]
pub struct Bank {
    pub rates: Vec<RateEntry>,
}

impl View for Bank {
    type V = Map<(Seq<char>, Seq<char>), Rational>;

    open spec fn view(&self) -> Map<(Seq<char>, Seq<char>), Rational> {
        entries_map(self.rates@)
    }
}

/// If no stored entry carries the key `k`, the table has no rate for `k`.
proof fn lemma_no_entry_absent(s: Seq<RateEntry>, k: (Seq<char>, Seq<char>))
    requires
        forall|j: int| 0 <= j < s.len() ==> entry_key(#[trigger] s[j]) != k,
    ensures
        !entries_map(s).contains_key(k),
    decreases s.len(),
{
    if s.len() > 0 {
        assert(forall|j: int|
            0 <= j < s.drop_last().len() ==> entry_key(#[trigger] s.drop_last()[j]) != k);
        lemma_no_entry_absent(s.drop_last(), k);
    }
}

/// The entry with key `k` that no later entry overrides gives the table's
/// rate for `k`.
proof fn lemma_last_entry_found(s: Seq<RateEntry>, i: int, k: (Seq<char>, Seq<char>))
    requires
        0 <= i < s.len(),
        entry_key(s[i]) == k,
        forall|j: int| i < j < s.len() ==> entry_key(#[trigger] s[j]) != k,
    ensures
        entries_map(s).contains_key(k),
        entries_map(s)[k] == s[i].rate,
    decreases s.len(),
{
    if i == s.len() - 1 {
        assert(s.last() == s[i]);
    } else {
        assert(s.drop_last()[i] == s[i]);
        assert(forall|j: int|
            i < j < s.drop_last().len() ==> entry_key(#[trigger] s.drop_last()[j]) != k);
        lemma_last_entry_found(s.drop_last(), i, k);
        assert(entry_key(s.last()) != k);
    }
}

impl Bank {
    /// Every stored entry has a well-formed, positive rate, and never an
    /// identity pair.
    pub open spec fn wf(self) -> bool {
        forall|j: int| 0 <= j < self.rates@.len() ==> {
            &&& (#[trigger] self.rates@[j]).rate.wf()
            &&& self.rates@[j].rate.num > 0
            &&& self.rates@[j].from@ != self.rates@[j].to@
        }
    }

    /// The rate the bank answers for `(from, to)`: `1` on the identity
    /// pair, the stored rate where one exists, nothing otherwise.
    pub open spec fn rate_spec(self, from: Seq<char>, to: Seq<char>) -> Option<Rational> {
        if from == to {
            Some(Rational { num: 1, den: 1 })
        } else if self@.contains_key((from, to)) {
            Some(self@[(from, to)])
        } else {
            None
        }
    }

    /// Builds a bank with an empty rate table.
    pub fn new() -> (r: Bank)
        ensures
            r@ == Map::<(Seq<char>, Seq<char>), Rational>::empty(),
            r.wf(),
    {
        Bank { rates: Vec::new() }
    }

    /// Stores (or overwrites) the directed rate for `(from, to)`.
    ///
    /// An identity pair is skipped, never stored: identity conversions
    /// always use rate `1`. A non-positive rate is ruled out up front,
    /// since reduction divides by the stored rate.
    pub fn add_rate(&mut self, from: &str, to: &str, rate: Rational)
        requires
            old(self).wf(),
            rate.wf(),
            rate.num > 0,
        ensures
            final(self).wf(),
            from@ == to@ ==> *final(self) == *old(self),
            from@ != to@ ==> final(self)@ == old(self)@.insert((from@, to@), rate),
    {
        let f: String = from.to_owned();
        let t: String = to.to_owned();
        if f != t {
            let ghost old_rates = self.rates@;
            self.rates.push(RateEntry { from: f, to: t, rate });
            proof {
                assert(self.rates@.drop_last() =~= old_rates);
            }
        }
    }

    /// Answers `1` on the identity pair; otherwise the stored rate for
    /// `(from, to)`, or `MissingRate` where none exists. No fallback runs
    /// through an intermediate currency or a reversed entry.
    pub fn rate(&self, from: &str, to: &str) -> (r: Result<Rational, Error>)
        requires
            self.wf(),
        ensures
            match r {
                Ok(v) => {
                    &&& self.rate_spec(from@, to@) == Some(v)
                    &&& v.wf()
                    &&& v.num > 0
                },
                Err(e) => {
                    &&& self.rate_spec(from@, to@) is None
                    &&& e == Error::MissingRate
                },
            },
    {
        let f: String = from.to_owned();
        let t: String = to.to_owned();
        if f == t {
            return Ok(Rational::new(1, 1));
        }
        let n: usize = self.rates.len();
        let mut i: usize = n;
        while i > 0
            invariant
                i <= n,
                n == self.rates@.len(),
                f@ == from@,
                t@ == to@,
                self.wf(),
                forall|j: int| i <= j < n ==> entry_key(#[trigger] self.rates@[j]) != (from@, to@),
            decreases i,
        {
            i = i - 1;
            let e = &self.rates[i];
            if e.from == f && e.to == t {
                proof {
                    lemma_last_entry_found(self.rates@, i as int, (from@, to@));
                }
                return Ok(e.rate);
            }
        }
        proof {
            lemma_no_entry_absent(self.rates@, (from@, to@));
        }
        Err(Error::MissingRate)
    }

    /// Reduces `source` to a single money value in the currency `to`,
    /// delegating to the expression itself. This is the entry point
    /// callers use.
    pub fn reduce(&self, source: Expression, to: &str) -> (r: Result<Money, Error>)
        requires
            self.wf(),
            source.wf(),
        ensures
            reduce_result_ok(
                reduce_spec(source, to@, *self),
                fits_spec(source, to@, *self),
                to@,
                r,
            ),
    {
        source.reduce(to, self)
    }
}

} // verus!
