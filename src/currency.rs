//! Currency conversion through a table of rates against the euro.
//!
//! A rate is the number of nano-units of a currency that buy one euro. An
//! amount converts exactly: its nano total is multiplied by the target rate,
//! divided by the source rate, and truncated toward zero.

use crate::money::{
    canonical, in_working_range, representable, total_is_representable, Money,
    MoneyView,
};
use vstd::arithmetic::div_mod::{lemma_fundamental_div_mod, lemma_hoist_over_denominator};
use vstd::arithmetic::mul::lemma_mul_is_distributive_add;
use vstd::prelude::*;

verus! {

/// Why a conversion gives no result.
#[derive(Debug, Clone, Copy, PartialEq, Eq, Structural)]
pub enum ConversionError {
    /// The source or the target currency has no rate.
    UnsupportedCurrency,
    /// The converted amount has more whole units than an `i64` holds.
    Overflow,
}

/// The rate of one currency: how many nano-units of it buy one euro.
#[derive(Clone, Debug)]
pub struct ExchangeRate {
    pub currency_code: String,
    pub nanos_per_euro: u64,
}

/// The table of exchange rates, one per currency code.
pub struct CurrencyService {
    pub rates: Vec<ExchangeRate>,
}

/// `total` nano-units at rate `from_rate`, expressed at rate `to_rate`,
/// truncated toward zero.
pub open spec fn converted_total(total: int, from_rate: int, to_rate: int) -> int {
    if total >= 0 {
        (total * to_rate) / from_rate
    } else {
        -(((-total) * to_rate) / from_rate)
    }
}

impl CurrencyService {
    /// Codes are unique and every rate is positive.
    pub open spec fn wf(&self) -> bool {
        &&& forall|i: int, j: int|
            0 <= i < j < self.rates@.len() ==> self.rates@[i].currency_code@
                != self.rates@[j].currency_code@
        &&& forall|i: int| 0 <= i < self.rates@.len() ==> self.rates@[i].nanos_per_euro > 0
    }

    pub open spec fn supports(&self, code: Seq<char>) -> bool {
        exists|i: int| 0 <= i < self.rates@.len() && self.rates@[i].currency_code@ == code
    }

    /// The rate of a supported currency.
    pub open spec fn rate(&self, code: Seq<char>) -> int {
        self.rates@[choose|i: int|
            0 <= i < self.rates@.len() && self.rates@[i].currency_code@ == code].nanos_per_euro
            as int
    }

    /// The result of converting `m` into the currency `to`.
    pub open spec fn convert_spec(&self, m: MoneyView, to: Seq<char>) -> Result<
        MoneyView,
        ConversionError,
    > {
        if !self.supports(m.currency) || !self.supports(to) {
            Err(ConversionError::UnsupportedCurrency)
        } else if !representable(
            converted_total(m.total(), self.rate(m.currency), self.rate(to)),
        ) {
            Err(ConversionError::Overflow)
        } else {
            Ok(canonical(to, converted_total(m.total(), self.rate(m.currency), self.rate(to))))
        }
    }

    proof fn lemma_rate_at(&self, i: int)
        requires
            self.wf(),
            0 <= i < self.rates@.len(),
        ensures
            self.supports(self.rates@[i].currency_code@),
            self.rate(self.rates@[i].currency_code@) == self.rates@[i].nanos_per_euro,
    {
        let code = self.rates@[i].currency_code@;
        let j = choose|j: int| 0 <= j < self.rates@.len() && self.rates@[j].currency_code@ == code;
        assert(0 <= j < self.rates@.len() && self.rates@[j].currency_code@ == code);
        if j < i {
            assert(self.rates@[j].currency_code@ != self.rates@[i].currency_code@);
        } else if i < j {
            assert(self.rates@[i].currency_code@ != self.rates@[j].currency_code@);
        }
    }

    /// An empty table.
    pub fn new() -> (r: CurrencyService)
        ensures
            r.wf(),
            r.rates@.len() == 0,
    {
        CurrencyService { rates: Vec::new() }
    }

    /// Where the rate of `code` stands in the table, if it has one.
    fn position(&self, code: &String) -> (r: Option<usize>)
        requires
            self.wf(),
        ensures
            r is None <==> !self.supports(code@),
            r matches Some(i) ==> i < self.rates@.len() && self.rates@[i as int].currency_code@
                == code@,
    {
        let mut i: usize = 0;
        while i < self.rates.len()
            invariant
                i <= self.rates@.len(),
                forall|j: int| 0 <= j < i ==> self.rates@[j].currency_code@ != code@,
            decreases self.rates.len() - i,
        {
            if self.rates[i].currency_code == *code {
                return Some(i);
            }
            i += 1;
        }
        None
    }

    /// Sets the rate of `code`, replacing any rate it had.
    pub fn set_rate(&mut self, code: String, nanos_per_euro: u64)
        requires
            old(self).wf(),
            nanos_per_euro > 0,
        ensures
            final(self).wf(),
            final(self).supports(code@),
            final(self).rate(code@) == nanos_per_euro,
            forall|c: Seq<char>|
                c != code@ ==> (final(self).supports(c) == old(self).supports(c)),
            forall|c: Seq<char>|
                c != code@ && old(self).supports(c) ==> final(self).rate(c) == old(self).rate(c),
    {
        let ghost before = *self;
        let ghost code_view = code@;
        match self.position(&code) {
            Some(i) => {
                self.rates.set(i, ExchangeRate { currency_code: code, nanos_per_euro });
                proof {
                    assert forall|c: Seq<char>| c != code_view implies (self.supports(c)
                        == before.supports(c)) by {
                        if before.supports(c) {
                            let j = choose|j: int|
                                0 <= j < before.rates@.len() && before.rates@[j].currency_code@
                                    == c;
                            assert(self.rates@[j].currency_code@ == c);
                        }
                        if self.supports(c) {
                            let j = choose|j: int|
                                0 <= j < self.rates@.len() && self.rates@[j].currency_code@ == c;
                            assert(before.rates@[j].currency_code@ == c);
                        }
                    }
                    assert forall|c: Seq<char>|
                        c != code_view && before.supports(c) implies self.rate(c) == before.rate(
                        c,
                    ) by {
                        let j = choose|j: int|
                            0 <= j < before.rates@.len() && before.rates@[j].currency_code@ == c;
                        before.lemma_rate_at(j);
                        self.lemma_rate_at(j);
                    }
                    self.lemma_rate_at(i as int);
                }
            },
            None => {
                self.rates.push(ExchangeRate { currency_code: code, nanos_per_euro });
                proof {
                    let n = before.rates@.len() as int;
                    assert forall|c: Seq<char>| c != code_view implies (self.supports(c)
                        == before.supports(c)) by {
                        if before.supports(c) {
                            let j = choose|j: int|
                                0 <= j < before.rates@.len() && before.rates@[j].currency_code@
                                    == c;
                            assert(self.rates@[j].currency_code@ == c);
                        }
                        if self.supports(c) {
                            let j = choose|j: int|
                                0 <= j < self.rates@.len() && self.rates@[j].currency_code@ == c;
                            assert(before.rates@[j].currency_code@ == c);
                        }
                    }
                    assert forall|c: Seq<char>|
                        c != code_view && before.supports(c) implies self.rate(c) == before.rate(
                        c,
                    ) by {
                        let j = choose|j: int|
                            0 <= j < before.rates@.len() && before.rates@[j].currency_code@ == c;
                        before.lemma_rate_at(j);
                        self.lemma_rate_at(j);
                    }
                    self.lemma_rate_at(n);
                }
            },
        }
    }

    /// The codes of all currencies with a rate, in table order.
    pub fn get_supported_currencies(&self) -> (r: Vec<String>)
        ensures
            r@.len() == self.rates@.len(),
            forall|i: int| 0 <= i < r@.len() ==> r@[i]@ == self.rates@[i].currency_code@,
    {
        let mut r: Vec<String> = Vec::new();
        let mut i: usize = 0;
        while i < self.rates.len()
            invariant
                i <= self.rates@.len(),
                r@.len() == i,
                forall|j: int| 0 <= j < i ==> r@[j]@ == self.rates@[j].currency_code@,
            decreases self.rates.len() - i,
        {
            r.push(self.rates[i].currency_code.clone());
            i += 1;
        }
        r
    }

    /// The rate of `currency_code`.
    pub fn get_per_euro(&self, currency_code: &str) -> (r: Result<u64, ConversionError>)
        requires
            self.wf(),
        ensures
            r is Err <==> !self.supports(currency_code@),
            r matches Err(e) ==> e == ConversionError::UnsupportedCurrency,
            r matches Ok(rate) ==> rate == self.rate(currency_code@) && rate > 0,
    {
        let code = currency_code.to_owned();
        match self.position(&code) {
            Some(i) => {
                proof {
                    self.lemma_rate_at(i as int);
                }
                Ok(self.rates[i].nanos_per_euro)
            },
            None => Err(ConversionError::UnsupportedCurrency),
        }
    }

    /// Converts `from` into the currency `to`.
    pub fn convert(&self, from: &Money, to: &str) -> (r: Result<Money, ConversionError>)
        requires
            self.wf(),
        ensures
            match r {
                Ok(m) => self.convert_spec(from@, to@) == Ok::<MoneyView, ConversionError>(m@),
                Err(e) => self.convert_spec(from@, to@) == Err::<MoneyView, ConversionError>(e),
            },
    {
        let from_rate = self.get_per_euro(from.currency_code.as_str())?;
        let to_rate = self.get_per_euro(to)?;
        let total = from.total_nanos();
        let magnitude: u128 = if total >= 0 {
            total as u128
        } else {
            (-total) as u128
        };
        let scaled = match scale_magnitude(magnitude, from_rate, to_rate) {
            Some(v) => v,
            None => {
                proof {
                    lemma_large_not_representable(
                        converted_total(total as int, from_rate as int, to_rate as int),
                    );
                }
                return Err(ConversionError::Overflow);
            },
        };
        if scaled >= 0x4000_0000_0000_0000_0000_0000_0000_0000 {
            proof {
                lemma_large_not_representable(
                    converted_total(total as int, from_rate as int, to_rate as int),
                );
            }
            return Err(ConversionError::Overflow);
        }
        let converted: i128 = if total >= 0 {
            scaled as i128
        } else {
            -(scaled as i128)
        };
        assert(in_working_range(converted as int));
        if !total_is_representable(converted) {
            return Err(ConversionError::Overflow);
        }
        Ok(Money::from_total(to.to_owned(), converted))
    }
}

/// A nano total of at least 2^126 in magnitude has too many whole units.
proof fn lemma_large_not_representable(total: int)
    requires
        total >= 0x4000_0000_0000_0000_0000_0000_0000_0000 || total <= -0x4000_0000_0000_0000_0000_0000_0000_0000
            || total > u128::MAX || total < -u128::MAX,
    ensures
        !representable(total),
{
    if total >= 0 {
        lemma_fundamental_div_mod(total, 1_000_000_000);
    } else {
        lemma_fundamental_div_mod(-total, 1_000_000_000);
    }
}

/// `magnitude * to_rate / from_rate`, or `None` where that exceeds a `u128`.
fn scale_magnitude(magnitude: u128, from_rate: u64, to_rate: u64) -> (r: Option<u128>)
    requires
        from_rate > 0,
    ensures
        r matches Some(v) ==> v == (magnitude * to_rate) / (from_rate as int),
        r is None ==> (magnitude * to_rate) / (from_rate as int) > u128::MAX,
{
    let f: u128 = from_rate as u128;
    let t: u128 = to_rate as u128;
    let q: u128 = magnitude / f;
    let rem: u128 = magnitude % f;
    proof {
        let (rm, tt, ff) = (rem as int, t as int, f as int);
        assert(0 <= rm * tt <= (ff - 1) * tt) by (nonlinear_arith)
            requires
                0 <= rm < ff,
                0 <= tt,
        ;
        assert((ff - 1) * tt <= u128::MAX) by (nonlinear_arith)
            requires
                0 < ff <= u64::MAX,
                0 <= tt <= u64::MAX,
        ;
        lemma_fundamental_div_mod(magnitude as int, f as int);
        // magnitude * t == (q * t) * f + rem * t
        assert(magnitude as int == f * q + rem);
        lemma_mul_is_distributive_add(t as int, f * q, rem as int);
        assert((magnitude as int) * (t as int) == (q as int * t as int) * (f as int) + (rem as int)
            * (t as int)) by (nonlinear_arith)
            requires
                magnitude as int == f * q + rem,
        ;
        lemma_hoist_over_denominator((rem as int) * (t as int), q as int * t as int, f as nat);
    }
    let low: u128 = rem * t / f;
    match q.checked_mul(t) {
        Some(high) => {
            match high.checked_add(low) {
                Some(v) => Some(v),
                None => None,
            }
        },
        None => {
            proof {
                assert(low >= 0);
            }
            None
        },
    }
}

/// Converting into the currency an amount already has gives that amount back.
pub proof fn convert_to_own_currency(service: CurrencyService, m: MoneyView)
    requires
        service.wf(),
        service.supports(m.currency),
        m.is_normalized(),
        m.fits(),
    ensures
        service.convert_spec(m, m.currency) == Ok::<MoneyView, ConversionError>(m),
{
    let r = service.rate(m.currency);
    let i = choose|i: int|
        0 <= i < service.rates@.len() && service.rates@[i].currency_code@ == m.currency;
    service.lemma_rate_at(i);
    let t = m.total();
    if t >= 0 {
        vstd::arithmetic::div_mod::lemma_div_by_multiple(t, r);
    } else {
        vstd::arithmetic::div_mod::lemma_div_by_multiple(-t, r);
    }
    crate::money::lemma_canonical_of_normalized(m);
}

} // verus!
