//! Exact fixed-point money: whole units plus nano-units (10^-9) of one currency.
//!
//! Every amount is modelled by its currency and its total count of nano-units.
//! Results of arithmetic are always in canonical form: `|nanos| < 10^9`, and
//! `units` and `nanos` never have opposite signs.

use vstd::arithmetic::div_mod::{lemma_fundamental_div_mod, lemma_fundamental_div_mod_converse_div};
use vstd::prelude::*;

verus! {

/// Nano-units in one whole unit of a currency.
pub const NANOS_PER_UNIT: i128 = 1_000_000_000;

/// Why a money operation gives no result.
#[derive(Debug, Clone, Copy, PartialEq, Eq, Structural)]
pub enum MoneyError {
    /// The operands are in different currencies.
    CurrencyMismatch,
    /// The result has more whole units than an `i64` holds.
    Overflow,
}

/// An amount of money: `units + nanos * 10^-9` in the currency `currency_code`.
#[derive(Clone, Debug)]
pub struct Money {
    pub currency_code: String,
    pub units: i64,
    pub nanos: i32,
}

/// The mathematical model of a `Money`.
pub struct MoneyView {
    pub currency: Seq<char>,
    pub units: int,
    pub nanos: int,
}

impl MoneyView {
    /// The amount as a count of nano-units.
    pub open spec fn total(self) -> int {
        self.units * 1_000_000_000 + self.nanos
    }

    /// Canonical form: nanos below one unit, and units and nanos of one sign.
    pub open spec fn is_normalized(self) -> bool {
        &&& -1_000_000_000 < self.nanos < 1_000_000_000
        &&& self.units > 0 ==> self.nanos >= 0
        &&& self.units < 0 ==> self.nanos <= 0
    }

    /// The fields fit the machine types of `Money`.
    pub open spec fn fits(self) -> bool {
        &&& i64::MIN <= self.units <= i64::MAX
        &&& i32::MIN <= self.nanos <= i32::MAX
    }
}

impl View for Money {
    type V = MoneyView;

    open spec fn view(&self) -> MoneyView {
        MoneyView { currency: self.currency_code@, units: self.units as int, nanos: self.nanos as int }
    }
}

/// Whole units of a nano total, truncated toward zero.
pub open spec fn units_of(total: int) -> int {
    if total >= 0 {
        total / 1_000_000_000
    } else {
        -((-total) / 1_000_000_000)
    }
}

/// The canonical amount of `total` nano-units in `currency`.
pub open spec fn canonical(currency: Seq<char>, total: int) -> MoneyView {
    MoneyView {
        currency,
        units: units_of(total),
        nanos: total - units_of(total) * 1_000_000_000,
    }
}

/// A nano total whose canonical form has whole units that fit an `i64`.
pub open spec fn representable(total: int) -> bool {
    i64::MIN <= units_of(total) <= i64::MAX
}

/// The code of the US dollar, the currency of the empty sum.
pub open spec fn usd() -> Seq<char> {
    seq!['U', 'S', 'D']
}

/// Zero US dollars.
pub open spec fn zero_usd() -> MoneyView {
    MoneyView { currency: usd(), units: 0, nanos: 0 }
}

/// The sum of two amounts of one currency, in canonical form.
pub open spec fn add_spec(a: MoneyView, b: MoneyView) -> Result<MoneyView, MoneyError> {
    if a.currency != b.currency {
        Err(MoneyError::CurrencyMismatch)
    } else if !representable(a.total() + b.total()) {
        Err(MoneyError::Overflow)
    } else {
        Ok(canonical(a.currency, a.total() + b.total()))
    }
}

/// `n` times an amount, in canonical form.
pub open spec fn scale_spec(n: nat, m: MoneyView) -> Result<MoneyView, MoneyError> {
    if representable(n * m.total()) {
        Ok(canonical(m.currency, n * m.total()))
    } else {
        Err(MoneyError::Overflow)
    }
}

/// Left fold of `add_spec` over `s`; one amount sums to itself, none to zero US dollars.
pub open spec fn sum_spec(s: Seq<MoneyView>) -> Result<MoneyView, MoneyError>
    decreases s.len(),
{
    if s.len() == 0 {
        Ok(zero_usd())
    } else if s.len() == 1 {
        Ok(s[0])
    } else {
        match sum_spec(s.drop_last()) {
            Ok(acc) => add_spec(acc, s.last()),
            Err(e) => Err(e),
        }
    }
}

/// The model of a money result.
pub open spec fn view_result(r: Result<Money, MoneyError>) -> Result<MoneyView, MoneyError> {
    match r {
        Ok(m) => Ok(m@),
        Err(e) => Err(e),
    }
}

/// The models of a list of amounts.
pub open spec fn views(s: Seq<Money>) -> Seq<MoneyView> {
    s.map_values(|m: Money| m@)
}

/// A nano total small enough for the `i128` arithmetic of this module: it
/// holds the total of any `Money` times any `u32`.
pub open spec fn in_working_range(total: int) -> bool {
    -0x4000_0000_0000_0000_0000_0000_0000_0000 < total < 0x4000_0000_0000_0000_0000_0000_0000_0000
}

proof fn lemma_units_of_bounds(total: int)
    ensures
        total >= 0 ==> 0 <= total - units_of(total) * 1_000_000_000 < 1_000_000_000,
        total < 0 ==> -1_000_000_000 < total - units_of(total) * 1_000_000_000 <= 0,
        total >= 0 ==> units_of(total) >= 0,
        total < 0 ==> units_of(total) <= 0,
{
    if total >= 0 {
        lemma_fundamental_div_mod(total, 1_000_000_000);
    } else {
        lemma_fundamental_div_mod(-total, 1_000_000_000);
    }
}

/// Whether the canonical form of `total` fits a `Money`.
pub(crate) fn total_is_representable(total: i128) -> (r: bool)
    requires
        in_working_range(total as int),
    ensures
        r == representable(total as int),
{
    let units: i128 = if total >= 0 {
        total / NANOS_PER_UNIT
    } else {
        -((-total) / NANOS_PER_UNIT)
    };
    i64::MIN as i128 <= units && units <= i64::MAX as i128
}

impl Money {
    /// The amount as a count of nano-units.
    pub fn total_nanos(&self) -> (r: i128)
        ensures
            r == self@.total(),
    {
        self.units as i128 * NANOS_PER_UNIT + self.nanos as i128
    }

    /// The canonical amount of `total` nano-units in `currency_code`.
    pub(crate) fn from_total(currency_code: String, total: i128) -> (r: Money)
        requires
            representable(total as int),
            in_working_range(total as int),
        ensures
            r@ == canonical(currency_code@, total as int),
    {
        proof {
            lemma_units_of_bounds(total as int);
        }
        let units: i128 = if total >= 0 {
            total / NANOS_PER_UNIT
        } else {
            -((-total) / NANOS_PER_UNIT)
        };
        let nanos: i128 = total - units * NANOS_PER_UNIT;
        Money { currency_code, units: units as i64, nanos: nanos as i32 }
    }

    /// A copy of this amount.
    pub fn duplicate(&self) -> (r: Money)
        ensures
            r == *self,
    {
        Money { currency_code: self.currency_code.clone(), units: self.units, nanos: self.nanos }
    }

    /// Carries nano-units into whole units, so that the result is canonical
    /// and has the same value.
    pub fn normalize(self) -> (r: Money)
        requires
            representable(self@.total()),
        ensures
            r@ == canonical(self@.currency, self@.total()),
    {
        let total = self.total_nanos();
        Money::from_total(self.currency_code, total)
    }

    /// An amount of US dollars and cents.
    pub fn from_usd(dollars: i64, cents: i32) -> (r: Money)
        requires
            representable(dollars * 1_000_000_000 + cents * 10_000_000),
        ensures
            r@ == canonical(usd(), dollars * 1_000_000_000 + cents * 10_000_000),
    {
        let total: i128 = dollars as i128 * NANOS_PER_UNIT + cents as i128 * 10_000_000;
        let code = "USD".to_owned();
        proof {
            reveal_strlit("USD");
            assert(code@ =~= usd());
        }
        Money::from_total(code, total)
    }

    /// The sum of two amounts of one currency.
    pub fn add(&self, other: &Money) -> (r: Result<Money, MoneyError>)
        ensures
            view_result(r) == add_spec(self@, other@),
    {
        if !(self.currency_code == other.currency_code) {
            return Err(MoneyError::CurrencyMismatch);
        }
        let total: i128 = self.total_nanos() + other.total_nanos();
        if !total_is_representable(total) {
            return Err(MoneyError::Overflow);
        }
        Ok(Money::from_total(self.currency_code.clone(), total))
    }

    /// `n` times an amount.
    pub fn scale(n: u32, m: &Money) -> (r: Result<Money, MoneyError>)
        ensures
            view_result(r) == scale_spec(n as nat, m@),
    {
        let t = m.total_nanos();
        proof {
            let (a, b) = (n as int, t as int);
            assert(-0x4000_0000_0000_0000_0000_0000_0000_0000 < a * b < 0x4000_0000_0000_0000_0000_0000_0000_0000)
                by (nonlinear_arith)
                requires
                    0 <= a < 0x1_0000_0000,
                    -0x4000_0000_0000_0000_0000_0000 < b < 0x4000_0000_0000_0000_0000_0000,
            ;
        }
        let total: i128 = n as i128 * t;
        if !total_is_representable(total) {
            return Err(MoneyError::Overflow);
        }
        Ok(Money::from_total(m.currency_code.clone(), total))
    }

    /// The left-to-right sum of amounts of one currency; the empty sum is
    /// zero US dollars.
    pub fn sum(items: &Vec<Money>) -> (r: Result<Money, MoneyError>)
        ensures
            view_result(r) == sum_spec(views(items@)),
    {
        if items.len() == 0 {
            return Ok(Money::default());
        }
        let mut acc = items[0].duplicate();
        proof {
            assert(views(items@.subrange(0, 1)) =~= seq![items@[0]@]);
        }
        let mut i: usize = 1;
        while i < items.len()
            invariant
                1 <= i <= items.len(),
                sum_spec(views(items@.subrange(0, i as int))) == Ok::<MoneyView, MoneyError>(acc@),
            decreases items.len() - i,
        {
            let ghost next_prefix = views(items@.subrange(0, i + 1));
            proof {
                assert(next_prefix.drop_last() =~= views(items@.subrange(0, i as int)));
            }
            match acc.add(&items[i]) {
                Ok(next) => {
                    acc = next;
                },
                Err(e) => {
                    proof {
                        assert(views(items@).subrange(0, i + 1) =~= next_prefix);
                        lemma_sum_error_persists(views(items@), i + 1);
                    }
                    return Err(e);
                },
            }
            i += 1;
        }
        proof {
            assert(items@.subrange(0, items.len() as int) =~= items@);
        }
        Ok(acc)
    }
}

impl Default for Money {
    /// Zero US dollars.
    fn default() -> (r: Money)
        ensures
            r@ == zero_usd(),
    {
        let code = "USD".to_owned();
        proof {
            reveal_strlit("USD");
            assert(code@ =~= usd());
        }
        Money { currency_code: code, units: 0, nanos: 0 }
    }
}

proof fn lemma_sum_error_persists(s: Seq<MoneyView>, k: int)
    requires
        2 <= k <= s.len(),
        sum_spec(s.subrange(0, k)) is Err,
    ensures
        sum_spec(s) == sum_spec(s.subrange(0, k)),
    decreases s.len(),
{
    if s.len() > k {
        assert(s.drop_last().subrange(0, k) =~= s.subrange(0, k));
        lemma_sum_error_persists(s.drop_last(), k);
    } else {
        assert(s.subrange(0, k) =~= s);
    }
}

/// A canonical amount whose units fit an `i64` is its own canonical form.
pub(crate) proof fn lemma_canonical_of_normalized(m: MoneyView)
    requires
        m.is_normalized(),
        m.fits(),
    ensures
        canonical(m.currency, m.total()) == m,
        representable(m.total()),
{
    let t = m.total();
    if t >= 0 {
        if m.units < 0 {
            assert(m.units * 1_000_000_000 <= -1_000_000_000);
        }
        lemma_fundamental_div_mod_converse_div(t, 1_000_000_000, m.units, m.nanos);
    } else {
        if m.units > 0 {
            assert(m.units * 1_000_000_000 >= 1_000_000_000);
        }
        lemma_fundamental_div_mod_converse_div(-t, 1_000_000_000, -m.units, -m.nanos);
    }
}

/// Normalizing any amount gives canonical form and keeps its value.
pub proof fn normalize_keeps_value(m: MoneyView)
    ensures
        canonical(m.currency, m.total()).is_normalized(),
        canonical(m.currency, m.total()).total() == m.total(),
        canonical(m.currency, m.total()).currency == m.currency,
{
    lemma_units_of_bounds(m.total());
}

/// The nano totals of a list of amounts, added up.
pub open spec fn totals(s: Seq<MoneyView>) -> int
    decreases s.len(),
{
    if s.len() == 0 {
        0
    } else {
        totals(s.drop_last()) + s.last().total()
    }
}

/// A sum of one or more amounts, where it can be computed, has the value of
/// its terms added up, in the currency of the first.
pub proof fn sum_value(s: Seq<MoneyView>)
    ensures
        s.len() > 0 ==> (sum_spec(s) matches Ok(t) ==> t.total() == totals(s) && t.currency
            == s[0].currency),
    decreases s.len(),
{
    if s.len() > 1 {
        sum_value(s.drop_last());
        assert(s.drop_last()[0] == s[0]);
    } else if s.len() == 1 {
        assert(totals(s.drop_last()) == 0);
        assert(s.last() == s[0]);
    }
}

/// Addition is commutative.
pub proof fn add_commutative(a: MoneyView, b: MoneyView)
    ensures
        add_spec(a, b) == add_spec(b, a),
{
}

/// Addition is associative wherever the two inner sums can be represented.
pub proof fn add_associative(a: MoneyView, b: MoneyView, c: MoneyView)
    requires
        representable(a.total() + b.total()),
        representable(b.total() + c.total()),
    ensures
        (match add_spec(a, b) {
            Ok(ab) => add_spec(ab, c),
            Err(e) => Err(e),
        }) == (match add_spec(b, c) {
            Ok(bc) => add_spec(a, bc),
            Err(e) => Err(e),
        }),
{
    lemma_units_of_bounds(a.total() + b.total());
    lemma_units_of_bounds(b.total() + c.total());
}

/// Adding amounts of different currencies always fails with a mismatch.
pub proof fn add_rejects_mixed_currencies(a: MoneyView, b: MoneyView)
    requires
        a.currency != b.currency,
    ensures
        add_spec(a, b) == Err::<MoneyView, MoneyError>(MoneyError::CurrencyMismatch),
{
}

/// Zero times an amount is zero in its currency.
pub proof fn scale_by_zero(m: MoneyView)
    ensures
        scale_spec(0, m) == Ok::<MoneyView, MoneyError>(MoneyView { currency: m.currency, units: 0, nanos: 0 }),
{
}

/// One times a canonical amount is that amount.
pub proof fn scale_by_one(m: MoneyView)
    requires
        m.is_normalized(),
        m.fits(),
    ensures
        scale_spec(1, m) == Ok::<MoneyView, MoneyError>(m),
{
    lemma_canonical_of_normalized(m);
}

} // verus!
