//! Gas fees and percentage increases, rounded up.
use vstd::prelude::*;

verus! {

/// `n` raised by `percent` percent, rounded up: the ceiling of `n * (100 + percent) / 100`.
pub open spec fn increased_by_percent(n: int, percent: int) -> int {
    (n * (100 + percent) + 99) / 100
}

/// Whether `n` raised by `percent` percent, rounded up, fits in `u128`.
pub open spec fn increase_fits(n: u128, percent: u64) -> bool {
    increased_by_percent(n as int, percent as int) <= u128::MAX
}

/// Splitting `n` into hundreds and a remainder: the raised value is the
/// hundreds raised exactly plus the remainder raised and rounded up.
proof fn lemma_increase_split(n: int, factor: int)
    requires
        n >= 0,
        factor >= 0,
    ensures
        (n * factor + 99) / 100 == (n / 100) * factor + ((n % 100) * factor + 99) / 100,
{
    let whole = n / 100;
    let rest = n % 100;
    vstd::arithmetic::div_mod::lemma_fundamental_div_mod(n, 100);
    assert(n * factor + 99 == (rest * factor + 99) + (whole * factor) * 100) by (nonlinear_arith)
        requires
            n == 100 * whole + rest,
    ;
    vstd::arithmetic::div_mod::lemma_hoist_over_denominator(rest * factor + 99, whole * factor, 100);
}

/// Raises `n` by `percent` percent, rounding up; `None` where the result exceeds `u128`.
pub fn checked_increase_by_percent(n: u128, percent: u64) -> (r: Option<u128>)
    ensures
        r.is_some() <==> increase_fits(n, percent),
        r.is_some() ==> r.unwrap() == increased_by_percent(n as int, percent as int),
{
    let factor: u128 = 100 + percent as u128;
    let whole: u128 = n / 100;
    let rest: u128 = n % 100;
    assert(rest * factor + 99 <= 100 * (u64::MAX + 100) + 99) by (nonlinear_arith)
        requires
            rest < 100,
            factor <= u64::MAX + 100,
    ;
    let rest_part: u128 = (rest * factor + 99) / 100;
    proof {
        lemma_increase_split(n as int, factor as int);
    }
    match whole.checked_mul(factor) {
        None => {
            assert(whole * factor > u128::MAX);
            None
        },
        Some(w) => w.checked_add(rest_part),
    }
}

/// Raises `n` by `percent` percent, rounding up.
pub fn increase_by_percent(n: u128, percent: u64) -> (r: u128)
    requires
        increase_fits(n, percent),
    ensures
        r == increased_by_percent(n as int, percent as int),
{
    match checked_increase_by_percent(n, percent) {
        Some(v) => v,
        None => 0,
    }
}

/// Whether `n` raised by `percent` percent, rounded up, fits in `u128`.
pub fn can_increase_by_percent(n: u128, percent: u64) -> (r: bool)
    ensures
        r == increase_fits(n, percent),
{
    checked_increase_by_percent(n, percent).is_some()
}

/// The two EIP-1559 fee fields of a transaction, in wei.
#[derive(Clone, Copy, Debug, PartialEq, Eq, Structural)]
pub struct GasFees {
    pub max_fee_per_gas: u128,
    pub max_priority_fee_per_gas: u128,
}

impl GasFees {
    /// Whether both fields can be raised by `percent` percent within `u128`.
    pub open spec fn increase_fits(&self, percent: u64) -> bool {
        increase_fits(self.max_fee_per_gas, percent) && increase_fits(
            self.max_priority_fee_per_gas,
            percent,
        )
    }

    /// Both fields raised by `percent` percent, each rounded up.
    pub open spec fn increased_spec(&self, percent: u64) -> GasFees {
        GasFees {
            max_fee_per_gas: increased_by_percent(
                self.max_fee_per_gas as int,
                percent as int,
            ) as u128,
            max_priority_fee_per_gas: increased_by_percent(
                self.max_priority_fee_per_gas as int,
                percent as int,
            ) as u128,
        }
    }

    /// Whether both fields are at least those of `floor`.
    pub open spec fn meets(&self, floor: GasFees) -> bool {
        self.max_fee_per_gas >= floor.max_fee_per_gas && self.max_priority_fee_per_gas
            >= floor.max_priority_fee_per_gas
    }

    /// Returns both fields raised by `percent` percent, each rounded up.
    pub fn increase_by_percent(&self, percent: u64) -> (r: GasFees)
        requires
            self.increase_fits(percent),
        ensures
            r == self.increased_spec(percent),
            r.max_fee_per_gas == increased_by_percent(self.max_fee_per_gas as int, percent as int),
            r.max_priority_fee_per_gas == increased_by_percent(
                self.max_priority_fee_per_gas as int,
                percent as int,
            ),
    {
        GasFees {
            max_fee_per_gas: increase_by_percent(self.max_fee_per_gas, percent),
            max_priority_fee_per_gas: increase_by_percent(self.max_priority_fee_per_gas, percent),
        }
    }

    /// Whether both fields can be raised by `percent` percent within `u128`.
    pub fn can_increase_by_percent(&self, percent: u64) -> (r: bool)
        ensures
            r == self.increase_fits(percent),
    {
        can_increase_by_percent(self.max_fee_per_gas, percent) && can_increase_by_percent(
            self.max_priority_fee_per_gas,
            percent,
        )
    }
}

/// A zero percent increase leaves a value unchanged.
pub proof fn lemma_increase_by_zero_is_identity(n: int)
    requires
        n >= 0,
    ensures
        increased_by_percent(n, 0) == n,
{
    assert(n * 100 == 100 * n) by (nonlinear_arith);
}

/// Raising by a larger percentage never gives a smaller value.
pub proof fn lemma_increase_monotone_in_percent(n: int, p: int, q: int)
    requires
        n >= 0,
        0 <= p <= q,
    ensures
        increased_by_percent(n, p) <= increased_by_percent(n, q),
{
    assert(n * (100 + p) <= n * (100 + q)) by (nonlinear_arith)
        requires
            n >= 0,
            p <= q,
    ;
    vstd::arithmetic::div_mod::lemma_div_is_ordered(n * (100 + p) + 99, n * (100 + q) + 99, 100);
}

/// Raising `n` gives at least `n`, and at least `(100 + percent) / 100` times `n`.
pub proof fn lemma_increase_ratio(n: int, percent: int)
    requires
        n >= 0,
        percent >= 0,
    ensures
        increased_by_percent(n, percent) >= n,
        100 * increased_by_percent(n, percent) >= n * (100 + percent),
{
    let m = n * (100 + percent);
    assert(m >= 100 * n) by (nonlinear_arith)
        requires
            n >= 0,
            percent >= 0,
            m == n * (100 + percent),
    ;
    vstd::arithmetic::div_mod::lemma_fundamental_div_mod(m + 99, 100);
    assert(100 * ((m + 99) / 100) + (m + 99) % 100 == m + 99);
}

/// Increasing fees by zero percent is always possible and gives the same fees back.
pub proof fn lemma_fees_increase_by_zero(fees: GasFees)
    ensures
        fees.increase_fits(0),
        fees.increased_spec(0) == fees,
{
    lemma_increase_by_zero_is_identity(fees.max_fee_per_gas as int);
    lemma_increase_by_zero_is_identity(fees.max_priority_fee_per_gas as int);
}

/// Increasing fees by a larger percentage gives each field at least the value
/// that a smaller percentage gives; where the larger increase fits in `u128`,
/// so does the smaller.
pub proof fn lemma_fees_increase_monotone(fees: GasFees, p: u64, q: u64)
    requires
        p <= q,
    ensures
        increased_by_percent(fees.max_fee_per_gas as int, p as int) <= increased_by_percent(
            fees.max_fee_per_gas as int,
            q as int,
        ),
        increased_by_percent(fees.max_priority_fee_per_gas as int, p as int)
            <= increased_by_percent(fees.max_priority_fee_per_gas as int, q as int),
        fees.increase_fits(q) ==> fees.increase_fits(p) && fees.increased_spec(q).meets(
            fees.increased_spec(p),
        ),
{
    lemma_increase_monotone_in_percent(fees.max_fee_per_gas as int, p as int, q as int);
    lemma_increase_monotone_in_percent(fees.max_priority_fee_per_gas as int, p as int, q as int);
}

} // verus!
