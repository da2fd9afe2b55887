//! Exact fixed-point money values.
//!
//! A [`Money`] stores a signed count of minor units; the value it stands for
//! is `units / 10^FRACTIONAL_DIGITS`.  Keeping every value at one fixed scale
//! makes addition, subtraction and comparison exact integer arithmetic, with
//! no rounding anywhere.  Balances may become negative (a deposit can be
//! disputed after its funds were withdrawn), so the count is signed.

use vstd::prelude::*;

verus! {

/// Number of decimal digits to the right of the point in every `Money` value.
pub const FRACTIONAL_DIGITS: u32 = 18;

/// Largest count of minor units, in either direction, that a well-formed
/// `Money` may carry.  The bound is loose enough for any realistic ledger and
/// leaves room in `i128` to evaluate every guard of the ledger's transitions
/// without overflow.
pub const MAX_UNITS: i128 = 10_000_000_000_000_000_000_000_000_000_000_000_000;

/// 10 raised to `n`.
pub open spec fn pow10(n: nat) -> int
    decreases n,
{
    if n == 0 {
        1
    } else {
        10 * pow10((n - 1) as nat)
    }
}

pub proof fn lemma_pow10_pos(n: nat)
    ensures
        pow10(n) >= 1,
    decreases n,
{
    if n > 0 {
        lemma_pow10_pos((n - 1) as nat);
    }
}

pub proof fn lemma_pow10_increases(a: nat, b: nat)
    requires
        a <= b,
    ensures
        pow10(a) <= pow10(b),
    decreases b,
{
    if a < b {
        lemma_pow10_increases(a, (b - 1) as nat);
        lemma_pow10_pos((b - 1) as nat);
    }
}

/// An exact decimal amount: a `Money` with count `u` stands for the decimal
/// number `u / 10^FRACTIONAL_DIGITS`.
#[derive(Clone, Copy, Debug, PartialEq, Eq, Structural)]
pub struct Money {
    pub units: i128,
}

impl View for Money {
    type V = int;

    open spec fn view(&self) -> int {
        self.units as int
    }
}

impl Money {
    /// A money value whose count of minor units stays within `MAX_UNITS`.
    pub open spec fn wf(self) -> bool {
        -MAX_UNITS <= self.units <= MAX_UNITS
    }

    /// A money value acceptable as a transaction amount: non-negative and
    /// within bounds.
    pub open spec fn is_amount(self) -> bool {
        0 <= self.units <= MAX_UNITS
    }

    pub fn zero() -> (r: Money)
        ensures
            r@ == 0,
    {
        Money { units: 0 }
    }

    pub fn from_units(units: i128) -> (r: Money)
        requires
            -MAX_UNITS <= units <= MAX_UNITS,
        ensures
            r@ == units,
            r.wf(),
    {
        Money { units }
    }

    pub fn units(&self) -> (r: i128)
        ensures
            r == self@,
    {
        self.units
    }

    /// Reads a decimal number given as `mantissa / 10^scale` into a `Money`,
    /// exactly.  Returns `None` when the value does not fit within
    /// `MAX_UNITS` minor units.
    pub fn from_scaled(mantissa: i128, scale: u32) -> (r: Option<Money>)
        requires
            scale <= FRACTIONAL_DIGITS,
        ensures
            ({
                let value = mantissa * pow10((FRACTIONAL_DIGITS - scale) as nat);
                match r {
                    Some(m) => m@ == value && m.wf() && (mantissa >= 0 ==> m.is_amount()),
                    None => value > MAX_UNITS || value < -MAX_UNITS,
                }
            }),
    {
        let mult = pow10_exec(FRACTIONAL_DIGITS - scale);
        match mantissa.checked_mul(mult) {
            Some(p) => {
                if -MAX_UNITS <= p && p <= MAX_UNITS {
                    proof {
                        lemma_pow10_pos((FRACTIONAL_DIGITS - scale) as nat);
                        assert(mantissa >= 0 ==> p >= 0) by (nonlinear_arith)
                            requires
                                p == mantissa * mult,
                                mult >= 1,
                        ;
                    }
                    Some(Money { units: p })
                } else {
                    None
                }
            },
            None => None,
        }
    }
}

/// 10 raised to `n`, as an executable value.
fn pow10_exec(n: u32) -> (r: i128)
    requires
        n <= FRACTIONAL_DIGITS,
    ensures
        r == pow10(n as nat),
{
    proof {
        reveal_with_fuel(pow10, 19);
        assert(pow10(FRACTIONAL_DIGITS as nat) == 1_000_000_000_000_000_000);
    }
    let mut r: i128 = 1;
    let mut i: u32 = 0;
    while i < n
        invariant
            i <= n <= FRACTIONAL_DIGITS,
            r == pow10(i as nat),
            pow10(FRACTIONAL_DIGITS as nat) == 1_000_000_000_000_000_000,
        decreases n - i,
    {
        proof {
            lemma_pow10_increases((i + 1) as nat, FRACTIONAL_DIGITS as nat);
            lemma_pow10_pos(i as nat);
        }
        r = r * 10;
        i = i + 1;
    }
    r
}

} // verus!
