//! Which iterations of a run report progress, and how many iterations a run has.
use vstd::prelude::*;
use crate::types::{ConfigurationError, TPrecision};

verus! {

/// Exponent linking precision and work: a run has `precision^EXPONENT` iterations.
pub const EXPONENT: u32 = 10;

/// `x^10` over the integers.
pub open spec fn pow10(x: int) -> int {
    x * x * x * x * x * x * x * x * x * x
}

/// Number of iterations of a run at `precision`.
pub open spec fn total_spec(precision: nat) -> int {
    pow10(precision as int)
}

/// Checkpoint modulus: `(precision - 2)^10`, floored to 1 for `precision <= 2`.
pub open spec fn modulus_spec(precision: nat) -> int {
    if precision <= 2 { 1 } else { pow10(precision - 2) }
}

/// Whether iteration `n` reports progress under modulus `m`.
pub open spec fn is_checkpoint_spec(n: nat, m: nat) -> bool {
    m > 0 && n % m == 0
}

proof fn lemma_pow10_monotone(a: int, b: int)
    requires
        0 <= a <= b,
    ensures
        0 <= pow10(a) <= pow10(b),
{
    assert(0 <= pow10(a) <= pow10(b)) by (nonlinear_arith)
        requires 0 <= a <= b;
}

proof fn lemma_pow10_positive(a: int)
    requires
        a >= 1,
    ensures
        pow10(a) >= 1,
{
    lemma_pow10_monotone(1, a);
}

/// `x^10` with overflow detection: `None` exactly when the power exceeds `u64::MAX`.
fn checked_pow10(x: u64) -> (r: Option<u64>)
    ensures
        match r {
            Some(v) => v == pow10(x as int),
            None => pow10(x as int) > u64::MAX,
        },
{
    let mut acc: u64 = 1;
    let mut i: u32 = 0;
    while i < EXPONENT
        invariant
            i <= EXPONENT,
            acc as int == pow_int(x as int, i as nat),
        decreases EXPONENT - i,
    {
        match acc.checked_mul(x) {
            Some(v) => {
                acc = v;
                i = i + 1;
            },
            None => {
                proof {
                    assert(pow_int(x as int, (i + 1) as nat) > u64::MAX);
                    lemma_pow_grows(x as int, (i + 1) as nat, 10);
                    lemma_pow_int_10(x as int);
                }
                return None;
            },
        }
    }
    proof {
        lemma_pow_int_10(x as int);
    }
    Some(acc)
}

/// `x^k` over the integers.
pub open spec fn pow_int(x: int, k: nat) -> int
    decreases k,
{
    if k == 0 { 1 } else { pow_int(x, (k - 1) as nat) * x }
}

proof fn lemma_pow_int_10(x: int)
    ensures
        pow_int(x, 10) == pow10(x),
{
    reveal_with_fuel(pow_int, 11);
}

proof fn lemma_pow_grows(x: int, j: nat, k: nat)
    requires
        x >= 0,
        j <= k,
        pow_int(x, j) > u64::MAX,
    ensures
        pow_int(x, k) > u64::MAX,
    decreases k - j,
{
    if j < k {
        assert(x >= 1) by {
            if x == 0 {
                assert(pow_int(x, j) == 0 || pow_int(x, j) == 1) by {
                    if j > 0 {
                        assert(pow_int(x, j) == pow_int(x, (j - 1) as nat) * 0);
                    }
                }
            }
        }
        let p = pow_int(x, j);
        assert(p * x >= p) by (nonlinear_arith)
            requires p > 0, x >= 1;
        lemma_pow_grows(x, j + 1, k);
    }
}

/// Iterations in a run at `precision`, or an error when that count does not fit in a `u64`.
pub fn total_iterations(precision: TPrecision) -> (r: Result<u64, ConfigurationError>)
    ensures
        match r {
            Ok(t) => t == total_spec(precision as nat),
            Err(e) => e == ConfigurationError::IterationCountOverflow
                && total_spec(precision as nat) > u64::MAX,
        },
{
    match checked_pow10(precision) {
        Some(t) => Ok(t),
        None => Err(ConfigurationError::IterationCountOverflow),
    }
}

/// Checkpoint modulus for a run at `precision`; never zero.
pub fn checkpoint_modulus(precision: TPrecision) -> (r: u64)
    requires
        total_spec(precision as nat) <= u64::MAX,
    ensures
        r == modulus_spec(precision as nat),
        r >= 1,
{
    if precision <= 2 {
        1
    } else {
        proof {
            lemma_pow10_monotone(precision - 2, precision as int);
            lemma_pow10_positive(precision - 2);
        }
        match checked_pow10(precision - 2) {
            Some(m) => m,
            None => 1,
        }
    }
}

/// Whether iteration `n` reports progress under `modulus`.
pub fn is_checkpoint(n: u64, modulus: u64) -> (r: bool)
    requires
        modulus >= 1,
    ensures
        r == is_checkpoint_spec(n as nat, modulus as nat),
{
    n % modulus == 0
}

/// The first iteration of every run reports progress.
pub proof fn lemma_first_iteration_reports(precision: nat)
    ensures
        is_checkpoint_spec(0, modulus_spec(precision) as nat),
{
    if precision > 2 {
        lemma_pow10_positive(precision - 2);
    }
}

/// At precision 2 or less the modulus is 1, so every iteration reports progress.
pub proof fn lemma_small_precision_reports_every_iteration(precision: nat, n: nat)
    requires
        precision <= 2,
    ensures
        modulus_spec(precision) == 1,
        is_checkpoint_spec(n, modulus_spec(precision) as nat),
{
}

} // verus!
