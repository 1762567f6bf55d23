use vstd::prelude::*;

use crate::error::CalcError;

verus! {

/// The largest argument whose factorial fits in a `u64`.
pub const MAX_FACTORIAL_ARG: u32 = 20;

/// n! = 1 * 2 * ... * n, with 0! = 1.
pub open spec fn fact(n: nat) -> nat
    decreases n,
{
    if n == 0 {
        1
    } else {
        n * fact((n - 1) as nat)
    }
}

/// Factorials never shrink as the argument grows.
pub proof fn lemma_fact_monotone(i: nat, j: nat)
    requires
        i <= j,
    ensures
        1 <= fact(i) <= fact(j),
    decreases j,
{
    if j > 0 {
        if i == j {
            lemma_fact_monotone((j - 1) as nat, (j - 1) as nat);
        } else {
            lemma_fact_monotone(i, (j - 1) as nat);
        }
        assert(fact((j - 1) as nat) <= j * fact((j - 1) as nat)) by (nonlinear_arith)
            requires
                j >= 1,
                fact((j - 1) as nat) >= 1,
        ;
    }
}

/// The value of 20!, which is below `u64::MAX`.
pub proof fn lemma_fact_twenty()
    ensures
        fact(20) == 2432902008176640000,
        fact(20) <= u64::MAX,
{
    reveal_with_fuel(fact, 21);
}

/// n! for n up to 20, and `Overflow` for every larger n.
pub fn factorial(n: u32) -> (r: Result<u64, CalcError>)
    ensures
        n > MAX_FACTORIAL_ARG ==> r == Err::<u64, CalcError>(CalcError::Overflow),
        n <= MAX_FACTORIAL_ARG ==> r == Ok::<u64, CalcError>(fact(n as nat) as u64),
        n <= MAX_FACTORIAL_ARG ==> fact(n as nat) <= u64::MAX,
{
    if n > MAX_FACTORIAL_ARG {
        return Err(CalcError::Overflow);
    }
    proof {
        lemma_fact_twenty();
        lemma_fact_monotone(n as nat, 20);
    }
    let mut result: u64 = 1;
    let mut i: u32 = 2;
    assert(fact(0) == 1 && fact(1) == 1) by {
        reveal_with_fuel(fact, 2);
    }
    while i <= n
        invariant
            2 <= i,
            i <= n + 1 || i == 2,
            n <= MAX_FACTORIAL_ARG,
            result as nat == fact((i - 1) as nat),
        decreases n + 1 - i,
    {
        proof {
            lemma_fact_monotone(i as nat, 20);
            lemma_fact_twenty();
        }
        match result.checked_mul(i as u64) {
            Some(p) => {
                result = p;
            },
            None => {
                return Err(CalcError::Overflow);
            },
        }
        i = i + 1;
    }
    assert(result as nat == fact(n as nat));
    Ok(result)
}

} // verus!
