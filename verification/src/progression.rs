//! The arithmetic behind the stream: which value is handed out at which tick.

use vstd::arithmetic::div_mod::{lemma_add_mod_noop, lemma_small_mod};
use vstd::prelude::*;
use vstd::wrapping::u64_specs::wrapping_add;

verus! {

/// Number of distinct `u64` values: sums are taken modulo this.
pub open spec fn modulus() -> int {
    0x1_0000_0000_0000_0000
}

/// The value handed out at tick `n`, counting from zero, by a stream that
/// starts at `initial` and steps by `increment`: `initial + n * increment`,
/// reduced modulo two to the sixty-fourth.
pub open spec fn nth_value(initial: u64, increment: u64, n: nat) -> u64 {
    ((initial + n * increment) % modulus()) as u64
}

/// The first value of a progression is its starting value.
pub proof fn lemma_nth_value_first(initial: u64, increment: u64)
    ensures
        nth_value(initial, increment, 0) == initial,
{
    assert(0 * increment == 0) by (nonlinear_arith);
    lemma_small_mod(initial as nat, modulus() as nat);
}

/// Each value of a progression is the one before it plus the increment,
/// where the sum wraps around instead of overflowing.
pub proof fn lemma_nth_value_next(initial: u64, increment: u64, n: nat)
    ensures
        nth_value(initial, increment, n + 1) == wrapping_add(
            nth_value(initial, increment, n),
            increment,
        ),
{
    let m = modulus();
    let before = initial + n * increment;
    let reduced = before % m;
    assert((n + 1) * increment == n * increment + increment) by (nonlinear_arith);
    assert((before + increment) % m == (reduced + increment) % m) by {
        lemma_add_mod_noop(before, increment as int, m);
        lemma_add_mod_noop(reduced, increment as int, m);
        lemma_small_mod(reduced as nat, m as nat);
    }
    if reduced + increment >= m {
        assert((reduced + increment) % m == reduced + increment - m) by {
            lemma_add_mod_noop(reduced + increment - m, m, m);
            lemma_small_mod((reduced + increment - m) as nat, m as nat);
        }
    } else {
        lemma_small_mod((reduced + increment) as nat, m as nat);
    }
}

/// With an increment of zero every value of a progression is its starting
/// value.
pub proof fn lemma_nth_value_constant(initial: u64, n: nat)
    ensures
        nth_value(initial, 0, n) == initial,
{
    assert(n * 0 == 0) by (nonlinear_arith);
    lemma_small_mod(initial as nat, modulus() as nat);
}

} // verus!
