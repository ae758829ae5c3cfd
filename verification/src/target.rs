use vstd::prelude::*;

verus! {

/// A running total that a spinning task pushes up and down.
#[derive(Debug)]
pub struct Target(pub i32);

/// What `calc` adds to the total for the input `n`: `1 - 2 * (n % 2)` with
/// Rust's remainder, whose sign follows `n`.  So `+1` for even `n`, `-1` for
/// odd positive `n` and `+3` for odd negative `n`.
pub open spec fn calc_step(n: i32) -> int {
    if n % 2 == 0 {
        1
    } else if n > 0 {
        -1
    } else {
        3
    }
}

/// What the spinning task returns after `iterations` rounds of `n = calc(n)`,
/// starting from `n = 1` and a fresh `Target`.
pub open spec fn spin_result(iterations: int) -> i32 {
    if iterations <= 0 {
        1
    } else if iterations == 1 {
        -1i32
    } else if iterations % 2 == 0 {
        2
    } else {
        3
    }
}

/// The remainder of `n` divided by 2 as Rust's `%` computes it: truncating
/// towards zero, so it takes the sign of `n` (`-1` for odd negative `n`).
pub open spec fn truncated_rem2(n: int) -> int {
    if n >= 0 {
        n % 2
    } else {
        -((-n) % 2)
    }
}

/// `calc_step` is `1 - 2 * (n % 2)` under Rust's truncating remainder, for every `n`.
pub proof fn lemma_calc_step_is_rust_formula(n: i32)
    ensures
        calc_step(n) == 1 - 2 * truncated_rem2(n as int),
{
}

/// `(n, total)` after `k` rounds of `n = calc(n)` from `n = 1` and a total
/// of 0, each round adding `1 - 2 * (n % 2)` (Rust's `%`) to the total and
/// handing the new total on as `n`.
pub open spec fn spin_rounds(k: nat) -> (int, int)
    decreases k,
{
    if k == 0 {
        (1, 0)
    } else {
        let (n, total) = spin_rounds((k - 1) as nat);
        let next = total + 1 - 2 * truncated_rem2(n);
        (next, next)
    }
}

/// `spin_result(k)` is what `k` rounds of the step give, for every number of
/// rounds: after the first round `n` and the total agree, and both are
/// `spin_result(k)`.
pub proof fn lemma_spin_result_counts_rounds(k: nat)
    ensures
        k == 0 ==> spin_rounds(k) == (1int, 0int),
        k >= 1 ==> spin_rounds(k) == (spin_result(k as int) as int, spin_result(k as int) as int),
    decreases k,
{
    if k >= 1 {
        lemma_spin_result_counts_rounds((k - 1) as nat);
    }
}

impl Target {
    /// A total of zero.
    pub fn new() -> (t: Self)
        ensures
            t.0 == 0,
    {
        Target(0)
    }

    /// Adds `calc_step(n)` to the total and returns the new total.
    pub fn calc(&mut self, n: i32) -> (r: i32)
        requires
            i32::MIN <= old(self).0 + calc_step(n) <= i32::MAX,
        ensures
            r == old(self).0 + calc_step(n),
            r == old(self).0 + 1 - 2 * truncated_rem2(n as int),
            final(self).0 == r,
    {
        proof {
            lemma_calc_step_is_rust_formula(n);
        }
        let n1 = self.0 + (1 - 2 * (n % 2));
        self.0 = n1;
        n1
    }
}

/// The body of one spinning task: `iterations` rounds of `n = target.calc(n)`
/// from `n = 1` on a fresh `Target`.  After two rounds the total settles into
/// alternating between 2 and 3.
pub fn spin(iterations: i64) -> (n: i32)
    ensures
        n == spin_result(iterations as int),
        iterations >= 1 ==> n as int == spin_rounds(iterations as nat).0,
{
    proof {
        if iterations >= 1 {
            lemma_spin_result_counts_rounds(iterations as nat);
        }
    }
    let mut tgt = Target::new();
    let mut n: i32 = 1;
    let mut i: i64 = 0;
    while i < iterations
        invariant
            0 <= i,
            i <= iterations || i == 0,
            i == 0 ==> n == 1 && tgt.0 == 0,
            i > 0 ==> n == spin_result(i as int) && tgt.0 == n,
        decreases iterations - i,
    {
        n = tgt.calc(n);
        i = i + 1;
    }
    n
}

} // verus!
