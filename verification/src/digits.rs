//! Decimal digits of a count: the canonical digit sequence of a non-negative
//! integer (no leading zeros, except that zero itself is the single digit 0),
//! as a specification and as executable code.

use vstd::prelude::*;

verus! {

/// How many decimal digits the canonical rendering of `n` has.
pub open spec fn n_digits(n: nat) -> nat
    decreases n,
{
    if n < 10 {
        1
    } else {
        1 + n_digits(n / 10)
    }
}

/// The canonical decimal digit sequence of `n`, most significant digit first.
pub open spec fn digits_of(n: nat) -> Seq<nat>
    decreases n,
{
    if n < 10 {
        seq![n]
    } else {
        digits_of(n / 10).push(n % 10)
    }
}

/// Ten to the power `k`.
pub open spec fn pow10(k: nat) -> nat
    decreases k,
{
    if k == 0 {
        1
    } else {
        10 * pow10((k - 1) as nat)
    }
}

/// The digit sequence is as long as the digit count says.
pub proof fn lemma_digits_len(n: nat)
    ensures
        digits_of(n).len() == n_digits(n),
    decreases n,
{
    if n >= 10 {
        lemma_digits_len(n / 10);
    }
}

/// A number below ten to the `k` has at most `k` digits.
pub proof fn lemma_n_digits_le(n: nat, k: nat)
    requires
        1 <= k,
        n < pow10(k),
    ensures
        n_digits(n) <= k,
    decreases n,
{
    if n >= 10 {
        assert(pow10(k) == 10 * pow10((k - 1) as nat));
        lemma_n_digits_le(n / 10, (k - 1) as nat);
    }
}

/// A `u128` has at most 39 decimal digits.
pub proof fn lemma_n_digits_u128(n: u128)
    ensures
        n_digits(n as nat) <= 39,
{
    reveal_with_fuel(pow10, 40);
    assert(pow10(39) == 1000000000000000000000000000000000000000nat);
    lemma_n_digits_le(n as nat, 39);
}

/// The canonical decimal digits of `n`, most significant first.
pub fn digits_vec(n: u128) -> (r: Vec<u8>)
    ensures
        r@.map_values(|d: u8| d as nat) == digits_of(n as nat),
        r@.len() == n_digits(n as nat),
        r@.len() <= 39,
        forall|i: int| 0 <= i < r@.len() ==> r@[i] < 10,
{
    let mut rev: Vec<u8> = Vec::new();
    let mut m: u128 = n;
    rev.push((m % 10) as u8);
    m = m / 10;
    while m > 0
        invariant
            rev@.len() >= 1,
            forall|i: int| 0 <= i < rev@.len() ==> rev@[i] < 10,
            digits_of(n as nat) == if m > 0 {
                digits_of(m as nat) + rev@.map_values(|d: u8| d as nat).reverse()
            } else {
                rev@.map_values(|d: u8| d as nat).reverse()
            },
        decreases m,
    {
        let ghost prev = rev@.map_values(|d: u8| d as nat).reverse();
        let d: u8 = (m % 10) as u8;
        rev.push(d);
        m = m / 10;
        proof {
            let cur = rev@.map_values(|d: u8| d as nat).reverse();
            assert(cur =~= seq![d as nat] + prev);
        }
    }
    let mut r: Vec<u8> = Vec::new();
    let mut i: usize = rev.len();
    while i > 0
        invariant
            i <= rev@.len(),
            r@.len() + i == rev@.len(),
            forall|j: int| 0 <= j < r@.len() ==> r@[j] == rev@[rev@.len() - 1 - j],
        decreases i,
    {
        i = i - 1;
        r.push(rev[i]);
    }
    proof {
        assert(r@.map_values(|d: u8| d as nat) =~= rev@.map_values(|d: u8| d as nat).reverse());
        lemma_digits_len(n as nat);
        lemma_n_digits_u128(n);
    }
    r
}

} // verus!
