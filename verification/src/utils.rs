//! Sizing of traces: every trace has a power-of-two number of rows.

use vstd::arithmetic::power2::{lemma_pow2_strictly_increases, lemma_pow2_unfold, pow2};
use vstd::prelude::*;

verus! {

/// The base-2 logarithm of `n`, rounded up.
pub open spec fn ceil_log2(n: nat) -> nat
    decreases n,
{
    if n <= 1 {
        0
    } else {
        1 + ceil_log2((n + 1) / 2)
    }
}

/// `k` is the smallest exponent whose power of two reaches `n`.
pub open spec fn is_log_size(n: nat, k: nat) -> bool {
    &&& n <= pow2(k)
    &&& forall|j: nat| j < k ==> pow2(j) < n
}

/// `ceil_log2(n)` is the smallest exponent whose power of two reaches `n`.
pub proof fn lemma_ceil_log2_is_log_size(n: nat)
    ensures
        is_log_size(n, ceil_log2(n)),
    decreases n,
{
    if n <= 1 {
        assert(pow2(0) == 1) by {
            vstd::arithmetic::power2::lemma2_to64();
        }
    } else {
        let half = (n + 1) / 2;
        let k = ceil_log2(half);
        lemma_ceil_log2_is_log_size(half);
        lemma_pow2_unfold(k + 1);
        assert(n <= pow2(k + 1));
        assert forall|j: nat| j < k + 1 implies pow2(j) < n by {
            if j == 0 {
                assert(pow2(0) == 1) by {
                    vstd::arithmetic::power2::lemma2_to64();
                }
            } else {
                let i = (j - 1) as nat;
                assert(pow2(i) < half);
                lemma_pow2_unfold(j);
            }
        }
    }
}

/// At most one exponent is the smallest whose power of two reaches `n`.
pub proof fn lemma_log_size_unique(n: nat, k1: nat, k2: nat)
    requires
        is_log_size(n, k1),
        is_log_size(n, k2),
    ensures
        k1 == k2,
{
    if k1 < k2 {
        assert(pow2(k1) < n);
    } else if k2 < k1 {
        assert(pow2(k2) < n);
    }
}

/// Data of up to `usize::MAX / 2 + 1` rows has a trace whose number of rows
/// fits a machine word.
pub proof fn lemma_rows_fit(n: nat)
    requires
        n <= usize::MAX / 2 + 1,
    ensures
        pow2(ceil_log2(n)) <= usize::MAX,
{
    let k = ceil_log2(n);
    lemma_ceil_log2_is_log_size(n);
    if k == 0 {
        assert(pow2(0) == 1) by {
            vstd::arithmetic::power2::lemma2_to64();
        }
    } else {
        let j = (k - 1) as nat;
        assert(pow2(j) < n);
        lemma_pow2_unfold(k);
    }
}

/// The log size of a trace that holds `max_size` rows of data: the smallest
/// `k` with `2^k >= max_size`.
pub fn calculate_log_size(max_size: usize) -> (log_size: u32)
    ensures
        log_size as nat == ceil_log2(max_size as nat),
        is_log_size(max_size as nat, log_size as nat),
        log_size <= usize::BITS,
{
    let mut log_size: u32 = 0;
    let mut rows: usize = 1;
    proof {
        vstd::arithmetic::power2::lemma2_to64();
    }
    while rows < max_size
        invariant
            rows as nat == pow2(log_size as nat),
            forall|j: nat| j < log_size ==> pow2(j) < max_size,
            log_size < usize::BITS,
        decreases usize::BITS - log_size,
    {
        proof {
            lemma_pow2_unfold((log_size + 1) as nat);
        }
        if rows > usize::MAX / 2 {
            proof {
                assert(is_log_size(max_size as nat, (log_size + 1) as nat)) by {
                    assert forall|j: nat| j < log_size + 1 implies pow2(j) < max_size by {
                        if j == log_size {
                        }
                    }
                }
                lemma_ceil_log2_is_log_size(max_size as nat);
                lemma_log_size_unique(
                    max_size as nat,
                    (log_size + 1) as nat,
                    ceil_log2(max_size as nat),
                );
            }
            return log_size + 1;
        }
        proof {
            lemma_doubling_stays_below_word(rows, log_size);
        }
        rows = rows * 2;
        log_size = log_size + 1;
        assert forall|j: nat| j < log_size implies pow2(j) < max_size by {
            if j == log_size - 1 {
            }
        }
    }
    proof {
        lemma_ceil_log2_is_log_size(max_size as nat);
        lemma_log_size_unique(max_size as nat, log_size as nat, ceil_log2(max_size as nat));
    }
    log_size
}

/// A power of two that can be doubled within a machine word has an exponent
/// below the word's last bit.
proof fn lemma_doubling_stays_below_word(rows: usize, log_size: u32)
    requires
        rows as nat == pow2(log_size as nat),
        rows <= usize::MAX / 2,
        log_size < usize::BITS,
    ensures
        log_size + 1 < usize::BITS,
{
    if log_size + 1 >= usize::BITS {
        let top = (usize::BITS - 1) as nat;
        assert(log_size as nat == top);
        vstd::arithmetic::power2::lemma2_to64();
        vstd::arithmetic::power2::lemma2_to64_rest();
        assert(pow2(top) > usize::MAX / 2);
    }
}

/// The number of rows of a trace of the given log size.
pub fn rows_of(log_size: u32) -> (rows: usize)
    requires
        pow2(log_size as nat) <= usize::MAX,
    ensures
        rows as nat == pow2(log_size as nat),
{
    let mut rows: usize = 1;
    let mut k: u32 = 0;
    proof {
        vstd::arithmetic::power2::lemma2_to64();
    }
    while k < log_size
        invariant
            k <= log_size,
            rows as nat == pow2(k as nat),
            pow2(log_size as nat) <= usize::MAX,
        decreases log_size - k,
    {
        proof {
            lemma_pow2_unfold((k + 1) as nat);
            if k + 1 < log_size {
                lemma_pow2_strictly_increases((k + 1) as nat, log_size as nat);
            }
        }
        rows = rows * 2;
        k = k + 1;
    }
    rows
}

} // verus!
