//! How many rows a trace gets.
//!
//! Both traces of the chip are sized by the same rule: a fixed power of two
//! where one is configured, else the least power of two that holds all real
//! rows. An empty trace still has one row.

use vstd::arithmetic::power2::{
    lemma2_to64, lemma2_to64_rest, lemma_pow2_pos, lemma_pow2_strictly_increases, lemma_pow2_unfold,
    pow2,
};
use vstd::prelude::*;

verus! {

/// The least `e` with `n <= 2^e`.
pub open spec fn ceil_log2(n: nat) -> nat
    decreases n,
{
    if n <= 1 {
        0
    } else {
        1 + ceil_log2((n + 1) / 2)
    }
}

/// `rows` is the least power of two that is at least `n`.
pub open spec fn is_least_power_of_two(rows: nat, n: nat) -> bool {
    &&& exists|e: nat| rows == pow2(e)
    &&& n <= rows
    &&& forall|e: nat| n <= pow2(e) ==> rows <= #[trigger] pow2(e)
}

/// The number of rows of a trace with `n` real rows: `2^k` under a fixed
/// size `k`, else the least power of two that is at least `n`.
pub open spec fn padded_rows(n: nat, fixed_log2_rows: Option<usize>) -> nat {
    match fixed_log2_rows {
        Some(k) => pow2(k as nat),
        None => pow2(ceil_log2(n)),
    }
}

/// `ceil_log2(n)` is the least exponent whose power of two reaches `n`.
pub proof fn lemma_ceil_log2(n: nat)
    ensures
        n <= pow2(ceil_log2(n)),
        forall|e: nat| n <= #[trigger] pow2(e) ==> ceil_log2(n) <= e,
    decreases n,
{
    if n <= 1 {
        lemma_pow2_pos(0);
    } else {
        let half = (n + 1) / 2;
        lemma_ceil_log2(half);
        lemma_pow2_unfold(ceil_log2(n));
        assert forall|e: nat| n <= #[trigger] pow2(e) implies ceil_log2(n) <= e by {
            if e == 0 {
                lemma2_to64();
            } else {
                lemma_pow2_unfold(e);
                assert(half <= pow2((e - 1) as nat));
            }
        }
    }
}

/// Without a fixed size the row count is the least power of two that holds
/// the real rows; with a fixed size `k` it is `2^k`, whatever the real rows.
pub proof fn lemma_padded_rows(n: nat, fixed_log2_rows: Option<usize>)
    ensures
        fixed_log2_rows is None ==> is_least_power_of_two(padded_rows(n, fixed_log2_rows), n),
        fixed_log2_rows matches Some(k) ==> padded_rows(n, fixed_log2_rows) == pow2(k as nat),
        padded_rows(n, fixed_log2_rows) >= 1,
{
    lemma_ceil_log2(n);
    match fixed_log2_rows {
        Some(k) => {
            lemma_pow2_pos(k as nat);
        },
        None => {
            lemma_pow2_pos(ceil_log2(n));
            let rows = pow2(ceil_log2(n));
            assert forall|e: nat| n <= pow2(e) implies rows <= #[trigger] pow2(e) by {
                if ceil_log2(n) < e {
                    lemma_pow2_strictly_increases(ceil_log2(n), e);
                }
            }
        },
    }
}

/// A power of two fits in `usize` exactly when its exponent is below the
/// width of `usize`.
pub proof fn lemma_pow2_fits(k: nat)
    ensures
        pow2(k) <= usize::MAX <==> k < usize::BITS,
{
    lemma2_to64();
    lemma2_to64_rest();
    if k < usize::BITS {
        lemma_pow2_strictly_increases(k, usize::BITS as nat);
    } else if k > usize::BITS {
        lemma_pow2_strictly_increases(usize::BITS as nat, k);
    }
}

/// Beyond half the range of `usize` no power of two is left.
pub proof fn lemma_padded_rows_fit(n: nat)
    ensures
        pow2(ceil_log2(n)) <= usize::MAX <==> n <= pow2((usize::BITS - 1) as nat),
{
    let top = (usize::BITS - 1) as nat;
    lemma_ceil_log2(n);
    lemma_pow2_fits(ceil_log2(n));
    lemma_pow2_fits(top);
    if ceil_log2(n) < top {
        lemma_pow2_strictly_increases(ceil_log2(n), top);
    }
}

/// The number of rows to allocate for `n` real rows, where a `usize` can
/// hold it.
pub fn checked_next_power_of_two(n: usize, fixed_power: Option<usize>) -> (rows: Option<usize>)
    ensures
        rows == if padded_rows(n as nat, fixed_power) <= usize::MAX {
            Some(padded_rows(n as nat, fixed_power) as usize)
        } else {
            None
        },
{
    let top: usize = (usize::BITS - 1) as usize;
    proof {
        lemma_pow2_fits(top as nat);
        vstd::bits::lemma_usize_shl_is_mul(1, top);
        lemma_padded_rows_fit(n as nat);
    }
    let fits = match fixed_power {
        Some(power) => {
            proof {
                lemma_pow2_fits(power as nat);
            }
            power <= top
        },
        None => n <= 1usize << top,
    };
    if fits {
        Some(next_power_of_two(n, fixed_power))
    } else {
        None
    }
}

/// The number of rows to allocate for `n` real rows.
pub fn next_power_of_two(n: usize, fixed_power: Option<usize>) -> (rows: usize)
    requires
        padded_rows(n as nat, fixed_power) <= usize::MAX,
    ensures
        rows == padded_rows(n as nat, fixed_power),
{
    match fixed_power {
        Some(power) => {
            proof {
                lemma_pow2_fits(power as nat);
                vstd::bits::lemma_usize_shl_is_mul(1, power);
            }
            1usize << power
        },
        None => {
            let mut rows: usize = 1;
            let ghost mut e: nat = 0;
            proof {
                lemma2_to64();
                lemma_ceil_log2(n as nat);
            }
            while rows < n
                invariant
                    rows == pow2(e),
                    e <= ceil_log2(n as nat),
                    pow2(ceil_log2(n as nat)) <= usize::MAX,
                    n <= pow2(ceil_log2(n as nat)),
                    forall|f: nat| n <= #[trigger] pow2(f) ==> ceil_log2(n as nat) <= f,
                decreases ceil_log2(n as nat) - e,
            {
                proof {
                    assert(e < ceil_log2(n as nat)) by {
                        if e == ceil_log2(n as nat) {
                            assert(n <= pow2(e));
                        }
                    }
                    lemma_pow2_unfold(e + 1);
                    if e + 1 < ceil_log2(n as nat) {
                        lemma_pow2_strictly_increases(e + 1, ceil_log2(n as nat));
                    }
                    e = e + 1;
                }
                rows = rows * 2;
            }
            proof {
                if e < ceil_log2(n as nat) {
                    assert(n <= pow2(e));
                }
            }
            rows
        },
    }
}

} // verus!
