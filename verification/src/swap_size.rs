//! Swap-file size recommendation: a pure numeric heuristic from the
//! machine's total physical memory, with an optional correction against the
//! free disk space of the root filesystem.
//!
//! All quantities are byte counts. With `m` the memory in binary gibibytes,
//! the recommendation is `2 * m` GiB when `m <= 1`, and `m + round(sqrt(m))`
//! GiB otherwise, clamped at 32 GiB. Since a GiB is `2^30` bytes,
//! `round(sqrt(m))` — rounding halves away from zero — equals the `n` with
//! `(n - 1/2)^2 <= m < (n + 1/2)^2`, that is `(2n-1)^2 <= mem / 2^28 <
//! (2n+1)^2` in bytes, which the integer square root below decides exactly.

use vstd::prelude::*;

verus! {

/// One binary gibibyte, in bytes.
pub const GIB: u64 = 1024 * 1024 * 1024;

/// A quarter of a binary gibibyte, in bytes: the scale on which the rounded
/// square root of the memory size is decided.
pub const QUARTER_GIB: u64 = 256 * 1024 * 1024;

/// The integer square root: the largest `r` with `r * r <= q`.
pub open spec fn sqrt_floor(q: nat) -> nat
    decreases q,
{
    if q == 0 {
        0
    } else {
        let r = sqrt_floor((q - 1) as nat);
        if (r + 1) * (r + 1) <= q {
            r + 1
        } else {
            r
        }
    }
}

/// `sqrt_floor` is what its name says: its square is at most `q`, and the
/// next square is beyond `q`.
pub proof fn lemma_sqrt_floor_bounds(q: nat)
    ensures
        sqrt_floor(q) * sqrt_floor(q) <= q,
        q < (sqrt_floor(q) + 1) * (sqrt_floor(q) + 1),
    decreases q,
{
    let s = sqrt_floor(q);
    if q > 0 {
        lemma_sqrt_floor_bounds((q - 1) as nat);
        let r = sqrt_floor((q - 1) as nat);
        if (r + 1) * (r + 1) <= q {
            assert(s == r + 1);
            assert(q <= (r + 1) * (r + 1));
            assert(s * s <= q && q < (s + 1) * (s + 1)) by (nonlinear_arith)
                requires
                    s == r + 1 && (r + 1) * (r + 1) <= q && q <= (r + 1) * (r + 1),
            ;
        } else {
            assert(s == r);
            assert(s * s <= q && q < (s + 1) * (s + 1)) by (nonlinear_arith)
                requires
                    s == r && r * r <= (q - 1) as nat && q > 0 && q < (r + 1) * (r + 1),
            ;
        }
    } else {
        assert(s == 0);
        assert(s * s <= q && q < (s + 1) * (s + 1)) by (nonlinear_arith)
            requires
                s == 0 && q == 0,
        ;
    }
}

/// No other value satisfies the two bounds of `lemma_sqrt_floor_bounds`.
pub proof fn lemma_sqrt_floor_unique(q: nat, s: nat)
    requires
        s * s <= q,
        q < (s + 1) * (s + 1),
    ensures
        s == sqrt_floor(q),
{
    lemma_sqrt_floor_bounds(q);
    let f = sqrt_floor(q);
    if s < f {
        assert((s + 1) * (s + 1) <= f * f) by (nonlinear_arith)
            requires
                s + 1 <= f,
        ;
    }
    if f < s {
        assert((f + 1) * (f + 1) <= s * s) by (nonlinear_arith)
            requires
                f + 1 <= s,
        ;
    }
}

/// `round(sqrt(mem / 2^30))`, the memory taken in GiB: the `n` with
/// `(2n-1)^2 * 2^28 <= mem < (2n+1)^2 * 2^28`.
pub open spec fn rounded_sqrt_gib(mem: nat) -> nat {
    (sqrt_floor(mem / (QUARTER_GIB as nat)) + 1) / 2
}

/// The recommended swap-file size in bytes for a machine with `mem` bytes
/// of physical memory: twice the memory up to one GiB, the memory plus the
/// rounded square root of its GiB count above that, clamped at 32 GiB.
pub open spec fn spec_recommend_swap_size(mem: nat) -> nat {
    if mem <= GIB {
        2 * mem
    } else {
        let r = mem + rounded_sqrt_gib(mem) * (GIB as nat);
        if r >= 32 * (GIB as nat) {
            32 * (GIB as nat)
        } else {
            r
        }
    }
}

/// The recommendation corrected against the free space of the root
/// filesystem: where the plain recommendation would not fit, it is replaced
/// by four fifths of the overshoot. The correction is applied once, not
/// iterated, so the result may still exceed the free space; callers
/// tolerate that.
pub open spec fn spec_recommend_swap_size_with_disk(mem: nat, available_space: nat) -> nat {
    let r = spec_recommend_swap_size(mem);
    if r >= available_space {
        (((r - available_space) * 4) / 5) as nat
    } else {
        r
    }
}

/// The largest `r` with `r * r <= q`, found by counting up.
fn isqrt(q: u64) -> (r: u64)
    requires
        q < 0x100000000,
    ensures
        r as nat == sqrt_floor(q as nat),
{
    let mut r: u64 = 0;
    loop
        invariant
            q < 0x100000000,
            r * r <= q,
            r <= q,
            r < 0x10000,
        ensures
            r * r <= q < (r + 1) * (r + 1),
        decreases q - r,
    {
        proof {
            assert((r + 1) * (r + 1) <= 0x100000000) by (nonlinear_arith)
                requires
                    r < 0x10000,
            ;
        }
        let sq = (r + 1) * (r + 1);
        if sq <= q {
            proof {
                assert(r + 1 < 0x10000 && r + 1 <= q) by (nonlinear_arith)
                    requires
                        (r + 1) * (r + 1) <= q && q < 0x100000000,
                ;
            }
            r = r + 1;
        } else {
            break ;
        }
    }
    proof {
        lemma_sqrt_floor_unique(q as nat, r as nat);
    }
    r
}

/// Recommends a swap-file size, in bytes, from the total physical memory
/// `mem`, in bytes.
pub fn get_recommend_swap_size_inner(mem: u64) -> (r: u64)
    ensures
        r as nat == spec_recommend_swap_size(mem as nat),
{
    if mem <= GIB {
        return 2 * mem;
    }
    if mem >= 32 * GIB {
        return 32 * GIB;
    }
    let q = mem / QUARTER_GIB;
    proof {
        vstd::arithmetic::div_mod::lemma_multiply_divide_lt(
            mem as int,
            QUARTER_GIB as int,
            128,
        );
        assert(q < 128);
    }
    let s = isqrt(q);
    proof {
        lemma_sqrt_floor_bounds(q as nat);
        assert(s < 12) by (nonlinear_arith)
            requires
                (s as nat) * (s as nat) <= q as nat && q < 128,
        ;
    }
    let n = (s + 1) / 2;
    proof {
        assert(n <= 6);
        assert(n * GIB <= 6 * 0x40000000) by (nonlinear_arith)
            requires
                n <= 6 && GIB == 0x40000000,
        ;
    }
    let rec = mem + n * GIB;
    if rec >= 32 * GIB {
        32 * GIB
    } else {
        rec
    }
}

/// Recommends a swap-file size, in bytes, from the total physical memory
/// and the free space of the root filesystem, both in bytes: the plain
/// recommendation, corrected once where it would not fit on the disk.
pub fn get_recommend_swap_size(mem: u64, available_space: u64) -> (r: u64)
    ensures
        r as nat == spec_recommend_swap_size_with_disk(mem as nat, available_space as nat),
{
    let res = get_recommend_swap_size_inner(mem);
    if res >= available_space {
        (res - available_space) * 4 / 5
    } else {
        res
    }
}

} // verus!
