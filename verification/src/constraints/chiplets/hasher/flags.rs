//! Hasher operation flags, from the cycle markers and the hasher selectors `s0, s1, s2`.
//!
//! On row 0 of a cycle the selectors give the operation that starts; on row 31 they give the
//! operation that continues or returns its output.

use vstd::prelude::*;

use crate::field::{
    fadd, fmul, fnot, lemma_bool_ops, lemma_canonical, lemma_felt_range, lemma_fmul_distributes, lemma_fmul_range,
    lemma_sub_add_cancel, Felt, P,
};
use crate::constraints::op_flags::lit;

verus! {

broadcast use lemma_felt_range;

/// `cycle * lit(s0) * lit(s1) * lit(s2)`: the flag of the selector pattern `(b0, b1, b2)` at the
/// cycle row marked by `cycle`.
pub open spec fn pattern_flag(cycle: int, s0: int, s1: int, s2: int, b0: bool, b1: bool, b2: bool) -> int {
    fmul(fmul(fmul(cycle, lit(s0, b0)), lit(s1, b1)), lit(s2, b2))
}

/// `lit(s, on)`: `s` or `1 - s`.
fn lit_felt(s: Felt, on: bool) -> (r: Felt)
    ensures
        r@ == lit(s@, on),
{
    if on {
        s
    } else {
        s.not()
    }
}

/// Linear hash / 2-to-1 hash initialization (row 0, selectors `100`).
pub fn f_bp(cycle_row_0: Felt, s0: Felt, s1: Felt, s2: Felt) -> (r: Felt)
    ensures
        r@ == pattern_flag(cycle_row_0@, s0@, s1@, s2@, true, false, false),
{
    cycle_row_0.mul(lit_felt(s0, true)).mul(lit_felt(s1, false)).mul(lit_felt(s2, false))
}

/// Merkle path verification start (row 0, selectors `101`).
pub fn f_mp(cycle_row_0: Felt, s0: Felt, s1: Felt, s2: Felt) -> (r: Felt)
    ensures
        r@ == pattern_flag(cycle_row_0@, s0@, s1@, s2@, true, false, true),
{
    cycle_row_0.mul(lit_felt(s0, true)).mul(lit_felt(s1, false)).mul(lit_felt(s2, true))
}

/// Merkle root update, old path start (row 0, selectors `110`).
pub fn f_mv(cycle_row_0: Felt, s0: Felt, s1: Felt, s2: Felt) -> (r: Felt)
    ensures
        r@ == pattern_flag(cycle_row_0@, s0@, s1@, s2@, true, true, false),
{
    cycle_row_0.mul(lit_felt(s0, true)).mul(lit_felt(s1, true)).mul(lit_felt(s2, false))
}

/// Merkle root update, new path start (row 0, selectors `111`).
pub fn f_mu(cycle_row_0: Felt, s0: Felt, s1: Felt, s2: Felt) -> (r: Felt)
    ensures
        r@ == pattern_flag(cycle_row_0@, s0@, s1@, s2@, true, true, true),
{
    cycle_row_0.mul(lit_felt(s0, true)).mul(lit_felt(s1, true)).mul(lit_felt(s2, true))
}

/// Absorption of the next rate (row 31, selectors `100`).
pub fn f_abp(cycle_row_31: Felt, s0: Felt, s1: Felt, s2: Felt) -> (r: Felt)
    ensures
        r@ == pattern_flag(cycle_row_31@, s0@, s1@, s2@, true, false, false),
{
    cycle_row_31.mul(lit_felt(s0, true)).mul(lit_felt(s1, false)).mul(lit_felt(s2, false))
}

/// Merkle path verification, absorb next node (row 31, selectors `101`).
pub fn f_mpa(cycle_row_31: Felt, s0: Felt, s1: Felt, s2: Felt) -> (r: Felt)
    ensures
        r@ == pattern_flag(cycle_row_31@, s0@, s1@, s2@, true, false, true),
{
    cycle_row_31.mul(lit_felt(s0, true)).mul(lit_felt(s1, false)).mul(lit_felt(s2, true))
}

/// Merkle root update old path, absorb next node (row 31, selectors `110`).
pub fn f_mva(cycle_row_31: Felt, s0: Felt, s1: Felt, s2: Felt) -> (r: Felt)
    ensures
        r@ == pattern_flag(cycle_row_31@, s0@, s1@, s2@, true, true, false),
{
    cycle_row_31.mul(lit_felt(s0, true)).mul(lit_felt(s1, true)).mul(lit_felt(s2, false))
}

/// Merkle root update new path, absorb next node (row 31, selectors `111`).
pub fn f_mua(cycle_row_31: Felt, s0: Felt, s1: Felt, s2: Felt) -> (r: Felt)
    ensures
        r@ == pattern_flag(cycle_row_31@, s0@, s1@, s2@, true, true, true),
{
    cycle_row_31.mul(lit_felt(s0, true)).mul(lit_felt(s1, true)).mul(lit_felt(s2, true))
}

/// Hash output (row 31, selectors `000`).
pub fn f_hout(cycle_row_31: Felt, s0: Felt, s1: Felt, s2: Felt) -> (r: Felt)
    ensures
        r@ == pattern_flag(cycle_row_31@, s0@, s1@, s2@, false, false, false),
{
    cycle_row_31.mul(lit_felt(s0, false)).mul(lit_felt(s1, false)).mul(lit_felt(s2, false))
}

/// Full state output (row 31, selectors `001`).
pub fn f_sout(cycle_row_31: Felt, s0: Felt, s1: Felt, s2: Felt) -> (r: Felt)
    ensures
        r@ == pattern_flag(cycle_row_31@, s0@, s1@, s2@, false, false, true),
{
    cycle_row_31.mul(lit_felt(s0, false)).mul(lit_felt(s1, false)).mul(lit_felt(s2, true))
}

/// Output on row 31 (selectors `00*`): `cycle_row_31 * (1 - s0) * (1 - s1)`.
pub fn f_out(cycle_row_31: Felt, s0: Felt, s1: Felt) -> (r: Felt)
    ensures
        r@ == fmul(fmul(cycle_row_31@, fnot(s0@)), fnot(s1@)),
{
    cycle_row_31.mul(s0.not()).mul(s1.not())
}

/// Output on the next row (row 30, next selectors `00*`): `cycle_row_30 * (1 - s0') * (1 - s1')`.
pub fn f_out_next(cycle_row_30: Felt, s0_next: Felt, s1_next: Felt) -> (r: Felt)
    ensures
        r@ == fmul(fmul(cycle_row_30@, fnot(s0_next@)), fnot(s1_next@)),
{
    cycle_row_30.mul(s0_next.not()).mul(s1_next.not())
}

/// On binary selectors and a binary cycle marker, a pattern flag is 1 exactly when the marker
/// is set and the selectors match the pattern; so the flags of different patterns at the same
/// cycle row are never 1 together.
pub proof fn lemma_pattern_flag_one_hot(cycle: int, s0: int, s1: int, s2: int, b0: bool, b1: bool, b2: bool)
    requires
        cycle == 0 || cycle == 1,
        s0 == 0 || s0 == 1,
        s1 == 0 || s1 == 1,
        s2 == 0 || s2 == 1,
    ensures
        pattern_flag(cycle, s0, s1, s2, b0, b1, b2) == (if cycle == 1 && (s0 == 1) == b0 && (s1 == 1)
            == b1 && (s2 == 1) == b2 {
            1int
        } else {
            0int
        }),
{
    assert forall|x: int, y: int| (x == 0 || x == 1) && (y == 0 || y == 1) implies #[trigger] fmul(
        x,
        y,
    ) == (if x == 1 && y == 1 { 1int } else { 0int }) by {
        lemma_bool_ops(x, y);
    }
    lemma_bool_ops(s0, s0);
    lemma_bool_ops(s1, s1);
    lemma_bool_ops(s2, s2);
}


/// The output flag is the sum of the hash output and the state output flags,
/// `f_out = f_hout + f_sout`, for every value of the selector `s2`; on binary inputs it is 1
/// exactly on row 31 with the selectors `00*`.
pub proof fn lemma_f_out_decomposition(c31: int, s0: int, s1: int, s2: int)
    requires
        0 <= s2 < P,
    ensures
        fmul(fmul(c31, fnot(s0)), fnot(s1)) == fadd(
            pattern_flag(c31, s0, s1, s2, false, false, false),
            pattern_flag(c31, s0, s1, s2, false, false, true),
        ),
        (c31 == 0 || c31 == 1) && (s0 == 0 || s0 == 1) && (s1 == 0 || s1 == 1) ==> fmul(
            fmul(c31, fnot(s0)),
            fnot(s1),
        ) == (if c31 == 1 && s0 == 0 && s1 == 0 {
            1int
        } else {
            0int
        }),
{
    broadcast use lemma_fmul_range;

    let x = fmul(fmul(c31, fnot(s0)), fnot(s1));
    lemma_sub_add_cancel(1, s2);
    lemma_fmul_distributes(x, fnot(s2), s2);
    lemma_canonical(x);
    if (c31 == 0 || c31 == 1) && (s0 == 0 || s0 == 1) && (s1 == 0 || s1 == 1) {
        lemma_bool_ops(s0, s0);
        lemma_bool_ops(s1, s1);
        lemma_bool_ops(c31, fnot(s0));
        lemma_bool_ops(fmul(c31, fnot(s0)), fnot(s1));
    }
}

} // verus!
