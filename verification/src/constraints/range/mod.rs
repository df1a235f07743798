//! Range checker constraints.
//!
//! The range checker's value column starts at 0, ends at `2^16 - 1`, and moves between rows by
//! one of the steps `0, 1, 3, 9, 27, 81, 243, 729, 2187`, so that it covers every 16-bit value.

pub mod bus;

use vstd::prelude::*;

use crate::constraint_set::{ConstraintSet, RowDomain};
use crate::field::{fmul, fsub, lemma_felt_range, lemma_fmul_zero_iff, lemma_fsub_zero, Felt, P};
use crate::trace::MainCols;

verus! {

broadcast use lemma_felt_range;

/// `d * (d - 1) * (d - 3) * ... * (d - 2187)`: 0 when the step `d` is allowed.
pub open spec fn range_step_spec(d: int) -> int {
    fmul(
        fmul(
            fmul(
                fmul(fmul(fmul(fmul(fmul(d, fsub(d, 1)), fsub(d, 3)), fsub(d, 9)), fsub(d, 27)), fsub(d, 81)),
                fsub(d, 243),
            ),
            fsub(d, 729),
        ),
        fsub(d, 2187),
    )
}

/// The range checker constraints on its value column `v`.
pub open spec fn range_constraints_spec(local: &MainCols<Felt>, next: &MainCols<Felt>) -> Seq<(int, RowDomain)> {
    let v = local.range.value@;
    seq![
        (v, RowDomain::FirstRow),
        (fsub(v, 65535), RowDomain::LastRow),
        (range_step_spec(fsub(next.range.value@, v)), RowDomain::Transition),
    ]
}

/// Enforces the range checker constraints: `v = 0` on the first row, `v = 2^16 - 1` on the last
/// row, and an allowed step between rows.
pub fn enforce_main(builder: &mut ConstraintSet, local: &MainCols<Felt>, next: &MainCols<Felt>)
    ensures
        final(builder).base_view() == old(builder).base_view() + range_constraints_spec(local, next),
        final(builder).ext_view() == old(builder).ext_view(),
        final(builder).tags_view() == old(builder).tags_view(),
{
    let v = local.range.value;
    let v_next = next.range.value;
    let ghost start = builder.base_view();
    builder.assert_zero(v, RowDomain::FirstRow);
    builder.assert_zero(v.sub(Felt::new(65535)), RowDomain::LastRow);
    let d = v_next.sub(v);
    let step = d.mul(d.sub(Felt::new(1))).mul(d.sub(Felt::new(3))).mul(d.sub(Felt::new(9))).mul(
        d.sub(Felt::new(27)),
    ).mul(d.sub(Felt::new(81))).mul(d.sub(Felt::new(243))).mul(d.sub(Felt::new(729))).mul(
        d.sub(Felt::new(2187)),
    );
    builder.assert_zero(step, RowDomain::Transition);
    assert(builder.base_view() =~= start + range_constraints_spec(local, next));
}

/// Whether `d` is one of the allowed steps `0, 1, 3, 9, 27, 81, 243, 729, 2187`.
pub open spec fn allowed_step(d: int) -> bool {
    d == 0 || d == 1 || d == 3 || d == 9 || d == 27 || d == 81 || d == 243 || d == 729 || d == 2187
}

/// The step law: the step constraint of a step `d` vanishes exactly when `d` is an allowed
/// step; any other step, such as 2, violates it.
pub proof fn lemma_step_vanishes_iff_allowed(d: int)
    requires
        0 <= d < P,
    ensures
        (range_step_spec(d) == 0) == allowed_step(d),
{
    broadcast use crate::field::lemma_fmul_range, crate::field::lemma_fsub_range;

    assert forall|x: int, y: int| 0 <= x < P && 0 <= y < P implies (#[trigger] fmul(x, y) == 0) == (x == 0 || y == 0) by {
        lemma_fmul_zero_iff(x, y);
    }
    assert forall|c: int| 0 <= c < P implies (#[trigger] fsub(d, c) == 0) == (d == c) by {
        lemma_fsub_zero(d, c);
    }
}

/// The range checker law: its first-row constraint vanishes exactly when `v = 0`, its last-row
/// constraint exactly when `v = 2^16 - 1`, and its transition constraint exactly when `v' - v` is
/// an allowed step.
pub proof fn lemma_range_constraints(local: &MainCols<Felt>, next: &MainCols<Felt>)
    ensures
        (range_constraints_spec(local, next)[0].0 == 0) == (local.range.value@ == 0),
        (range_constraints_spec(local, next)[1].0 == 0) == (local.range.value@ == 65535),
        (range_constraints_spec(local, next)[2].0 == 0) == allowed_step(
            fsub(next.range.value@, local.range.value@),
        ),
{
    broadcast use crate::field::lemma_fsub_range;

    lemma_fsub_zero(local.range.value@, 65535);
    lemma_step_vanishes_iff_allowed(fsub(next.range.value@, local.range.value@));
}

} // verus!
