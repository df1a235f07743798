//! Consistency of the hasher selectors across the rows of a cycle.

use vstd::prelude::*;

use super::{continuation_value, hasher_values, HasherFlags};
use crate::constraint_set::{ConstraintSet, RowDomain};
use crate::field::{
    fmul, fnot, fsub, lemma_canonical, lemma_felt_range, lemma_fmul_range, lemma_fsub_range, lemma_fsub_zero,
    lemma_mul_zero, Felt, P,
};
use crate::trace::chiplets::HasherCols;

verus! {

broadcast use lemma_felt_range;

/// The selector consistency constraints: `s1`, `s2` stay unchanged except around output rows,
/// `s0'` is 0 when the operation continues, and an output row (row 31, `s0 = 0`) has `s1 = 0`.
/// `h`, `hn` are the hasher column values of the two rows and `fv` the hasher flag values.
pub open spec fn selector_consistency_spec(hasher_flag: int, h: Seq<int>, hn: Seq<int>, fv: Seq<int>) -> Seq<(int, RowDomain)> {
    let gate = fmul(hasher_flag, fsub(fsub(1, fv[5]), fv[6]));
    seq![
        (fmul(gate, fsub(hn[1], h[1])), RowDomain::EveryRow),
        (fmul(gate, fsub(hn[2], h[2])), RowDomain::EveryRow),
        (fmul(fmul(hasher_flag, continuation_value(fv)), hn[0]), RowDomain::EveryRow),
        (fmul(fmul(fmul(hasher_flag, fv[0]), fnot(h[0])), h[1]), RowDomain::EveryRow),
    ]
}

/// Enforces the selector consistency constraints.
pub fn enforce_selector_consistency(
    builder: &mut ConstraintSet,
    hasher_flag: Felt,
    cols: &HasherCols<Felt>,
    cols_next: &HasherCols<Felt>,
    flags: &HasherFlags,
)
    ensures
        final(builder).base_view() == old(builder).base_view() + selector_consistency_spec(hasher_flag@, hasher_values(cols), hasher_values(cols_next), flags.values()),
        final(builder).ext_view() == old(builder).ext_view(),
        final(builder).tags_view() == old(builder).tags_view(),
{
    let one = Felt::one();
    let stability_gate = one.sub(flags.f_out).sub(flags.f_out_next);
    let gate = hasher_flag.mul(stability_gate);
    let ghost start = builder.base_view();
    builder.assert_zero(gate.mul(cols_next.selectors[1].sub(cols.selectors[1])), RowDomain::EveryRow);
    builder.assert_zero(gate.mul(cols_next.selectors[2].sub(cols.selectors[2])), RowDomain::EveryRow);
    builder.assert_zero(hasher_flag.mul(flags.f_continuation()).mul(cols_next.selectors[0]), RowDomain::EveryRow);
    builder.assert_zero(
        hasher_flag.mul(flags.cycle_row_31).mul(cols.selectors[0].not()).mul(cols.selectors[1]),
        RowDomain::EveryRow,
    );
    assert(builder.base_view() =~= start + selector_consistency_spec(hasher_flag@, hasher_values(cols), hasher_values(cols_next), flags.values()));
}

/// The selector consistency law on an active hasher row: away from output rows `s1` and `s2`
/// are kept, a continuing operation starts its next row with `s0' = 0`, and on cycle row 31 a
/// row with `s0 = 0` has `s1 = 0`.
pub proof fn lemma_selector_consistency(h: Seq<int>, hn: Seq<int>, fv: Seq<int>)
    requires
        h.len() == 16,
        hn.len() == 16,
        forall|i: int| 0 <= i < 16 ==> 0 <= #[trigger] h[i] < P,
        forall|i: int| 0 <= i < 16 ==> 0 <= #[trigger] hn[i] < P,
    ensures
        ({
            let k = selector_consistency_spec(1, h, hn, fv);
            &&& fsub(fsub(1, fv[5]), fv[6]) == 1 ==> ((k[0].0 == 0 && k[1].0 == 0) == (hn[1] == h[1] && hn[2] == h[2]))
            &&& continuation_value(fv) == 1 ==> ((k[2].0 == 0) == (hn[0] == 0))
            &&& (fv[0] == 1 && (h[0] == 0 || h[0] == 1)) ==> ((k[3].0 == 0) == (h[0] == 1 || h[1] == 0))
        }),
{
    broadcast use lemma_fmul_range, lemma_fsub_range;

    assert(0 <= h[0] < P && 0 <= h[1] < P && 0 <= h[2] < P);
    assert(0 <= hn[0] < P && 0 <= hn[1] < P && 0 <= hn[2] < P);
    lemma_canonical(1);
    lemma_canonical(0);
    lemma_canonical(fsub(hn[1], h[1]));
    lemma_canonical(fsub(hn[2], h[2]));
    lemma_fsub_zero(hn[1], h[1]);
    lemma_fsub_zero(hn[2], h[2]);
    lemma_canonical(hn[0]);
    lemma_canonical(h[1]);
    lemma_mul_zero(h[1]);
    lemma_canonical(fnot(h[0]));
}

} // verus!
