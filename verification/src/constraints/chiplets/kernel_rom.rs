//! Kernel ROM chiplet constraints.
//!
//! The kernel ROM lists the digests of the kernel procedures. Each digest occupies a contiguous
//! block of rows, whose first row has `s_first = 1`; the digest is constant within a block.
//!
//! Columns (from `chiplets[5]`): s_first 5, root 6-9.

use vstd::prelude::*;

use super::selectors::ChipletFlags;
use crate::constraint_set::{all_vanish, ConstraintSet, RowDomain};
use crate::constraints::chiplets::bus::chiplets::responses::{col, cols};
use crate::field::{
    fmul, fnot, fsub, lemma_binary_iff, lemma_felt_range, lemma_fmul_zero_iff, lemma_fsub_range, lemma_fsub_zero, Felt, P,
};
use crate::trace::MainCols;

verus! {

broadcast use lemma_felt_range;

/// The kernel ROM constraints: `s_first` binary, the digest unchanged within a block, and the
/// first row of the chiplet starting a block.
pub open spec fn kernel_rom_constraints_spec(flags: &ChipletFlags, local: &MainCols<Felt>, next: &MainCols<Felt>) -> Seq<(int, RowDomain)> {
    let s_first = col(local, 5);
    let gate = fmul(flags.is_transition@, fmul(fnot(col(next, 4)), fnot(col(next, 5))));
    seq![
        (fmul(flags.is_active@, fmul(s_first, fsub(s_first, 1))), RowDomain::EveryRow),
        (fmul(gate, fsub(col(next, 6), col(local, 6))), RowDomain::EveryRow),
        (fmul(gate, fsub(col(next, 7), col(local, 7))), RowDomain::EveryRow),
        (fmul(gate, fsub(col(next, 8), col(local, 8))), RowDomain::EveryRow),
        (fmul(gate, fsub(col(next, 9), col(local, 9))), RowDomain::EveryRow),
        (fmul(flags.next_is_first@, fsub(col(next, 5), 1)), RowDomain::EveryRow),
    ]
}

/// Enforces the kernel ROM chiplet constraints.
pub fn enforce_kernel_rom_constraints(
    builder: &mut ConstraintSet,
    local: &MainCols<Felt>,
    next: &MainCols<Felt>,
    flags: &ChipletFlags,
)
    ensures
        final(builder).base_view() == old(builder).base_view() + kernel_rom_constraints_spec(flags, local, next),
        final(builder).ext_view() == old(builder).ext_view(),
        final(builder).tags_view() == old(builder).tags_view(),
{
    let s4_next = next.chiplets[4];
    let krom = local.kernel_rom();
    let krom_next = next.kernel_rom();
    let one = Felt::one();
    let ghost start = builder.base_view();
    builder.assert_zero(flags.is_active.mul(krom.s_first.mul(krom.s_first.sub(one))), RowDomain::EveryRow);
    let gate = flags.is_transition.mul(s4_next.not().mul(krom_next.s_first.not()));
    builder.assert_zero(gate.mul(krom_next.root[0].sub(krom.root[0])), RowDomain::EveryRow);
    builder.assert_zero(gate.mul(krom_next.root[1].sub(krom.root[1])), RowDomain::EveryRow);
    builder.assert_zero(gate.mul(krom_next.root[2].sub(krom.root[2])), RowDomain::EveryRow);
    builder.assert_zero(gate.mul(krom_next.root[3].sub(krom.root[3])), RowDomain::EveryRow);
    builder.assert_zero(flags.next_is_first.mul(krom_next.s_first.sub(one)), RowDomain::EveryRow);
    assert(builder.base_view() =~= start + kernel_rom_constraints_spec(flags, local, next));
}


// LAWS
// ================================================================================================

/// The kernel ROM law, with binary chiplet flags and any column values: the binary constraint
/// vanishes exactly when, on the chiplet, `s_first` is binary; the digest constraints vanish
/// exactly when, on a transition that stays inside a block (`s4' != 1`, `s_first' != 1`, so
/// `s4' = s_first' = 0` on binary columns), the digest is unchanged; and the first-row
/// constraint vanishes exactly when a chiplet that starts on the next row starts a block there.
/// Off the chiplet (every flag 0) all of them vanish.
pub proof fn lemma_kernel_rom_constraints(flags: &ChipletFlags, local: &MainCols<Felt>, next: &MainCols<Felt>)
    requires
        flags.is_active@ == 0 || flags.is_active@ == 1,
        flags.is_transition@ == 0 || flags.is_transition@ == 1,
        flags.next_is_first@ == 0 || flags.next_is_first@ == 1,
    ensures
        (kernel_rom_constraints_spec(flags, local, next)[0].0 == 0) == (flags.is_active@ == 1 ==> col(local, 5) == 0
            || col(local, 5) == 1),
        (forall|i: int| 1 <= i < 5 ==> #[trigger] kernel_rom_constraints_spec(flags, local, next)[i].0 == 0) == (
        flags.is_transition@ == 1 && col(next, 4) != 1 && col(next, 5) != 1 ==> cols(next, 6, 4) == cols(local, 6, 4)),
        (kernel_rom_constraints_spec(flags, local, next)[5].0 == 0) == (flags.next_is_first@ == 1 ==> col(next, 5) == 1),
        flags.is_active@ == 0 && flags.is_transition@ == 0 && flags.next_is_first@ == 0 ==> all_vanish(
            kernel_rom_constraints_spec(flags, local, next),
        ),
{
    broadcast use lemma_fsub_range, crate::field::lemma_fmul_range;

    let cs = kernel_rom_constraints_spec(flags, local, next);
    assert forall|x: int, y: int| 0 <= x < P && 0 <= y < P implies (#[trigger] fmul(x, y) == 0) == (x == 0 || y == 0) by {
        lemma_fmul_zero_iff(x, y);
    }
    assert forall|x: int, y: int| 0 <= x < P && 0 <= y < P implies (#[trigger] fsub(x, y) == 0) == (x == y) by {
        lemma_fsub_zero(x, y);
    }
    lemma_binary_iff(col(local, 5));
    lemma_fsub_zero(1, col(next, 4));
    lemma_fsub_zero(1, col(next, 5));
    let gate = fmul(flags.is_transition@, fmul(fnot(col(next, 4)), fnot(col(next, 5))));
    assert((gate != 0) == (flags.is_transition@ == 1 && col(next, 4) != 1 && col(next, 5) != 1));
    let a = cols(next, 6, 4);
    let b = cols(local, 6, 4);
    if gate != 0 {
        if forall|i: int| 1 <= i < 5 ==> #[trigger] cs[i].0 == 0 {
            assert forall|i: int| 0 <= i < 4 implies a[i] == b[i] by {
                assert(cs[i + 1].0 == 0);
            }
            assert(a =~= b);
        }
        if a == b {
            assert forall|i: int| 1 <= i < 5 implies #[trigger] cs[i].0 == 0 by {
                assert(a[i - 1] == b[i - 1]);
            }
        }
    } else {
        assert forall|i: int| 1 <= i < 5 implies #[trigger] cs[i].0 == 0 by {
        }
    }
    if flags.is_active@ == 0 && flags.is_transition@ == 0 && flags.next_is_first@ == 0 {
        assert forall|i: int| 0 <= i < cs.len() implies (#[trigger] cs[i]).0 == 0 by {
        }
    }
}
} // verus!
