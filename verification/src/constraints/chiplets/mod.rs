//! Chiplet constraints: selectors, the per-chiplet main trace constraints and the chiplet buses.

pub mod ace;
pub mod bitwise;
pub mod bus;
pub mod hasher;
pub mod kernel_rom;
pub mod memory;
pub mod selectors;

use vstd::prelude::*;

use self::ace::{ace_constraints_spec, enforce_ace_constraints_all_rows};
use self::bitwise::{bitwise_constraints_spec, enforce_bitwise_constraints, P_BITWISE_K_FIRST, P_BITWISE_K_TRANSITION};
use self::hasher::state::mat_diag_spec;
use self::hasher::{enforce_hasher_constraints, hasher_constraints_spec};
use self::kernel_rom::{enforce_kernel_rom_constraints, kernel_rom_constraints_spec};
use self::memory::{enforce_memory_constraints, memory_constraints_spec};
use self::selectors::ChipletSelectors;
use crate::constraint_set::{ConstraintSet, EvalContext, RowDomain};
use crate::constraints::utils::felt_values;
use crate::field::Felt;
use crate::trace::MainCols;

verus! {

/// All chiplet main trace constraints (the selector constraints are enforced when the
/// selectors are built).
pub open spec fn chiplets_constraints_spec(
    ctx: &EvalContext,
    local: &MainCols<Felt>,
    next: &MainCols<Felt>,
    selectors: &ChipletSelectors,
    mat_diag: Seq<int>,
) -> Seq<(int, RowDomain)> {
    hasher_constraints_spec(selectors.hasher.is_active@, felt_values(ctx.periodic@), local, next, mat_diag)
        + bitwise_constraints_spec(
            &selectors.bitwise,
            ctx.periodic@[P_BITWISE_K_FIRST as int]@,
            ctx.periodic@[P_BITWISE_K_TRANSITION as int]@,
            local,
            next,
        ) + memory_constraints_spec(&selectors.memory, local, next) + ace_constraints_spec(
        &selectors.ace,
        local,
        next,
    ) + kernel_rom_constraints_spec(&selectors.kernel_rom, local, next)
}

/// Enforces the chiplet main trace constraints: hasher, bitwise, memory, ACE and kernel ROM; the
/// hasher's internal linear layer uses the Poseidon2 diagonal.
pub fn enforce_main(
    builder: &mut ConstraintSet,
    ctx: &EvalContext,
    local: &MainCols<Felt>,
    next: &MainCols<Felt>,
    selectors: &ChipletSelectors,
)
    requires
        ctx.periodic@.len() > P_BITWISE_K_TRANSITION,
    ensures
        final(builder).base_view() == old(builder).base_view() + chiplets_constraints_spec(
            ctx,
            local,
            next,
            selectors,
            mat_diag_spec(),
        ),
        final(builder).ext_view() == old(builder).ext_view(),
        final(builder).tags_view() == old(builder).tags_view(),
{
    let ghost start = builder.base_view();
    enforce_hasher_constraints(builder, ctx, local, next, &selectors.hasher);
    enforce_bitwise_constraints(builder, ctx, local, next, &selectors.bitwise);
    enforce_memory_constraints(builder, local, next, &selectors.memory);
    enforce_ace_constraints_all_rows(builder, local, next, &selectors.ace);
    enforce_kernel_rom_constraints(builder, local, next, &selectors.kernel_rom);
    assert(builder.base_view() =~= start + chiplets_constraints_spec(
        ctx,
        local,
        next,
        selectors,
        mat_diag_spec(),
    ));
}

} // verus!
