//! The main chiplets bus (`b_chiplets`).
//!
//! The bus is a running product: `b_chiplets' * requests = b_chiplets * responses` on every
//! transition. Requests are sent by the stack and the decoder, responses by the chiplets.

pub mod requests;
pub mod responses;

use vstd::prelude::*;

use self::requests::{compute_request_multiplier, request_flags, request_multiplier_spec, request_values};
use self::responses::{
    col, compute_response_multiplier, lemma_bitwise_row_response, response_flags, response_multiplier_spec, response_values,
};
use crate::constraint_set::{ConstraintSet, EvalContext, RowDomain};
use crate::constraints::chiplets::bitwise::P_BITWISE_K_TRANSITION;
use crate::constraints::chiplets::hasher::periodic::{P_CYCLE_ROW_0, P_CYCLE_ROW_31};
use crate::constraints::chiplets::selectors::ChipletSelectors;
use crate::constraints::op_flags::OpFlags;
use crate::constraints::chiplets::bus::lemma_bus_multiplier_idle;
use crate::field::{lemma_felt_range, lemma_qmul_one, lemma_qsub_zero, qmul, qsub, Felt};
use crate::trace::challenges::Challenges;
use crate::trace::{MainCols, CHIPLETS_BUS_AUX_TRACE_OFFSET};

use crate::trace::chiplets::hasher::{
    LINEAR_HASH_LABEL, MP_VERIFY_LABEL, MR_UPDATE_NEW_LABEL, MR_UPDATE_OLD_LABEL,
    RETURN_HASH_LABEL, RETURN_STATE_LABEL,
};

verus! {

// LABEL CONSTANTS
// ================================================================================================

/// Transition label for linear hash init and control block requests.
pub const TRANSITION_LINEAR_HASH: u64 = LINEAR_HASH_LABEL + 16;
/// Transition label for absorption (RESPAN).
pub const TRANSITION_LINEAR_HASH_ABP: u64 = LINEAR_HASH_LABEL + 32;
/// Transition label for Merkle path verification input.
pub const TRANSITION_MP_VERIFY: u64 = MP_VERIFY_LABEL + 16;
/// Transition label for Merkle root update input (old path).
pub const TRANSITION_MR_UPDATE_OLD: u64 = MR_UPDATE_OLD_LABEL + 16;
/// Transition label for Merkle root update input (new path).
pub const TRANSITION_MR_UPDATE_NEW: u64 = MR_UPDATE_NEW_LABEL + 16;
/// Transition label for the hash output.
pub const TRANSITION_RETURN_HASH: u64 = RETURN_HASH_LABEL + 32;
/// Transition label for the full state output.
pub const TRANSITION_RETURN_STATE: u64 = RETURN_STATE_LABEL + 32;
/// Offset of the last row of a hasher cycle (`HASH_CYCLE_LEN - 1`).
pub const HASH_CYCLE_OFFSET: u64 = 31;

/// Address at which the frame pointer of a new context is stored (`2^32 - 2`).
pub const FMP_ADDR: u64 = 4294967294;
/// Initial value of the frame pointer (`2^31`).
pub const FMP_INIT_VALUE: u64 = 2147483648;

/// Auxiliary column of the chiplets bus.
pub const B_CHIPLETS: usize = CHIPLETS_BUS_AUX_TRACE_OFFSET;

/// The chiplets bus constraint `b' * requests - b * responses`.
pub open spec fn chiplets_bus_constraint_spec(
    ctx: &EvalContext,
    local: &MainCols<Felt>,
    next: &MainCols<Felt>,
    op_flags: &OpFlags,
    ch: &Challenges,
    selectors: &ChipletSelectors,
) -> (int, int) {
    let requests = request_multiplier_spec(op_flags, ch, local, next);
    let responses = response_multiplier_spec(
        selectors,
        ctx.periodic@[P_CYCLE_ROW_0 as int]@,
        ctx.periodic@[P_CYCLE_ROW_31 as int]@,
        ctx.periodic@[P_BITWISE_K_TRANSITION as int]@,
        ch,
        local,
        next,
    );
    qsub(qmul(ctx.aux_next(B_CHIPLETS as int), requests), qmul(ctx.aux_local(B_CHIPLETS as int), responses))
}

// ENTRY POINT
// ================================================================================================

/// Enforces the chiplets bus constraint `b_chiplets' * requests = b_chiplets * responses` on
/// every transition.
pub fn enforce_chiplets_bus_constraint(
    builder: &mut ConstraintSet,
    ctx: &EvalContext,
    local: &MainCols<Felt>,
    next: &MainCols<Felt>,
    op_flags: &OpFlags,
    challenges: &Challenges,
    selectors: &ChipletSelectors,
)
    requires
        ctx.wf(),
        ctx.periodic@.len() > P_BITWISE_K_TRANSITION,
        op_flags.wf(),
        challenges.wf(),
    ensures
        final(builder).ext_view() == old(builder).ext_view().push(
            (chiplets_bus_constraint_spec(ctx, local, next, op_flags, challenges, selectors), RowDomain::Transition),
        ),
        final(builder).base_view() == old(builder).base_view(),
        final(builder).tags_view() == old(builder).tags_view(),
{
    let b_local = ctx.aux.current_slice()[B_CHIPLETS];
    let b_next = ctx.aux.next_slice()[B_CHIPLETS];
    let requests = compute_request_multiplier(local, next, op_flags, challenges);
    let responses = compute_response_multiplier(ctx, local, next, challenges, selectors);
    let lhs = b_next.mul(requests);
    let rhs = b_local.mul(responses);
    builder.assert_zero_ext(lhs.sub(rhs), RowDomain::Transition);
}


// LAWS
// ================================================================================================

/// On a row where no request flag and no response flag is set, the chiplets bus constraint is
/// `b' - b`: it vanishes exactly when the bus accumulator is left unchanged.
pub proof fn lemma_chiplets_bus_idle(
    ctx: &EvalContext,
    local: &MainCols<Felt>,
    next: &MainCols<Felt>,
    op_flags: &OpFlags,
    ch: &Challenges,
    selectors: &ChipletSelectors,
)
    requires
        ctx.wf(),
        forall|i: int| 0 <= i < request_flags(op_flags).len() ==> #[trigger] request_flags(op_flags)[i] == 0,
        forall|i: int|
            0 <= i < response_flags(
                selectors,
                ctx.periodic@[P_CYCLE_ROW_0 as int]@,
                ctx.periodic@[P_CYCLE_ROW_31 as int]@,
                ctx.periodic@[P_BITWISE_K_TRANSITION as int]@,
                local,
            ).len() ==> #[trigger] response_flags(
                selectors,
                ctx.periodic@[P_CYCLE_ROW_0 as int]@,
                ctx.periodic@[P_CYCLE_ROW_31 as int]@,
                ctx.periodic@[P_BITWISE_K_TRANSITION as int]@,
                local,
            )[i] == 0,
    ensures
        chiplets_bus_constraint_spec(ctx, local, next, op_flags, ch, selectors) == qsub(
            ctx.aux_next(B_CHIPLETS as int),
            ctx.aux_local(B_CHIPLETS as int),
        ),
        (chiplets_bus_constraint_spec(ctx, local, next, op_flags, ch, selectors) == (0int, 0int)) == (ctx.aux_next(
            B_CHIPLETS as int,
        ) == ctx.aux_local(B_CHIPLETS as int)),
{
    broadcast use lemma_felt_range;

    let c0 = ctx.periodic@[P_CYCLE_ROW_0 as int]@;
    let c31 = ctx.periodic@[P_CYCLE_ROW_31 as int]@;
    let k = ctx.periodic@[P_BITWISE_K_TRANSITION as int]@;
    lemma_bus_multiplier_idle(request_flags(op_flags), request_values(ch, local, next));
    lemma_bus_multiplier_idle(response_flags(selectors, c0, c31, k, local), response_values(ch, local, next));
    let b = ctx.aux_local(B_CHIPLETS as int);
    let b_next = ctx.aux_next(B_CHIPLETS as int);
    assert(b == ctx.aux.current()[B_CHIPLETS as int]@);
    assert(b_next == ctx.aux.next()[B_CHIPLETS as int]@);
    lemma_qmul_one(b);
    lemma_qmul_one(b_next);
    lemma_qsub_zero(b_next, b);
}


/// On a bitwise row off the last row of its cycle (periodic `k_transition = 1`), with no request
/// flag set, the chiplets bus constraint is `b' - b`: the bitwise chiplet sends nothing there, so
/// the constraint vanishes exactly when the bus accumulator is left unchanged.
pub proof fn lemma_chiplets_bus_bitwise_idle(
    ctx: &EvalContext,
    local: &MainCols<Felt>,
    next: &MainCols<Felt>,
    op_flags: &OpFlags,
    ch: &Challenges,
    selectors: &ChipletSelectors,
)
    requires
        ctx.wf(),
        forall|i: int| 0 <= i < request_flags(op_flags).len() ==> #[trigger] request_flags(op_flags)[i] == 0,
        selectors.bitwise.is_active@ == 1,
        selectors.hasher.is_active@ == 0,
        selectors.memory.is_active@ == 0,
        selectors.ace.is_active@ == 0,
        selectors.kernel_rom.is_active@ == 0,
        ctx.periodic@[P_BITWISE_K_TRANSITION as int]@ == 1,
        col(local, 2) == 0 || col(local, 2) == 1,
    ensures
        chiplets_bus_constraint_spec(ctx, local, next, op_flags, ch, selectors) == qsub(
            ctx.aux_next(B_CHIPLETS as int),
            ctx.aux_local(B_CHIPLETS as int),
        ),
        (chiplets_bus_constraint_spec(ctx, local, next, op_flags, ch, selectors) == (0int, 0int)) == (ctx.aux_next(
            B_CHIPLETS as int,
        ) == ctx.aux_local(B_CHIPLETS as int)),
{
    broadcast use lemma_felt_range;

    let c0 = ctx.periodic@[P_CYCLE_ROW_0 as int]@;
    let c31 = ctx.periodic@[P_CYCLE_ROW_31 as int]@;
    let k = ctx.periodic@[P_BITWISE_K_TRANSITION as int]@;
    lemma_bus_multiplier_idle(request_flags(op_flags), request_values(ch, local, next));
    lemma_bitwise_row_response(selectors, c0, c31, k, ch, local, next);
    let b = ctx.aux_local(B_CHIPLETS as int);
    let b_next = ctx.aux_next(B_CHIPLETS as int);
    assert(b == ctx.aux.current()[B_CHIPLETS as int]@);
    assert(b_next == ctx.aux.next()[B_CHIPLETS as int]@);
    lemma_qmul_one(b);
    lemma_qmul_one(b_next);
    lemma_qsub_zero(b_next, b);
}

} // verus!
