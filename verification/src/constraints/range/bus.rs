//! Range checker bus (`b_range`), a LogUp bus.
//!
//! The range checker inserts its value `v` with multiplicity `m`; the stack removes the four
//! 16-bit limbs of a u32 operation (helpers 0..4) and the memory chiplet removes its two delta
//! limbs `d0`, `d1`. Over the common denominator of all lookups `(alpha + x)`, the constraint is
//! `(b' - b) * lookups = m * stack * memory - u32_op * (...) - memory_row * (...)`.

use vstd::prelude::*;

use crate::constraint_set::{ConstraintSet, EvalContext, RowDomain};
use crate::constraints::chiplets::bus::chiplets::responses::col;
use crate::field::{
    fmul, fsub, lemma_canonical, lemma_fadd_range, lemma_felt_range, lemma_fmul_range, lemma_fsub_range, lemma_mul_zero, qadd,
    qbase, qmul, qscale, qsub, Felt,
};
use crate::trace::range::B_RANGE_COL_IDX;
use crate::trace::MainCols;

verus! {

broadcast use lemma_felt_range;

/// `alpha + x`.
pub open spec fn lookup(alpha: (int, int), x: int) -> (int, int) {
    qadd(alpha, qbase(x))
}

/// The range checker bus constraint with the randomness `alpha`.
pub open spec fn range_bus_spec(ctx: &EvalContext, alpha: (int, int), local: &MainCols<Felt>) -> (int, int) {
    let h = |i: int| local.decoder.hasher_state@[2 + i]@;
    let mv0 = lookup(alpha, col(local, 14));
    let mv1 = lookup(alpha, col(local, 15));
    let sv0 = lookup(alpha, h(0));
    let sv1 = lookup(alpha, h(1));
    let sv2 = lookup(alpha, h(2));
    let sv3 = lookup(alpha, h(3));
    let rc = lookup(alpha, local.range.value@);
    let memory_lookups = qmul(mv0, mv1);
    let stack_lookups = qmul(qmul(qmul(sv0, sv1), sv2), sv3);
    let lookups = qmul(qmul(rc, stack_lookups), memory_lookups);
    let b = local.decoder.op_bits@;
    let u32_rc_op = fmul(fmul(b[6]@, fsub(1, b[5]@)), fsub(1, b[4]@));
    let sflag = qscale(qmul(rc, memory_lookups), u32_rc_op);
    let memory_flag = fmul(fmul(col(local, 0), col(local, 1)), fsub(1, col(local, 2)));
    let mflag = qscale(qmul(rc, stack_lookups), memory_flag);
    let b_next_term = qmul(ctx.aux_next(B_RANGE_COL_IDX as int), lookups);
    let b_term = qmul(ctx.aux_local(B_RANGE_COL_IDX as int), lookups);
    let rc_term = qscale(qmul(stack_lookups, memory_lookups), local.range.multiplicity@);
    let s0_term = qmul(qmul(qmul(sflag, sv1), sv2), sv3);
    let s1_term = qmul(qmul(qmul(sflag, sv0), sv2), sv3);
    let s2_term = qmul(qmul(qmul(sflag, sv0), sv1), sv3);
    let s3_term = qmul(qmul(qmul(sflag, sv0), sv1), sv2);
    let m0_term = qmul(mflag, mv1);
    let m1_term = qmul(mflag, mv0);
    qadd(
        qadd(qadd(qadd(qadd(qadd(qsub(qsub(b_next_term, b_term), rc_term), s0_term), s1_term), s2_term), s3_term), m0_term),
        m1_term,
    )
}

/// Enforces the range checker bus constraint on every transition; `alpha` is the first random
/// challenge.
pub fn enforce_bus(builder: &mut ConstraintSet, ctx: &EvalContext, local: &MainCols<Felt>)
    requires
        ctx.wf(),
        ctx.randomness@.len() >= 1,
    ensures
        final(builder).ext_view() == old(builder).ext_view().push(
            (range_bus_spec(ctx, ctx.randomness@[0]@, local), RowDomain::Transition),
        ),
        final(builder).base_view() == old(builder).base_view(),
        final(builder).tags_view() == old(builder).tags_view(),
{
    let b_local = ctx.aux.current_slice()[B_RANGE_COL_IDX];
    let b_next = ctx.aux.next_slice()[B_RANGE_COL_IDX];
    let alpha = ctx.randomness[0];
    let h = &local.decoder.hasher_state;
    let mv0 = alpha.add_base(local.chiplets[14]);
    let mv1 = alpha.add_base(local.chiplets[15]);
    let sv0 = alpha.add_base(h[2]);
    let sv1 = alpha.add_base(h[3]);
    let sv2 = alpha.add_base(h[4]);
    let sv3 = alpha.add_base(h[5]);
    let range_check = alpha.add_base(local.range.value);
    let memory_lookups = mv0.mul(mv1);
    let stack_lookups = sv0.mul(sv1).mul(sv2).mul(sv3);
    let lookups = range_check.mul(stack_lookups).mul(memory_lookups);
    let one = Felt::one();
    let ob = &local.decoder.op_bits;
    let u32_rc_op = ob[6].mul(one.sub(ob[5])).mul(one.sub(ob[4]));
    let sflag_rc_mem = range_check.mul(memory_lookups).scale(u32_rc_op);
    let c = &local.chiplets;
    let chiplets_memory_flag = c[0].mul(c[1]).mul(one.sub(c[2]));
    let mflag_rc_stack = range_check.mul(stack_lookups).scale(chiplets_memory_flag);
    let b_next_term = b_next.mul(lookups);
    let b_term = b_local.mul(lookups);
    let rc_term = stack_lookups.mul(memory_lookups).scale(local.range.multiplicity);
    let s0_term = sflag_rc_mem.mul(sv1).mul(sv2).mul(sv3);
    let s1_term = sflag_rc_mem.mul(sv0).mul(sv2).mul(sv3);
    let s2_term = sflag_rc_mem.mul(sv0).mul(sv1).mul(sv3);
    let s3_term = sflag_rc_mem.mul(sv0).mul(sv1).mul(sv2);
    let m0_term = mflag_rc_stack.mul(mv1);
    let m1_term = mflag_rc_stack.mul(mv0);
    let value = b_next_term.sub(b_term).sub(rc_term).add(s0_term).add(s1_term).add(s2_term).add(
        s3_term,
    ).add(m0_term).add(m1_term);
    builder.assert_zero_ext(value, RowDomain::Transition);
}


// LAWS
// ================================================================================================

/// The product of the four stack limb lookups `alpha + h_i` of a row.
pub open spec fn range_stack_lookups(alpha: (int, int), local: &MainCols<Felt>) -> (int, int) {
    let h = |i: int| local.decoder.hasher_state@[2 + i]@;
    qmul(qmul(qmul(lookup(alpha, h(0)), lookup(alpha, h(1))), lookup(alpha, h(2))), lookup(alpha, h(3)))
}

/// The product of the two memory delta limb lookups of a row.
pub open spec fn range_memory_lookups(alpha: (int, int), local: &MainCols<Felt>) -> (int, int) {
    qmul(lookup(alpha, col(local, 14)), lookup(alpha, col(local, 15)))
}

/// The product of all lookups of a row: the range checker's value, the four stack limbs and the
/// two memory delta limbs, each as `alpha + x`.
pub open spec fn range_lookups(alpha: (int, int), local: &MainCols<Felt>) -> (int, int) {
    qmul(qmul(lookup(alpha, local.range.value@), range_stack_lookups(alpha, local)), range_memory_lookups(alpha, local))
}

/// On a row where the range checker inserts nothing (multiplicity 0) and neither a u32 operation
/// nor the memory chiplet removes anything, the range bus constraint is
/// `b' * lookups - b * lookups`: it vanishes when the bus is left unchanged.
pub proof fn lemma_range_bus_idle(ctx: &EvalContext, alpha: (int, int), local: &MainCols<Felt>)
    requires
        local.range.multiplicity@ == 0,
        fmul(fmul(local.decoder.op_bits@[6]@, fsub(1, local.decoder.op_bits@[5]@)), fsub(1, local.decoder.op_bits@[4]@)) == 0,
        fmul(fmul(col(local, 0), col(local, 1)), fsub(1, col(local, 2))) == 0,
    ensures
        range_bus_spec(ctx, alpha, local) == qsub(
            qmul(ctx.aux_next(B_RANGE_COL_IDX as int), range_lookups(alpha, local)),
            qmul(ctx.aux_local(B_RANGE_COL_IDX as int), range_lookups(alpha, local)),
        ),
        ctx.aux_next(B_RANGE_COL_IDX as int) == ctx.aux_local(B_RANGE_COL_IDX as int) ==> range_bus_spec(
            ctx,
            alpha,
            local,
        ) == (0int, 0int),
{
    broadcast use lemma_fadd_range, lemma_fmul_range, lemma_fsub_range;

    assert forall|x: int| #[trigger] fmul(0, x) == 0 by {
        lemma_mul_zero(x);
    }
    assert forall|x: int| #[trigger] fmul(x, 0) == 0 by {
        lemma_mul_zero(x);
    }
    lemma_canonical(0);
    let d = qsub(
        qmul(ctx.aux_next(B_RANGE_COL_IDX as int), range_lookups(alpha, local)),
        qmul(ctx.aux_local(B_RANGE_COL_IDX as int), range_lookups(alpha, local)),
    );
    lemma_canonical(d.0);
    lemma_canonical(d.1);
    let e = qmul(ctx.aux_local(B_RANGE_COL_IDX as int), range_lookups(alpha, local));
    lemma_canonical(e.0);
    lemma_canonical(e.1);
}


/// The LogUp law of a row where neither a u32 operation nor the memory chiplet removes anything:
/// only the range table's insertion of its value `v` with multiplicity `m` counts, and over the
/// common denominator the constraint is `b' * L - b * L - m * S * M`, with `L` the product of all
/// lookups and `S`, `M` the stack and memory lookup products; so it vanishes exactly when
/// `(b' - b) * (alpha + v) * S * M = m * S * M`, that is `b' = b + m / (alpha + v)` on nonzero
/// denominators.
pub proof fn lemma_range_bus_table_only(ctx: &EvalContext, alpha: (int, int), local: &MainCols<Felt>)
    requires
        fmul(fmul(local.decoder.op_bits@[6]@, fsub(1, local.decoder.op_bits@[5]@)), fsub(1, local.decoder.op_bits@[4]@)) == 0,
        fmul(fmul(col(local, 0), col(local, 1)), fsub(1, col(local, 2))) == 0,
    ensures
        range_bus_spec(ctx, alpha, local) == qsub(
            qsub(
                qmul(ctx.aux_next(B_RANGE_COL_IDX as int), range_lookups(alpha, local)),
                qmul(ctx.aux_local(B_RANGE_COL_IDX as int), range_lookups(alpha, local)),
            ),
            qscale(qmul(range_stack_lookups(alpha, local), range_memory_lookups(alpha, local)), local.range.multiplicity@),
        ),
        (range_bus_spec(ctx, alpha, local) == (0int, 0int)) == (qsub(
            qmul(ctx.aux_next(B_RANGE_COL_IDX as int), range_lookups(alpha, local)),
            qmul(ctx.aux_local(B_RANGE_COL_IDX as int), range_lookups(alpha, local)),
        ) == qscale(qmul(range_stack_lookups(alpha, local), range_memory_lookups(alpha, local)), local.range.multiplicity@)),
{
    broadcast use lemma_fadd_range, lemma_fmul_range, lemma_fsub_range;

    assert forall|x: int| #[trigger] fmul(0, x) == 0 by {
        lemma_mul_zero(x);
    }
    assert forall|x: int| #[trigger] fmul(x, 0) == 0 by {
        lemma_mul_zero(x);
    }
    lemma_canonical(0);
    let d = qsub(
        qsub(
            qmul(ctx.aux_next(B_RANGE_COL_IDX as int), range_lookups(alpha, local)),
            qmul(ctx.aux_local(B_RANGE_COL_IDX as int), range_lookups(alpha, local)),
        ),
        qscale(qmul(range_stack_lookups(alpha, local), range_memory_lookups(alpha, local)), local.range.multiplicity@),
    );
    lemma_canonical(d.0);
    lemma_canonical(d.1);
    let a = qsub(
        qmul(ctx.aux_next(B_RANGE_COL_IDX as int), range_lookups(alpha, local)),
        qmul(ctx.aux_local(B_RANGE_COL_IDX as int), range_lookups(alpha, local)),
    );
    let b = qscale(qmul(range_stack_lookups(alpha, local), range_memory_lookups(alpha, local)), local.range.multiplicity@);
    crate::field::lemma_qsub_zero(a, b);
}

} // verus!
