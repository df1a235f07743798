//! ACE (arithmetic circuit evaluation) chiplet constraints.
//!
//! A section of the ACE chiplet evaluates one circuit: READ rows load wires from memory, EVAL
//! rows apply one operation each (`op = -1`: subtraction, `op = 0`: multiplication, `op = 1`:
//! addition) on extension field wires. The section starts at `s_start = 1`, the block selector
//! `s_block` switches from READ (0) to EVAL (1) once, and the section ends on a row whose output
//! wire and id are zero.

use vstd::prelude::*;

use super::selectors::ChipletFlags;
use crate::constraint_set::{ConstraintSet, RowDomain};
use crate::constraints::chiplets::bus::chiplets::responses::col;
use crate::constraints::utils::binary_or;
use crate::field::{
    fadd, fmul, fnot, fsub, lemma_add_mul_minus_one, lemma_canonical, lemma_felt_range,
    lemma_minus_one_squared, lemma_mul_zero, lemma_sub_add_cancel, qadd, qmul, qscale, qsub, Felt,
    QuadFelt, P,
};
use crate::trace::MainCols;

verus! {

broadcast use lemma_felt_range;

// ARITHMETIC
// ================================================================================================

/// The output of an EVAL row with operation `op` on the wires `v1`, `v2`:
/// `op^2 * (linear - nonlinear) + nonlinear`, with `linear = v1 + op * v2` and
/// `nonlinear = v1 * v2`.
pub open spec fn arithmetic_expected_spec(op: int, v1: (int, int), v2: (int, int)) -> (int, int) {
    let linear = qadd(v1, qscale(v2, op));
    let nonlinear = qmul(v1, v2);
    let op_square = fmul(op, op);
    (
        fadd(fmul(op_square, fsub(linear.0, nonlinear.0)), nonlinear.0),
        fadd(fmul(op_square, fsub(linear.1, nonlinear.1)), nonlinear.1),
    )
}

/// Computes the expected output of an EVAL row.
pub fn compute_arithmetic_expected(op: Felt, v1_0: Felt, v1_1: Felt, v2_0: Felt, v2_1: Felt) -> (r: (
    Felt,
    Felt,
))
    ensures
        (r.0@, r.1@) == arithmetic_expected_spec(op@, (v1_0@, v1_1@), (v2_0@, v2_1@)),
{
    let v1 = QuadFelt::new(v1_0, v1_1);
    let v2 = QuadFelt::new(v2_0, v2_1);
    let linear = v1.add(v2.scale(op));
    let nonlinear = v1.mul(v2);
    let op_square = op.mul(op);
    (
        op_square.mul(linear.c0.sub(nonlinear.c0)).add(nonlinear.c0),
        op_square.mul(linear.c1.sub(nonlinear.c1)).add(nonlinear.c1),
    )
}

/// Whether both components are canonical.
pub open spec fn canonical(v: (int, int)) -> bool {
    0 <= v.0 < P && 0 <= v.1 < P
}

/// The EVAL operations: `op = 1` adds, `op = -1` subtracts and `op = 0` multiplies the wires.
pub proof fn lemma_arithmetic_expected_ops(v1: (int, int), v2: (int, int))
    requires
        canonical(v1),
        canonical(v2),
    ensures
        arithmetic_expected_spec(1, v1, v2) == qadd(v1, v2),
        arithmetic_expected_spec(P - 1, v1, v2) == qsub(v1, v2),
        arithmetic_expected_spec(0, v1, v2) == qmul(v1, v2),
{
    broadcast use crate::field::lemma_fadd_range, crate::field::lemma_fsub_range, crate::field::lemma_fmul_range;

    let nl = qmul(v1, v2);
    lemma_canonical(1);
    lemma_canonical(v2.0);
    lemma_canonical(v2.1);
    // op = 1.
    let lin = qadd(v1, qscale(v2, 1));
    assert(lin == qadd(v1, v2));
    lemma_canonical(fsub(lin.0, nl.0));
    lemma_canonical(fsub(lin.1, nl.1));
    lemma_sub_add_cancel(lin.0, nl.0);
    lemma_sub_add_cancel(lin.1, nl.1);
    // op = -1.
    let lin_m = qadd(v1, qscale(v2, P - 1));
    lemma_add_mul_minus_one(v1.0, v2.0);
    lemma_add_mul_minus_one(v1.1, v2.1);
    assert(lin_m == qsub(v1, v2));
    lemma_minus_one_squared();
    lemma_canonical(fsub(lin_m.0, nl.0));
    lemma_canonical(fsub(lin_m.1, nl.1));
    lemma_sub_add_cancel(lin_m.0, nl.0);
    lemma_sub_add_cancel(lin_m.1, nl.1);
    // op = 0.
    lemma_mul_zero(0);
    let lin_z = qadd(v1, qscale(v2, 0));
    lemma_mul_zero(fsub(lin_z.0, nl.0));
    lemma_mul_zero(fsub(lin_z.1, nl.1));
    lemma_canonical(nl.0);
    lemma_canonical(nl.1);
}

// CONSTRAINTS
// ================================================================================================

/// The end-of-section flag `binary_or((1 - s3') * s_start', s3')`: the next row starts a new
/// section or leaves the ACE chiplet.
pub open spec fn ace_end_flag(next: &MainCols<Felt>) -> int {
    let s3n = col(next, 3);
    let x = fmul(fnot(s3n), col(next, 4));
    fsub(fadd(x, s3n), fmul(x, s3n))
}

/// The ACE constraints. Columns: `s_start` 4, `s_block` 5, `ctx` 6, `ptr` 7, `clk` 8, `op` 9,
/// `id0` 10, `v0` 11-12, `id1` 13, `v1` 14-15, `n_eval` / `id2` 16, `v2` 17-18.
pub open spec fn ace_constraints_spec(flags: &ChipletFlags, local: &MainCols<Felt>, next: &MainCols<Felt>) -> Seq<(int, RowDomain)> {
    let active = flags.is_active@;
    let t = flags.is_transition@;
    let sstart = col(local, 4);
    let sstart_n = col(next, 4);
    let sblock = col(local, 5);
    let sblock_n = col(next, 5);
    let f_next = fnot(sstart_n);
    let f_end = ace_end_flag(next);
    let f_read = fnot(sblock);
    let f_eval = sblock;
    let within = fmul(t, fnot(sstart_n));
    let op = col(local, 9);
    let id0 = col(local, 10);
    let id0_n = col(next, 10);
    let selected = fadd(fmul(fnot(sblock_n), col(next, 16)), fmul(sblock_n, id0_n));
    let expected = arithmetic_expected_spec(op, (col(local, 14), col(local, 15)), (col(local, 17), col(local, 18)));
    let eval_gate = fmul(active, f_eval);
    let end_gate = fmul(active, f_end);
    seq![
        (fmul(flags.next_is_first@, fsub(sstart_n, 1)), RowDomain::EveryRow),
        (fmul(active, fmul(sstart, fsub(sstart, 1))), RowDomain::EveryRow),
        (fmul(active, fmul(sblock, fsub(sblock, 1))), RowDomain::EveryRow),
        (fmul(flags.is_last@, sstart), RowDomain::EveryRow),
        (fmul(t, fmul(sstart, sstart_n)), RowDomain::EveryRow),
        (fmul(active, fmul(sstart, sblock)), RowDomain::EveryRow),
        (fmul(t, fmul(f_next, fmul(sblock, fsub(sblock_n, 1)))), RowDomain::EveryRow),
        (fmul(active, fmul(f_end, fsub(sblock, 1))), RowDomain::EveryRow),
        (fmul(within, fsub(col(next, 6), col(local, 6))), RowDomain::EveryRow),
        (fmul(within, fsub(col(next, 8), col(local, 8))), RowDomain::EveryRow),
        (fmul(within, fsub(col(next, 7), fadd(fadd(col(local, 7), fmul(f_read, 4)), f_eval))), RowDomain::EveryRow),
        (fmul(within, fsub(id0, fadd(fadd(id0_n, fadd(f_read, f_read)), f_eval))), RowDomain::EveryRow),
        (fmul(active, fmul(f_read, fsub(col(local, 13), fsub(id0, 1)))), RowDomain::EveryRow),
        (fmul(t, fmul(f_read, fsub(selected, col(local, 16)))), RowDomain::EveryRow),
        (fmul(eval_gate, fmul(fmul(op, fsub(op, 1)), fadd(op, 1))), RowDomain::EveryRow),
        (fmul(eval_gate, fsub(expected.0, col(local, 11))), RowDomain::EveryRow),
        (fmul(eval_gate, fsub(expected.1, col(local, 12))), RowDomain::EveryRow),
        (fmul(end_gate, col(local, 11)), RowDomain::EveryRow),
        (fmul(end_gate, col(local, 12)), RowDomain::EveryRow),
        (fmul(end_gate, id0), RowDomain::EveryRow),
    ]
}

/// Enforces the ACE chiplet constraints: section start and end, the READ-then-EVAL block
/// structure, the pointer and id bookkeeping within a section, and the EVAL arithmetic.
#[verifier::rlimit(30)]
pub fn enforce_ace_constraints_all_rows(
    builder: &mut ConstraintSet,
    local: &MainCols<Felt>,
    next: &MainCols<Felt>,
    flags: &ChipletFlags,
)
    ensures
        final(builder).base_view() == old(builder).base_view() + ace_constraints_spec(flags, local, next),
        final(builder).ext_view() == old(builder).ext_view(),
        final(builder).tags_view() == old(builder).tags_view(),
{
    let s3_next = next.chiplets[3];
    let active = flags.is_active;
    let t = flags.is_transition;
    let ace = local.ace();
    let ace_next = next.ace();
    let one = Felt::one();
    let sstart = ace.s_start;
    let sstart_next = ace_next.s_start;
    let sblock = ace.s_block;
    let sblock_next = ace_next.s_block;
    let op = ace.eval_op;
    let id0 = ace.shared[0];
    let id0_next = ace_next.shared[0];
    let id1 = ace.shared[3];
    let n_eval = ace.shared[6];
    let n_eval_next = ace_next.shared[6];
    let v0_0 = ace.shared[1];
    let v0_1 = ace.shared[2];

    let f_next = sstart_next.not();
    let f_end = binary_or(s3_next.not().mul(sstart_next), s3_next);
    let f_read = sblock.not();
    let f_eval = sblock;
    let within = t.mul(sstart_next.not());
    let selected = sblock_next.not().mul(n_eval_next).add(sblock_next.mul(id0_next));
    let expected = compute_arithmetic_expected(op, ace.shared[4], ace.shared[5], ace.shared[7], ace.shared[8]);
    let eval_gate = active.mul(f_eval);
    let end_gate = active.mul(f_end);

    let ghost start = builder.base_view();
    builder.assert_zero(flags.next_is_first.mul(sstart_next.sub(one)), RowDomain::EveryRow);
    builder.assert_zero(active.mul(sstart.mul(sstart.sub(one))), RowDomain::EveryRow);
    builder.assert_zero(active.mul(sblock.mul(sblock.sub(one))), RowDomain::EveryRow);
    builder.assert_zero(flags.is_last.mul(sstart), RowDomain::EveryRow);
    builder.assert_zero(t.mul(sstart.mul(sstart_next)), RowDomain::EveryRow);
    builder.assert_zero(active.mul(sstart.mul(sblock)), RowDomain::EveryRow);
    builder.assert_zero(t.mul(f_next.mul(sblock.mul(sblock_next.sub(one)))), RowDomain::EveryRow);
    builder.assert_zero(active.mul(f_end.mul(sblock.sub(one))), RowDomain::EveryRow);
    builder.assert_zero(within.mul(ace_next.ctx.sub(ace.ctx)), RowDomain::EveryRow);
    builder.assert_zero(within.mul(ace_next.clk.sub(ace.clk)), RowDomain::EveryRow);
    builder.assert_zero(
        within.mul(ace_next.ptr.sub(ace.ptr.add(f_read.mul(Felt::new(4))).add(f_eval))),
        RowDomain::EveryRow,
    );
    builder.assert_zero(within.mul(id0.sub(id0_next.add(f_read.double()).add(f_eval))), RowDomain::EveryRow);
    builder.assert_zero(active.mul(f_read.mul(id1.sub(id0.sub(one)))), RowDomain::EveryRow);
    builder.assert_zero(t.mul(f_read.mul(selected.sub(n_eval))), RowDomain::EveryRow);
    builder.assert_zero(eval_gate.mul(op.mul(op.sub(one)).mul(op.add(one))), RowDomain::EveryRow);
    builder.assert_zero(eval_gate.mul(expected.0.sub(v0_0)), RowDomain::EveryRow);
    builder.assert_zero(eval_gate.mul(expected.1.sub(v0_1)), RowDomain::EveryRow);
    builder.assert_zero(end_gate.mul(v0_0), RowDomain::EveryRow);
    builder.assert_zero(end_gate.mul(v0_1), RowDomain::EveryRow);
    builder.assert_zero(end_gate.mul(id0), RowDomain::EveryRow);
    assert(builder.base_view() =~= start + ace_constraints_spec(flags, local, next));
}


/// The EVAL arithmetic law. On an active EVAL row (chiplet flag 1, `s_block = 1`), with
/// `v0` columns 11-12, `v1` columns 14-15 and `v2` columns 17-18, the two output constraints
/// vanish exactly when `v0 = v1 - v2` for `op = -1`, `v0 = v1 + v2` for `op = 1` and
/// `v0 = v1 * v2` for `op = 0`, in the quadratic extension.
pub proof fn lemma_eval_output(flags: &ChipletFlags, local: &MainCols<Felt>, next: &MainCols<Felt>)
    requires
        flags.is_active@ == 1,
        col(local, 5) == 1,
        col(local, 9) == P - 1 || col(local, 9) == 1 || col(local, 9) == 0,
    ensures
        ({
            let cs = ace_constraints_spec(flags, local, next);
            let v0 = (col(local, 11), col(local, 12));
            let v1 = (col(local, 14), col(local, 15));
            let v2 = (col(local, 17), col(local, 18));
            let op = col(local, 9);
            (cs[15].0 == 0 && cs[16].0 == 0) == (v0 == if op == P - 1 {
                qsub(v1, v2)
            } else if op == 1 {
                qadd(v1, v2)
            } else {
                qmul(v1, v2)
            })
        }),
{
    broadcast use crate::field::lemma_fadd_range, crate::field::lemma_fsub_range, crate::field::lemma_fmul_range;

    let v1 = (col(local, 14), col(local, 15));
    let v2 = (col(local, 17), col(local, 18));
    lemma_arithmetic_expected_ops(v1, v2);
    let e = arithmetic_expected_spec(col(local, 9), v1, v2);
    lemma_canonical(1);
    lemma_canonical(fsub(e.0, col(local, 11)));
    lemma_canonical(fsub(e.1, col(local, 12)));
    crate::field::lemma_fsub_zero(e.0, col(local, 11));
    crate::field::lemma_fsub_zero(e.1, col(local, 12));
}

/// The ACE section law on a transition inside a section (`t = 1`, `s_start' = 0`): the context
/// and clock are kept, a READ row (`s_block = 0`) advances the pointer by 4 and lowers the wire
/// id by 2, an EVAL row (`s_block = 1`) advances the pointer by 1 and lowers the id by 1.
pub proof fn lemma_ace_section_step(flags: &ChipletFlags, local: &MainCols<Felt>, next: &MainCols<Felt>)
    requires
        flags.is_transition@ == 1,
        col(next, 4) == 0,
        col(local, 5) == 0 || col(local, 5) == 1,
    ensures
        ({
            let cs = ace_constraints_spec(flags, local, next);
            let p = P as int;
            let read = col(local, 5) == 0;
            &&& (cs[8].0 == 0) == (col(next, 6) == col(local, 6))
            &&& (cs[9].0 == 0) == (col(next, 8) == col(local, 8))
            &&& (cs[10].0 == 0) == (col(next, 7) == (col(local, 7) + if read { 4int } else { 1int }) % p)
            &&& (cs[11].0 == 0) == (col(local, 10) == (col(next, 10) + if read { 2int } else { 1int }) % p)
        }),
{
    broadcast use crate::field::lemma_fadd_range, crate::field::lemma_fsub_range, crate::field::lemma_fmul_range;

    let p = P as int;
    let sb = col(local, 5);
    let ptr = col(local, 7);
    let id0 = col(local, 10);
    let id0_n = col(next, 10);
    lemma_canonical(0);
    lemma_canonical(1);
    lemma_canonical(4);
    lemma_mul_zero(4);
    assert(fnot(0) == 1 && fnot(1) == 0) by {
        crate::field::lemma_bool_ops(0, 0);
        crate::field::lemma_bool_ops(1, 1);
    }
    let within = fmul(1, fnot(0));
    assert(within == 1);
    lemma_canonical(fsub(col(next, 6), col(local, 6)));
    crate::field::lemma_fsub_zero(col(next, 6), col(local, 6));
    lemma_canonical(fsub(col(next, 8), col(local, 8)));
    crate::field::lemma_fsub_zero(col(next, 8), col(local, 8));
    let ptr_step = fadd(fadd(ptr, fmul(fnot(sb), 4)), sb);
    lemma_canonical(fsub(col(next, 7), ptr_step));
    crate::field::lemma_fsub_zero(col(next, 7), ptr_step);
    let id_step = fadd(fadd(id0_n, fadd(fnot(sb), fnot(sb))), sb);
    lemma_canonical(fsub(id0, id_step));
    crate::field::lemma_fsub_zero(id0, id_step);
    crate::field::lemma_small_values(1, 1);
    crate::field::lemma_small_values(0, 0);
    crate::field::lemma_field_ops_mod(ptr, 4);
    crate::field::lemma_field_ops_mod(ptr, 1);
    crate::field::lemma_field_ops_mod(id0_n, 2);
    crate::field::lemma_field_ops_mod(id0_n, 1);
    lemma_canonical(ptr);
    lemma_canonical(id0_n);
    lemma_canonical(fadd(ptr, 4));
    lemma_canonical(fadd(id0_n, 2));
}

/// The ACE wire law on an active row: `s_start` and `s_block` are binary, a READ row's second
/// wire id is one below the first, an EVAL row's operation is one of -1, 0, 1, and the last row of
/// a section has a zero output wire and id 0.
pub proof fn lemma_ace_rows(flags: &ChipletFlags, local: &MainCols<Felt>, next: &MainCols<Felt>)
    requires
        flags.is_active@ == 1,
    ensures
        ({
            let cs = ace_constraints_spec(flags, local, next);
            let p = P as int;
            let op = col(local, 9);
            &&& (cs[1].0 == 0) == (col(local, 4) == 0 || col(local, 4) == 1)
            &&& (cs[2].0 == 0) == (col(local, 5) == 0 || col(local, 5) == 1)
            &&& col(local, 5) == 0 ==> ((cs[12].0 == 0) == (col(local, 13) == (col(local, 10) - 1) % p))
            &&& col(local, 5) == 1 ==> ((cs[14].0 == 0) == (op == 0 || op == 1 || op == p - 1))
            &&& ace_end_flag(next) == 1 ==> ((cs[17].0 == 0 && cs[18].0 == 0 && cs[19].0 == 0) == (col(local, 11) == 0
                && col(local, 12) == 0 && col(local, 10) == 0))
        }),
{
    broadcast use crate::field::lemma_fadd_range, crate::field::lemma_fsub_range, crate::field::lemma_fmul_range;

    let p = P as int;
    let op = col(local, 9);
    let id0 = col(local, 10);
    lemma_canonical(1);
    lemma_canonical(0);
    lemma_canonical(fmul(col(local, 4), fsub(col(local, 4), 1)));
    lemma_canonical(fmul(col(local, 5), fsub(col(local, 5), 1)));
    crate::field::lemma_binary_iff(col(local, 4));
    crate::field::lemma_binary_iff(col(local, 5));
    assert(fnot(0) == 1) by {
        crate::field::lemma_bool_ops(0, 0);
    }
    let d = fsub(col(local, 13), fsub(id0, 1));
    lemma_canonical(d);
    lemma_canonical(fmul(1, d));
    crate::field::lemma_fsub_zero(col(local, 13), fsub(id0, 1));
    crate::field::lemma_field_ops_mod(id0, 1);
    let q = fmul(fmul(op, fsub(op, 1)), fadd(op, 1));
    lemma_canonical(q);
    crate::field::lemma_fmul_zero_iff(fmul(op, fsub(op, 1)), fadd(op, 1));
    crate::field::lemma_binary_iff(op);
    crate::field::lemma_field_ops_mod(op, 1);
    if op < p - 1 {
        vstd::arithmetic::div_mod::lemma_small_mod((op + 1) as nat, p as nat);
    } else {
        vstd::arithmetic::div_mod::lemma_mod_self_0(p);
    }
    lemma_canonical(col(local, 11));
    lemma_canonical(col(local, 12));
    lemma_canonical(id0);
}

} // verus!
