//! System constraints: the clock, the execution context and the current procedure hash.

use vstd::prelude::*;

use crate::constraint_set::{all_vanish, ConstraintSet, RowDomain};
use crate::constraints::op_flags::{
    degree4_flag, degree5_flag, is_opcode, lemma_opcode_flags_one_hot, opcode_bits, opcode_extra, row_op_bits, row_op_bits_extra,
    ExprDecoderAccess, OpFlags,
};
use crate::opcodes;
use crate::field::{
    fadd, fmul, fsub, lemma_canonical, lemma_fadd_range, lemma_felt_range, lemma_fsub_range, lemma_fsub_zero, lemma_mul_zero,
    lemma_small_values, Felt, P,
};
use crate::trace::MainCols;

verus! {

broadcast use lemma_felt_range;

// SPECIFICATION
// ================================================================================================

/// The CALL flag of a row.
pub open spec fn call_flag(row: &MainCols<Felt>) -> int {
    degree4_flag(row_op_bits(row), row_op_bits_extra(row), 3)
}

/// The SYSCALL flag of a row.
pub open spec fn syscall_flag(row: &MainCols<Felt>) -> int {
    degree4_flag(row_op_bits(row), row_op_bits_extra(row), 2)
}

/// The END flag of a row.
pub open spec fn end_flag(row: &MainCols<Felt>) -> int {
    degree4_flag(row_op_bits(row), row_op_bits_extra(row), 4)
}

/// The DYNCALL flag of a row.
pub open spec fn dyncall_flag(row: &MainCols<Felt>) -> int {
    degree5_flag(row_op_bits(row), row_op_bits_extra(row), 12)
}

/// The clock starts at 0 and increments by 1.
pub open spec fn clock_spec(local: &MainCols<Felt>, next: &MainCols<Felt>) -> Seq<(int, RowDomain)> {
    seq![
        (local.system.clk@, RowDomain::FirstRow),
        (fsub(next.system.clk@, fadd(local.system.clk@, 1)), RowDomain::Transition),
    ]
}

/// CALL and DYNCALL enter the context `clk + 1`, SYSCALL enters the root context 0, and the
/// context is unchanged by every operation other than these and END.
pub open spec fn ctx_spec(local: &MainCols<Felt>, next: &MainCols<Felt>) -> Seq<(int, RowDomain)> {
    let f_call = call_flag(local);
    let f_syscall = syscall_flag(local);
    let f_dyncall = dyncall_flag(local);
    let f_end = end_flag(local);
    let change = fadd(fadd(fadd(f_call, f_syscall), f_dyncall), f_end);
    seq![
        (fmul(fadd(f_call, f_dyncall), fsub(next.system.ctx@, fadd(local.system.clk@, 1))), RowDomain::Transition),
        (fmul(f_syscall, next.system.ctx@), RowDomain::Transition),
        (fmul(fsub(1, change), fsub(next.system.ctx@, local.system.ctx@)), RowDomain::Transition),
    ]
}

/// CALL and DYNCALL load the callee hash from the decoder hasher state; the hash is unchanged
/// by every operation other than these and END.
pub open spec fn fn_hash_spec(local: &MainCols<Felt>, next: &MainCols<Felt>) -> Seq<(int, RowDomain)> {
    let f_load = fadd(call_flag(local), dyncall_flag(local));
    let f_preserve = fsub(1, fadd(f_load, end_flag(local)));
    Seq::new(
        4,
        |i: int| (fmul(f_load, fsub(next.system.fn_hash@[i]@, local.decoder.hasher_state@[i]@)), RowDomain::Transition),
    ) + Seq::new(
        4,
        |i: int| (fmul(f_preserve, fsub(next.system.fn_hash@[i]@, local.system.fn_hash@[i]@)), RowDomain::Transition),
    )
}

// CONSTRAINTS
// ================================================================================================

/// The operation flags of a row.
fn row_flags(local: &MainCols<Felt>) -> (r: OpFlags)
    ensures
        r.computed_from(
            row_op_bits(local),
            row_op_bits_extra(local),
            local.stack.h0@,
            local.stack.b0@,
            local.decoder.hasher_state@[5]@,
        ),
        r.wf(),
{
    OpFlags::new(ExprDecoderAccess::new(local))
}

/// Enforces the clock constraints.
pub fn enforce_clock_constraint(builder: &mut ConstraintSet, local: &MainCols<Felt>, next: &MainCols<Felt>)
    ensures
        final(builder).base_view() == old(builder).base_view() + clock_spec(local, next),
        final(builder).ext_view() == old(builder).ext_view(),
        final(builder).tags_view() == old(builder).tags_view(),
{
    let ghost start = builder.base_view();
    builder.assert_zero(local.system.clk, RowDomain::FirstRow);
    builder.assert_zero(next.system.clk.sub(local.system.clk.add(Felt::one())), RowDomain::Transition);
    assert(builder.base_view() =~= start + clock_spec(local, next));
}

/// Enforces the context constraints.
pub fn enforce_ctx_constraints(builder: &mut ConstraintSet, local: &MainCols<Felt>, next: &MainCols<Felt>)
    ensures
        final(builder).base_view() == old(builder).base_view() + ctx_spec(local, next),
        final(builder).ext_view() == old(builder).ext_view(),
        final(builder).tags_view() == old(builder).tags_view(),
{
    let flags = row_flags(local);
    let f_call = flags.call();
    let f_syscall = flags.syscall();
    let f_dyncall = flags.dyncall();
    let f_end = flags.end();
    let ctx = local.system.ctx;
    let ctx_next = next.system.ctx;
    let expected_new_ctx = local.system.clk.add(Felt::one());
    let ghost start = builder.base_view();
    builder.assert_zero(f_call.add(f_dyncall).mul(ctx_next.sub(expected_new_ctx)), RowDomain::Transition);
    builder.assert_zero(f_syscall.mul(ctx_next), RowDomain::Transition);
    let change_ctx_flag = f_call.add(f_syscall).add(f_dyncall).add(f_end);
    let default_flag = Felt::one().sub(change_ctx_flag);
    builder.assert_zero(default_flag.mul(ctx_next.sub(ctx)), RowDomain::Transition);
    assert(builder.base_view() =~= start + ctx_spec(local, next));
}

/// Enforces the procedure hash constraints.
pub fn enforce_fn_hash_constraints(builder: &mut ConstraintSet, local: &MainCols<Felt>, next: &MainCols<Felt>)
    ensures
        final(builder).base_view() == old(builder).base_view() + fn_hash_spec(local, next),
        final(builder).ext_view() == old(builder).ext_view(),
        final(builder).tags_view() == old(builder).tags_view(),
{
    let flags = row_flags(local);
    let f_load = flags.call().add(flags.dyncall());
    let f_preserve = Felt::one().sub(f_load.add(flags.end()));
    let fh = &local.system.fn_hash;
    let fhn = &next.system.fn_hash;
    let h = &local.decoder.hasher_state;
    let values = vec![
        f_load.mul(fhn[0].sub(h[0])),
        f_load.mul(fhn[1].sub(h[1])),
        f_load.mul(fhn[2].sub(h[2])),
        f_load.mul(fhn[3].sub(h[3])),
        f_preserve.mul(fhn[0].sub(fh[0])),
        f_preserve.mul(fhn[1].sub(fh[1])),
        f_preserve.mul(fhn[2].sub(fh[2])),
        f_preserve.mul(fhn[3].sub(fh[3])),
    ];
    builder.assert_zeros(&values, RowDomain::Transition);
    assert(values@.map_values(|v: Felt| (v@, RowDomain::Transition)) =~= fn_hash_spec(local, next));
}

/// Enforces the system constraints: clock, context and procedure hash.
pub fn enforce_main(builder: &mut ConstraintSet, local: &MainCols<Felt>, next: &MainCols<Felt>)
    ensures
        final(builder).base_view() == old(builder).base_view() + clock_spec(local, next) + ctx_spec(local, next)
            + fn_hash_spec(local, next),
        final(builder).ext_view() == old(builder).ext_view(),
        final(builder).tags_view() == old(builder).tags_view(),
{
    let ghost start = builder.base_view();
    enforce_clock_constraint(builder, local, next);
    enforce_ctx_constraints(builder, local, next);
    enforce_fn_hash_constraints(builder, local, next);
    assert(builder.base_view() =~= start + clock_spec(local, next) + ctx_spec(local, next) + fn_hash_spec(local, next));
}


// LAWS
// ================================================================================================

/// The context law: on a row whose op bits encode the opcode `k`, the context constraints
/// vanish exactly when CALL and DYNCALL enter the context `clk + 1`, SYSCALL enters the root
/// context 0, and every operation other than these and END keeps the context; after END any
/// context is accepted.
pub proof fn lemma_ctx_transition(local: &MainCols<Felt>, next: &MainCols<Felt>, k: int)
    requires
        is_opcode(k),
        row_op_bits(local) == opcode_bits(k),
        row_op_bits_extra(local) == opcode_extra(k),
    ensures
        all_vanish(ctx_spec(local, next)) == (if k == opcodes::CALL || k == opcodes::DYNCALL {
            next.system.ctx@ == fadd(local.system.clk@, 1)
        } else if k == opcodes::SYSCALL {
            next.system.ctx@ == 0
        } else if k == opcodes::END {
            true
        } else {
            next.system.ctx@ == local.system.ctx@
        }),
{
    broadcast use lemma_fadd_range, lemma_fsub_range;

    lemma_opcode_flags_one_hot(k);
    let cs = ctx_spec(local, next);
    let f_call = call_flag(local);
    let f_syscall = syscall_flag(local);
    let f_dyncall = dyncall_flag(local);
    let f_end = end_flag(local);
    assert(f_call == (if k == opcodes::CALL { 1int } else { 0int }));
    assert(f_syscall == (if k == opcodes::SYSCALL { 1int } else { 0int }));
    assert(f_end == (if k == opcodes::END { 1int } else { 0int }));
    assert(f_dyncall == (if k == opcodes::DYNCALL { 1int } else { 0int }));
    assert forall|x: int, y: int| 0 <= x <= 1 && 0 <= y <= 1 implies #[trigger] fadd(x, y) == x + y by {
        lemma_small_values(x, y);
    }
    assert forall|x: int| #[trigger] fmul(0, x) == 0 by {
        lemma_mul_zero(x);
    }
    assert forall|x: int| 0 <= x < P implies #[trigger] fmul(1, x) == x by {
        lemma_canonical(x);
    }
    assert forall|x: int, y: int| 0 <= x < P && 0 <= y < P implies (#[trigger] fsub(x, y) == 0) == (x == y) by {
        lemma_fsub_zero(x, y);
    }
    lemma_canonical(1);
    lemma_canonical(0);
    lemma_small_values(1, 0);
    lemma_small_values(1, 1);
    assert(all_vanish(cs) == (cs[0].0 == 0 && cs[1].0 == 0 && cs[2].0 == 0));
}

/// The clock law: the clock starts at 0 and grows by one per row.
pub proof fn lemma_clock(local: &MainCols<Felt>, next: &MainCols<Felt>)
    ensures
        (clock_spec(local, next)[0].0 == 0) == (local.system.clk@ == 0),
        (clock_spec(local, next)[1].0 == 0) == (next.system.clk@ == (local.system.clk@ + 1) % (P as int)),
{
    broadcast use lemma_fadd_range;

    let clk = local.system.clk@;
    let clk_n = next.system.clk@;
    crate::field::lemma_field_ops_mod(clk, 1);
    lemma_fsub_zero(clk_n, fadd(clk, 1));
}

/// The procedure hash law: CALL and DYNCALL load the callee hash `h0..h4` of the decoder, END may
/// change it, and every other operation keeps it.
pub proof fn lemma_fn_hash_transition(local: &MainCols<Felt>, next: &MainCols<Felt>, k: int)
    requires
        is_opcode(k),
        row_op_bits(local) == opcode_bits(k),
        row_op_bits_extra(local) == opcode_extra(k),
    ensures
        all_vanish(fn_hash_spec(local, next)) == (if k == opcodes::CALL || k == opcodes::DYNCALL {
            forall|i: int| 0 <= i < 4 ==> #[trigger] next.system.fn_hash@[i]@ == local.decoder.hasher_state@[i]@
        } else if k == opcodes::END {
            true
        } else {
            forall|i: int| 0 <= i < 4 ==> #[trigger] next.system.fn_hash@[i]@ == local.system.fn_hash@[i]@
        }),
{
    broadcast use lemma_fadd_range, lemma_fsub_range;

    lemma_opcode_flags_one_hot(k);
    let cs = fn_hash_spec(local, next);
    let f_call = call_flag(local);
    let f_dyncall = dyncall_flag(local);
    let f_end = end_flag(local);
    assert(f_call == (if k == opcodes::CALL { 1int } else { 0int }));
    assert(f_end == (if k == opcodes::END { 1int } else { 0int }));
    assert(f_dyncall == (if k == opcodes::DYNCALL { 1int } else { 0int }));
    assert forall|x: int, y: int| 0 <= x <= 1 && 0 <= y <= 1 implies #[trigger] fadd(x, y) == x + y by {
        lemma_small_values(x, y);
    }
    assert forall|x: int| #[trigger] fmul(0, x) == 0 by {
        lemma_mul_zero(x);
    }
    assert forall|x: int| 0 <= x < P implies #[trigger] fmul(1, x) == x by {
        lemma_canonical(x);
    }
    assert forall|x: int, y: int| 0 <= x < P && 0 <= y < P implies (#[trigger] fsub(x, y) == 0) == (x == y) by {
        lemma_fsub_zero(x, y);
    }
    lemma_canonical(1);
    lemma_canonical(0);
    lemma_small_values(1, 0);
    lemma_small_values(1, 1);
    let f_load = fadd(f_call, f_dyncall);
    let f_preserve = fsub(1, fadd(f_load, f_end));
    assert(f_load == (if k == opcodes::CALL || k == opcodes::DYNCALL { 1int } else { 0int }));
    assert(f_preserve == (if k == opcodes::CALL || k == opcodes::DYNCALL || k == opcodes::END { 0int } else { 1int }));
    assert(cs.len() == 8);
    assert forall|i: int| 0 <= i < 4 implies cs[i].0 == fmul(f_load, fsub(next.system.fn_hash@[i]@, local.decoder.hasher_state@[i]@))
        && cs[4 + i].0 == fmul(f_preserve, fsub(next.system.fn_hash@[i]@, local.system.fn_hash@[i]@)) by {}
    if k == opcodes::CALL || k == opcodes::DYNCALL {
        if all_vanish(cs) {
            assert forall|i: int| 0 <= i < 4 implies #[trigger] next.system.fn_hash@[i]@ == local.decoder.hasher_state@[i]@ by {
                assert(cs[i].0 == 0);
            }
        }
        if forall|i: int| 0 <= i < 4 ==> #[trigger] next.system.fn_hash@[i]@ == local.decoder.hasher_state@[i]@ {
            assert forall|j: int| 0 <= j < cs.len() implies #[trigger] cs[j].0 == 0 by {
                if j < 4 {
                    assert(next.system.fn_hash@[j]@ == local.decoder.hasher_state@[j]@);
                } else {
                    assert(cs[4 + (j - 4)].0 == 0);
                }
            }
        }
    } else if k == opcodes::END {
        assert forall|j: int| 0 <= j < cs.len() implies #[trigger] cs[j].0 == 0 by {
            if j < 4 {
                assert(cs[j].0 == 0);
            } else {
                assert(cs[4 + (j - 4)].0 == 0);
            }
        }
    } else {
        if all_vanish(cs) {
            assert forall|i: int| 0 <= i < 4 implies #[trigger] next.system.fn_hash@[i]@ == local.system.fn_hash@[i]@ by {
                assert(cs[4 + i].0 == 0);
            }
        }
        if forall|i: int| 0 <= i < 4 ==> #[trigger] next.system.fn_hash@[i]@ == local.system.fn_hash@[i]@ {
            assert forall|j: int| 0 <= j < cs.len() implies #[trigger] cs[j].0 == 0 by {
                if j < 4 {
                    assert(cs[j].0 == 0);
                } else {
                    assert(next.system.fn_hash@[j - 4]@ == local.system.fn_hash@[j - 4]@);
                    assert(cs[4 + (j - 4)].0 == 0);
                }
            }
        }
    }
}

} // verus!
