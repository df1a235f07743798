//! Constraints of the arithmetic, boolean, comparison and u32 stack operations.
//!
//! Constraints that only describe the result of an operation hold on transition rows; those that
//! restrict the operands (binary inputs, u32 decompositions) hold on every row.

use vstd::arithmetic::div_mod::{
    lemma_add_mod_noop, lemma_mod_self_0, lemma_mul_mod_noop, lemma_mul_mod_noop_left, lemma_small_mod, lemma_sub_mod_noop,
};
use vstd::prelude::*;

use crate::constraint_set::{ConstraintSet, RowDomain};
use crate::constraints::op_flags::{op_flag, OpFlags};
use crate::field::{
    fadd, fmul, fsub, lemma_add_sub_cancel, lemma_binary_iff, lemma_bool_ops, lemma_canonical, lemma_fadd_range,
    lemma_felt_range, lemma_field_ops_mod, lemma_fmul_range, lemma_fmul_zero_iff, lemma_fsub_range, lemma_fsub_zero,
    lemma_mul_zero, lemma_small_values, lemma_sub_add_cancel, qmul, Felt, P,
};
use crate::opcodes;
use crate::trace::MainCols;

verus! {

broadcast use lemma_felt_range;

/// The 16-bit limbs of a u32 operation's result, from helpers 0..4: `(v_lo, v_hi, v48, v64)`
/// with `v_lo = h1 * 2^16 + h0`, `v_hi = h3 * 2^16 + h2`, `v48 = h2 * 2^32 + v_lo` and
/// `v64 = h3 * 2^48 + v48`.
pub open spec fn u32_limbs(local: &MainCols<Felt>) -> (int, int, int, int) {
    let h = |i: int| local.decoder.hasher_state@[2 + i]@;
    let v_lo = fadd(fmul(h(1), 65536), h(0));
    let v_hi = fadd(fmul(h(3), 65536), h(2));
    let v48 = fadd(fmul(h(2), 4294967296), v_lo);
    let v64 = fadd(fmul(h(3), 281474976710656), v48);
    (v_lo, v_hi, v48, v64)
}

/// The arithmetic and u32 operation constraints.
pub open spec fn stack_arith_spec(f: &OpFlags, local: &MainCols<Felt>, next: &MainCols<Felt>) -> Seq<(int, RowDomain)> {
    let s0 = local.stack.top@[0]@;
    let s1 = local.stack.top@[1]@;
    let s2 = local.stack.top@[2]@;
    let s3 = local.stack.top@[3]@;
    let n0 = next.stack.top@[0]@;
    let n1 = next.stack.top@[1]@;
    let n2 = next.stack.top@[2]@;
    let n3 = next.stack.top@[3]@;
    let h0 = local.decoder.hasher_state@[2]@;
    let h4 = local.decoder.hasher_state@[6]@;
    let limbs = u32_limbs(local);
    let v_lo = limbs.0;
    let v_hi = limbs.1;
    let v48 = limbs.2;
    let v64 = limbs.3;
    seq![
        (fmul(op_flag(f, opcodes::ADD), fsub(n0, fadd(s0, s1))), RowDomain::Transition),
        (fmul(op_flag(f, opcodes::NEG), fadd(n0, s0)), RowDomain::Transition),
        (fmul(op_flag(f, opcodes::MUL), fsub(n0, fmul(s0, s1))), RowDomain::Transition),
        (fmul(op_flag(f, opcodes::INV), fsub(fmul(n0, s0), 1)), RowDomain::Transition),
        (fmul(op_flag(f, opcodes::INCR), fsub(fsub(n0, s0), 1)), RowDomain::Transition),
        (fmul(op_flag(f, opcodes::NOT), fmul(s0, fsub(s0, 1))), RowDomain::EveryRow),
        (fmul(op_flag(f, opcodes::NOT), fsub(fadd(s0, n0), 1)), RowDomain::Transition),
        (fmul(op_flag(f, opcodes::AND), fmul(s0, fsub(s0, 1))), RowDomain::EveryRow),
        (fmul(op_flag(f, opcodes::AND), fmul(s1, fsub(s1, 1))), RowDomain::EveryRow),
        (fmul(op_flag(f, opcodes::AND), fsub(n0, fmul(s0, s1))), RowDomain::Transition),
        (fmul(op_flag(f, opcodes::OR), fmul(s0, fsub(s0, 1))), RowDomain::EveryRow),
        (fmul(op_flag(f, opcodes::OR), fmul(s1, fsub(s1, 1))), RowDomain::EveryRow),
        (fmul(op_flag(f, opcodes::OR), fsub(n0, fsub(fadd(s0, s1), fmul(s0, s1)))), RowDomain::Transition),
        (fmul(op_flag(f, opcodes::EQ), fmul(fsub(s0, s1), n0)), RowDomain::Transition),
        (fmul(op_flag(f, opcodes::EQ), fsub(n0, fsub(1, fmul(fsub(s0, s1), h0)))), RowDomain::Transition),
        (fmul(op_flag(f, opcodes::EQZ), fmul(s0, n0)), RowDomain::Transition),
        (fmul(op_flag(f, opcodes::EQZ), fsub(n0, fsub(1, fmul(s0, h0)))), RowDomain::Transition),
        (fmul(op_flag(f, opcodes::EXPACC), fsub(n1, fmul(s1, s1))), RowDomain::Transition),
        (fmul(op_flag(f, opcodes::EXPACC), fsub(fsub(h0, 1), fmul(fsub(s1, 1), n0))), RowDomain::Transition),
        (fmul(op_flag(f, opcodes::EXPACC), fsub(n2, fmul(s2, h0))), RowDomain::Transition),
        (fmul(op_flag(f, opcodes::EXPACC), fsub(fsub(s3, fmul(n3, 2)), n0)), RowDomain::Transition),
        (fmul(op_flag(f, opcodes::EXPACC), fmul(n0, fsub(n0, 1))), RowDomain::Transition),
        (fmul(op_flag(f, opcodes::EXT2MUL), fsub(n0, s0)), RowDomain::Transition),
        (fmul(op_flag(f, opcodes::EXT2MUL), fsub(n1, s1)), RowDomain::Transition),
        (fmul(op_flag(f, opcodes::EXT2MUL), fsub(n2, fadd(fmul(s2, s0), fmul(7, fmul(s3, s1))))), RowDomain::Transition),
        (fmul(op_flag(f, opcodes::EXT2MUL), fsub(n3, fsub(fsub(fmul(fadd(s2, s3), fadd(s0, s1)), fmul(s2, s0)), fmul(s3, s1)))), RowDomain::Transition),
        (fmul(fadd(fadd(op_flag(f, opcodes::U32SPLIT), op_flag(f, opcodes::U32MUL)), op_flag(f, opcodes::U32MADD)), fmul(fsub(1, fmul(h4, fsub(4294967295, v_hi))), v_lo)), RowDomain::EveryRow),
        (fmul(fadd(fadd(fadd(fadd(op_flag(f, opcodes::U32SPLIT), op_flag(f, opcodes::U32ADD)), op_flag(f, opcodes::U32ADD3)), op_flag(f, opcodes::U32MUL)), op_flag(f, opcodes::U32MADD)), fsub(n0, v_lo)), RowDomain::Transition),
        (fmul(fadd(fadd(fadd(fadd(op_flag(f, opcodes::U32SPLIT), op_flag(f, opcodes::U32ADD)), op_flag(f, opcodes::U32ADD3)), op_flag(f, opcodes::U32MUL)), op_flag(f, opcodes::U32MADD)), fsub(n1, v_hi)), RowDomain::Transition),
        (fmul(op_flag(f, opcodes::U32SPLIT), fsub(s0, v64)), RowDomain::EveryRow),
        (fmul(op_flag(f, opcodes::U32ADD), fsub(fadd(s0, s1), v48)), RowDomain::EveryRow),
        (fmul(op_flag(f, opcodes::U32ADD3), fsub(fadd(fadd(s0, s1), s2), v48)), RowDomain::EveryRow),
        (fmul(op_flag(f, opcodes::U32SUB), fsub(s1, fsub(fadd(s0, n1), fmul(n0, 4294967296)))), RowDomain::Transition),
        (fmul(op_flag(f, opcodes::U32SUB), fmul(n0, fsub(n0, 1))), RowDomain::Transition),
        (fmul(op_flag(f, opcodes::U32SUB), fsub(n1, v_lo)), RowDomain::Transition),
        (fmul(op_flag(f, opcodes::U32MUL), fsub(fmul(s0, s1), v64)), RowDomain::EveryRow),
        (fmul(op_flag(f, opcodes::U32MADD), fsub(fadd(fmul(s0, s1), s2), v64)), RowDomain::EveryRow),
        (fmul(op_flag(f, opcodes::U32DIV), fsub(s1, fadd(fmul(s0, n1), n0))), RowDomain::Transition),
        (fmul(op_flag(f, opcodes::U32DIV), fsub(fsub(s1, n1), v_lo)), RowDomain::Transition),
        (fmul(op_flag(f, opcodes::U32DIV), fsub(fsub(s0, n0), fadd(v_hi, 1))), RowDomain::Transition),
        (fmul(op_flag(f, opcodes::U32ASSERT2), fsub(n0, v_hi)), RowDomain::Transition),
        (fmul(op_flag(f, opcodes::U32ASSERT2), fsub(n1, v_lo)), RowDomain::Transition),
    ]
}

/// Enforces the constraints of the arithmetic (ADD, NEG, MUL, INV, INCR), boolean (NOT, AND,
/// OR), comparison (EQ, EQZ), EXPACC, EXT2MUL and u32 operations.
#[verifier::rlimit(40)]
pub fn enforce_main(builder: &mut ConstraintSet, local: &MainCols<Felt>, next: &MainCols<Felt>, op_flags: &OpFlags)
    requires
        op_flags.wf(),
    ensures
        final(builder).base_view() == old(builder).base_view() + stack_arith_spec(op_flags, local, next),
        final(builder).ext_view() == old(builder).ext_view(),
        final(builder).tags_view() == old(builder).tags_view(),
{
    let f = op_flags;
    let l = &local.stack.top;
    let n = &next.stack.top;
    let s0 = l[0];
    let s1 = l[1];
    let s2 = l[2];
    let s3 = l[3];
    let n0 = n[0];
    let n1 = n[1];
    let n2 = n[2];
    let n3 = n[3];
    let hs = &local.decoder.hasher_state;
    let h0 = hs[2];
    let h1 = hs[3];
    let h2 = hs[4];
    let h3 = hs[5];
    let h4 = hs[6];
    let one = Felt::one();
    let two = Felt::new(2);
    let seven = Felt::new(7);
    let two_pow_16 = Felt::new(65536);
    let two_pow_32 = Felt::new(4294967296);
    let two_pow_48 = Felt::new(281474976710656);
    let two_pow_32_minus_one = Felt::new(4294967295);
    let v_lo = h1.mul(two_pow_16).add(h0);
    let v_hi = h3.mul(two_pow_16).add(h2);
    let v48 = h2.mul(two_pow_32).add(v_lo);
    let v64 = h3.mul(two_pow_48).add(v48);
    let two_outputs = f.u32split().add(f.u32add()).add(f.u32add3()).add(f.u32mul()).add(f.u32madd());
    let ghost start = builder.base_view();
    builder.assert_zero(f.add().mul(n0.sub(s0.add(s1))), RowDomain::Transition);
    builder.assert_zero(f.neg().mul(n0.add(s0)), RowDomain::Transition);
    builder.assert_zero(f.mul().mul(n0.sub(s0.mul(s1))), RowDomain::Transition);
    builder.assert_zero(f.inv().mul(n0.mul(s0).sub(one)), RowDomain::Transition);
    builder.assert_zero(f.incr().mul(n0.sub(s0).sub(one)), RowDomain::Transition);
    builder.assert_zero(f.not().mul(s0.mul(s0.sub(one))), RowDomain::EveryRow);
    builder.assert_zero(f.not().mul(s0.add(n0).sub(one)), RowDomain::Transition);
    builder.assert_zero(f.and().mul(s0.mul(s0.sub(one))), RowDomain::EveryRow);
    builder.assert_zero(f.and().mul(s1.mul(s1.sub(one))), RowDomain::EveryRow);
    builder.assert_zero(f.and().mul(n0.sub(s0.mul(s1))), RowDomain::Transition);
    builder.assert_zero(f.or().mul(s0.mul(s0.sub(one))), RowDomain::EveryRow);
    builder.assert_zero(f.or().mul(s1.mul(s1.sub(one))), RowDomain::EveryRow);
    builder.assert_zero(f.or().mul(n0.sub(s0.add(s1).sub(s0.mul(s1)))), RowDomain::Transition);
    builder.assert_zero(f.eq().mul(s0.sub(s1).mul(n0)), RowDomain::Transition);
    builder.assert_zero(f.eq().mul(n0.sub(one.sub(s0.sub(s1).mul(h0)))), RowDomain::Transition);
    builder.assert_zero(f.eqz().mul(s0.mul(n0)), RowDomain::Transition);
    builder.assert_zero(f.eqz().mul(n0.sub(one.sub(s0.mul(h0)))), RowDomain::Transition);
    builder.assert_zero(f.expacc().mul(n1.sub(s1.mul(s1))), RowDomain::Transition);
    builder.assert_zero(f.expacc().mul(h0.sub(one).sub(s1.sub(one).mul(n0))), RowDomain::Transition);
    builder.assert_zero(f.expacc().mul(n2.sub(s2.mul(h0))), RowDomain::Transition);
    builder.assert_zero(f.expacc().mul(s3.sub(n3.mul(two)).sub(n0)), RowDomain::Transition);
    builder.assert_zero(f.expacc().mul(n0.mul(n0.sub(one))), RowDomain::Transition);
    builder.assert_zero(f.ext2mul().mul(n0.sub(s0)), RowDomain::Transition);
    builder.assert_zero(f.ext2mul().mul(n1.sub(s1)), RowDomain::Transition);
    builder.assert_zero(f.ext2mul().mul(n2.sub(s2.mul(s0).add(seven.mul(s3.mul(s1))))), RowDomain::Transition);
    builder.assert_zero(f.ext2mul().mul(n3.sub(s2.add(s3).mul(s0.add(s1)).sub(s2.mul(s0)).sub(s3.mul(s1)))), RowDomain::Transition);
    builder.assert_zero(f.u32split().add(f.u32mul()).add(f.u32madd()).mul(one.sub(h4.mul(two_pow_32_minus_one.sub(v_hi))).mul(v_lo)), RowDomain::EveryRow);
    builder.assert_zero(two_outputs.mul(n0.sub(v_lo)), RowDomain::Transition);
    builder.assert_zero(two_outputs.mul(n1.sub(v_hi)), RowDomain::Transition);
    builder.assert_zero(f.u32split().mul(s0.sub(v64)), RowDomain::EveryRow);
    builder.assert_zero(f.u32add().mul(s0.add(s1).sub(v48)), RowDomain::EveryRow);
    builder.assert_zero(f.u32add3().mul(s0.add(s1).add(s2).sub(v48)), RowDomain::EveryRow);
    builder.assert_zero(f.u32sub().mul(s1.sub(s0.add(n1).sub(n0.mul(two_pow_32)))), RowDomain::Transition);
    builder.assert_zero(f.u32sub().mul(n0.mul(n0.sub(one))), RowDomain::Transition);
    builder.assert_zero(f.u32sub().mul(n1.sub(v_lo)), RowDomain::Transition);
    builder.assert_zero(f.u32mul().mul(s0.mul(s1).sub(v64)), RowDomain::EveryRow);
    builder.assert_zero(f.u32madd().mul(s0.mul(s1).add(s2).sub(v64)), RowDomain::EveryRow);
    builder.assert_zero(f.u32div().mul(s1.sub(s0.mul(n1).add(n0))), RowDomain::Transition);
    builder.assert_zero(f.u32div().mul(s1.sub(n1).sub(v_lo)), RowDomain::Transition);
    builder.assert_zero(f.u32div().mul(s0.sub(n0).sub(v_hi.add(one))), RowDomain::Transition);
    builder.assert_zero(f.u32assert2().mul(n0.sub(v_hi)), RowDomain::Transition);
    builder.assert_zero(f.u32assert2().mul(n1.sub(v_lo)), RowDomain::Transition);
    assert(builder.base_view() =~= start + stack_arith_spec(op_flags, local, next));
}

/// A gated constraint `flag * x` with the flag set to 1 vanishes exactly when `x` does.
proof fn lemma_gate_one(x: int)
    requires
        0 <= x < P,
    ensures
        fmul(1, x) == x,
{
    lemma_canonical(x);
}

/// The arithmetic operations: on a row whose flag for the operation is 1, its constraint vanishes
/// exactly when the top of the next stack holds the operation's result in `F_p`:
/// ADD gives `s0 + s1`, NEG gives `-s0`, MUL gives `s0 * s1`, INV gives the inverse of `s0`
/// (`s0' * s0 = 1`) and INCR gives `s0 + 1`, all reduced modulo `p`.
pub proof fn lemma_arith_ops(f: &OpFlags, local: &MainCols<Felt>, next: &MainCols<Felt>)
    ensures
        ({
            let c = stack_arith_spec(f, local, next);
            let s0 = local.stack.top@[0]@;
            let s1 = local.stack.top@[1]@;
            let n0 = next.stack.top@[0]@;
            let p = P as int;
            &&& op_flag(f, opcodes::ADD) == 1 ==> ((c[0].0 == 0) == (n0 == (s0 + s1) % p))
            &&& op_flag(f, opcodes::NEG) == 1 ==> ((c[1].0 == 0) == ((n0 + s0) % p == 0))
            &&& op_flag(f, opcodes::MUL) == 1 ==> ((c[2].0 == 0) == (n0 == (s0 * s1) % p))
            &&& op_flag(f, opcodes::INV) == 1 ==> ((c[3].0 == 0) == ((n0 * s0) % p == 1))
            &&& op_flag(f, opcodes::INCR) == 1 ==> ((c[4].0 == 0) == (n0 == (s0 + 1) % p))
        }),
{
    broadcast use lemma_fadd_range, lemma_fsub_range, lemma_fmul_range;

    let s0 = local.stack.top@[0]@;
    let s1 = local.stack.top@[1]@;
    let n0 = next.stack.top@[0]@;
    lemma_field_ops_mod(s0, s1);
    lemma_field_ops_mod(n0, s0);
    lemma_field_ops_mod(s0, 1);
    lemma_field_ops_mod(1, s0);
    lemma_gate_one(fsub(n0, fadd(s0, s1)));
    lemma_fsub_zero(n0, fadd(s0, s1));
    lemma_gate_one(fadd(n0, s0));
    lemma_gate_one(fsub(n0, fmul(s0, s1)));
    lemma_fsub_zero(n0, fmul(s0, s1));
    lemma_gate_one(fsub(fmul(n0, s0), 1));
    lemma_fsub_zero(fmul(n0, s0), 1);
    lemma_gate_one(fsub(fsub(n0, s0), 1));
    lemma_fsub_zero(fsub(n0, s0), 1);
    lemma_sub_add_cancel(n0, s0);
    lemma_add_sub_cancel(1, s0);
}

/// `1 + x` is 1 in the field exactly when the canonical `x` is 0.
proof fn lemma_one_plus(x: int)
    requires
        0 <= x < P,
    ensures
        (fadd(1, x) == 1) == (x == 0),
        (fadd(x, 1) == 1) == (x == 0),
{
    let p = P as int;
    lemma_field_ops_mod(1, x);
    lemma_field_ops_mod(x, 1);
    if x < p - 1 {
        lemma_small_mod((1 + x) as nat, p as nat);
    } else {
        lemma_mod_self_0(p);
    }
}

/// The boolean operations: on a row whose flag for the operation is 1, its constraints vanish
/// exactly when the operands are binary and the top of the next stack holds NOT `s0`, `s0` AND
/// `s1`, or `s0` OR `s1`.
pub proof fn lemma_bool_ops_constraints(f: &OpFlags, local: &MainCols<Felt>, next: &MainCols<Felt>)
    ensures
        ({
            let c = stack_arith_spec(f, local, next);
            let s0 = local.stack.top@[0]@;
            let s1 = local.stack.top@[1]@;
            let n0 = next.stack.top@[0]@;
            let b0 = s0 == 0 || s0 == 1;
            let b1 = s1 == 0 || s1 == 1;
            &&& op_flag(f, opcodes::NOT) == 1 ==> ((c[5].0 == 0 && c[6].0 == 0) == (b0 && n0 == 1 - s0))
            &&& op_flag(f, opcodes::AND) == 1 ==> ((c[7].0 == 0 && c[8].0 == 0 && c[9].0 == 0) == (b0 && b1
                && n0 == (if s0 == 1 && s1 == 1 { 1int } else { 0int })))
            &&& op_flag(f, opcodes::OR) == 1 ==> ((c[10].0 == 0 && c[11].0 == 0 && c[12].0 == 0) == (b0 && b1
                && n0 == (if s0 == 1 || s1 == 1 { 1int } else { 0int })))
        }),
{
    broadcast use lemma_fadd_range, lemma_fsub_range, lemma_fmul_range;

    let s0 = local.stack.top@[0]@;
    let s1 = local.stack.top@[1]@;
    let n0 = next.stack.top@[0]@;
    lemma_gate_one(fmul(s0, fsub(s0, 1)));
    lemma_gate_one(fmul(s1, fsub(s1, 1)));
    lemma_binary_iff(s0);
    lemma_binary_iff(s1);
    lemma_gate_one(fsub(fadd(s0, n0), 1));
    lemma_fsub_zero(fadd(s0, n0), 1);
    lemma_gate_one(fsub(n0, fmul(s0, s1)));
    lemma_fsub_zero(n0, fmul(s0, s1));
    let or_value = fsub(fadd(s0, s1), fmul(s0, s1));
    lemma_gate_one(fsub(n0, or_value));
    lemma_fsub_zero(n0, or_value);
    if (s0 == 0 || s0 == 1) && (s1 == 0 || s1 == 1) {
        lemma_bool_ops(s0, s1);
        lemma_small_values(s0, s1);
        lemma_small_values(s0 + s1, s0 * s1);
        if s0 == 0 {
            lemma_canonical(n0);
        } else {
            lemma_one_plus(n0);
        }
    } else if s0 == 0 || s0 == 1 {
        if s0 == 0 {
            lemma_canonical(n0);
        } else {
            lemma_one_plus(n0);
        }
    }
}

/// The comparisons: on an EQ row the constraints vanish exactly when `s0' = 1` for `s0 = s1`, and
/// `s0' = 0` with the helper `h0` the inverse of `s0 - s1` otherwise; EQZ is the same against 0.
pub proof fn lemma_compare_ops(f: &OpFlags, local: &MainCols<Felt>, next: &MainCols<Felt>)
    ensures
        ({
            let c = stack_arith_spec(f, local, next);
            let s0 = local.stack.top@[0]@;
            let s1 = local.stack.top@[1]@;
            let n0 = next.stack.top@[0]@;
            let h0 = local.decoder.hasher_state@[2]@;
            let p = P as int;
            &&& op_flag(f, opcodes::EQ) == 1 ==> ((c[13].0 == 0 && c[14].0 == 0) == (if s0 == s1 {
                n0 == 1
            } else {
                n0 == 0 && ((s0 - s1) * h0) % p == 1
            }))
            &&& op_flag(f, opcodes::EQZ) == 1 ==> ((c[15].0 == 0 && c[16].0 == 0) == (if s0 == 0 {
                n0 == 1
            } else {
                n0 == 0 && (s0 * h0) % p == 1
            }))
        }),
{
    broadcast use lemma_fadd_range, lemma_fsub_range, lemma_fmul_range;

    let s0 = local.stack.top@[0]@;
    let s1 = local.stack.top@[1]@;
    let n0 = next.stack.top@[0]@;
    let h0 = local.decoder.hasher_state@[2]@;
    let p = P as int;
    let d = fsub(s0, s1);
    lemma_fsub_zero(s0, s1);
    lemma_gate_one(fmul(d, n0));
    lemma_fmul_zero_iff(d, n0);
    lemma_gate_one(fsub(n0, fsub(1, fmul(d, h0))));
    lemma_fsub_zero(n0, fsub(1, fmul(d, h0)));
    lemma_fsub_zero(1, fmul(d, h0));
    lemma_mul_zero(h0);
    lemma_canonical(1);
    lemma_field_ops_mod(s0, s1);
    lemma_field_ops_mod(d, h0);
    lemma_mul_mod_noop_left(s0 - s1, h0, p);
    lemma_gate_one(fmul(s0, n0));
    lemma_fmul_zero_iff(s0, n0);
    lemma_gate_one(fsub(n0, fsub(1, fmul(s0, h0))));
    lemma_fsub_zero(n0, fsub(1, fmul(s0, h0)));
    lemma_fsub_zero(1, fmul(s0, h0));
    lemma_field_ops_mod(s0, h0);
}

/// Karatsuba's form of the `u` coefficient of a product in `F_p[u]/(u^2 - 7)`:
/// `(a0 + a1)(b0 + b1) - a0 b0 - a1 b1 = a0 b1 + a1 b0`.
proof fn lemma_karatsuba(a0: int, a1: int, b0: int, b1: int)
    ensures
        fsub(fsub(fmul(fadd(a0, a1), fadd(b0, b1)), fmul(a0, b0)), fmul(a1, b1)) == fadd(fmul(a0, b1), fmul(a1, b0)),
{
    let p = P as int;
    lemma_field_ops_mod(a0, a1);
    lemma_field_ops_mod(b0, b1);
    lemma_field_ops_mod(fadd(a0, a1), fadd(b0, b1));
    lemma_mul_mod_noop(a0 + a1, b0 + b1, p);
    let m = (a0 + a1) * (b0 + b1);
    lemma_field_ops_mod(a0, b0);
    lemma_field_ops_mod(a1, b1);
    lemma_field_ops_mod(m % p, (a0 * b0) % p);
    lemma_sub_mod_noop(m, a0 * b0, p);
    lemma_field_ops_mod((m - a0 * b0) % p, (a1 * b1) % p);
    lemma_sub_mod_noop(m - a0 * b0, a1 * b1, p);
    lemma_field_ops_mod(a0, b1);
    lemma_field_ops_mod(a1, b0);
    lemma_field_ops_mod((a0 * b1) % p, (a1 * b0) % p);
    lemma_add_mod_noop(a0 * b1, a1 * b0, p);
    assert(m - a0 * b0 - a1 * b1 == a0 * b1 + a1 * b0) by (nonlinear_arith)
        requires
            m == (a0 + a1) * (b0 + b1),
    ;
}

/// EXT2MUL: on its row the constraints vanish exactly when the next stack keeps `b = (s0, s1)` and
/// holds `a * b` in `F_p[u]/(u^2 - 7)` at `(s2', s3')`, where `a = (s2, s3)`.
pub proof fn lemma_ext2mul(f: &OpFlags, local: &MainCols<Felt>, next: &MainCols<Felt>)
    ensures
        ({
            let c = stack_arith_spec(f, local, next);
            let s = |i: int| local.stack.top@[i]@;
            let n = |i: int| next.stack.top@[i]@;
            op_flag(f, opcodes::EXT2MUL) == 1 ==> ((c[22].0 == 0 && c[23].0 == 0 && c[24].0 == 0 && c[25].0 == 0)
                == (n(0) == s(0) && n(1) == s(1) && (n(2), n(3)) == qmul((s(2), s(3)), (s(0), s(1)))))
        }),
{
    broadcast use lemma_fadd_range, lemma_fsub_range, lemma_fmul_range;

    let s = |i: int| local.stack.top@[i]@;
    let n = |i: int| next.stack.top@[i]@;
    lemma_gate_one(fsub(n(0), s(0)));
    lemma_fsub_zero(n(0), s(0));
    lemma_gate_one(fsub(n(1), s(1)));
    lemma_fsub_zero(n(1), s(1));
    let c0 = fadd(fmul(s(2), s(0)), fmul(7, fmul(s(3), s(1))));
    lemma_gate_one(fsub(n(2), c0));
    lemma_fsub_zero(n(2), c0);
    let c1 = fsub(fsub(fmul(fadd(s(2), s(3)), fadd(s(0), s(1))), fmul(s(2), s(0))), fmul(s(3), s(1)));
    lemma_gate_one(fsub(n(3), c1));
    lemma_fsub_zero(n(3), c1);
    lemma_karatsuba(s(2), s(3), s(0), s(1));
}

/// EXPACC: on its row the constraints vanish exactly when the exponent bit `s0'` is binary, the
/// exponent is squared (`s1' = s1^2`), the helper `h0` is `s1` for bit 1 and 1 for bit 0, the
/// accumulator is multiplied by it (`s2' = s2 * h0`) and the bit is shifted out of `s3`
/// (`s3 = 2 s3' + s0'`).
pub proof fn lemma_expacc(f: &OpFlags, local: &MainCols<Felt>, next: &MainCols<Felt>)
    ensures
        ({
            let c = stack_arith_spec(f, local, next);
            let s = |i: int| local.stack.top@[i]@;
            let n = |i: int| next.stack.top@[i]@;
            let h0 = local.decoder.hasher_state@[2]@;
            let p = P as int;
            op_flag(f, opcodes::EXPACC) == 1 ==> ((c[17].0 == 0 && c[18].0 == 0 && c[19].0 == 0 && c[20].0 == 0
                && c[21].0 == 0) == ((n(0) == 0 || n(0) == 1) && n(1) == (s(1) * s(1)) % p && h0 == (if n(0) == 1 {
                s(1)
            } else {
                1
            }) && n(2) == (s(2) * h0) % p && s(3) == (2 * n(3) + n(0)) % p))
        }),
{
    broadcast use lemma_fadd_range, lemma_fsub_range, lemma_fmul_range;

    let s = |i: int| local.stack.top@[i]@;
    let n = |i: int| next.stack.top@[i]@;
    let h0 = local.decoder.hasher_state@[2]@;
    let p = P as int;
    lemma_gate_one(fsub(n(1), fmul(s(1), s(1))));
    lemma_fsub_zero(n(1), fmul(s(1), s(1)));
    lemma_field_ops_mod(s(1), s(1));
    let t = fmul(fsub(s(1), 1), n(0));
    lemma_gate_one(fsub(fsub(h0, 1), t));
    lemma_fsub_zero(fsub(h0, 1), t);
    lemma_gate_one(fsub(n(2), fmul(s(2), h0)));
    lemma_fsub_zero(n(2), fmul(s(2), h0));
    lemma_field_ops_mod(s(2), h0);
    let m = fmul(n(3), 2);
    lemma_gate_one(fsub(fsub(s(3), m), n(0)));
    lemma_fsub_zero(fsub(s(3), m), n(0));
    lemma_sub_add_cancel(s(3), m);
    lemma_add_sub_cancel(n(0), m);
    lemma_field_ops_mod(n(0), m);
    lemma_field_ops_mod(n(3), 2);
    lemma_small_mod(n(0) as nat, p as nat);
    lemma_add_mod_noop(n(0), n(3) * 2, p);
    lemma_gate_one(fmul(n(0), fsub(n(0), 1)));
    lemma_binary_iff(n(0));
    if n(0) == 0 {
        lemma_mul_zero(fsub(s(1), 1));
        lemma_fsub_zero(h0, 1);
    } else if n(0) == 1 {
        lemma_canonical(fsub(s(1), 1));
        lemma_sub_add_cancel(h0, 1);
        lemma_sub_add_cancel(s(1), 1);
    }
}

/// With 16-bit helper limbs `h0..h3`, the limb values are the integers `v_lo = h1 2^16 + h0`,
/// `v_hi = h3 2^16 + h2`, `v48 = h2 2^32 + v_lo`, and `v64 = h3 2^48 + v48` reduced modulo `p`.
proof fn lemma_u32_limbs(local: &MainCols<Felt>)
    requires
        forall|i: int| 0 <= i < 4 ==> #[trigger] local.decoder.hasher_state@[2 + i]@ < 65536,
    ensures
        ({
            let h = |i: int| local.decoder.hasher_state@[2 + i]@;
            let l = u32_limbs(local);
            &&& l.0 == h(1) * 65536 + h(0)
            &&& l.1 == h(3) * 65536 + h(2)
            &&& l.2 == h(2) * 4294967296 + h(1) * 65536 + h(0)
            &&& l.3 == (h(3) * 281474976710656 + h(2) * 4294967296 + h(1) * 65536 + h(0)) % (P as int)
        }),
{
    let p = P as int;
    let h = |i: int| local.decoder.hasher_state@[2 + i]@;
    assert(h(0) < 65536 && h(1) < 65536 && h(2) < 65536 && h(3) < 65536) by {
        assert(local.decoder.hasher_state@[2int + 0int]@ < 65536);
        assert(local.decoder.hasher_state@[2int + 1int]@ < 65536);
        assert(local.decoder.hasher_state@[2int + 2int]@ < 65536);
        assert(local.decoder.hasher_state@[2int + 3int]@ < 65536);
    }
    lemma_field_ops_mod(h(1), 65536);
    lemma_field_ops_mod(h(3), 65536);
    lemma_field_ops_mod(h(2), 4294967296);
    lemma_field_ops_mod(h(3), 281474976710656);
    lemma_small_mod((h(1) * 65536) as nat, p as nat);
    lemma_small_mod((h(3) * 65536) as nat, p as nat);
    lemma_small_mod((h(2) * 4294967296) as nat, p as nat);
    lemma_small_mod((h(3) * 281474976710656) as nat, p as nat);
    let v_lo = h(1) * 65536 + h(0);
    lemma_field_ops_mod(h(1) * 65536, h(0));
    lemma_small_mod(v_lo as nat, p as nat);
    lemma_field_ops_mod(h(3) * 65536, h(2));
    lemma_small_mod((h(3) * 65536 + h(2)) as nat, p as nat);
    lemma_field_ops_mod(h(2) * 4294967296, v_lo);
    lemma_small_mod((h(2) * 4294967296 + v_lo) as nat, p as nat);
    lemma_field_ops_mod(h(3) * 281474976710656, h(2) * 4294967296 + v_lo);
}

/// `flag * (a - b)` with the flag at 1 vanishes exactly when `a = b`.
proof fn lemma_gated_eq(a: int, b: int)
    requires
        0 <= a < P,
        0 <= b < P,
    ensures
        (fmul(1, fsub(a, b)) == 0) == (a == b),
{
    lemma_fsub_range(a, b);
    lemma_gate_one(fsub(a, b));
    lemma_fsub_zero(a, b);
}

/// The u32 output and decomposition law, with the helper limbs `h0..h3` of 16 bits each: the two
/// outputs of U32SPLIT, U32ADD, U32ADD3, U32MUL and U32MADD are `v_lo = h1 2^16 + h0` and
/// `v_hi = h3 2^16 + h2`; U32SPLIT decomposes `s0` into the limbs, U32ADD and U32ADD3 decompose
/// the sum into 48 bits, and U32ASSERT2 copies the limbs out as `(v_hi, v_lo)`.
pub proof fn lemma_u32_decompositions(f: &OpFlags, local: &MainCols<Felt>, next: &MainCols<Felt>)
    requires
        forall|i: int| 0 <= i < 4 ==> #[trigger] local.decoder.hasher_state@[2 + i]@ < 65536,
    ensures
        ({
            let c = stack_arith_spec(f, local, next);
            let s = |i: int| local.stack.top@[i]@;
            let n = |i: int| next.stack.top@[i]@;
            let h = |i: int| local.decoder.hasher_state@[2 + i]@;
            let p = P as int;
            let v_lo = h(1) * 65536 + h(0);
            let v_hi = h(3) * 65536 + h(2);
            let v48 = h(2) * 4294967296 + v_lo;
            let v64 = (h(3) * 281474976710656 + v48) % p;
            let two_outputs = fadd(fadd(fadd(fadd(op_flag(f, opcodes::U32SPLIT), op_flag(f, opcodes::U32ADD)), op_flag(
                f,
                opcodes::U32ADD3,
            )), op_flag(f, opcodes::U32MUL)), op_flag(f, opcodes::U32MADD));
            &&& two_outputs == 1 ==> ((c[27].0 == 0 && c[28].0 == 0) == (n(0) == v_lo && n(1) == v_hi))
            &&& op_flag(f, opcodes::U32SPLIT) == 1 ==> ((c[29].0 == 0) == (s(0) == v64))
            &&& op_flag(f, opcodes::U32ADD) == 1 ==> ((c[30].0 == 0) == ((s(0) + s(1)) % p == v48))
            &&& op_flag(f, opcodes::U32ADD3) == 1 ==> ((c[31].0 == 0) == ((s(0) + s(1) + s(2)) % p == v48))
            &&& op_flag(f, opcodes::U32ASSERT2) == 1 ==> ((c[40].0 == 0 && c[41].0 == 0) == (n(0) == v_hi && n(1) == v_lo))
        }),
{
    broadcast use lemma_fadd_range;

    let p = P as int;
    let s = |i: int| local.stack.top@[i]@;
    let n = |i: int| next.stack.top@[i]@;
    lemma_u32_limbs(local);
    let l = u32_limbs(local);
    lemma_gated_eq(n(0), l.0);
    lemma_gated_eq(n(1), l.1);
    lemma_gated_eq(n(0), l.1);
    lemma_gated_eq(n(1), l.0);
    lemma_gated_eq(s(0), l.3);
    lemma_field_ops_mod(s(0), s(1));
    let a2 = fadd(s(0), s(1));
    lemma_gated_eq(a2, l.2);
    lemma_field_ops_mod(a2, s(2));
    lemma_small_mod(s(2) as nat, p as nat);
    lemma_add_mod_noop(s(0) + s(1), s(2), p);
    lemma_gated_eq(fadd(a2, s(2)), l.2);
}

/// U32SUB, U32MUL and U32MADD with 16-bit helper limbs: U32SUB borrows a binary `s0'` with
/// `s1 = s0 + s1' - 2^32 s0'` and `s1' = v_lo`; U32MUL and U32MADD decompose `s0 s1` and
/// `s0 s1 + s2` into the four limbs.
pub proof fn lemma_u32_sub_mul(f: &OpFlags, local: &MainCols<Felt>, next: &MainCols<Felt>)
    requires
        forall|i: int| 0 <= i < 4 ==> #[trigger] local.decoder.hasher_state@[2 + i]@ < 65536,
    ensures
        ({
            let c = stack_arith_spec(f, local, next);
            let s = |i: int| local.stack.top@[i]@;
            let n = |i: int| next.stack.top@[i]@;
            let h = |i: int| local.decoder.hasher_state@[2 + i]@;
            let p = P as int;
            let v_lo = h(1) * 65536 + h(0);
            let v64 = (h(3) * 281474976710656 + h(2) * 4294967296 + v_lo) % p;
            &&& op_flag(f, opcodes::U32SUB) == 1 ==> ((c[32].0 == 0 && c[33].0 == 0 && c[34].0 == 0) == (s(1) == (s(0)
                + n(1) - n(0) * 4294967296) % p && (n(0) == 0 || n(0) == 1) && n(1) == v_lo))
            &&& op_flag(f, opcodes::U32MUL) == 1 ==> ((c[35].0 == 0) == ((s(0) * s(1)) % p == v64))
            &&& op_flag(f, opcodes::U32MADD) == 1 ==> ((c[36].0 == 0) == ((s(0) * s(1) + s(2)) % p == v64))
        }),
{
    broadcast use lemma_fadd_range, lemma_fsub_range, lemma_fmul_range;

    let p = P as int;
    let s = |i: int| local.stack.top@[i]@;
    let n = |i: int| next.stack.top@[i]@;
    lemma_u32_limbs(local);
    let l = u32_limbs(local);
    let m = fmul(n(0), 4294967296);
    let r = fsub(fadd(s(0), n(1)), m);
    lemma_field_ops_mod(s(0), n(1));
    lemma_field_ops_mod(n(0), 4294967296);
    lemma_field_ops_mod(fadd(s(0), n(1)), m);
    lemma_sub_mod_noop(s(0) + n(1), n(0) * 4294967296, p);
    lemma_gated_eq(s(1), r);
    lemma_gate_one(fmul(n(0), fsub(n(0), 1)));
    lemma_binary_iff(n(0));
    lemma_gated_eq(n(1), l.0);
    let pr = fmul(s(0), s(1));
    lemma_field_ops_mod(s(0), s(1));
    lemma_gated_eq(pr, l.3);
    lemma_field_ops_mod(pr, s(2));
    lemma_small_mod(s(2) as nat, p as nat);
    lemma_add_mod_noop(s(0) * s(1), s(2), p);
    lemma_gated_eq(fadd(pr, s(2)), l.3);
}

/// U32DIV with 16-bit helper limbs: `s1 = s0 s1' + s0'`, the limbs `v_lo` hold `s1 - s1'` and
/// `v_hi` holds `s0 - s0' - 1`.
pub proof fn lemma_u32_div(f: &OpFlags, local: &MainCols<Felt>, next: &MainCols<Felt>)
    requires
        forall|i: int| 0 <= i < 4 ==> #[trigger] local.decoder.hasher_state@[2 + i]@ < 65536,
    ensures
        ({
            let c = stack_arith_spec(f, local, next);
            let s = |i: int| local.stack.top@[i]@;
            let n = |i: int| next.stack.top@[i]@;
            let h = |i: int| local.decoder.hasher_state@[2 + i]@;
            let p = P as int;
            op_flag(f, opcodes::U32DIV) == 1 ==> ((c[37].0 == 0 && c[38].0 == 0 && c[39].0 == 0) == (s(1) == (s(0) * n(1)
                + n(0)) % p && (s(1) - n(1)) % p == h(1) * 65536 + h(0) && (s(0) - n(0)) % p == h(3) * 65536 + h(2) + 1))
        }),
{
    broadcast use lemma_fadd_range, lemma_fsub_range, lemma_fmul_range;

    let p = P as int;
    let s = |i: int| local.stack.top@[i]@;
    let n = |i: int| next.stack.top@[i]@;
    lemma_u32_limbs(local);
    let l = u32_limbs(local);
    let q = fadd(fmul(s(0), n(1)), n(0));
    lemma_field_ops_mod(s(0), n(1));
    lemma_field_ops_mod(fmul(s(0), n(1)), n(0));
    lemma_small_mod(n(0) as nat, p as nat);
    lemma_add_mod_noop(s(0) * n(1), n(0), p);
    lemma_gated_eq(s(1), q);
    lemma_field_ops_mod(s(1), n(1));
    lemma_gated_eq(fsub(s(1), n(1)), l.0);
    lemma_field_ops_mod(s(0), n(0));
    lemma_field_ops_mod(l.1, 1);
    lemma_small_mod((l.1 + 1) as nat, p as nat);
    lemma_gated_eq(fsub(s(0), n(0)), fadd(l.1, 1));
}

} // verus!
