//! Constraints of the operations that rewrite visible stack items: PAD, DUP*, CLK, SWAP,
//! MOVUP/MOVDN, SWAPW/SWAPDW, conditional swaps, and the small system ops ASSERT, CALLER and
//! SDEPTH.
//!
//! Stack shifting is enforced by the general stack constraints; here only the explicit rewrites
//! of stack positions are covered.

use vstd::prelude::*;

use crate::constraint_set::{all_vanish, lemma_all_vanish_concat, ConstraintSet, RowDomain};
use crate::constraints::op_flags::{flag7, lemma_op_flags_one_hot, opcode_bits, opcode_extra, OpFlags};
use crate::field::{fadd, fmul, fnot, fsub, lemma_canonical, lemma_felt_range, lemma_fsub_zero, lemma_mul_zero, Felt, P};
use crate::opcodes;
use crate::trace::MainCols;

verus! {

broadcast use lemma_felt_range;

// SPECIFICATION
// ================================================================================================

/// Stack item `i` of a row.
pub open spec fn top(row: &MainCols<Felt>, i: int) -> int {
    row.stack.top@[i]@
}

/// `flag * (a - b)`: vanishes when the flag is off or `a == b`.
pub open spec fn gate(flag: int, a: int, b: int) -> int {
    fmul(flag, fsub(a, b))
}

/// `c * x + (1 - c) * y`: `x` when `c == 1`, `y` when `c == 0`.
pub open spec fn cond_select(c: int, x: int, y: int) -> int {
    fadd(fmul(c, x), fmul(fnot(c), y))
}
/// PAD: the pushed item is 0.
pub open spec fn pad_spec(f: &OpFlags, local: &MainCols<Felt>, next: &MainCols<Felt>) -> Seq<(int, RowDomain)> {
    seq![
        (fmul(flag7(f, opcodes::PAD), top(next, 0)), RowDomain::Transition),
    ]
}

/// DUP*: the item copied to the top.
pub open spec fn dup_spec(f: &OpFlags, local: &MainCols<Felt>, next: &MainCols<Felt>) -> Seq<(int, RowDomain)> {
    seq![
        (gate(flag7(f, opcodes::DUP0), top(next, 0), top(local, 0)), RowDomain::Transition),
        (gate(flag7(f, opcodes::DUP1), top(next, 0), top(local, 1)), RowDomain::Transition),
        (gate(flag7(f, opcodes::DUP2), top(next, 0), top(local, 2)), RowDomain::Transition),
        (gate(flag7(f, opcodes::DUP3), top(next, 0), top(local, 3)), RowDomain::Transition),
        (gate(flag7(f, opcodes::DUP4), top(next, 0), top(local, 4)), RowDomain::Transition),
        (gate(flag7(f, opcodes::DUP5), top(next, 0), top(local, 5)), RowDomain::Transition),
        (gate(flag7(f, opcodes::DUP6), top(next, 0), top(local, 6)), RowDomain::Transition),
        (gate(flag7(f, opcodes::DUP7), top(next, 0), top(local, 7)), RowDomain::Transition),
        (gate(flag7(f, opcodes::DUP9), top(next, 0), top(local, 9)), RowDomain::Transition),
        (gate(flag7(f, opcodes::DUP11), top(next, 0), top(local, 11)), RowDomain::Transition),
        (gate(flag7(f, opcodes::DUP13), top(next, 0), top(local, 13)), RowDomain::Transition),
        (gate(flag7(f, opcodes::DUP15), top(next, 0), top(local, 15)), RowDomain::Transition),
    ]
}

/// CLK: the clock cycle pushed to the top.
pub open spec fn clk_spec(f: &OpFlags, local: &MainCols<Felt>, next: &MainCols<Felt>) -> Seq<(int, RowDomain)> {
    seq![
        (gate(flag7(f, opcodes::CLK), top(next, 0), local.system.clk@), RowDomain::Transition),
    ]
}

/// SWAP: the top two items exchanged.
pub open spec fn swap_spec(f: &OpFlags, local: &MainCols<Felt>, next: &MainCols<Felt>) -> Seq<(int, RowDomain)> {
    seq![
        (gate(flag7(f, opcodes::SWAP), top(next, 0), top(local, 1)), RowDomain::Transition),
        (gate(flag7(f, opcodes::SWAP), top(next, 1), top(local, 0)), RowDomain::Transition),
    ]
}

/// MOVUP*: the item moved to the top.
pub open spec fn movup_spec(f: &OpFlags, local: &MainCols<Felt>, next: &MainCols<Felt>) -> Seq<(int, RowDomain)> {
    seq![
        (gate(flag7(f, opcodes::MOVUP2), top(next, 0), top(local, 2)), RowDomain::Transition),
        (gate(flag7(f, opcodes::MOVUP3), top(next, 0), top(local, 3)), RowDomain::Transition),
        (gate(flag7(f, opcodes::MOVUP4), top(next, 0), top(local, 4)), RowDomain::Transition),
        (gate(flag7(f, opcodes::MOVUP5), top(next, 0), top(local, 5)), RowDomain::Transition),
        (gate(flag7(f, opcodes::MOVUP6), top(next, 0), top(local, 6)), RowDomain::Transition),
        (gate(flag7(f, opcodes::MOVUP7), top(next, 0), top(local, 7)), RowDomain::Transition),
        (gate(flag7(f, opcodes::MOVUP8), top(next, 0), top(local, 8)), RowDomain::Transition),
    ]
}

/// MOVDN*: the top item moved down.
pub open spec fn movdn_spec(f: &OpFlags, local: &MainCols<Felt>, next: &MainCols<Felt>) -> Seq<(int, RowDomain)> {
    seq![
        (gate(flag7(f, opcodes::MOVDN2), top(next, 2), top(local, 0)), RowDomain::Transition),
        (gate(flag7(f, opcodes::MOVDN3), top(next, 3), top(local, 0)), RowDomain::Transition),
        (gate(flag7(f, opcodes::MOVDN4), top(next, 4), top(local, 0)), RowDomain::Transition),
        (gate(flag7(f, opcodes::MOVDN5), top(next, 5), top(local, 0)), RowDomain::Transition),
        (gate(flag7(f, opcodes::MOVDN6), top(next, 6), top(local, 0)), RowDomain::Transition),
        (gate(flag7(f, opcodes::MOVDN7), top(next, 7), top(local, 0)), RowDomain::Transition),
        (gate(flag7(f, opcodes::MOVDN8), top(next, 8), top(local, 0)), RowDomain::Transition),
    ]
}

/// SWAPW: words 0 and 1 exchanged.
pub open spec fn swapw_spec(f: &OpFlags, local: &MainCols<Felt>, next: &MainCols<Felt>) -> Seq<(int, RowDomain)> {
    seq![
        (gate(flag7(f, opcodes::SWAPW), top(next, 0), top(local, 4)), RowDomain::Transition),
        (gate(flag7(f, opcodes::SWAPW), top(next, 1), top(local, 5)), RowDomain::Transition),
        (gate(flag7(f, opcodes::SWAPW), top(next, 2), top(local, 6)), RowDomain::Transition),
        (gate(flag7(f, opcodes::SWAPW), top(next, 3), top(local, 7)), RowDomain::Transition),
        (gate(flag7(f, opcodes::SWAPW), top(next, 4), top(local, 0)), RowDomain::Transition),
        (gate(flag7(f, opcodes::SWAPW), top(next, 5), top(local, 1)), RowDomain::Transition),
        (gate(flag7(f, opcodes::SWAPW), top(next, 6), top(local, 2)), RowDomain::Transition),
        (gate(flag7(f, opcodes::SWAPW), top(next, 7), top(local, 3)), RowDomain::Transition),
    ]
}

/// SWAPW2: words 0 and 2 exchanged.
pub open spec fn swapw2_spec(f: &OpFlags, local: &MainCols<Felt>, next: &MainCols<Felt>) -> Seq<(int, RowDomain)> {
    seq![
        (gate(flag7(f, opcodes::SWAPW2), top(next, 0), top(local, 8)), RowDomain::Transition),
        (gate(flag7(f, opcodes::SWAPW2), top(next, 1), top(local, 9)), RowDomain::Transition),
        (gate(flag7(f, opcodes::SWAPW2), top(next, 2), top(local, 10)), RowDomain::Transition),
        (gate(flag7(f, opcodes::SWAPW2), top(next, 3), top(local, 11)), RowDomain::Transition),
        (gate(flag7(f, opcodes::SWAPW2), top(next, 8), top(local, 0)), RowDomain::Transition),
        (gate(flag7(f, opcodes::SWAPW2), top(next, 9), top(local, 1)), RowDomain::Transition),
        (gate(flag7(f, opcodes::SWAPW2), top(next, 10), top(local, 2)), RowDomain::Transition),
        (gate(flag7(f, opcodes::SWAPW2), top(next, 11), top(local, 3)), RowDomain::Transition),
    ]
}

/// SWAPW3: words 0 and 3 exchanged.
pub open spec fn swapw3_spec(f: &OpFlags, local: &MainCols<Felt>, next: &MainCols<Felt>) -> Seq<(int, RowDomain)> {
    seq![
        (gate(flag7(f, opcodes::SWAPW3), top(next, 0), top(local, 12)), RowDomain::Transition),
        (gate(flag7(f, opcodes::SWAPW3), top(next, 1), top(local, 13)), RowDomain::Transition),
        (gate(flag7(f, opcodes::SWAPW3), top(next, 2), top(local, 14)), RowDomain::Transition),
        (gate(flag7(f, opcodes::SWAPW3), top(next, 3), top(local, 15)), RowDomain::Transition),
        (gate(flag7(f, opcodes::SWAPW3), top(next, 12), top(local, 0)), RowDomain::Transition),
        (gate(flag7(f, opcodes::SWAPW3), top(next, 13), top(local, 1)), RowDomain::Transition),
        (gate(flag7(f, opcodes::SWAPW3), top(next, 14), top(local, 2)), RowDomain::Transition),
        (gate(flag7(f, opcodes::SWAPW3), top(next, 15), top(local, 3)), RowDomain::Transition),
    ]
}

/// SWAPDW: double words 0 and 1 exchanged.
pub open spec fn swapdw_spec(f: &OpFlags, local: &MainCols<Felt>, next: &MainCols<Felt>) -> Seq<(int, RowDomain)> {
    seq![
        (gate(flag7(f, opcodes::SWAPDW), top(next, 0), top(local, 8)), RowDomain::Transition),
        (gate(flag7(f, opcodes::SWAPDW), top(next, 1), top(local, 9)), RowDomain::Transition),
        (gate(flag7(f, opcodes::SWAPDW), top(next, 2), top(local, 10)), RowDomain::Transition),
        (gate(flag7(f, opcodes::SWAPDW), top(next, 3), top(local, 11)), RowDomain::Transition),
        (gate(flag7(f, opcodes::SWAPDW), top(next, 4), top(local, 12)), RowDomain::Transition),
        (gate(flag7(f, opcodes::SWAPDW), top(next, 5), top(local, 13)), RowDomain::Transition),
        (gate(flag7(f, opcodes::SWAPDW), top(next, 6), top(local, 14)), RowDomain::Transition),
        (gate(flag7(f, opcodes::SWAPDW), top(next, 7), top(local, 15)), RowDomain::Transition),
        (gate(flag7(f, opcodes::SWAPDW), top(next, 8), top(local, 0)), RowDomain::Transition),
        (gate(flag7(f, opcodes::SWAPDW), top(next, 9), top(local, 1)), RowDomain::Transition),
        (gate(flag7(f, opcodes::SWAPDW), top(next, 10), top(local, 2)), RowDomain::Transition),
        (gate(flag7(f, opcodes::SWAPDW), top(next, 11), top(local, 3)), RowDomain::Transition),
        (gate(flag7(f, opcodes::SWAPDW), top(next, 12), top(local, 4)), RowDomain::Transition),
        (gate(flag7(f, opcodes::SWAPDW), top(next, 13), top(local, 5)), RowDomain::Transition),
        (gate(flag7(f, opcodes::SWAPDW), top(next, 14), top(local, 6)), RowDomain::Transition),
        (gate(flag7(f, opcodes::SWAPDW), top(next, 15), top(local, 7)), RowDomain::Transition),
    ]
}

/// CSWAP: the selector `s0` is binary and picks the order of `s1`, `s2`.
pub open spec fn cswap_spec(f: &OpFlags, local: &MainCols<Felt>, next: &MainCols<Felt>) -> Seq<(int, RowDomain)> {
    seq![
        (fmul(flag7(f, opcodes::CSWAP), fmul(top(local, 0), fsub(top(local, 0), 1))), RowDomain::EveryRow),
        (gate(flag7(f, opcodes::CSWAP), top(next, 0), cond_select(top(local, 0), top(local, 2), top(local, 1))), RowDomain::Transition),
        (gate(flag7(f, opcodes::CSWAP), top(next, 1), cond_select(top(local, 0), top(local, 1), top(local, 2))), RowDomain::Transition),
    ]
}

/// CSWAPW: the selector `s0` is binary and picks the order of the next two words.
pub open spec fn cswapw_spec(f: &OpFlags, local: &MainCols<Felt>, next: &MainCols<Felt>) -> Seq<(int, RowDomain)> {
    seq![
        (fmul(flag7(f, opcodes::CSWAPW), fmul(top(local, 0), fsub(top(local, 0), 1))), RowDomain::EveryRow),
        (gate(flag7(f, opcodes::CSWAPW), top(next, 0), cond_select(top(local, 0), top(local, 5), top(local, 1))), RowDomain::Transition),
        (gate(flag7(f, opcodes::CSWAPW), top(next, 1), cond_select(top(local, 0), top(local, 6), top(local, 2))), RowDomain::Transition),
        (gate(flag7(f, opcodes::CSWAPW), top(next, 2), cond_select(top(local, 0), top(local, 7), top(local, 3))), RowDomain::Transition),
        (gate(flag7(f, opcodes::CSWAPW), top(next, 3), cond_select(top(local, 0), top(local, 8), top(local, 4))), RowDomain::Transition),
        (gate(flag7(f, opcodes::CSWAPW), top(next, 4), cond_select(top(local, 0), top(local, 1), top(local, 5))), RowDomain::Transition),
        (gate(flag7(f, opcodes::CSWAPW), top(next, 5), cond_select(top(local, 0), top(local, 2), top(local, 6))), RowDomain::Transition),
        (gate(flag7(f, opcodes::CSWAPW), top(next, 6), cond_select(top(local, 0), top(local, 3), top(local, 7))), RowDomain::Transition),
        (gate(flag7(f, opcodes::CSWAPW), top(next, 7), cond_select(top(local, 0), top(local, 4), top(local, 8))), RowDomain::Transition),
    ]
}

/// ASSERT: the top item is 1.
pub open spec fn assert_spec(f: &OpFlags, local: &MainCols<Felt>, next: &MainCols<Felt>) -> Seq<(int, RowDomain)> {
    seq![
        (fmul(flag7(f, opcodes::ASSERT), fsub(top(local, 0), 1)), RowDomain::EveryRow),
    ]
}

/// CALLER: the caller's procedure hash loaded onto the top word.
pub open spec fn caller_spec(f: &OpFlags, local: &MainCols<Felt>, next: &MainCols<Felt>) -> Seq<(int, RowDomain)> {
    seq![
        (gate(flag7(f, opcodes::CALLER), top(next, 0), local.system.fn_hash@[0]@), RowDomain::Transition),
        (gate(flag7(f, opcodes::CALLER), top(next, 1), local.system.fn_hash@[1]@), RowDomain::Transition),
        (gate(flag7(f, opcodes::CALLER), top(next, 2), local.system.fn_hash@[2]@), RowDomain::Transition),
        (gate(flag7(f, opcodes::CALLER), top(next, 3), local.system.fn_hash@[3]@), RowDomain::Transition),
    ]
}

/// SDEPTH: the stack depth pushed to the top.
pub open spec fn sdepth_spec(f: &OpFlags, local: &MainCols<Felt>, next: &MainCols<Felt>) -> Seq<(int, RowDomain)> {
    seq![
        (gate(flag7(f, opcodes::SDEPTH), top(next, 0), local.stack.b0@), RowDomain::Transition),
    ]
}

/// All stack operation constraints, in the order in which they are asserted.
pub open spec fn stack_ops_spec(f: &OpFlags, local: &MainCols<Felt>, next: &MainCols<Felt>) -> Seq<(int, RowDomain)> {
    pad_spec(f, local, next)
        + dup_spec(f, local, next)
        + clk_spec(f, local, next)
        + swap_spec(f, local, next)
        + movup_spec(f, local, next)
        + movdn_spec(f, local, next)
        + swapw_spec(f, local, next)
        + swapw2_spec(f, local, next)
        + swapw3_spec(f, local, next)
        + swapdw_spec(f, local, next)
        + cswap_spec(f, local, next)
        + cswapw_spec(f, local, next)
        + assert_spec(f, local, next)
        + caller_spec(f, local, next)
        + sdepth_spec(f, local, next)
}

// HELPERS
// ================================================================================================

/// Asserts `flag * (a - b)` on transition rows.
fn push_gate(builder: &mut ConstraintSet, flag: Felt, a: Felt, b: Felt)
    ensures
        final(builder).base_view() == old(builder).base_view().push(
            (gate(flag@, a@, b@), RowDomain::Transition),
        ),
        final(builder).ext_view() == old(builder).ext_view(),
        final(builder).tags_view() == old(builder).tags_view(),
{
    builder.assert_zero(flag.mul(a.sub(b)), RowDomain::Transition);
}

/// `c * x + (1 - c) * y`.
fn select(c: Felt, x: Felt, y: Felt) -> (r: Felt)
    ensures
        r@ == cond_select(c@, x@, y@),
{
    c.mul(x).add(c.not().mul(y))
}

fn enforce_pad(builder: &mut ConstraintSet, f: &OpFlags, local: &MainCols<Felt>, next: &MainCols<Felt>)
    requires
        f.wf(),
    ensures
        final(builder).base_view() == old(builder).base_view() + pad_spec(f, local, next),
        final(builder).ext_view() == old(builder).ext_view(),
        final(builder).tags_view() == old(builder).tags_view(),
{
    builder.assert_zero(f.pad().mul(next.stack.top[0]), RowDomain::Transition);
    assert(builder.base_view() =~= old(builder).base_view() + pad_spec(f, local, next));
}

fn enforce_dup(builder: &mut ConstraintSet, f: &OpFlags, local: &MainCols<Felt>, next: &MainCols<Felt>)
    requires
        f.wf(),
    ensures
        final(builder).base_view() == old(builder).base_view() + dup_spec(f, local, next),
        final(builder).ext_view() == old(builder).ext_view(),
        final(builder).tags_view() == old(builder).tags_view(),
{
    push_gate(builder, f.dup(), next.stack.top[0], local.stack.top[0]);
    push_gate(builder, f.dup1(), next.stack.top[0], local.stack.top[1]);
    push_gate(builder, f.dup2(), next.stack.top[0], local.stack.top[2]);
    push_gate(builder, f.dup3(), next.stack.top[0], local.stack.top[3]);
    push_gate(builder, f.dup4(), next.stack.top[0], local.stack.top[4]);
    push_gate(builder, f.dup5(), next.stack.top[0], local.stack.top[5]);
    push_gate(builder, f.dup6(), next.stack.top[0], local.stack.top[6]);
    push_gate(builder, f.dup7(), next.stack.top[0], local.stack.top[7]);
    push_gate(builder, f.dup9(), next.stack.top[0], local.stack.top[9]);
    push_gate(builder, f.dup11(), next.stack.top[0], local.stack.top[11]);
    push_gate(builder, f.dup13(), next.stack.top[0], local.stack.top[13]);
    push_gate(builder, f.dup15(), next.stack.top[0], local.stack.top[15]);
    assert(builder.base_view() =~= old(builder).base_view() + dup_spec(f, local, next));
}

fn enforce_clk(builder: &mut ConstraintSet, f: &OpFlags, local: &MainCols<Felt>, next: &MainCols<Felt>)
    requires
        f.wf(),
    ensures
        final(builder).base_view() == old(builder).base_view() + clk_spec(f, local, next),
        final(builder).ext_view() == old(builder).ext_view(),
        final(builder).tags_view() == old(builder).tags_view(),
{
    push_gate(builder, f.clk(), next.stack.top[0], local.system.clk);
    assert(builder.base_view() =~= old(builder).base_view() + clk_spec(f, local, next));
}

fn enforce_swap(builder: &mut ConstraintSet, f: &OpFlags, local: &MainCols<Felt>, next: &MainCols<Felt>)
    requires
        f.wf(),
    ensures
        final(builder).base_view() == old(builder).base_view() + swap_spec(f, local, next),
        final(builder).ext_view() == old(builder).ext_view(),
        final(builder).tags_view() == old(builder).tags_view(),
{
    push_gate(builder, f.swap(), next.stack.top[0], local.stack.top[1]);
    push_gate(builder, f.swap(), next.stack.top[1], local.stack.top[0]);
    assert(builder.base_view() =~= old(builder).base_view() + swap_spec(f, local, next));
}

fn enforce_movup(builder: &mut ConstraintSet, f: &OpFlags, local: &MainCols<Felt>, next: &MainCols<Felt>)
    requires
        f.wf(),
    ensures
        final(builder).base_view() == old(builder).base_view() + movup_spec(f, local, next),
        final(builder).ext_view() == old(builder).ext_view(),
        final(builder).tags_view() == old(builder).tags_view(),
{
    push_gate(builder, f.movup2(), next.stack.top[0], local.stack.top[2]);
    push_gate(builder, f.movup3(), next.stack.top[0], local.stack.top[3]);
    push_gate(builder, f.movup4(), next.stack.top[0], local.stack.top[4]);
    push_gate(builder, f.movup5(), next.stack.top[0], local.stack.top[5]);
    push_gate(builder, f.movup6(), next.stack.top[0], local.stack.top[6]);
    push_gate(builder, f.movup7(), next.stack.top[0], local.stack.top[7]);
    push_gate(builder, f.movup8(), next.stack.top[0], local.stack.top[8]);
    assert(builder.base_view() =~= old(builder).base_view() + movup_spec(f, local, next));
}

fn enforce_movdn(builder: &mut ConstraintSet, f: &OpFlags, local: &MainCols<Felt>, next: &MainCols<Felt>)
    requires
        f.wf(),
    ensures
        final(builder).base_view() == old(builder).base_view() + movdn_spec(f, local, next),
        final(builder).ext_view() == old(builder).ext_view(),
        final(builder).tags_view() == old(builder).tags_view(),
{
    push_gate(builder, f.movdn2(), next.stack.top[2], local.stack.top[0]);
    push_gate(builder, f.movdn3(), next.stack.top[3], local.stack.top[0]);
    push_gate(builder, f.movdn4(), next.stack.top[4], local.stack.top[0]);
    push_gate(builder, f.movdn5(), next.stack.top[5], local.stack.top[0]);
    push_gate(builder, f.movdn6(), next.stack.top[6], local.stack.top[0]);
    push_gate(builder, f.movdn7(), next.stack.top[7], local.stack.top[0]);
    push_gate(builder, f.movdn8(), next.stack.top[8], local.stack.top[0]);
    assert(builder.base_view() =~= old(builder).base_view() + movdn_spec(f, local, next));
}

fn enforce_swapw(builder: &mut ConstraintSet, f: &OpFlags, local: &MainCols<Felt>, next: &MainCols<Felt>)
    requires
        f.wf(),
    ensures
        final(builder).base_view() == old(builder).base_view() + swapw_spec(f, local, next),
        final(builder).ext_view() == old(builder).ext_view(),
        final(builder).tags_view() == old(builder).tags_view(),
{
    push_gate(builder, f.swapw(), next.stack.top[0], local.stack.top[4]);
    push_gate(builder, f.swapw(), next.stack.top[1], local.stack.top[5]);
    push_gate(builder, f.swapw(), next.stack.top[2], local.stack.top[6]);
    push_gate(builder, f.swapw(), next.stack.top[3], local.stack.top[7]);
    push_gate(builder, f.swapw(), next.stack.top[4], local.stack.top[0]);
    push_gate(builder, f.swapw(), next.stack.top[5], local.stack.top[1]);
    push_gate(builder, f.swapw(), next.stack.top[6], local.stack.top[2]);
    push_gate(builder, f.swapw(), next.stack.top[7], local.stack.top[3]);
    assert(builder.base_view() =~= old(builder).base_view() + swapw_spec(f, local, next));
}

fn enforce_swapw2(builder: &mut ConstraintSet, f: &OpFlags, local: &MainCols<Felt>, next: &MainCols<Felt>)
    requires
        f.wf(),
    ensures
        final(builder).base_view() == old(builder).base_view() + swapw2_spec(f, local, next),
        final(builder).ext_view() == old(builder).ext_view(),
        final(builder).tags_view() == old(builder).tags_view(),
{
    push_gate(builder, f.swapw2(), next.stack.top[0], local.stack.top[8]);
    push_gate(builder, f.swapw2(), next.stack.top[1], local.stack.top[9]);
    push_gate(builder, f.swapw2(), next.stack.top[2], local.stack.top[10]);
    push_gate(builder, f.swapw2(), next.stack.top[3], local.stack.top[11]);
    push_gate(builder, f.swapw2(), next.stack.top[8], local.stack.top[0]);
    push_gate(builder, f.swapw2(), next.stack.top[9], local.stack.top[1]);
    push_gate(builder, f.swapw2(), next.stack.top[10], local.stack.top[2]);
    push_gate(builder, f.swapw2(), next.stack.top[11], local.stack.top[3]);
    assert(builder.base_view() =~= old(builder).base_view() + swapw2_spec(f, local, next));
}

fn enforce_swapw3(builder: &mut ConstraintSet, f: &OpFlags, local: &MainCols<Felt>, next: &MainCols<Felt>)
    requires
        f.wf(),
    ensures
        final(builder).base_view() == old(builder).base_view() + swapw3_spec(f, local, next),
        final(builder).ext_view() == old(builder).ext_view(),
        final(builder).tags_view() == old(builder).tags_view(),
{
    push_gate(builder, f.swapw3(), next.stack.top[0], local.stack.top[12]);
    push_gate(builder, f.swapw3(), next.stack.top[1], local.stack.top[13]);
    push_gate(builder, f.swapw3(), next.stack.top[2], local.stack.top[14]);
    push_gate(builder, f.swapw3(), next.stack.top[3], local.stack.top[15]);
    push_gate(builder, f.swapw3(), next.stack.top[12], local.stack.top[0]);
    push_gate(builder, f.swapw3(), next.stack.top[13], local.stack.top[1]);
    push_gate(builder, f.swapw3(), next.stack.top[14], local.stack.top[2]);
    push_gate(builder, f.swapw3(), next.stack.top[15], local.stack.top[3]);
    assert(builder.base_view() =~= old(builder).base_view() + swapw3_spec(f, local, next));
}

fn enforce_swapdw(builder: &mut ConstraintSet, f: &OpFlags, local: &MainCols<Felt>, next: &MainCols<Felt>)
    requires
        f.wf(),
    ensures
        final(builder).base_view() == old(builder).base_view() + swapdw_spec(f, local, next),
        final(builder).ext_view() == old(builder).ext_view(),
        final(builder).tags_view() == old(builder).tags_view(),
{
    push_gate(builder, f.swapdw(), next.stack.top[0], local.stack.top[8]);
    push_gate(builder, f.swapdw(), next.stack.top[1], local.stack.top[9]);
    push_gate(builder, f.swapdw(), next.stack.top[2], local.stack.top[10]);
    push_gate(builder, f.swapdw(), next.stack.top[3], local.stack.top[11]);
    push_gate(builder, f.swapdw(), next.stack.top[4], local.stack.top[12]);
    push_gate(builder, f.swapdw(), next.stack.top[5], local.stack.top[13]);
    push_gate(builder, f.swapdw(), next.stack.top[6], local.stack.top[14]);
    push_gate(builder, f.swapdw(), next.stack.top[7], local.stack.top[15]);
    push_gate(builder, f.swapdw(), next.stack.top[8], local.stack.top[0]);
    push_gate(builder, f.swapdw(), next.stack.top[9], local.stack.top[1]);
    push_gate(builder, f.swapdw(), next.stack.top[10], local.stack.top[2]);
    push_gate(builder, f.swapdw(), next.stack.top[11], local.stack.top[3]);
    push_gate(builder, f.swapdw(), next.stack.top[12], local.stack.top[4]);
    push_gate(builder, f.swapdw(), next.stack.top[13], local.stack.top[5]);
    push_gate(builder, f.swapdw(), next.stack.top[14], local.stack.top[6]);
    push_gate(builder, f.swapdw(), next.stack.top[15], local.stack.top[7]);
    assert(builder.base_view() =~= old(builder).base_view() + swapdw_spec(f, local, next));
}

fn enforce_cswap(builder: &mut ConstraintSet, f: &OpFlags, local: &MainCols<Felt>, next: &MainCols<Felt>)
    requires
        f.wf(),
    ensures
        final(builder).base_view() == old(builder).base_view() + cswap_spec(f, local, next),
        final(builder).ext_view() == old(builder).ext_view(),
        final(builder).tags_view() == old(builder).tags_view(),
{
    let c = local.stack.top[0];
    builder.assert_zero(f.cswap().mul(c.mul(c.sub(Felt::one()))), RowDomain::EveryRow);
    push_gate(builder, f.cswap(), next.stack.top[0], select(c, local.stack.top[2], local.stack.top[1]));
    push_gate(builder, f.cswap(), next.stack.top[1], select(c, local.stack.top[1], local.stack.top[2]));
    assert(builder.base_view() =~= old(builder).base_view() + cswap_spec(f, local, next));
}

fn enforce_cswapw(builder: &mut ConstraintSet, f: &OpFlags, local: &MainCols<Felt>, next: &MainCols<Felt>)
    requires
        f.wf(),
    ensures
        final(builder).base_view() == old(builder).base_view() + cswapw_spec(f, local, next),
        final(builder).ext_view() == old(builder).ext_view(),
        final(builder).tags_view() == old(builder).tags_view(),
{
    let c = local.stack.top[0];
    builder.assert_zero(f.cswapw().mul(c.mul(c.sub(Felt::one()))), RowDomain::EveryRow);
    push_gate(builder, f.cswapw(), next.stack.top[0], select(c, local.stack.top[5], local.stack.top[1]));
    push_gate(builder, f.cswapw(), next.stack.top[1], select(c, local.stack.top[6], local.stack.top[2]));
    push_gate(builder, f.cswapw(), next.stack.top[2], select(c, local.stack.top[7], local.stack.top[3]));
    push_gate(builder, f.cswapw(), next.stack.top[3], select(c, local.stack.top[8], local.stack.top[4]));
    push_gate(builder, f.cswapw(), next.stack.top[4], select(c, local.stack.top[1], local.stack.top[5]));
    push_gate(builder, f.cswapw(), next.stack.top[5], select(c, local.stack.top[2], local.stack.top[6]));
    push_gate(builder, f.cswapw(), next.stack.top[6], select(c, local.stack.top[3], local.stack.top[7]));
    push_gate(builder, f.cswapw(), next.stack.top[7], select(c, local.stack.top[4], local.stack.top[8]));
    assert(builder.base_view() =~= old(builder).base_view() + cswapw_spec(f, local, next));
}

fn enforce_assert(builder: &mut ConstraintSet, f: &OpFlags, local: &MainCols<Felt>, next: &MainCols<Felt>)
    requires
        f.wf(),
    ensures
        final(builder).base_view() == old(builder).base_view() + assert_spec(f, local, next),
        final(builder).ext_view() == old(builder).ext_view(),
        final(builder).tags_view() == old(builder).tags_view(),
{
    builder.assert_zero(f.assert_op().mul(local.stack.top[0].sub(Felt::one())), RowDomain::EveryRow);
    assert(builder.base_view() =~= old(builder).base_view() + assert_spec(f, local, next));
}

fn enforce_caller(builder: &mut ConstraintSet, f: &OpFlags, local: &MainCols<Felt>, next: &MainCols<Felt>)
    requires
        f.wf(),
    ensures
        final(builder).base_view() == old(builder).base_view() + caller_spec(f, local, next),
        final(builder).ext_view() == old(builder).ext_view(),
        final(builder).tags_view() == old(builder).tags_view(),
{
    push_gate(builder, f.caller(), next.stack.top[0], local.system.fn_hash[0]);
    push_gate(builder, f.caller(), next.stack.top[1], local.system.fn_hash[1]);
    push_gate(builder, f.caller(), next.stack.top[2], local.system.fn_hash[2]);
    push_gate(builder, f.caller(), next.stack.top[3], local.system.fn_hash[3]);
    assert(builder.base_view() =~= old(builder).base_view() + caller_spec(f, local, next));
}

fn enforce_sdepth(builder: &mut ConstraintSet, f: &OpFlags, local: &MainCols<Felt>, next: &MainCols<Felt>)
    requires
        f.wf(),
    ensures
        final(builder).base_view() == old(builder).base_view() + sdepth_spec(f, local, next),
        final(builder).ext_view() == old(builder).ext_view(),
        final(builder).tags_view() == old(builder).tags_view(),
{
    push_gate(builder, f.sdepth(), next.stack.top[0], local.stack.b0);
    assert(builder.base_view() =~= old(builder).base_view() + sdepth_spec(f, local, next));
}

// ENTRY POINT
// ================================================================================================

/// Enforces the stack operation constraints for PAD/DUP/CLK/SWAP/MOV/SWAPW/CSWAP, ASSERT,
/// CALLER and SDEPTH.
pub fn enforce_main(builder: &mut ConstraintSet, local: &MainCols<Felt>, next: &MainCols<Felt>, op_flags: &OpFlags)
    requires
        op_flags.wf(),
    ensures
        final(builder).base_view() == old(builder).base_view() + stack_ops_spec(op_flags, local, next),
        final(builder).ext_view() == old(builder).ext_view(),
        final(builder).tags_view() == old(builder).tags_view(),
{
    let ghost start = builder.base_view();
    enforce_pad(builder, op_flags, local, next);
    enforce_dup(builder, op_flags, local, next);
    enforce_clk(builder, op_flags, local, next);
    enforce_swap(builder, op_flags, local, next);
    enforce_movup(builder, op_flags, local, next);
    enforce_movdn(builder, op_flags, local, next);
    enforce_swapw(builder, op_flags, local, next);
    enforce_swapw2(builder, op_flags, local, next);
    enforce_swapw3(builder, op_flags, local, next);
    enforce_swapdw(builder, op_flags, local, next);
    enforce_cswap(builder, op_flags, local, next);
    enforce_cswapw(builder, op_flags, local, next);
    enforce_assert(builder, op_flags, local, next);
    enforce_caller(builder, op_flags, local, next);
    enforce_sdepth(builder, op_flags, local, next);
    assert(builder.base_view() =~= start + stack_ops_spec(op_flags, local, next));
}

// LAWS
// ================================================================================================

/// A gated constraint `flag * (a - b)` on canonical values vanishes whenever the flag is 0, and,
/// when the flag is 1, exactly when `a == b`.
pub proof fn lemma_gate(flag: int, a: int, b: int)
    requires
        flag == 0 || flag == 1,
        0 <= a < P,
        0 <= b < P,
    ensures
        flag == 0 ==> gate(flag, a, b) == 0,
        flag == 1 ==> ((gate(flag, a, b) == 0) == (a == b)),
{
    broadcast use crate::field::lemma_fsub_range;

    lemma_mul_zero(fsub(a, b));
    lemma_canonical(fsub(a, b));
    lemma_fsub_zero(a, b);
}


/// The operations whose constraints are enforced here.
pub open spec fn stack_op_opcodes() -> Seq<u8> {
    seq![
        opcodes::PAD, opcodes::DUP0, opcodes::DUP1, opcodes::DUP2, opcodes::DUP3, opcodes::DUP4, opcodes::DUP5,
        opcodes::DUP6, opcodes::DUP7, opcodes::DUP9, opcodes::DUP11, opcodes::DUP13, opcodes::DUP15, opcodes::CLK,
        opcodes::SWAP, opcodes::MOVUP2, opcodes::MOVUP3, opcodes::MOVUP4, opcodes::MOVUP5, opcodes::MOVUP6,
        opcodes::MOVUP7, opcodes::MOVUP8, opcodes::MOVDN2, opcodes::MOVDN3, opcodes::MOVDN4, opcodes::MOVDN5,
        opcodes::MOVDN6, opcodes::MOVDN7, opcodes::MOVDN8, opcodes::SWAPW, opcodes::SWAPW2, opcodes::SWAPW3,
        opcodes::SWAPDW, opcodes::CSWAP, opcodes::CSWAPW, opcodes::ASSERT, opcodes::CALLER, opcodes::SDEPTH,
    ]
}

/// The stack operation constraints vanish exactly when the constraints of each operation do.
pub proof fn lemma_stack_ops_parts(f: &OpFlags, local: &MainCols<Felt>, next: &MainCols<Felt>)
    ensures
        all_vanish(stack_ops_spec(f, local, next)) == (all_vanish(pad_spec(f, local, next)) && all_vanish(dup_spec(f, local, next)) && all_vanish(clk_spec(f, local, next)) && all_vanish(swap_spec(f, local, next)) && all_vanish(movup_spec(f, local, next)) && all_vanish(movdn_spec(f, local, next)) && all_vanish(swapw_spec(f, local, next)) && all_vanish(swapw2_spec(f, local, next)) && all_vanish(swapw3_spec(f, local, next)) && all_vanish(swapdw_spec(f, local, next)) && all_vanish(cswap_spec(f, local, next)) && all_vanish(cswapw_spec(f, local, next)) && all_vanish(assert_spec(f, local, next)) && all_vanish(caller_spec(f, local, next)) && all_vanish(sdepth_spec(f, local, next))),
{
    lemma_all_vanish_concat(pad_spec(f, local, next), dup_spec(f, local, next));
    lemma_all_vanish_concat(pad_spec(f, local, next) + dup_spec(f, local, next), clk_spec(f, local, next));
    lemma_all_vanish_concat(pad_spec(f, local, next) + dup_spec(f, local, next) + clk_spec(f, local, next), swap_spec(f, local, next));
    lemma_all_vanish_concat(pad_spec(f, local, next) + dup_spec(f, local, next) + clk_spec(f, local, next) + swap_spec(f, local, next), movup_spec(f, local, next));
    lemma_all_vanish_concat(pad_spec(f, local, next) + dup_spec(f, local, next) + clk_spec(f, local, next) + swap_spec(f, local, next) + movup_spec(f, local, next), movdn_spec(f, local, next));
    lemma_all_vanish_concat(pad_spec(f, local, next) + dup_spec(f, local, next) + clk_spec(f, local, next) + swap_spec(f, local, next) + movup_spec(f, local, next) + movdn_spec(f, local, next), swapw_spec(f, local, next));
    lemma_all_vanish_concat(pad_spec(f, local, next) + dup_spec(f, local, next) + clk_spec(f, local, next) + swap_spec(f, local, next) + movup_spec(f, local, next) + movdn_spec(f, local, next) + swapw_spec(f, local, next), swapw2_spec(f, local, next));
    lemma_all_vanish_concat(pad_spec(f, local, next) + dup_spec(f, local, next) + clk_spec(f, local, next) + swap_spec(f, local, next) + movup_spec(f, local, next) + movdn_spec(f, local, next) + swapw_spec(f, local, next) + swapw2_spec(f, local, next), swapw3_spec(f, local, next));
    lemma_all_vanish_concat(pad_spec(f, local, next) + dup_spec(f, local, next) + clk_spec(f, local, next) + swap_spec(f, local, next) + movup_spec(f, local, next) + movdn_spec(f, local, next) + swapw_spec(f, local, next) + swapw2_spec(f, local, next) + swapw3_spec(f, local, next), swapdw_spec(f, local, next));
    lemma_all_vanish_concat(pad_spec(f, local, next) + dup_spec(f, local, next) + clk_spec(f, local, next) + swap_spec(f, local, next) + movup_spec(f, local, next) + movdn_spec(f, local, next) + swapw_spec(f, local, next) + swapw2_spec(f, local, next) + swapw3_spec(f, local, next) + swapdw_spec(f, local, next), cswap_spec(f, local, next));
    lemma_all_vanish_concat(pad_spec(f, local, next) + dup_spec(f, local, next) + clk_spec(f, local, next) + swap_spec(f, local, next) + movup_spec(f, local, next) + movdn_spec(f, local, next) + swapw_spec(f, local, next) + swapw2_spec(f, local, next) + swapw3_spec(f, local, next) + swapdw_spec(f, local, next) + cswap_spec(f, local, next), cswapw_spec(f, local, next));
    lemma_all_vanish_concat(pad_spec(f, local, next) + dup_spec(f, local, next) + clk_spec(f, local, next) + swap_spec(f, local, next) + movup_spec(f, local, next) + movdn_spec(f, local, next) + swapw_spec(f, local, next) + swapw2_spec(f, local, next) + swapw3_spec(f, local, next) + swapdw_spec(f, local, next) + cswap_spec(f, local, next) + cswapw_spec(f, local, next), assert_spec(f, local, next));
    lemma_all_vanish_concat(pad_spec(f, local, next) + dup_spec(f, local, next) + clk_spec(f, local, next) + swap_spec(f, local, next) + movup_spec(f, local, next) + movdn_spec(f, local, next) + swapw_spec(f, local, next) + swapw2_spec(f, local, next) + swapw3_spec(f, local, next) + swapdw_spec(f, local, next) + cswap_spec(f, local, next) + cswapw_spec(f, local, next) + assert_spec(f, local, next), caller_spec(f, local, next));
    lemma_all_vanish_concat(pad_spec(f, local, next) + dup_spec(f, local, next) + clk_spec(f, local, next) + swap_spec(f, local, next) + movup_spec(f, local, next) + movdn_spec(f, local, next) + swapw_spec(f, local, next) + swapw2_spec(f, local, next) + swapw3_spec(f, local, next) + swapdw_spec(f, local, next) + cswap_spec(f, local, next) + cswapw_spec(f, local, next) + assert_spec(f, local, next) + caller_spec(f, local, next), sdepth_spec(f, local, next));
}

/// On a row whose op bits encode an opcode `k` that is none of the operations of this module,
/// every constraint of this module vanishes.
pub proof fn lemma_stack_ops_idle(flags: OpFlags, k: int, h0: int, depth: int, is_loop: int, local: &MainCols<Felt>, next: &MainCols<Felt>)
    requires
        0 <= k < 128,
        flags.computed_from(opcode_bits(k), opcode_extra(k), h0, depth, is_loop),
        forall|j: int| 0 <= j < stack_op_opcodes().len() ==> #[trigger] stack_op_opcodes()[j] != k,
    ensures
        all_vanish(stack_ops_spec(&flags, local, next)),
{
    lemma_op_flags_one_hot(flags, k, h0, depth, is_loop);
    let ops = stack_op_opcodes();
    assert forall|j: int| 0 <= j < ops.len() implies #[trigger] flag7(&flags, ops[j]) == 0 by {
    }
    assert forall|x: int| #[trigger] fmul(0, x) == 0 by {
        lemma_mul_zero(x);
    }
    let f = &flags;
    lemma_stack_ops_parts(f, local, next);
    assert(flag7(f, opcodes::PAD) == 0 && flag7(f, opcodes::DUP0) == 0 && flag7(f, opcodes::DUP1) == 0 && flag7(f, opcodes::DUP2) == 0
        && flag7(f, opcodes::DUP3) == 0 && flag7(f, opcodes::DUP4) == 0 && flag7(f, opcodes::DUP5) == 0 && flag7(f, opcodes::DUP6) == 0
        && flag7(f, opcodes::DUP7) == 0 && flag7(f, opcodes::DUP9) == 0 && flag7(f, opcodes::DUP11) == 0 && flag7(f, opcodes::DUP13) == 0
        && flag7(f, opcodes::DUP15) == 0 && flag7(f, opcodes::CLK) == 0 && flag7(f, opcodes::SWAP) == 0) by {
        assert(ops[0] == opcodes::PAD && ops[1] == opcodes::DUP0 && ops[2] == opcodes::DUP1 && ops[3] == opcodes::DUP2);
        assert(ops[4] == opcodes::DUP3 && ops[5] == opcodes::DUP4 && ops[6] == opcodes::DUP5 && ops[7] == opcodes::DUP6);
        assert(ops[8] == opcodes::DUP7 && ops[9] == opcodes::DUP9 && ops[10] == opcodes::DUP11 && ops[11] == opcodes::DUP13);
        assert(ops[12] == opcodes::DUP15 && ops[13] == opcodes::CLK && ops[14] == opcodes::SWAP);
    }
    assert(flag7(f, opcodes::MOVUP2) == 0 && flag7(f, opcodes::MOVUP3) == 0 && flag7(f, opcodes::MOVUP4) == 0 && flag7(f, opcodes::MOVUP5) == 0
        && flag7(f, opcodes::MOVUP6) == 0 && flag7(f, opcodes::MOVUP7) == 0 && flag7(f, opcodes::MOVUP8) == 0 && flag7(f, opcodes::MOVDN2) == 0
        && flag7(f, opcodes::MOVDN3) == 0 && flag7(f, opcodes::MOVDN4) == 0 && flag7(f, opcodes::MOVDN5) == 0 && flag7(f, opcodes::MOVDN6) == 0
        && flag7(f, opcodes::MOVDN7) == 0 && flag7(f, opcodes::MOVDN8) == 0) by {
        assert(ops[15] == opcodes::MOVUP2 && ops[16] == opcodes::MOVUP3 && ops[17] == opcodes::MOVUP4 && ops[18] == opcodes::MOVUP5);
        assert(ops[19] == opcodes::MOVUP6 && ops[20] == opcodes::MOVUP7 && ops[21] == opcodes::MOVUP8 && ops[22] == opcodes::MOVDN2);
        assert(ops[23] == opcodes::MOVDN3 && ops[24] == opcodes::MOVDN4 && ops[25] == opcodes::MOVDN5 && ops[26] == opcodes::MOVDN6);
        assert(ops[27] == opcodes::MOVDN7 && ops[28] == opcodes::MOVDN8);
    }
    assert(flag7(f, opcodes::SWAPW) == 0 && flag7(f, opcodes::SWAPW2) == 0 && flag7(f, opcodes::SWAPW3) == 0 && flag7(f, opcodes::SWAPDW) == 0
        && flag7(f, opcodes::CSWAP) == 0 && flag7(f, opcodes::CSWAPW) == 0 && flag7(f, opcodes::ASSERT) == 0 && flag7(f, opcodes::CALLER) == 0
        && flag7(f, opcodes::SDEPTH) == 0) by {
        assert(ops[29] == opcodes::SWAPW && ops[30] == opcodes::SWAPW2 && ops[31] == opcodes::SWAPW3 && ops[32] == opcodes::SWAPDW);
        assert(ops[33] == opcodes::CSWAP && ops[34] == opcodes::CSWAPW && ops[35] == opcodes::ASSERT && ops[36] == opcodes::CALLER);
        assert(ops[37] == opcodes::SDEPTH);
    }
    assert(all_vanish(pad_spec(f, local, next)));
    assert(all_vanish(dup_spec(f, local, next)));
    assert(all_vanish(clk_spec(f, local, next)));
    assert(all_vanish(swap_spec(f, local, next)));
    assert(all_vanish(movup_spec(f, local, next)));
    assert(all_vanish(movdn_spec(f, local, next)));
    assert(all_vanish(swapw_spec(f, local, next)));
    assert(all_vanish(swapw2_spec(f, local, next)));
    assert(all_vanish(swapw3_spec(f, local, next)));
    assert(all_vanish(swapdw_spec(f, local, next)));
    assert(all_vanish(cswap_spec(f, local, next)));
    assert(all_vanish(cswapw_spec(f, local, next)));
    assert(all_vanish(assert_spec(f, local, next)));
    assert(all_vanish(caller_spec(f, local, next)));
    assert(all_vanish(sdepth_spec(f, local, next)));
}


/// With the degree 7 flags one-hot at an opcode `k`, the flag of each operation of this module is
/// 1 for `k` and 0 for the others.
proof fn lemma_stack_op_flags(flags: OpFlags, k: int, h0: int, depth: int, is_loop: int)
    requires
        0 <= k < 128,
        flags.computed_from(opcode_bits(k), opcode_extra(k), h0, depth, is_loop),
    ensures
        forall|op: u8| op < 64 ==> #[trigger] flag7(&flags, op) == (if op == k { 1int } else { 0int }),
{
    lemma_op_flags_one_hot(flags, k, h0, depth, is_loop);
}

/// The index of the item copied by DUPn, or -1.
pub open spec fn dup_source(k: int) -> int {
    if k == opcodes::DUP0 { 0 } else if k == opcodes::DUP1 { 1 } else if k == opcodes::DUP2 { 2 } else if k == opcodes::DUP3 { 3 }
    else if k == opcodes::DUP4 { 4 } else if k == opcodes::DUP5 { 5 } else if k == opcodes::DUP6 { 6 } else if k == opcodes::DUP7 { 7 }
    else if k == opcodes::DUP9 { 9 } else if k == opcodes::DUP11 { 11 } else if k == opcodes::DUP13 { 13 }
    else if k == opcodes::DUP15 { 15 } else { -1 }
}

/// The depth of the item moved by MOVUPn or MOVDNn, or -1.
pub open spec fn mov_depth(k: int) -> int {
    if k == opcodes::MOVUP2 || k == opcodes::MOVDN2 { 2 } else if k == opcodes::MOVUP3 || k == opcodes::MOVDN3 { 3 }
    else if k == opcodes::MOVUP4 || k == opcodes::MOVDN4 { 4 } else if k == opcodes::MOVUP5 || k == opcodes::MOVDN5 { 5 }
    else if k == opcodes::MOVUP6 || k == opcodes::MOVDN6 { 6 } else if k == opcodes::MOVUP7 || k == opcodes::MOVDN7 { 7 }
    else if k == opcodes::MOVUP8 || k == opcodes::MOVDN8 { 8 } else { -1 }
}

/// Whether `k` is one of MOVUP2..MOVUP8.
pub open spec fn is_movup(k: int) -> bool {
    k == opcodes::MOVUP2 || k == opcodes::MOVUP3 || k == opcodes::MOVUP4 || k == opcodes::MOVUP5
        || k == opcodes::MOVUP6 || k == opcodes::MOVUP7 || k == opcodes::MOVUP8
}

/// Whether `k` is one of MOVDN2..MOVDN8.
pub open spec fn is_movdn(k: int) -> bool {
    k == opcodes::MOVDN2 || k == opcodes::MOVDN3 || k == opcodes::MOVDN4 || k == opcodes::MOVDN5
        || k == opcodes::MOVDN6 || k == opcodes::MOVDN7 || k == opcodes::MOVDN8
}

/// The items `0..n` and `d..d + n` of the next row are those `d..d + n` and `0..n` of the
/// current row.
pub open spec fn blocks_exchanged(local: &MainCols<Felt>, next: &MainCols<Felt>, d: int, n: int) -> bool {
    forall|i: int| 0 <= i < n ==> #[trigger] top(next, i) == top(local, d + i) && top(next, d + i) == top(local, i)
}

/// What the operation `k` does to the visible stack items, as far as the constraints of this
/// module go: nothing is required of the operations that are not listed here.
pub open spec fn stack_op_effect(k: int, local: &MainCols<Felt>, next: &MainCols<Felt>) -> bool {
    let c = top(local, 0) == 1;
    if k == opcodes::PAD {
        top(next, 0) == 0
    } else if dup_source(k) >= 0 {
        top(next, 0) == top(local, dup_source(k))
    } else if k == opcodes::CLK {
        top(next, 0) == local.system.clk@
    } else if k == opcodes::SWAP {
        top(next, 0) == top(local, 1) && top(next, 1) == top(local, 0)
    } else if is_movup(k) {
        top(next, 0) == top(local, mov_depth(k))
    } else if is_movdn(k) {
        top(next, mov_depth(k)) == top(local, 0)
    } else if k == opcodes::SWAPW {
        blocks_exchanged(local, next, 4, 4)
    } else if k == opcodes::SWAPW2 {
        blocks_exchanged(local, next, 8, 4)
    } else if k == opcodes::SWAPW3 {
        blocks_exchanged(local, next, 12, 4)
    } else if k == opcodes::SWAPDW {
        blocks_exchanged(local, next, 8, 8)
    } else if k == opcodes::CSWAP {
        (top(local, 0) == 0 || top(local, 0) == 1) && top(next, 0) == (if c { top(local, 2) } else { top(local, 1) }) && top(next, 1) == (if c {
            top(local, 1)
        } else {
            top(local, 2)
        })
    } else if k == opcodes::CSWAPW {
        (top(local, 0) == 0 || top(local, 0) == 1) && forall|i: int|
            0 <= i < 4 ==> #[trigger] top(next, i) == (if c { top(local, 5 + i) } else { top(local, 1 + i) })
                && top(next, 4 + i) == (if c { top(local, 1 + i) } else { top(local, 5 + i) })
    } else if k == opcodes::ASSERT {
        c
    } else if k == opcodes::CALLER {
        forall|i: int| 0 <= i < 4 ==> #[trigger] top(next, i) == local.system.fn_hash@[i]@
    } else if k == opcodes::SDEPTH {
        top(next, 0) == local.stack.b0@
    } else {
        true
    }
}

proof fn lemma_cond_select(c: int, x: int, y: int)
    requires
        c == 0 || c == 1,
        0 <= x < P,
        0 <= y < P,
    ensures
        cond_select(c, x, y) == (if c == 1 { x } else { y }),
{
    crate::field::lemma_bool_ops(c, c);
    lemma_mul_zero(x);
    lemma_mul_zero(y);
    lemma_canonical(x);
    lemma_canonical(y);
}

/// The stack operation law on a DUP row.
proof fn lemma_stack_ops_dup_row(flags: OpFlags, k: int, h0: int, depth: int, is_loop: int, local: &MainCols<Felt>, next: &MainCols<Felt>)
    requires
        0 <= k < 128,
        flags.computed_from(opcode_bits(k), opcode_extra(k), h0, depth, is_loop),
        dup_source(k) >= 0,
    ensures
        all_vanish(stack_ops_spec(&flags, local, next)) == stack_op_effect(k, local, next),
{
    let f = &flags;
    lemma_stack_op_flags(flags, k, h0, depth, is_loop);
    assert forall|x: int| #[trigger] fmul(0, x) == 0 by {
        lemma_mul_zero(x);
    }
    assert forall|x: int| 0 <= x < P implies #[trigger] fmul(1, x) == x by {
        lemma_canonical(x);
    }
    assert forall|flag: int, a: int, b: int| (flag == 0 || flag == 1) && 0 <= a < P && 0 <= b < P implies (#[trigger] gate(flag, a, b) == 0) == (flag == 1 ==> a == b) by {
        lemma_gate(flag, a, b);
    }
    lemma_stack_ops_parts(f, local, next);
    assert(all_vanish(pad_spec(f, local, next)));
    assert(all_vanish(clk_spec(f, local, next)));
    assert(all_vanish(swap_spec(f, local, next)));
    assert(all_vanish(movup_spec(f, local, next)));
    assert(all_vanish(movdn_spec(f, local, next)));
    assert(all_vanish(swapw_spec(f, local, next)));
    assert(all_vanish(swapw2_spec(f, local, next)));
    assert(all_vanish(swapw3_spec(f, local, next)));
    assert(all_vanish(swapdw_spec(f, local, next)));
    assert(all_vanish(cswap_spec(f, local, next)));
    assert(all_vanish(cswapw_spec(f, local, next)));
    assert(all_vanish(assert_spec(f, local, next)));
    assert(all_vanish(caller_spec(f, local, next)));
    assert(all_vanish(sdepth_spec(f, local, next)));
    let cs = dup_spec(f, local, next);
    assert(all_vanish(cs) == (gate(1, top(next, 0), top(local, dup_source(k))) == 0));
}

/// The stack operation law on a MOVUP row.
proof fn lemma_stack_ops_movup_row(flags: OpFlags, k: int, h0: int, depth: int, is_loop: int, local: &MainCols<Felt>, next: &MainCols<Felt>)
    requires
        0 <= k < 128,
        flags.computed_from(opcode_bits(k), opcode_extra(k), h0, depth, is_loop),
        is_movup(k),
    ensures
        all_vanish(stack_ops_spec(&flags, local, next)) == stack_op_effect(k, local, next),
{
    let f = &flags;
    lemma_stack_op_flags(flags, k, h0, depth, is_loop);
    assert forall|x: int| #[trigger] fmul(0, x) == 0 by {
        lemma_mul_zero(x);
    }
    assert forall|x: int| 0 <= x < P implies #[trigger] fmul(1, x) == x by {
        lemma_canonical(x);
    }
    assert forall|flag: int, a: int, b: int| (flag == 0 || flag == 1) && 0 <= a < P && 0 <= b < P implies (#[trigger] gate(flag, a, b) == 0) == (flag == 1 ==> a == b) by {
        lemma_gate(flag, a, b);
    }
    lemma_stack_ops_parts(f, local, next);
    assert(all_vanish(pad_spec(f, local, next)));
    assert(all_vanish(dup_spec(f, local, next)));
    assert(all_vanish(clk_spec(f, local, next)));
    assert(all_vanish(swap_spec(f, local, next)));
    assert(all_vanish(movdn_spec(f, local, next)));
    assert(all_vanish(swapw_spec(f, local, next)));
    assert(all_vanish(swapw2_spec(f, local, next)));
    assert(all_vanish(swapw3_spec(f, local, next)));
    assert(all_vanish(swapdw_spec(f, local, next)));
    assert(all_vanish(cswap_spec(f, local, next)));
    assert(all_vanish(cswapw_spec(f, local, next)));
    assert(all_vanish(assert_spec(f, local, next)));
    assert(all_vanish(caller_spec(f, local, next)));
    assert(all_vanish(sdepth_spec(f, local, next)));
    let cs = movup_spec(f, local, next);
    assert(all_vanish(cs) == (gate(1, top(next, 0), top(local, mov_depth(k))) == 0));
}

/// The stack operation law on a MOVDN row.
proof fn lemma_stack_ops_movdn_row(flags: OpFlags, k: int, h0: int, depth: int, is_loop: int, local: &MainCols<Felt>, next: &MainCols<Felt>)
    requires
        0 <= k < 128,
        flags.computed_from(opcode_bits(k), opcode_extra(k), h0, depth, is_loop),
        is_movdn(k),
    ensures
        all_vanish(stack_ops_spec(&flags, local, next)) == stack_op_effect(k, local, next),
{
    let f = &flags;
    lemma_stack_op_flags(flags, k, h0, depth, is_loop);
    assert forall|x: int| #[trigger] fmul(0, x) == 0 by {
        lemma_mul_zero(x);
    }
    assert forall|x: int| 0 <= x < P implies #[trigger] fmul(1, x) == x by {
        lemma_canonical(x);
    }
    assert forall|flag: int, a: int, b: int| (flag == 0 || flag == 1) && 0 <= a < P && 0 <= b < P implies (#[trigger] gate(flag, a, b) == 0) == (flag == 1 ==> a == b) by {
        lemma_gate(flag, a, b);
    }
    lemma_stack_ops_parts(f, local, next);
    assert(all_vanish(pad_spec(f, local, next)));
    assert(all_vanish(dup_spec(f, local, next)));
    assert(all_vanish(clk_spec(f, local, next)));
    assert(all_vanish(swap_spec(f, local, next)));
    assert(all_vanish(movup_spec(f, local, next)));
    assert(all_vanish(swapw_spec(f, local, next)));
    assert(all_vanish(swapw2_spec(f, local, next)));
    assert(all_vanish(swapw3_spec(f, local, next)));
    assert(all_vanish(swapdw_spec(f, local, next)));
    assert(all_vanish(cswap_spec(f, local, next)));
    assert(all_vanish(cswapw_spec(f, local, next)));
    assert(all_vanish(assert_spec(f, local, next)));
    assert(all_vanish(caller_spec(f, local, next)));
    assert(all_vanish(sdepth_spec(f, local, next)));
    let cs = movdn_spec(f, local, next);
    assert(all_vanish(cs) == (gate(1, top(next, mov_depth(k)), top(local, 0)) == 0));
}

/// The stack operation law on a SWAPW, SWAPW2, SWAPW3 or SWAPDW row.
proof fn lemma_stack_ops_word_row(flags: OpFlags, k: int, h0: int, depth: int, is_loop: int, local: &MainCols<Felt>, next: &MainCols<Felt>)
    requires
        0 <= k < 128,
        flags.computed_from(opcode_bits(k), opcode_extra(k), h0, depth, is_loop),
        k == opcodes::SWAPW || k == opcodes::SWAPW2 || k == opcodes::SWAPW3 || k == opcodes::SWAPDW,
    ensures
        all_vanish(stack_ops_spec(&flags, local, next)) == stack_op_effect(k, local, next),
{
    let f = &flags;
    lemma_stack_op_flags(flags, k, h0, depth, is_loop);
    assert forall|x: int| #[trigger] fmul(0, x) == 0 by {
        lemma_mul_zero(x);
    }
    assert forall|x: int| 0 <= x < P implies #[trigger] fmul(1, x) == x by {
        lemma_canonical(x);
    }
    assert forall|flag: int, a: int, b: int| (flag == 0 || flag == 1) && 0 <= a < P && 0 <= b < P implies (#[trigger] gate(flag, a, b) == 0) == (flag == 1 ==> a == b) by {
        lemma_gate(flag, a, b);
    }
    lemma_stack_ops_parts(f, local, next);
    assert(all_vanish(pad_spec(f, local, next)));
    assert(all_vanish(dup_spec(f, local, next)));
    assert(all_vanish(clk_spec(f, local, next)));
    assert(all_vanish(swap_spec(f, local, next)));
    assert(all_vanish(movup_spec(f, local, next)));
    assert(all_vanish(movdn_spec(f, local, next)));
    assert(all_vanish(cswap_spec(f, local, next)));
    assert(all_vanish(cswapw_spec(f, local, next)));
    assert(all_vanish(assert_spec(f, local, next)));
    assert(all_vanish(caller_spec(f, local, next)));
    assert(all_vanish(sdepth_spec(f, local, next)));
    if k == opcodes::SWAPW {
        assert(all_vanish(swapw2_spec(f, local, next)));
        assert(all_vanish(swapw3_spec(f, local, next)));
        assert(all_vanish(swapdw_spec(f, local, next)));
        let cs = swapw_spec(f, local, next);
        assert(all_vanish(cs) == blocks_exchanged(local, next, 4, 4)) by {
            if blocks_exchanged(local, next, 4, 4) {
                assert(top(next, 0) == top(local, 4) && top(next, 1) == top(local, 5) && top(next, 2) == top(local, 6) && top(next, 3) == top(local, 7));
            }
            if all_vanish(cs) {
                assert(cs[0].0 == 0 && cs[1].0 == 0 && cs[2].0 == 0 && cs[3].0 == 0);
                assert(cs[4].0 == 0 && cs[5].0 == 0 && cs[6].0 == 0 && cs[7].0 == 0);
            }
        }
    } else if k == opcodes::SWAPW2 {
        assert(all_vanish(swapw_spec(f, local, next)));
        assert(all_vanish(swapw3_spec(f, local, next)));
        assert(all_vanish(swapdw_spec(f, local, next)));
        let cs = swapw2_spec(f, local, next);
        assert(all_vanish(cs) == blocks_exchanged(local, next, 8, 4)) by {
            if blocks_exchanged(local, next, 8, 4) {
                assert(top(next, 0) == top(local, 8) && top(next, 1) == top(local, 9) && top(next, 2) == top(local, 10) && top(next, 3) == top(local, 11));
            }
            if all_vanish(cs) {
                assert(cs[0].0 == 0 && cs[1].0 == 0 && cs[2].0 == 0 && cs[3].0 == 0);
                assert(cs[4].0 == 0 && cs[5].0 == 0 && cs[6].0 == 0 && cs[7].0 == 0);
            }
        }
    } else if k == opcodes::SWAPW3 {
        assert(all_vanish(swapw_spec(f, local, next)));
        assert(all_vanish(swapw2_spec(f, local, next)));
        assert(all_vanish(swapdw_spec(f, local, next)));
        let cs = swapw3_spec(f, local, next);
        assert(all_vanish(cs) == blocks_exchanged(local, next, 12, 4)) by {
            if blocks_exchanged(local, next, 12, 4) {
                assert(top(next, 0) == top(local, 12) && top(next, 1) == top(local, 13) && top(next, 2) == top(local, 14) && top(next, 3) == top(local, 15));
            }
            if all_vanish(cs) {
                assert(cs[0].0 == 0 && cs[1].0 == 0 && cs[2].0 == 0 && cs[3].0 == 0);
                assert(cs[4].0 == 0 && cs[5].0 == 0 && cs[6].0 == 0 && cs[7].0 == 0);
            }
        }
    } else {
        assert(all_vanish(swapw_spec(f, local, next)));
        assert(all_vanish(swapw2_spec(f, local, next)));
        assert(all_vanish(swapw3_spec(f, local, next)));
        let cs = swapdw_spec(f, local, next);
        assert(all_vanish(cs) == blocks_exchanged(local, next, 8, 8)) by {
            if blocks_exchanged(local, next, 8, 8) {
                assert(top(next, 0) == top(local, 8) && top(next, 1) == top(local, 9) && top(next, 2) == top(local, 10) && top(next, 3) == top(local, 11));
                assert(top(next, 4) == top(local, 12) && top(next, 5) == top(local, 13) && top(next, 6) == top(local, 14) && top(next, 7) == top(local, 15));
            }
            if all_vanish(cs) {
                assert(cs[0].0 == 0 && cs[1].0 == 0 && cs[2].0 == 0 && cs[3].0 == 0);
                assert(cs[4].0 == 0 && cs[5].0 == 0 && cs[6].0 == 0 && cs[7].0 == 0);
                assert(cs[8].0 == 0 && cs[9].0 == 0 && cs[10].0 == 0 && cs[11].0 == 0);
                assert(cs[12].0 == 0 && cs[13].0 == 0 && cs[14].0 == 0 && cs[15].0 == 0);
            }
        }
    }
}

/// The stack operation law on a CSWAP or CSWAPW row.
proof fn lemma_stack_ops_cswap_row(flags: OpFlags, k: int, h0: int, depth: int, is_loop: int, local: &MainCols<Felt>, next: &MainCols<Felt>)
    requires
        0 <= k < 128,
        flags.computed_from(opcode_bits(k), opcode_extra(k), h0, depth, is_loop),
        k == opcodes::CSWAP || k == opcodes::CSWAPW,
    ensures
        all_vanish(stack_ops_spec(&flags, local, next)) == stack_op_effect(k, local, next),
{
    let f = &flags;
    lemma_stack_op_flags(flags, k, h0, depth, is_loop);
    assert forall|x: int| #[trigger] fmul(0, x) == 0 by {
        lemma_mul_zero(x);
    }
    assert forall|x: int| 0 <= x < P implies #[trigger] fmul(1, x) == x by {
        lemma_canonical(x);
    }
    assert forall|flag: int, a: int, b: int| (flag == 0 || flag == 1) && 0 <= a < P && 0 <= b < P implies (#[trigger] gate(flag, a, b) == 0) == (flag == 1 ==> a == b) by {
        lemma_gate(flag, a, b);
    }
    lemma_stack_ops_parts(f, local, next);
    assert(all_vanish(pad_spec(f, local, next)));
    assert(all_vanish(dup_spec(f, local, next)));
    assert(all_vanish(clk_spec(f, local, next)));
    assert(all_vanish(swap_spec(f, local, next)));
    assert(all_vanish(movup_spec(f, local, next)));
    assert(all_vanish(movdn_spec(f, local, next)));
    assert(all_vanish(swapw_spec(f, local, next)));
    assert(all_vanish(swapw2_spec(f, local, next)));
    assert(all_vanish(swapw3_spec(f, local, next)));
    assert(all_vanish(swapdw_spec(f, local, next)));
    assert(all_vanish(assert_spec(f, local, next)));
    assert(all_vanish(caller_spec(f, local, next)));
    assert(all_vanish(sdepth_spec(f, local, next)));
    let c = top(local, 0);
    crate::field::lemma_binary_iff(c);
    crate::field::lemma_fmul_range(c, fsub(c, 1));
    lemma_canonical(fmul(c, fsub(c, 1)));
    if !(c == 0 || c == 1) {
        let cs = if k == opcodes::CSWAP { cswap_spec(f, local, next) } else { cswapw_spec(f, local, next) };
        assert(cs[0].0 != 0);
        lemma_stack_ops_parts(f, local, next);
        assert(!all_vanish(cs));
        assert(!stack_op_effect(k, local, next));
    } else {
    crate::field::lemma_bool_ops(c, c);
    lemma_canonical(1);
    lemma_mul_zero(c);
    assert(fmul(c, fsub(c, 1)) == 0);
    assert forall|x: int, y: int| 0 <= x < P && 0 <= y < P implies #[trigger] cond_select(c, x, y) == (if c == 1 {
        x
    } else {
        y
    }) by {
        lemma_cond_select(c, x, y);
    }
    if k == opcodes::CSWAP {
        assert(all_vanish(cswapw_spec(f, local, next)));
        let cs = cswap_spec(f, local, next);
        assert(all_vanish(cs) == (cs[1].0 == 0 && cs[2].0 == 0));
    } else {
        assert(all_vanish(cswap_spec(f, local, next)));
        let cs = cswapw_spec(f, local, next);
        assert(all_vanish(cs) == stack_op_effect(k, local, next)) by {
            if stack_op_effect(k, local, next) {
                assert(top(next, 0) == (if c == 1 { top(local, 5) } else { top(local, 1) }));
                assert(top(next, 1) == (if c == 1 { top(local, 6) } else { top(local, 2) }));
                assert(top(next, 2) == (if c == 1 { top(local, 7) } else { top(local, 3) }));
                assert(top(next, 3) == (if c == 1 { top(local, 8) } else { top(local, 4) }));
            }
            if all_vanish(cs) {
                assert(cs[1].0 == 0 && cs[2].0 == 0 && cs[3].0 == 0 && cs[4].0 == 0);
                assert(cs[5].0 == 0 && cs[6].0 == 0 && cs[7].0 == 0 && cs[8].0 == 0);
            }
        }
    }
    }
}

/// The stack operation law on a PAD, CLK, SWAP, ASSERT, CALLER or SDEPTH row.
proof fn lemma_stack_ops_single_row(flags: OpFlags, k: int, h0: int, depth: int, is_loop: int, local: &MainCols<Felt>, next: &MainCols<Felt>)
    requires
        0 <= k < 128,
        flags.computed_from(opcode_bits(k), opcode_extra(k), h0, depth, is_loop),
        k == opcodes::PAD || k == opcodes::CLK || k == opcodes::SWAP || k == opcodes::ASSERT || k == opcodes::CALLER || k == opcodes::SDEPTH,
    ensures
        all_vanish(stack_ops_spec(&flags, local, next)) == stack_op_effect(k, local, next),
{
    let f = &flags;
    lemma_stack_op_flags(flags, k, h0, depth, is_loop);
    assert forall|x: int| #[trigger] fmul(0, x) == 0 by {
        lemma_mul_zero(x);
    }
    assert forall|x: int| 0 <= x < P implies #[trigger] fmul(1, x) == x by {
        lemma_canonical(x);
    }
    assert forall|flag: int, a: int, b: int| (flag == 0 || flag == 1) && 0 <= a < P && 0 <= b < P implies (#[trigger] gate(flag, a, b) == 0) == (flag == 1 ==> a == b) by {
        lemma_gate(flag, a, b);
    }
    lemma_stack_ops_parts(f, local, next);
    assert(all_vanish(dup_spec(f, local, next)));
    assert(all_vanish(movup_spec(f, local, next)));
    assert(all_vanish(movdn_spec(f, local, next)));
    assert(all_vanish(swapw_spec(f, local, next)));
    assert(all_vanish(swapw2_spec(f, local, next)));
    assert(all_vanish(swapw3_spec(f, local, next)));
    assert(all_vanish(swapdw_spec(f, local, next)));
    assert(all_vanish(cswap_spec(f, local, next)));
    assert(all_vanish(cswapw_spec(f, local, next)));
    broadcast use crate::field::lemma_fsub_range;

    lemma_canonical(top(next, 0));
    crate::field::lemma_fsub_zero(top(local, 0), 1);
    lemma_canonical(fsub(top(local, 0), 1));
    if k != opcodes::PAD {
        assert(all_vanish(pad_spec(f, local, next)));
    }
    if k != opcodes::CLK {
        assert(all_vanish(clk_spec(f, local, next)));
    }
    if k != opcodes::SWAP {
        assert(all_vanish(swap_spec(f, local, next)));
    }
    if k != opcodes::ASSERT {
        assert(all_vanish(assert_spec(f, local, next)));
    }
    if k != opcodes::CALLER {
        assert(all_vanish(caller_spec(f, local, next)));
    }
    if k != opcodes::SDEPTH {
        assert(all_vanish(sdepth_spec(f, local, next)));
    }
    if k == opcodes::CALLER {
        let cs = caller_spec(f, local, next);
        assert(all_vanish(cs) == stack_op_effect(k, local, next)) by {
            if all_vanish(cs) {
                assert(cs[0].0 == 0 && cs[1].0 == 0 && cs[2].0 == 0 && cs[3].0 == 0);
            }
        }
    } else if k == opcodes::PAD {
        let cs = pad_spec(f, local, next);
        assert(all_vanish(cs) == (cs[0].0 == 0));
    } else if k == opcodes::CLK {
        let cs = clk_spec(f, local, next);
        assert(all_vanish(cs) == (cs[0].0 == 0));
    } else if k == opcodes::SWAP {
        let cs = swap_spec(f, local, next);
        assert(all_vanish(cs) == (cs[0].0 == 0 && cs[1].0 == 0));
    } else if k == opcodes::ASSERT {
        let cs = assert_spec(f, local, next);
        assert(all_vanish(cs) == (cs[0].0 == 0));
    } else {
        let cs = sdepth_spec(f, local, next);
        assert(all_vanish(cs) == (cs[0].0 == 0));
    }
}

/// The stack operation law: on a row whose op bits encode the opcode `k`, the constraints of
/// this module vanish exactly when the operation has its effect on the visible stack items
/// ([`stack_op_effect`]); for the conditional swaps that includes a binary selector.
pub proof fn lemma_stack_ops_effect(flags: OpFlags, k: int, h0: int, depth: int, is_loop: int, local: &MainCols<Felt>, next: &MainCols<Felt>)
    requires
        0 <= k < 128,
        flags.computed_from(opcode_bits(k), opcode_extra(k), h0, depth, is_loop),
    ensures
        all_vanish(stack_ops_spec(&flags, local, next)) == stack_op_effect(k, local, next),
{
    if dup_source(k) >= 0 {
        lemma_stack_ops_dup_row(flags, k, h0, depth, is_loop, local, next);
    } else if is_movup(k) {
        lemma_stack_ops_movup_row(flags, k, h0, depth, is_loop, local, next);
    } else if is_movdn(k) {
        lemma_stack_ops_movdn_row(flags, k, h0, depth, is_loop, local, next);
    } else if k == opcodes::SWAPW || k == opcodes::SWAPW2 || k == opcodes::SWAPW3 || k == opcodes::SWAPDW {
        lemma_stack_ops_word_row(flags, k, h0, depth, is_loop, local, next);
    } else if k == opcodes::CSWAP || k == opcodes::CSWAPW {
        lemma_stack_ops_cswap_row(flags, k, h0, depth, is_loop, local, next);
    } else if k == opcodes::PAD || k == opcodes::CLK || k == opcodes::SWAP || k == opcodes::ASSERT || k
        == opcodes::CALLER || k == opcodes::SDEPTH {
        lemma_stack_ops_single_row(flags, k, h0, depth, is_loop, local, next);
    } else {
        let ops = stack_op_opcodes();
        assert forall|j: int| 0 <= j < ops.len() implies #[trigger] ops[j] != k by {
        }
        lemma_stack_ops_idle(flags, k, h0, depth, is_loop, local, next);
    }
}

} // verus!
