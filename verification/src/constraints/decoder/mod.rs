//! Decoder constraints.
//!
//! The decoder trace is the control-flow spine of the VM: each row is either inside a basic
//! block (`sp = 1`), where operations execute and the counters advance, or a control-flow row
//! (`sp = 0`) that starts, ends or reshapes a block. The constraints check that
//!
//! 1. the opcode is well formed: op bits and degree reduction columns are consistent;
//! 2. the span state is coherent: `sp`, the group count and the op index evolve as control flow
//!    allows;
//! 3. the hasher lanes match the batch: the batch flags and `h0..h7` encode the pending groups.

use vstd::prelude::*;

use crate::constraint_set::{all_vanish, ConstraintSet, RowDomain};
use crate::constraints::op_flags::{op_flag, row_op_bits, row_op_bits_extra, ExprDecoderAccess, OpFlags};
use crate::constraints::utils::felt_values;
use crate::field::{
    fadd, fmul, fsub, lemma_add_sub_cancel, lemma_binary_iff, lemma_bool_ops, lemma_canonical, lemma_fadd_of_mods,
    lemma_fadd_range, lemma_felt_range, lemma_fmul_range, lemma_fmul_zero_iff, lemma_fsub_range, lemma_fsub_zero,
    lemma_mul_zero, lemma_small_values, lemma_step_by, lemma_sub_add_cancel, Felt, P,
};
use crate::opcodes;
use crate::trace::MainCols;

verus! {

broadcast use lemma_felt_range;

/// Number of decoder constraints asserted per row pair.
pub const NUM_CONSTRAINTS: usize = 57;

/// Number of rows of one hasher cycle, by which RESPAN advances the block address.
pub const HASH_CYCLE_LEN: u64 = 32;

// COLUMNS
// ================================================================================================

/// The decoder columns of a row that the constraints read directly (the hasher lanes are read
/// from the row itself).
pub struct DecoderColumns {
    /// Block address (row address in the hasher table).
    pub addr: Felt,
    /// Operation bits `b0..b6`.
    pub op_bits: [Felt; 7],
    /// In-span flag `sp`.
    pub in_span: Felt,
    /// Group count `gc`: the operation groups left in the current span.
    pub group_count: Felt,
    /// Operation index `ox` within the current group.
    pub op_index: Felt,
    /// Batch flags `c0, c1, c2`.
    pub batch_flags: [Felt; 3],
    /// Degree reduction columns `e0, e1`.
    pub extra: [Felt; 2],
}

impl DecoderColumns {
    /// The decoder columns of `row`.
    pub open spec fn of_row(row: &MainCols<Felt>) -> DecoderColumns {
        DecoderColumns {
            addr: row.decoder.addr,
            op_bits: row.decoder.op_bits,
            in_span: row.decoder.in_span,
            group_count: row.decoder.group_count,
            op_index: row.decoder.op_index,
            batch_flags: row.decoder.batch_flags,
            extra: row.decoder.extra,
        }
    }

    /// Extracts the decoder columns of `row`.
    pub fn from_row(row: &MainCols<Felt>) -> (r: DecoderColumns)
        ensures
            r == Self::of_row(row),
    {
        let d = &row.decoder;
        DecoderColumns {
            addr: d.addr,
            op_bits: d.op_bits,
            in_span: d.in_span,
            group_count: d.group_count,
            op_index: d.op_index,
            batch_flags: d.batch_flags,
            extra: d.extra,
        }
    }
}

// SPECIFICATION
// ================================================================================================

/// The opcode value `sum(2^i * bits[i])` of the first `n` op bits, summed from bit 0.
pub open spec fn op_bits_value(bits: Seq<int>, n: int) -> int
    decreases n,
{
    if n <= 0 {
        0
    } else {
        fadd(op_bits_value(bits, n - 1), fmul(bits[n - 1], vstd::arithmetic::power2::pow2((n - 1) as nat) as int))
    }
}

/// `ox * (ox - 1) * ... * (ox - 8)`: 0 exactly when the op index is in `0..=8`.
pub open spec fn op_index_range(ox: int) -> int {
    fmul(fmul(fmul(fmul(fmul(fmul(fmul(fmul(ox, fsub(ox, 1)), fsub(ox, 2)), fsub(ox, 3)), fsub(ox, 4)), fsub(ox, 5)), fsub(ox, 6)), fsub(ox, 7)), fsub(ox, 8))
}

/// Hasher lane `i` of a row.
pub open spec fn lane(row: &MainCols<Felt>, i: int) -> int {
    row.decoder.hasher_state@[i]@
}

/// The in-span flag starts at 0, is binary, and is set after SPAN and RESPAN.
pub open spec fn in_span_spec(c: &DecoderColumns, cn: &DecoderColumns, f: &OpFlags) -> Seq<(int, RowDomain)> {
    let sp = c.in_span@;
    seq![
        (sp, RowDomain::FirstRow),
        (fmul(sp, fsub(sp, 1)), RowDomain::EveryRow),
        (fmul(op_flag(f, opcodes::SPAN), fsub(1, cn.in_span@)), RowDomain::Transition),
        (fmul(op_flag(f, opcodes::RESPAN), fsub(1, cn.in_span@)), RowDomain::Transition),
    ]
}

/// `x * (x - 1)`.
pub open spec fn binary(x: int) -> int {
    fmul(x, fsub(x, 1))
}

/// The op bits are binary.
pub open spec fn op_bits_binary_spec(c: &DecoderColumns) -> Seq<(int, RowDomain)> {
    Seq::new(7, |i: int| (binary(c.op_bits@[i]@), RowDomain::EveryRow))
}

/// The degree reduction columns are `e0 = b6 * (1 - b5) * b4` and `e1 = b6 * b5`.
pub open spec fn extra_columns_spec(c: &DecoderColumns) -> Seq<(int, RowDomain)> {
    let b = |i: int| c.op_bits@[i]@;
    seq![
        (fsub(c.extra@[0]@, fmul(fmul(b(6), fsub(1, b(5))), b(4))), RowDomain::EveryRow),
        (fsub(c.extra@[1]@, fmul(b(6), b(5))), RowDomain::EveryRow),
    ]
}

/// u32 operations (prefix `100`) have `b0 = 0`; the highest operations (prefix `11`) have
/// `b0 = b1 = 0`.
pub open spec fn op_bit_group_spec(c: &DecoderColumns) -> Seq<(int, RowDomain)> {
    let b = |i: int| c.op_bits@[i]@;
    seq![
        (fmul(fmul(fmul(b(6), fsub(1, b(5))), fsub(1, b(4))), b(0)), RowDomain::EveryRow),
        (fmul(fmul(b(6), b(5)), b(0)), RowDomain::EveryRow),
        (fmul(fmul(b(6), b(5)), b(1)), RowDomain::EveryRow),
    ]
}

/// The batch flags are binary.
pub open spec fn batch_flags_binary_spec(c: &DecoderColumns) -> Seq<(int, RowDomain)> {
    Seq::new(3, |i: int| (binary(c.batch_flags@[i]@), RowDomain::EveryRow))
}

/// SPLIT and LOOP conditions are binary, DYN has a zero upper half, REPEAT needs a true
/// condition inside a loop body, END of a loop needs a false condition, END followed by REPEAT
/// keeps `h0..h4`, and HALT is followed by HALT.
pub open spec fn general_spec(local: &MainCols<Felt>, next: &MainCols<Felt>, f: &OpFlags, fnx: &OpFlags) -> Seq<(int, RowDomain)> {
    let s0 = local.stack.top@[0]@;
    let end_repeat = fmul(op_flag(f, opcodes::END), op_flag(fnx, opcodes::REPEAT));
    seq![
        (fmul(fadd(op_flag(f, opcodes::SPLIT), op_flag(f, opcodes::LOOP)), binary(s0)), RowDomain::EveryRow),
        (fmul(op_flag(f, opcodes::DYN), lane(local, 4)), RowDomain::EveryRow),
        (fmul(op_flag(f, opcodes::DYN), lane(local, 5)), RowDomain::EveryRow),
        (fmul(op_flag(f, opcodes::DYN), lane(local, 6)), RowDomain::EveryRow),
        (fmul(op_flag(f, opcodes::DYN), lane(local, 7)), RowDomain::EveryRow),
        (fmul(op_flag(f, opcodes::REPEAT), fsub(1, s0)), RowDomain::EveryRow),
        (fmul(op_flag(f, opcodes::REPEAT), fsub(1, lane(local, 4))), RowDomain::EveryRow),
        (fmul(fmul(op_flag(f, opcodes::END), lane(local, 5)), s0), RowDomain::EveryRow),
        (fmul(end_repeat, fsub(lane(next, 0), lane(local, 0))), RowDomain::Transition),
        (fmul(end_repeat, fsub(lane(next, 1), lane(local, 1))), RowDomain::Transition),
        (fmul(end_repeat, fsub(lane(next, 2), lane(local, 2))), RowDomain::Transition),
        (fmul(end_repeat, fsub(lane(next, 3), lane(local, 3))), RowDomain::Transition),
        (fmul(end_repeat, fsub(lane(next, 4), lane(local, 4))), RowDomain::Transition),
        (fmul(op_flag(f, opcodes::HALT), fsub(1, op_flag(fnx, opcodes::HALT))), RowDomain::Transition),
    ]
}

/// The group count decreases by at most one inside a span, only with an empty `h0` unless the
/// row is a PUSH, by one on SPAN, RESPAN and PUSH, not before END and RESPAN, and is 0 at END.
pub open spec fn group_count_spec(
    c: &DecoderColumns,
    cn: &DecoderColumns,
    local: &MainCols<Felt>,
    f: &OpFlags,
    fnx: &OpFlags,
) -> Seq<(int, RowDomain)> {
    let sp = c.in_span@;
    let dgc = fsub(c.group_count@, cn.group_count@);
    let push = op_flag(f, opcodes::PUSH);
    seq![
        (fmul(fmul(sp, dgc), fsub(dgc, 1)), RowDomain::Transition),
        (fmul(fmul(fmul(sp, dgc), fsub(1, push)), lane(local, 0)), RowDomain::Transition),
        (fmul(fadd(fadd(op_flag(f, opcodes::SPAN), op_flag(f, opcodes::RESPAN)), push), fsub(dgc, 1)), RowDomain::Transition),
        (fmul(dgc, fadd(op_flag(fnx, opcodes::END), op_flag(fnx, opcodes::RESPAN))), RowDomain::Transition),
        (fmul(op_flag(f, opcodes::END), c.group_count@), RowDomain::EveryRow),
    ]
}

/// Each executed operation is shifted out of the pending group `h0` (base `2^7`), which is
/// empty before END and RESPAN.
pub open spec fn op_group_decoding_spec(
    c: &DecoderColumns,
    cn: &DecoderColumns,
    local: &MainCols<Felt>,
    next: &MainCols<Felt>,
    f: &OpFlags,
    fnx: &OpFlags,
) -> Seq<(int, RowDomain)> {
    let sp = c.in_span@;
    let dgc = fsub(c.group_count@, cn.group_count@);
    let f_sgc = fmul(fmul(sp, cn.in_span@), fsub(1, dgc));
    let op_next = op_bits_value(felt_values(cn.op_bits@), 7);
    let h0_shift = fsub(fsub(lane(local, 0), fmul(lane(next, 0), 128)), op_next);
    let shift_flag = fadd(fadd(fadd(op_flag(f, opcodes::SPAN), op_flag(f, opcodes::RESPAN)), op_flag(f, opcodes::PUSH)), f_sgc);
    seq![
        (fmul(shift_flag, h0_shift), RowDomain::Transition),
        (fmul(fmul(sp, fadd(op_flag(fnx, opcodes::END), op_flag(fnx, opcodes::RESPAN))), lane(local, 0)), RowDomain::Transition),
    ]
}

/// The op index restarts at 0 on SPAN, RESPAN and each new group, increments by one inside a
/// group, and stays in `0..=8`.
pub open spec fn op_index_spec(c: &DecoderColumns, cn: &DecoderColumns, f: &OpFlags) -> Seq<(int, RowDomain)> {
    let sp = c.in_span@;
    let ox = c.op_index@;
    let ox_n = cn.op_index@;
    let ng = fsub(fsub(c.group_count@, cn.group_count@), op_flag(f, opcodes::PUSH));
    seq![
        (fmul(fadd(op_flag(f, opcodes::SPAN), op_flag(f, opcodes::RESPAN)), ox_n), RowDomain::Transition),
        (fmul(fmul(sp, ng), ox_n), RowDomain::Transition),
        (fmul(fmul(fmul(sp, cn.in_span@), fsub(1, ng)), fsub(fsub(ox_n, ox), 1)), RowDomain::Transition),
        (op_index_range(ox), RowDomain::EveryRow),
    ]
}

/// The batch of 8 groups: `c0`.
pub open spec fn f_g8(c: &DecoderColumns) -> int {
    c.batch_flags@[0]@
}

/// The batch of 4 groups: `(1 - c0) * c1 * (1 - c2)`.
pub open spec fn f_g4(c: &DecoderColumns) -> int {
    fmul(fmul(fsub(1, c.batch_flags@[0]@), c.batch_flags@[1]@), fsub(1, c.batch_flags@[2]@))
}

/// The batch of 2 groups: `(1 - c0) * (1 - c1) * c2`.
pub open spec fn f_g2(c: &DecoderColumns) -> int {
    fmul(fmul(fsub(1, c.batch_flags@[0]@), fsub(1, c.batch_flags@[1]@)), c.batch_flags@[2]@)
}

/// The batch of 1 group: `(1 - c0) * c1 * c2`.
pub open spec fn f_g1(c: &DecoderColumns) -> int {
    fmul(fmul(fsub(1, c.batch_flags@[0]@), c.batch_flags@[1]@), c.batch_flags@[2]@)
}

/// SPAN and RESPAN set exactly one batch size (1, 2, 4 or 8 groups), other operations none, and
/// the unused lanes of a small batch are 0.
pub open spec fn batch_flags_spec(c: &DecoderColumns, local: &MainCols<Felt>, f: &OpFlags) -> Seq<(int, RowDomain)> {
    let bf = |i: int| c.batch_flags@[i]@;
    let span_or_respan = fadd(op_flag(f, opcodes::SPAN), op_flag(f, opcodes::RESPAN));
    let small = fadd(fadd(f_g1(c), f_g2(c)), f_g4(c));
    let tiny = fadd(f_g1(c), f_g2(c));
    seq![
        (fsub(span_or_respan, fadd(small, f_g8(c))), RowDomain::EveryRow),
        (fmul(fsub(1, span_or_respan), fadd(fadd(bf(0), bf(1)), bf(2))), RowDomain::EveryRow),
        (fmul(small, lane(local, 4)), RowDomain::EveryRow),
        (fmul(small, lane(local, 5)), RowDomain::EveryRow),
        (fmul(small, lane(local, 6)), RowDomain::EveryRow),
        (fmul(small, lane(local, 7)), RowDomain::EveryRow),
        (fmul(tiny, lane(local, 2)), RowDomain::EveryRow),
        (fmul(tiny, lane(local, 3)), RowDomain::EveryRow),
        (fmul(f_g1(c), lane(local, 1)), RowDomain::EveryRow),
    ]
}

/// The block address is unchanged inside a basic block, advances by one hash cycle on RESPAN,
/// and is 0 at HALT.
pub open spec fn block_address_spec(c: &DecoderColumns, cn: &DecoderColumns, f: &OpFlags) -> Seq<(int, RowDomain)> {
    let addr = c.addr@;
    let addr_n = cn.addr@;
    seq![
        (fmul(c.in_span@, fsub(addr_n, addr)), RowDomain::Transition),
        (fmul(op_flag(f, opcodes::RESPAN), fsub(fsub(addr_n, addr), HASH_CYCLE_LEN as int)), RowDomain::Transition),
        (fmul(op_flag(f, opcodes::HALT), addr), RowDomain::EveryRow),
    ]
}

/// Outside a basic block the operation is a control flow operation: `1 - sp - f_ctrl = 0`.
pub open spec fn control_flow_spec(c: &DecoderColumns, f: &OpFlags) -> Seq<(int, RowDomain)> {
    seq![(fsub(fsub(1, c.in_span@), f.control_flow@), RowDomain::EveryRow)]
}

/// All decoder constraints of a row pair; `fnx` are the operation flags of the next row.
pub open spec fn decoder_spec(local: &MainCols<Felt>, next: &MainCols<Felt>, f: &OpFlags, fnx: &OpFlags) -> Seq<(int, RowDomain)> {
    let c = DecoderColumns::of_row(local);
    let cn = DecoderColumns::of_row(next);
    in_span_spec(&c, &cn, f)
        + op_bits_binary_spec(&c)
        + extra_columns_spec(&c)
        + op_bit_group_spec(&c)
        + batch_flags_binary_spec(&c)
        + general_spec(local, next, f, fnx)
        + group_count_spec(&c, &cn, local, f, fnx)
        + op_group_decoding_spec(&c, &cn, local, next, f, fnx)
        + op_index_spec(&c, &cn, f)
        + batch_flags_spec(&c, local, f)
        + block_address_spec(&c, &cn, f)
        + control_flow_spec(&c, f)
}

// CONSTRAINTS
// ================================================================================================

/// Computes the opcode value `b0 + 2 * b1 + ... + 64 * b6` of 7 op bits.
fn op_bits_to_value(bits: &[Felt; 7]) -> (r: Felt)
    ensures
        r@ == op_bits_value(felt_values(bits@), 7),
{
    let ghost bv = felt_values(bits@);
    let mut acc = Felt::zero();
    let mut pow: u64 = 1;
    let mut i: usize = 0;
    proof {
        vstd::arithmetic::power2::lemma2_to64();
    }
    while i < 7
        invariant
            i <= 7,
            bv == felt_values(bits@),
            i < 7 ==> pow == vstd::arithmetic::power2::pow2(i as nat),
            pow <= 64,
            acc@ == op_bits_value(bv, i as int),
        decreases 7 - i,
    {
        proof {
            vstd::arithmetic::power2::lemma_pow2_unfold((i + 1) as nat);
            vstd::arithmetic::power2::lemma2_to64();
        }
        acc = acc.add(bits[i].mul(Felt::new(pow)));
        if i < 6 {
            pow = pow * 2;
        }
        i += 1;
    }
    acc
}

/// Asserts that `expr` vanishes on the first row.
fn assert_zero_first_row(builder: &mut ConstraintSet, expr: Felt)
    ensures
        final(builder).base_view() == old(builder).base_view().push((expr@, RowDomain::FirstRow)),
        final(builder).ext_view() == old(builder).ext_view(),
        final(builder).tags_view() == old(builder).tags_view(),
{
    builder.assert_zero(expr, RowDomain::FirstRow);
}

/// `x * (x - 1)`.
fn binary_expr(x: Felt) -> (r: Felt)
    ensures
        r@ == binary(x@),
{
    x.mul(x.sub(Felt::one()))
}

/// Enforces the in-span constraints: `sp` starts at 0, is binary, and is 1 after SPAN and
/// RESPAN.
fn enforce_in_span_constraints(builder: &mut ConstraintSet, cols: &DecoderColumns, cols_next: &DecoderColumns, op_flags: &OpFlags)
    requires
        op_flags.wf(),
    ensures
        final(builder).base_view() == old(builder).base_view() + in_span_spec(cols, cols_next, op_flags),
        final(builder).ext_view() == old(builder).ext_view(),
        final(builder).tags_view() == old(builder).tags_view(),
{
    let one = Felt::one();
    let sp = cols.in_span;
    let sp_next = cols_next.in_span;
    let ghost start = builder.base_view();
    assert_zero_first_row(builder, sp);
    builder.assert_zero(binary_expr(sp), RowDomain::EveryRow);
    builder.assert_zero(op_flags.span().mul(one.sub(sp_next)), RowDomain::Transition);
    builder.assert_zero(op_flags.respan().mul(one.sub(sp_next)), RowDomain::Transition);
    assert(builder.base_view() =~= start + in_span_spec(cols, cols_next, op_flags));
}

/// Enforces that the op bits are binary.
fn enforce_op_bits_binary(builder: &mut ConstraintSet, cols: &DecoderColumns)
    ensures
        final(builder).base_view() == old(builder).base_view() + op_bits_binary_spec(cols),
        final(builder).ext_view() == old(builder).ext_view(),
        final(builder).tags_view() == old(builder).tags_view(),
{
    let ghost start = builder.base_view();
    let mut i: usize = 0;
    while i < 7
        invariant
            builder.tags_view() == old(builder).tags_view(),
            i <= 7,
            builder.base_view() == start + op_bits_binary_spec(cols).take(i as int),
            builder.ext_view() == old(builder).ext_view(),
        decreases 7 - i,
    {
        builder.assert_zero(binary_expr(cols.op_bits[i]), RowDomain::EveryRow);
        assert(op_bits_binary_spec(cols).take(i + 1) =~= op_bits_binary_spec(cols).take(i as int).push(
            (binary(cols.op_bits@[i as int]@), RowDomain::EveryRow),
        ));
        i += 1;
    }
    assert(op_bits_binary_spec(cols).take(7) =~= op_bits_binary_spec(cols));
}

/// Enforces `e0 = b6 * (1 - b5) * b4` and `e1 = b6 * b5`.
fn enforce_extra_columns(builder: &mut ConstraintSet, cols: &DecoderColumns)
    ensures
        final(builder).base_view() == old(builder).base_view() + extra_columns_spec(cols),
        final(builder).ext_view() == old(builder).ext_view(),
        final(builder).tags_view() == old(builder).tags_view(),
{
    let one = Felt::one();
    let b4 = cols.op_bits[4];
    let b5 = cols.op_bits[5];
    let b6 = cols.op_bits[6];
    let ghost start = builder.base_view();
    builder.assert_zero(cols.extra[0].sub(b6.mul(one.sub(b5)).mul(b4)), RowDomain::EveryRow);
    builder.assert_zero(cols.extra[1].sub(b6.mul(b5)), RowDomain::EveryRow);
    assert(builder.base_view() =~= start + extra_columns_spec(cols));
}

/// Enforces `b0 = 0` for u32 operations and `b0 = b1 = 0` for the highest operations.
fn enforce_op_bit_group_constraints(builder: &mut ConstraintSet, cols: &DecoderColumns)
    ensures
        final(builder).base_view() == old(builder).base_view() + op_bit_group_spec(cols),
        final(builder).ext_view() == old(builder).ext_view(),
        final(builder).tags_view() == old(builder).tags_view(),
{
    let one = Felt::one();
    let b0 = cols.op_bits[0];
    let b1 = cols.op_bits[1];
    let b4 = cols.op_bits[4];
    let b5 = cols.op_bits[5];
    let b6 = cols.op_bits[6];
    let u32_prefix = b6.mul(one.sub(b5)).mul(one.sub(b4));
    let very_high_prefix = b6.mul(b5);
    let ghost start = builder.base_view();
    builder.assert_zero(u32_prefix.mul(b0), RowDomain::EveryRow);
    builder.assert_zero(very_high_prefix.mul(b0), RowDomain::EveryRow);
    builder.assert_zero(very_high_prefix.mul(b1), RowDomain::EveryRow);
    assert(builder.base_view() =~= start + op_bit_group_spec(cols));
}

/// Enforces that the batch flags are binary.
fn enforce_batch_flags_binary(builder: &mut ConstraintSet, cols: &DecoderColumns)
    ensures
        final(builder).base_view() == old(builder).base_view() + batch_flags_binary_spec(cols),
        final(builder).ext_view() == old(builder).ext_view(),
        final(builder).tags_view() == old(builder).tags_view(),
{
    let ghost start = builder.base_view();
    let mut i: usize = 0;
    while i < 3
        invariant
            builder.tags_view() == old(builder).tags_view(),
            i <= 3,
            builder.base_view() == start + batch_flags_binary_spec(cols).take(i as int),
            builder.ext_view() == old(builder).ext_view(),
        decreases 3 - i,
    {
        builder.assert_zero(binary_expr(cols.batch_flags[i]), RowDomain::EveryRow);
        assert(batch_flags_binary_spec(cols).take(i + 1) =~= batch_flags_binary_spec(cols).take(i as int).push(
            (binary(cols.batch_flags@[i as int]@), RowDomain::EveryRow),
        ));
        i += 1;
    }
    assert(batch_flags_binary_spec(cols).take(3) =~= batch_flags_binary_spec(cols));
}

/// Enforces the opcode specific constraints of SPLIT, LOOP, DYN, REPEAT, END and HALT.
fn enforce_general_constraints(
    builder: &mut ConstraintSet,
    local: &MainCols<Felt>,
    next: &MainCols<Felt>,
    op_flags: &OpFlags,
    op_flags_next: &OpFlags,
)
    requires
        op_flags.wf(),
        op_flags_next.wf(),
    ensures
        final(builder).base_view() == old(builder).base_view() + general_spec(local, next, op_flags, op_flags_next),
        final(builder).ext_view() == old(builder).ext_view(),
        final(builder).tags_view() == old(builder).tags_view(),
{
    let one = Felt::one();
    let s0 = local.stack.top[0];
    let h = &local.decoder.hasher_state;
    let h_next = &next.decoder.hasher_state;
    let ghost start = builder.base_view();
    builder.assert_zero(op_flags.split().add(op_flags.loop_op()).mul(binary_expr(s0)), RowDomain::EveryRow);
    let f_dyn = op_flags.dyn_op();
    builder.assert_zero(f_dyn.mul(h[4]), RowDomain::EveryRow);
    builder.assert_zero(f_dyn.mul(h[5]), RowDomain::EveryRow);
    builder.assert_zero(f_dyn.mul(h[6]), RowDomain::EveryRow);
    builder.assert_zero(f_dyn.mul(h[7]), RowDomain::EveryRow);
    let f_repeat = op_flags.repeat();
    builder.assert_zero(f_repeat.mul(one.sub(s0)), RowDomain::EveryRow);
    builder.assert_zero(f_repeat.mul(one.sub(h[4])), RowDomain::EveryRow);
    let f_end = op_flags.end();
    builder.assert_zero(f_end.mul(h[5]).mul(s0), RowDomain::EveryRow);
    let end_repeat = f_end.mul(op_flags_next.repeat());
    builder.assert_zero(end_repeat.mul(h_next[0].sub(h[0])), RowDomain::Transition);
    builder.assert_zero(end_repeat.mul(h_next[1].sub(h[1])), RowDomain::Transition);
    builder.assert_zero(end_repeat.mul(h_next[2].sub(h[2])), RowDomain::Transition);
    builder.assert_zero(end_repeat.mul(h_next[3].sub(h[3])), RowDomain::Transition);
    builder.assert_zero(end_repeat.mul(h_next[4].sub(h[4])), RowDomain::Transition);
    builder.assert_zero(op_flags.halt().mul(one.sub(op_flags_next.halt())), RowDomain::Transition);
    assert(builder.base_view() =~= start + general_spec(local, next, op_flags, op_flags_next));
}

/// Enforces the group count constraints.
fn enforce_group_count_constraints(
    builder: &mut ConstraintSet,
    cols: &DecoderColumns,
    cols_next: &DecoderColumns,
    local: &MainCols<Felt>,
    op_flags: &OpFlags,
    op_flags_next: &OpFlags,
)
    requires
        op_flags.wf(),
        op_flags_next.wf(),
    ensures
        final(builder).base_view() == old(builder).base_view() + group_count_spec(cols, cols_next, local, op_flags, op_flags_next),
        final(builder).ext_view() == old(builder).ext_view(),
        final(builder).tags_view() == old(builder).tags_view(),
{
    let one = Felt::one();
    let sp = cols.in_span;
    let h0 = local.decoder.hasher_state[0];
    let delta_gc = cols.group_count.sub(cols_next.group_count);
    let is_push = op_flags.push();
    let ghost start = builder.base_view();
    builder.assert_zero(sp.mul(delta_gc).mul(delta_gc.sub(one)), RowDomain::Transition);
    builder.assert_zero(sp.mul(delta_gc).mul(one.sub(is_push)).mul(h0), RowDomain::Transition);
    builder.assert_zero(op_flags.span().add(op_flags.respan()).add(is_push).mul(delta_gc.sub(one)), RowDomain::Transition);
    builder.assert_zero(delta_gc.mul(op_flags_next.end().add(op_flags_next.respan())), RowDomain::Transition);
    builder.assert_zero(op_flags.end().mul(cols.group_count), RowDomain::EveryRow);
    assert(builder.base_view() =~= start + group_count_spec(cols, cols_next, local, op_flags, op_flags_next));
}

/// Enforces the op group decoding constraints of the pending group `h0`.
fn enforce_op_group_decoding_constraints(
    builder: &mut ConstraintSet,
    cols: &DecoderColumns,
    cols_next: &DecoderColumns,
    local: &MainCols<Felt>,
    next: &MainCols<Felt>,
    op_flags: &OpFlags,
    op_flags_next: &OpFlags,
)
    requires
        op_flags.wf(),
        op_flags_next.wf(),
    ensures
        final(builder).base_view() == old(builder).base_view() + op_group_decoding_spec(cols, cols_next, local, next, op_flags, op_flags_next),
        final(builder).ext_view() == old(builder).ext_view(),
        final(builder).tags_view() == old(builder).tags_view(),
{
    let one = Felt::one();
    let sp = cols.in_span;
    let delta_gc = cols.group_count.sub(cols_next.group_count);
    let f_sgc = sp.mul(cols_next.in_span).mul(one.sub(delta_gc));
    let h0 = local.decoder.hasher_state[0];
    let h0_next = next.decoder.hasher_state[0];
    let op_next = op_bits_to_value(&cols_next.op_bits);
    let h0_shift = h0.sub(h0_next.mul(Felt::new(128))).sub(op_next);
    let ghost start = builder.base_view();
    builder.assert_zero(
        op_flags.span().add(op_flags.respan()).add(op_flags.push()).add(f_sgc).mul(h0_shift),
        RowDomain::Transition,
    );
    builder.assert_zero(sp.mul(op_flags_next.end().add(op_flags_next.respan())).mul(h0), RowDomain::Transition);
    assert(builder.base_view() =~= start + op_group_decoding_spec(cols, cols_next, local, next, op_flags, op_flags_next));
}

/// Enforces the op index constraints.
fn enforce_op_index_constraints(builder: &mut ConstraintSet, cols: &DecoderColumns, cols_next: &DecoderColumns, op_flags: &OpFlags)
    requires
        op_flags.wf(),
    ensures
        final(builder).base_view() == old(builder).base_view() + op_index_spec(cols, cols_next, op_flags),
        final(builder).ext_view() == old(builder).ext_view(),
        final(builder).tags_view() == old(builder).tags_view(),
{
    let one = Felt::one();
    let sp = cols.in_span;
    let ox = cols.op_index;
    let ox_next = cols_next.op_index;
    let ng = cols.group_count.sub(cols_next.group_count).sub(op_flags.push());
    let range_check = ox.mul(ox.sub(Felt::new(1))).mul(ox.sub(Felt::new(2))).mul(ox.sub(Felt::new(3))).mul(
        ox.sub(Felt::new(4)),
    ).mul(ox.sub(Felt::new(5))).mul(ox.sub(Felt::new(6))).mul(ox.sub(Felt::new(7))).mul(ox.sub(Felt::new(8)));
    let ghost start = builder.base_view();
    builder.assert_zero(op_flags.span().add(op_flags.respan()).mul(ox_next), RowDomain::Transition);
    builder.assert_zero(sp.mul(ng).mul(ox_next), RowDomain::Transition);
    builder.assert_zero(sp.mul(cols_next.in_span).mul(one.sub(ng)).mul(ox_next.sub(ox).sub(one)), RowDomain::Transition);
    builder.assert_zero(range_check, RowDomain::EveryRow);
    assert(builder.base_view() =~= start + op_index_spec(cols, cols_next, op_flags));
}

/// Enforces the batch flag constraints and the zero lanes of small batches.
fn enforce_batch_flags_constraints(builder: &mut ConstraintSet, cols: &DecoderColumns, local: &MainCols<Felt>, op_flags: &OpFlags)
    requires
        op_flags.wf(),
    ensures
        final(builder).base_view() == old(builder).base_view() + batch_flags_spec(cols, local, op_flags),
        final(builder).ext_view() == old(builder).ext_view(),
        final(builder).tags_view() == old(builder).tags_view(),
{
    let one = Felt::one();
    let bc0 = cols.batch_flags[0];
    let bc1 = cols.batch_flags[1];
    let bc2 = cols.batch_flags[2];
    let f_g8 = bc0;
    let f_g4 = one.sub(bc0).mul(bc1).mul(one.sub(bc2));
    let f_g2 = one.sub(bc0).mul(one.sub(bc1)).mul(bc2);
    let f_g1 = one.sub(bc0).mul(bc1).mul(bc2);
    let span_or_respan = op_flags.span().add(op_flags.respan());
    let h = &local.decoder.hasher_state;
    let ghost start = builder.base_view();
    builder.assert_zero(span_or_respan.sub(f_g1.add(f_g2).add(f_g4).add(f_g8)), RowDomain::EveryRow);
    builder.assert_zero(one.sub(span_or_respan).mul(bc0.add(bc1).add(bc2)), RowDomain::EveryRow);
    let small_batch = f_g1.add(f_g2).add(f_g4);
    builder.assert_zero(small_batch.mul(h[4]), RowDomain::EveryRow);
    builder.assert_zero(small_batch.mul(h[5]), RowDomain::EveryRow);
    builder.assert_zero(small_batch.mul(h[6]), RowDomain::EveryRow);
    builder.assert_zero(small_batch.mul(h[7]), RowDomain::EveryRow);
    let tiny_batch = f_g1.add(f_g2);
    builder.assert_zero(tiny_batch.mul(h[2]), RowDomain::EveryRow);
    builder.assert_zero(tiny_batch.mul(h[3]), RowDomain::EveryRow);
    builder.assert_zero(f_g1.mul(h[1]), RowDomain::EveryRow);
    assert(builder.base_view() =~= start + batch_flags_spec(cols, local, op_flags));
}

/// Enforces the block address constraints.
fn enforce_block_address_constraints(builder: &mut ConstraintSet, cols: &DecoderColumns, cols_next: &DecoderColumns, op_flags: &OpFlags)
    requires
        op_flags.wf(),
    ensures
        final(builder).base_view() == old(builder).base_view() + block_address_spec(cols, cols_next, op_flags),
        final(builder).ext_view() == old(builder).ext_view(),
        final(builder).tags_view() == old(builder).tags_view(),
{
    let addr = cols.addr;
    let addr_next = cols_next.addr;
    let ghost start = builder.base_view();
    builder.assert_zero(cols.in_span.mul(addr_next.sub(addr)), RowDomain::Transition);
    builder.assert_zero(op_flags.respan().mul(addr_next.sub(addr).sub(Felt::new(HASH_CYCLE_LEN))), RowDomain::Transition);
    builder.assert_zero(op_flags.halt().mul(addr), RowDomain::EveryRow);
    assert(builder.base_view() =~= start + block_address_spec(cols, cols_next, op_flags));
}

/// Enforces `1 - sp - f_ctrl = 0`: outside a basic block only control flow operations execute.
fn enforce_control_flow_constraints(builder: &mut ConstraintSet, cols: &DecoderColumns, op_flags: &OpFlags)
    ensures
        final(builder).base_view() == old(builder).base_view() + control_flow_spec(cols, op_flags),
        final(builder).ext_view() == old(builder).ext_view(),
        final(builder).tags_view() == old(builder).tags_view(),
{
    let ghost start = builder.base_view();
    builder.assert_zero(Felt::one().sub(cols.in_span).sub(op_flags.control_flow()), RowDomain::EveryRow);
    assert(builder.base_view() =~= start + control_flow_spec(cols, op_flags));
}

/// Enforces the decoder constraints of a row pair; the operation flags of the next row are
/// computed from its op bits. Exactly [`NUM_CONSTRAINTS`] constraints are asserted.
#[verifier::rlimit(30)]
pub fn enforce_main(builder: &mut ConstraintSet, local: &MainCols<Felt>, next: &MainCols<Felt>, op_flags: &OpFlags)
    requires
        op_flags.wf(),
    ensures
        exists|fnx: OpFlags|
            fnx.computed_from(
                row_op_bits(next),
                row_op_bits_extra(next),
                next.stack.h0@,
                next.stack.b0@,
                next.decoder.hasher_state@[5]@,
            ) && final(builder).base_view() == old(builder).base_view() + decoder_spec(local, next, op_flags, &fnx),
        final(builder).base_view().len() == old(builder).base_view().len() + NUM_CONSTRAINTS,
        final(builder).ext_view() == old(builder).ext_view(),
        final(builder).tags_view() == old(builder).tags_view(),
{
    let cols = DecoderColumns::from_row(local);
    let cols_next = DecoderColumns::from_row(next);
    let op_flags_next = OpFlags::new(ExprDecoderAccess::new(next));
    let ghost start = builder.base_view();
    enforce_in_span_constraints(builder, &cols, &cols_next, op_flags);
    enforce_op_bits_binary(builder, &cols);
    enforce_extra_columns(builder, &cols);
    enforce_op_bit_group_constraints(builder, &cols);
    enforce_batch_flags_binary(builder, &cols);
    enforce_general_constraints(builder, local, next, op_flags, &op_flags_next);
    enforce_group_count_constraints(builder, &cols, &cols_next, local, op_flags, &op_flags_next);
    enforce_op_group_decoding_constraints(builder, &cols, &cols_next, local, next, op_flags, &op_flags_next);
    enforce_op_index_constraints(builder, &cols, &cols_next, op_flags);
    enforce_batch_flags_constraints(builder, &cols, local, op_flags);
    enforce_block_address_constraints(builder, &cols, &cols_next, op_flags);
    enforce_control_flow_constraints(builder, &cols, op_flags);
    assert(builder.base_view() =~= start + decoder_spec(local, next, op_flags, &op_flags_next));
}


/// The integer `b0 + 2 b1 + 4 b2 + ... + 64 b6` of seven op bits.
pub open spec fn opcode_of_bits(b: Seq<int>) -> int {
    b[0] + 2 * b[1] + 4 * b[2] + 8 * b[3] + 16 * b[4] + 32 * b[5] + 64 * b[6]
}

/// On binary op bits, the field value of the bits is the opcode they encode.
pub proof fn lemma_op_bits_value_binary(b: Seq<int>)
    requires
        b.len() == 7,
        forall|i: int| 0 <= i < 7 ==> (#[trigger] b[i] == 0 || b[i] == 1),
    ensures
        op_bits_value(b, 7) == opcode_of_bits(b),
{
    vstd::arithmetic::power2::lemma2_to64();
    assert(b[0] == 0 || b[0] == 1);
    assert(b[1] == 0 || b[1] == 1);
    assert(b[2] == 0 || b[2] == 1);
    assert(b[3] == 0 || b[3] == 1);
    assert(b[4] == 0 || b[4] == 1);
    assert(b[5] == 0 || b[5] == 1);
    assert(b[6] == 0 || b[6] == 1);
    assert forall|x: int, y: int| 0 <= x <= 128 && 0 <= y <= 128 implies #[trigger] fmul(x, y) == x * y by {
        lemma_small_values(x, y);
    }
    assert forall|x: int, y: int| 0 <= x <= 128 && 0 <= y <= 128 implies #[trigger] fadd(x, y) == x + y by {
        lemma_small_values(x, y);
    }
    assert(op_bits_value(b, 0) == 0);
    assert(op_bits_value(b, 1) == b[0]);
    assert(op_bits_value(b, 2) == b[0] + 2 * b[1]);
    assert(op_bits_value(b, 3) == b[0] + 2 * b[1] + 4 * b[2]);
    assert(op_bits_value(b, 4) == b[0] + 2 * b[1] + 4 * b[2] + 8 * b[3]);
    assert(op_bits_value(b, 5) == b[0] + 2 * b[1] + 4 * b[2] + 8 * b[3] + 16 * b[4]);
    assert(op_bits_value(b, 6) == b[0] + 2 * b[1] + 4 * b[2] + 8 * b[3] + 16 * b[4] + 32 * b[5]);
}

/// The op group decoding law: on a row with `f_span + f_respan + f_push + f_sgc = 1` and binary
/// op bits on the next row, the decoding constraint vanishes exactly when the pending group
/// `h0` is `128 * h0' + op'`, `op'` the opcode executed on the next row.
pub proof fn lemma_op_group_decoding(
    c: &DecoderColumns,
    cn: &DecoderColumns,
    local: &MainCols<Felt>,
    next: &MainCols<Felt>,
    f: &OpFlags,
    fnx: &OpFlags,
)
    requires
        fadd(
            fadd(fadd(op_flag(f, opcodes::SPAN), op_flag(f, opcodes::RESPAN)), op_flag(f, opcodes::PUSH)),
            fmul(fmul(c.in_span@, cn.in_span@), fsub(1, fsub(c.group_count@, cn.group_count@))),
        ) == 1,
        forall|i: int| 0 <= i < 7 ==> (#[trigger] cn.op_bits@[i]@ == 0 || cn.op_bits@[i]@ == 1),
    ensures
        (op_group_decoding_spec(c, cn, local, next, f, fnx)[0].0 == 0) == (lane(local, 0) == fadd(
            fmul(lane(next, 0), 128),
            opcode_of_bits(felt_values(cn.op_bits@)),
        )),
{
    broadcast use lemma_fadd_range, lemma_fmul_range, lemma_fsub_range;

    let bits = felt_values(cn.op_bits@);
    assert forall|i: int| 0 <= i < 7 implies (#[trigger] bits[i] == 0 || bits[i] == 1) by {
        assert(bits[i] == cn.op_bits@[i]@);
    }
    lemma_op_bits_value_binary(bits);
    let op = opcode_of_bits(bits);
    let h0 = lane(local, 0);
    let x = fmul(lane(next, 0), 128);
    let inner = fsub(fsub(h0, x), op);
    lemma_canonical(inner);
    lemma_fsub_zero(fsub(h0, x), op);
    lemma_sub_add_cancel(h0, x);
    lemma_add_sub_cancel(op, x);
    lemma_fadd_of_mods(op, x);
    lemma_fadd_of_mods(x, op);
}

/// The span flag law: `sp` is 0 on the first row and binary on every row, and after SPAN or
/// RESPAN the next row is inside a span.
pub proof fn lemma_in_span(c: &DecoderColumns, cn: &DecoderColumns, f: &OpFlags)
    ensures
        ({
            let k = in_span_spec(c, cn, f);
            let sp = c.in_span@;
            &&& (k[0].0 == 0) == (sp == 0)
            &&& (k[1].0 == 0) == (sp == 0 || sp == 1)
            &&& op_flag(f, opcodes::SPAN) == 1 ==> ((k[2].0 == 0) == (cn.in_span@ == 1))
            &&& op_flag(f, opcodes::RESPAN) == 1 ==> ((k[3].0 == 0) == (cn.in_span@ == 1))
        }),
{
    broadcast use lemma_fsub_range;

    lemma_binary_iff(c.in_span@);
    lemma_canonical(fsub(1, cn.in_span@));
    lemma_fsub_zero(1, cn.in_span@);
}

/// The block address law: inside a span the address is kept, RESPAN advances it by one hash
/// cycle (32 rows), and HALT has address 0.
pub proof fn lemma_block_address(c: &DecoderColumns, cn: &DecoderColumns, f: &OpFlags)
    ensures
        ({
            let k = block_address_spec(c, cn, f);
            let a = c.addr@;
            let an = cn.addr@;
            &&& c.in_span@ == 1 ==> ((k[0].0 == 0) == (an == a))
            &&& op_flag(f, opcodes::RESPAN) == 1 ==> ((k[1].0 == 0) == (an == (a + 32) % (P as int)))
            &&& op_flag(f, opcodes::HALT) == 1 ==> ((k[2].0 == 0) == (a == 0))
        }),
{
    broadcast use lemma_fsub_range;

    let a = c.addr@;
    let an = cn.addr@;
    lemma_canonical(fsub(an, a));
    lemma_fsub_zero(an, a);
    lemma_canonical(fsub(fsub(an, a), 32));
    lemma_step_by(an, a, 32);
    lemma_canonical(a);
}

/// The op index law: it is 0 after SPAN and RESPAN, grows by one from one operation to the next
/// of the same group, and is always in `0..=8`.
pub proof fn lemma_op_index(c: &DecoderColumns, cn: &DecoderColumns, f: &OpFlags)
    ensures
        ({
            let k = op_index_spec(c, cn, f);
            let ox = c.op_index@;
            let ox_n = cn.op_index@;
            let ng = fsub(fsub(c.group_count@, cn.group_count@), op_flag(f, opcodes::PUSH));
            &&& fadd(op_flag(f, opcodes::SPAN), op_flag(f, opcodes::RESPAN)) == 1 ==> ((k[0].0 == 0) == (ox_n == 0))
            &&& (c.in_span@ == 1 && cn.in_span@ == 1 && ng == 0) ==> ((k[2].0 == 0) == (ox_n == (ox + 1) % (P as int)))
            &&& (k[3].0 == 0) == (0 <= ox <= 8)
        }),
{
    broadcast use lemma_fsub_range, lemma_fmul_range, lemma_fadd_range;

    let ox = c.op_index@;
    let ox_n = cn.op_index@;
    lemma_canonical(ox_n);
    lemma_canonical(fsub(fsub(ox_n, ox), 1));
    lemma_canonical(1);
    lemma_step_by(ox_n, ox, 1);
    lemma_op_index_range(ox);
}

/// `ox (ox - 1) ... (ox - 8)` vanishes exactly on `0..=8`.
proof fn lemma_op_index_range(ox: int)
    requires
        0 <= ox < P,
    ensures
        (op_index_range(ox) == 0) == (0 <= ox <= 8),
{
    broadcast use lemma_fsub_range, lemma_fmul_range;

    let d = |j: int| fsub(ox, j);
    lemma_fsub_zero(ox, 1);
    lemma_fsub_zero(ox, 2);
    lemma_fsub_zero(ox, 3);
    lemma_fsub_zero(ox, 4);
    lemma_fsub_zero(ox, 5);
    lemma_fsub_zero(ox, 6);
    lemma_fsub_zero(ox, 7);
    lemma_fsub_zero(ox, 8);
    let p1 = fmul(ox, d(1));
    let p2 = fmul(p1, d(2));
    let p3 = fmul(p2, d(3));
    let p4 = fmul(p3, d(4));
    let p5 = fmul(p4, d(5));
    let p6 = fmul(p5, d(6));
    let p7 = fmul(p6, d(7));
    lemma_fmul_zero_iff(ox, d(1));
    lemma_fmul_zero_iff(p1, d(2));
    lemma_fmul_zero_iff(p2, d(3));
    lemma_fmul_zero_iff(p3, d(4));
    lemma_fmul_zero_iff(p4, d(5));
    lemma_fmul_zero_iff(p5, d(6));
    lemma_fmul_zero_iff(p6, d(7));
    lemma_fmul_zero_iff(p7, d(8));
}

/// The group count law: inside a span the count drops by 0 or 1 per row, SPAN, RESPAN and PUSH
/// drop it by exactly one, and it is 0 at END.
pub proof fn lemma_group_count(c: &DecoderColumns, cn: &DecoderColumns, local: &MainCols<Felt>, f: &OpFlags, fnx: &OpFlags)
    ensures
        ({
            let k = group_count_spec(c, cn, local, f, fnx);
            let gc = c.group_count@;
            let gc_n = cn.group_count@;
            let p = P as int;
            &&& c.in_span@ == 1 ==> ((k[0].0 == 0) == (gc_n == gc || gc == (gc_n + 1) % p))
            &&& fadd(fadd(op_flag(f, opcodes::SPAN), op_flag(f, opcodes::RESPAN)), op_flag(f, opcodes::PUSH)) == 1
                ==> ((k[2].0 == 0) == (gc == (gc_n + 1) % p))
            &&& op_flag(f, opcodes::END) == 1 ==> ((k[4].0 == 0) == (gc == 0))
        }),
{
    broadcast use lemma_fsub_range, lemma_fmul_range;

    let gc = c.group_count@;
    let gc_n = cn.group_count@;
    let dgc = fsub(gc, gc_n);
    lemma_canonical(dgc);
    lemma_fmul_zero_iff(dgc, fsub(dgc, 1));
    lemma_fsub_zero(gc, gc_n);
    lemma_fsub_zero(dgc, 1);
    lemma_step_by(gc, gc_n, 1);
    lemma_canonical(fsub(dgc, 1));
    lemma_canonical(gc);
}

/// Outside a span (`sp = 0`) the row must be a control flow operation, inside one (`sp = 1`) it
/// must not.
pub proof fn lemma_control_flow_rows(c: &DecoderColumns, f: &OpFlags)
    requires
        c.in_span@ == 0 || c.in_span@ == 1,
    ensures
        (control_flow_spec(c, f)[0].0 == 0) == (f.control_flow@ == 1 - c.in_span@),
{
    broadcast use lemma_fsub_range;

    lemma_bool_ops(c.in_span@, 0);
    lemma_fsub_zero(fsub(1, c.in_span@), f.control_flow@);
}

/// The general decoder law: SPLIT and LOOP read a binary condition, DYN has a zero upper half in
/// `h4..h7`, REPEAT needs `s0 = 1` and `h4 = 1`, END of a loop body needs `s0 = 0`, END followed by
/// REPEAT keeps `h0..h4`, and HALT is followed by HALT.
pub proof fn lemma_general(local: &MainCols<Felt>, next: &MainCols<Felt>, f: &OpFlags, fnx: &OpFlags)
    ensures
        ({
            let k = general_spec(local, next, f, fnx);
            let s0 = local.stack.top@[0]@;
            &&& fadd(op_flag(f, opcodes::SPLIT), op_flag(f, opcodes::LOOP)) == 1 ==> ((k[0].0 == 0) == (s0 == 0 || s0 == 1))
            &&& op_flag(f, opcodes::DYN) == 1 ==> ((k[1].0 == 0 && k[2].0 == 0 && k[3].0 == 0 && k[4].0 == 0)
                == (lane(local, 4) == 0 && lane(local, 5) == 0 && lane(local, 6) == 0 && lane(local, 7) == 0))
            &&& op_flag(f, opcodes::REPEAT) == 1 ==> ((k[5].0 == 0 && k[6].0 == 0) == (s0 == 1 && lane(local, 4) == 1))
            &&& op_flag(f, opcodes::END) == 1 ==> ((k[7].0 == 0) == (lane(local, 5) == 0 || s0 == 0))
            &&& (op_flag(f, opcodes::END) == 1 && op_flag(fnx, opcodes::REPEAT) == 1) ==> ((k[8].0 == 0 && k[9].0 == 0
                && k[10].0 == 0 && k[11].0 == 0 && k[12].0 == 0) == (forall|i: int| 0 <= i < 5 ==> #[trigger] lane(next, i) == lane(local, i)))
            &&& (op_flag(f, opcodes::HALT) == 1 && 0 <= op_flag(fnx, opcodes::HALT) < P) ==> ((k[13].0 == 0) == (op_flag(fnx, opcodes::HALT) == 1))
        }),
{
    broadcast use lemma_fsub_range, lemma_fmul_range;

    let s0 = local.stack.top@[0]@;
    lemma_canonical(binary(s0));
    lemma_binary_iff(s0);
    lemma_canonical(lane(local, 4));
    lemma_canonical(lane(local, 5));
    lemma_canonical(lane(local, 6));
    lemma_canonical(lane(local, 7));
    lemma_canonical(fsub(1, s0));
    lemma_fsub_zero(1, s0);
    lemma_canonical(fsub(1, lane(local, 4)));
    lemma_fsub_zero(1, lane(local, 4));
    lemma_canonical(fmul(lane(local, 5), s0));
    lemma_fmul_zero_iff(lane(local, 5), s0);
    lemma_canonical(1);
    assert forall|i: int| 0 <= i < 5 implies ((fmul(1, fsub(lane(next, i), lane(local, i))) == 0) == (lane(next, i)
        == lane(local, i))) by {
        lemma_canonical(fsub(lane(next, i), lane(local, i)));
        lemma_fsub_zero(lane(next, i), lane(local, i));
    }
    if op_flag(f, opcodes::END) == 1 && op_flag(fnx, opcodes::REPEAT) == 1 {
        let k = general_spec(local, next, f, fnx);
        if k[8].0 == 0 && k[9].0 == 0 && k[10].0 == 0 && k[11].0 == 0 && k[12].0 == 0 {
            assert forall|i: int| 0 <= i < 5 implies #[trigger] lane(next, i) == lane(local, i) by {
                assert(fmul(1, fsub(lane(next, i), lane(local, i))) == 0) by {
                    if i == 0 {} else if i == 1 {} else if i == 2 {} else if i == 3 {} else {}
                }
            }
        } else {
            assert(lane(next, 0) != lane(local, 0) || lane(next, 1) != lane(local, 1) || lane(next, 2) != lane(local, 2)
                || lane(next, 3) != lane(local, 3) || lane(next, 4) != lane(local, 4));
        }
    }
    if 0 <= op_flag(fnx, opcodes::HALT) < P {
        lemma_canonical(fsub(1, op_flag(fnx, opcodes::HALT)));
        lemma_fsub_zero(1, op_flag(fnx, opcodes::HALT));
    }
}

/// On binary op bits the degree reduction columns must be `e0 = b6 (1 - b5) b4` and
/// `e1 = b6 b5` as booleans.
pub proof fn lemma_extra_columns(c: &DecoderColumns)
    requires
        forall|i: int| 0 <= i < 7 ==> (#[trigger] c.op_bits@[i]@ == 0 || c.op_bits@[i]@ == 1),
    ensures
        ({
            let k = extra_columns_spec(c);
            let b = |i: int| c.op_bits@[i]@;
            &&& (k[0].0 == 0) == (c.extra@[0]@ == (if b(6) == 1 && b(5) == 0 && b(4) == 1 { 1int } else { 0int }))
            &&& (k[1].0 == 0) == (c.extra@[1]@ == (if b(6) == 1 && b(5) == 1 { 1int } else { 0int }))
        }),
{
    let b = |i: int| c.op_bits@[i]@;
    assert(b(4) == 0 || b(4) == 1);
    assert(b(5) == 0 || b(5) == 1);
    assert(b(6) == 0 || b(6) == 1);
    lemma_bool_ops(b(5), b(5));
    lemma_bool_ops(b(6), fsub(1, b(5)));
    lemma_bool_ops(fmul(b(6), fsub(1, b(5))), b(4));
    lemma_bool_ops(b(6), b(5));
    lemma_fsub_zero(c.extra@[0]@, fmul(fmul(b(6), fsub(1, b(5))), b(4)));
    lemma_fsub_zero(c.extra@[1]@, fmul(b(6), b(5)));
}

/// On binary op bits, the u32 operations (prefix `100`) have `b0 = 0` and the highest operations
/// (prefix `11`) have `b0 = b1 = 0`.
pub proof fn lemma_op_bit_groups(c: &DecoderColumns)
    requires
        forall|i: int| 0 <= i < 7 ==> (#[trigger] c.op_bits@[i]@ == 0 || c.op_bits@[i]@ == 1),
    ensures
        ({
            let k = op_bit_group_spec(c);
            let b = |i: int| c.op_bits@[i]@;
            &&& (k[0].0 == 0) == !(b(6) == 1 && b(5) == 0 && b(4) == 0 && b(0) == 1)
            &&& (k[1].0 == 0 && k[2].0 == 0) == !(b(6) == 1 && b(5) == 1 && (b(0) == 1 || b(1) == 1))
        }),
{
    let b = |i: int| c.op_bits@[i]@;
    assert(b(0) == 0 || b(0) == 1);
    assert(b(1) == 0 || b(1) == 1);
    assert(b(4) == 0 || b(4) == 1);
    assert(b(5) == 0 || b(5) == 1);
    assert(b(6) == 0 || b(6) == 1);
    lemma_bool_ops(b(5), b(4));
    lemma_bool_ops(b(4), b(4));
    lemma_bool_ops(b(6), fsub(1, b(5)));
    lemma_bool_ops(fmul(b(6), fsub(1, b(5))), fsub(1, b(4)));
    lemma_bool_ops(fmul(fmul(b(6), fsub(1, b(5))), fsub(1, b(4))), b(0));
    lemma_bool_ops(b(6), b(5));
    lemma_bool_ops(fmul(b(6), b(5)), b(0));
    lemma_bool_ops(fmul(b(6), b(5)), b(1));
}

/// The batch flags law, on binary batch flags `c0, c1, c2`: SPAN and RESPAN select exactly one
/// batch size (8 groups: `c0`; 4: `!c0 c1 !c2`; 2: `!c0 !c1 c2`; 1: `!c0 c1 c2`) and the lanes a
/// smaller batch leaves unused are 0 (`h4..h7` below 8 groups, `h2, h3` below 4, `h1` for 1);
/// every other operation has all batch flags 0.
pub proof fn lemma_batch_flags(c: &DecoderColumns, local: &MainCols<Felt>, f: &OpFlags)
    requires
        forall|i: int| 0 <= i < 3 ==> (#[trigger] c.batch_flags@[i]@ == 0 || c.batch_flags@[i]@ == 1),
        fadd(op_flag(f, opcodes::SPAN), op_flag(f, opcodes::RESPAN)) == 0 || fadd(op_flag(f, opcodes::SPAN), op_flag(f, opcodes::RESPAN)) == 1,
    ensures
        all_vanish(batch_flags_spec(c, local, f)) == ({
            let c0 = c.batch_flags@[0]@;
            let c1 = c.batch_flags@[1]@;
            let c2 = c.batch_flags@[2]@;
            if fadd(op_flag(f, opcodes::SPAN), op_flag(f, opcodes::RESPAN)) == 1 {
                &&& (c0 == 1 || c1 == 1 || c2 == 1)
                &&& (c0 == 0 && (c1 == 1 || c2 == 1)) ==> (lane(local, 4) == 0 && lane(local, 5) == 0 && lane(local, 6) == 0
                    && lane(local, 7) == 0)
                &&& (c0 == 0 && c2 == 1) ==> (lane(local, 2) == 0 && lane(local, 3) == 0)
                &&& (c0 == 0 && c1 == 1 && c2 == 1) ==> lane(local, 1) == 0
            } else {
                c0 == 0 && c1 == 0 && c2 == 0
            }
        }),
{
    broadcast use lemma_fadd_range, lemma_fmul_range, lemma_fsub_range;

    let k = batch_flags_spec(c, local, f);
    let c0 = c.batch_flags@[0]@;
    let c1 = c.batch_flags@[1]@;
    let c2 = c.batch_flags@[2]@;
    let sr = fadd(op_flag(f, opcodes::SPAN), op_flag(f, opcodes::RESPAN));
    assert(c0 == 0 || c0 == 1);
    assert(c1 == 0 || c1 == 1);
    assert(c2 == 0 || c2 == 1);
    lemma_bool_ops(c0, c1);
    lemma_bool_ops(c1, c2);
    lemma_bool_ops(c2, c0);
    lemma_bool_ops(fsub(1, c0), c1);
    lemma_bool_ops(fmul(fsub(1, c0), c1), fsub(1, c2));
    lemma_bool_ops(fsub(1, c0), fsub(1, c1));
    lemma_bool_ops(fmul(fsub(1, c0), fsub(1, c1)), c2);
    lemma_bool_ops(fmul(fsub(1, c0), c1), c2);
    assert forall|x: int, y: int| 0 <= x <= 4 && 0 <= y <= 4 implies #[trigger] fadd(x, y) == x + y by {
        lemma_small_values(x, y);
    }
    assert forall|x: int| 0 <= x < P implies #[trigger] fmul(1, x) == x by {
        lemma_canonical(x);
    }
    assert forall|x: int| #[trigger] fmul(0, x) == 0 by {
        lemma_mul_zero(x);
    }
    assert forall|x: int, y: int| 0 <= x < P && 0 <= y < P implies (#[trigger] fsub(x, y) == 0) == (x == y) by {
        lemma_fsub_zero(x, y);
    }
    lemma_canonical(1);
    lemma_canonical(0);
    lemma_small_values(1, 1);
    lemma_small_values(1, 0);
    assert(all_vanish(k) == (k[0].0 == 0 && k[1].0 == 0 && k[2].0 == 0 && k[3].0 == 0 && k[4].0 == 0 && k[5].0 == 0
        && k[6].0 == 0 && k[7].0 == 0 && k[8].0 == 0));
}

/// The op bits and the batch flags are binary.
pub proof fn lemma_binary_columns(c: &DecoderColumns)
    ensures
        all_vanish(op_bits_binary_spec(c)) == (forall|i: int| 0 <= i < 7 ==> (#[trigger] c.op_bits@[i]@ == 0 || c.op_bits@[i]@ == 1)),
        all_vanish(batch_flags_binary_spec(c)) == (forall|i: int| 0 <= i < 3 ==> (#[trigger] c.batch_flags@[i]@ == 0
            || c.batch_flags@[i]@ == 1)),
{
    let k = op_bits_binary_spec(c);
    assert forall|i: int| 0 <= i < 7 implies (#[trigger] k[i]).0 == binary(c.op_bits@[i]@) && (binary(c.op_bits@[i]@) == 0)
        == (c.op_bits@[i]@ == 0 || c.op_bits@[i]@ == 1) by {
        lemma_binary_iff(c.op_bits@[i]@);
    }
    if all_vanish(k) {
        assert forall|i: int| 0 <= i < 7 implies (#[trigger] c.op_bits@[i]@ == 0 || c.op_bits@[i]@ == 1) by {
            assert(k[i].0 == 0);
        }
    }
    let kb = batch_flags_binary_spec(c);
    assert forall|i: int| 0 <= i < 3 implies (#[trigger] kb[i]).0 == binary(c.batch_flags@[i]@) && (binary(c.batch_flags@[i]@)
        == 0) == (c.batch_flags@[i]@ == 0 || c.batch_flags@[i]@ == 1) by {
        lemma_binary_iff(c.batch_flags@[i]@);
    }
    if all_vanish(kb) {
        assert forall|i: int| 0 <= i < 3 implies (#[trigger] c.batch_flags@[i]@ == 0 || c.batch_flags@[i]@ == 1) by {
            assert(kb[i].0 == 0);
        }
    }
}

/// Before END and RESPAN (next row), inside a span, the pending group `h0` is empty and the
/// group count is not decremented.
pub proof fn lemma_span_end(c: &DecoderColumns, cn: &DecoderColumns, local: &MainCols<Felt>, next: &MainCols<Felt>, f: &OpFlags, fnx: &OpFlags)
    requires
        fadd(op_flag(fnx, opcodes::END), op_flag(fnx, opcodes::RESPAN)) == 1,
    ensures
        c.in_span@ == 1 ==> ((op_group_decoding_spec(c, cn, local, next, f, fnx)[1].0 == 0) == (lane(local, 0) == 0)),
        (group_count_spec(c, cn, local, f, fnx)[3].0 == 0) == (cn.group_count@ == c.group_count@),
{
    broadcast use lemma_fsub_range;

    lemma_canonical(1);
    lemma_canonical(lane(local, 0));
    let dgc = fsub(c.group_count@, cn.group_count@);
    lemma_canonical(dgc);
    lemma_fsub_zero(c.group_count@, cn.group_count@);
}

} // verus!
