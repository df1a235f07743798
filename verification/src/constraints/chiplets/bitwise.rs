//! Bitwise chiplet constraints.
//!
//! The bitwise chiplet computes AND and XOR of two 32-bit values over an 8-row cycle, consuming
//! one 4-bit limb of each operand per row, most significant limb first:
//!
//! - the operation flag is binary and constant over the cycle;
//! - the limb bits are binary;
//! - on the first row, `a` and `b` are the first limbs and the previous output is 0;
//! - on the other rows, `a' = 16 * a + limb(a')` (and likewise for `b`), and the previous output
//!   is the output of the row before;
//! - on every row, `output = 16 * prev_output + (AND or XOR of the limbs)`.
//!
//! Columns (from `chiplets[2]`): op flag 2, `a` 3, `b` 4, `a` bits 5-8, `b` bits 9-12,
//! previous output 13, output 14.

use vstd::prelude::*;

use super::selectors::ChipletFlags;
use crate::constraint_set::{ConstraintSet, EvalContext, RowDomain};
use crate::constraints::chiplets::bus::chiplets::responses::{col, cols};
use crate::constraints::chiplets::hasher::periodic::NUM_PERIODIC_COLUMNS as HASHER_NUM_PERIODIC_COLUMNS;
use crate::constraints::utils::{bits_to_int, felt_values, horner_bits_spec, horner_eval_bits, lemma_horner_bits_value};
use crate::field::{
    fadd, fmul, fsub, lemma_bool_ops, lemma_canonical, lemma_fadd_assoc, lemma_fadd_of_mods, lemma_fadd_range, lemma_felt_range,
    lemma_fsub_range, lemma_fsub_zero, lemma_mul_zero, lemma_small_values, lemma_sub_add_cancel, Felt, P,
};
use crate::trace::MainCols;

verus! {

broadcast use lemma_felt_range;

/// Periodic column that is 1 on the first row of each 8-row bitwise cycle.
pub const P_BITWISE_K_FIRST: usize = HASHER_NUM_PERIODIC_COLUMNS;
/// Periodic column that is 1 on every row of a bitwise cycle but the last.
pub const P_BITWISE_K_TRANSITION: usize = HASHER_NUM_PERIODIC_COLUMNS + 1;

// SPECIFICATION
// ================================================================================================

/// The 4-bit limb `sum(2^i * bits[i])` of the bit columns `from..from + 4`.
pub open spec fn limb(row: &MainCols<Felt>, from: int) -> int {
    horner_bits_spec(cols(row, from, 4))
}

/// The AND bits `a_i * b_i` of a row.
pub open spec fn and_bits(row: &MainCols<Felt>) -> Seq<int> {
    Seq::new(4, |i: int| fmul(col(row, 5 + i), col(row, 9 + i)))
}

/// The XOR bits `a_i + b_i - 2 * a_i * b_i` of a row.
pub open spec fn xor_bits(row: &MainCols<Felt>) -> Seq<int> {
    Seq::new(
        4,
        |i: int|
            fsub(
                fadd(col(row, 5 + i), col(row, 9 + i)),
                fadd(fmul(col(row, 5 + i), col(row, 9 + i)), fmul(col(row, 5 + i), col(row, 9 + i))),
            ),
    )
}

/// The expected output `16 * prev_output + a_and_b + op * (a_xor_b - a_and_b)`.
pub open spec fn expected_output(row: &MainCols<Felt>) -> int {
    let a_and_b = horner_bits_spec(and_bits(row));
    let a_xor_b = horner_bits_spec(xor_bits(row));
    fadd(fadd(fmul(col(row, 13), 16), a_and_b), fmul(col(row, 2), fsub(a_xor_b, a_and_b)))
}

/// The bitwise constraints, with the cycle markers `k_first` and `k_transition`.
pub open spec fn bitwise_constraints_spec(
    flags: &ChipletFlags,
    k_first: int,
    k_transition: int,
    local: &MainCols<Felt>,
    next: &MainCols<Felt>,
) -> Seq<(int, RowDomain)> {
    let active = flags.is_active@;
    let op = col(local, 2);
    let gate_t = fmul(k_transition, active);
    let gate_first = fmul(k_first, active);
    let binary = |i: int| (fmul(fmul(active, col(local, i)), fsub(col(local, i), 1)), RowDomain::EveryRow);
    seq![
        (fmul(fmul(active, op), fsub(op, 1)), RowDomain::EveryRow),
        (fmul(gate_t, fsub(op, col(next, 2))), RowDomain::EveryRow),
        binary(5),
        binary(6),
        binary(7),
        binary(8),
        binary(9),
        binary(10),
        binary(11),
        binary(12),
        (fmul(gate_first, fsub(col(local, 3), limb(local, 5))), RowDomain::EveryRow),
        (fmul(gate_first, fsub(col(local, 4), limb(local, 9))), RowDomain::EveryRow),
        (fmul(gate_first, col(local, 13)), RowDomain::EveryRow),
        (fmul(gate_t, fsub(col(next, 3), fadd(fmul(col(local, 3), 16), limb(next, 5)))), RowDomain::EveryRow),
        (fmul(gate_t, fsub(col(next, 4), fadd(fmul(col(local, 4), 16), limb(next, 9)))), RowDomain::EveryRow),
        (fmul(gate_t, fsub(col(next, 13), col(local, 14))), RowDomain::EveryRow),
        (fmul(active, fsub(col(local, 14), expected_output(local))), RowDomain::EveryRow),
    ]
}

// CONSTRAINTS
// ================================================================================================

/// `flag * bit * (bit - 1)`.
fn binary_gated(flag: Felt, bit: Felt) -> (r: Felt)
    ensures
        r@ == fmul(fmul(flag@, bit@), fsub(bit@, 1)),
{
    flag.mul(bit).mul(bit.sub(Felt::one()))
}

/// Enforces the bitwise chiplet constraints; the cycle markers are read from the periodic
/// columns.
#[verifier::rlimit(30)]
pub fn enforce_bitwise_constraints(
    builder: &mut ConstraintSet,
    ctx: &EvalContext,
    local: &MainCols<Felt>,
    next: &MainCols<Felt>,
    flags: &ChipletFlags,
)
    requires
        ctx.periodic@.len() > P_BITWISE_K_TRANSITION,
    ensures
        final(builder).base_view() == old(builder).base_view() + bitwise_constraints_spec(
            flags,
            ctx.periodic@[P_BITWISE_K_FIRST as int]@,
            ctx.periodic@[P_BITWISE_K_TRANSITION as int]@,
            local,
            next,
        ),
        final(builder).ext_view() == old(builder).ext_view(),
        final(builder).tags_view() == old(builder).tags_view(),
{
    let k_first = ctx.periodic[P_BITWISE_K_FIRST];
    let k_transition = ctx.periodic[P_BITWISE_K_TRANSITION];
    let active = flags.is_active;
    let c = local.bitwise();
    let cn = next.bitwise();
    let one = Felt::one();
    let sixteen = Felt::new(16);

    let ghost start = builder.base_view();
    builder.assert_zero(active.mul(c.op_flag).mul(c.op_flag.sub(one)), RowDomain::EveryRow);
    let gate_t = k_transition.mul(active);
    builder.assert_zero(gate_t.mul(c.op_flag.sub(cn.op_flag)), RowDomain::EveryRow);

    builder.assert_zero(binary_gated(active, c.a_bits[0]), RowDomain::EveryRow);
    builder.assert_zero(binary_gated(active, c.a_bits[1]), RowDomain::EveryRow);
    builder.assert_zero(binary_gated(active, c.a_bits[2]), RowDomain::EveryRow);
    builder.assert_zero(binary_gated(active, c.a_bits[3]), RowDomain::EveryRow);
    builder.assert_zero(binary_gated(active, c.b_bits[0]), RowDomain::EveryRow);
    builder.assert_zero(binary_gated(active, c.b_bits[1]), RowDomain::EveryRow);
    builder.assert_zero(binary_gated(active, c.b_bits[2]), RowDomain::EveryRow);
    builder.assert_zero(binary_gated(active, c.b_bits[3]), RowDomain::EveryRow);

    assert(felt_values(c.a_bits@) =~= cols(local, 5, 4));
    assert(felt_values(c.b_bits@) =~= cols(local, 9, 4));
    assert(felt_values(cn.a_bits@) =~= cols(next, 5, 4));
    assert(felt_values(cn.b_bits@) =~= cols(next, 9, 4));
    let a_agg = horner_eval_bits(c.a_bits.as_slice());
    let b_agg = horner_eval_bits(c.b_bits.as_slice());
    let gate_first = k_first.mul(active);
    builder.assert_zero(gate_first.mul(c.a.sub(a_agg)), RowDomain::EveryRow);
    builder.assert_zero(gate_first.mul(c.b.sub(b_agg)), RowDomain::EveryRow);
    builder.assert_zero(gate_first.mul(c.prev_output), RowDomain::EveryRow);

    let a_agg_next = horner_eval_bits(cn.a_bits.as_slice());
    let b_agg_next = horner_eval_bits(cn.b_bits.as_slice());
    builder.assert_zero(gate_t.mul(cn.a.sub(c.a.mul(sixteen).add(a_agg_next))), RowDomain::EveryRow);
    builder.assert_zero(gate_t.mul(cn.b.sub(c.b.mul(sixteen).add(b_agg_next))), RowDomain::EveryRow);
    builder.assert_zero(gate_t.mul(cn.prev_output.sub(c.output)), RowDomain::EveryRow);

    let ab = &c.a_bits;
    let bb = &c.b_bits;
    let and_b = [ab[0].mul(bb[0]), ab[1].mul(bb[1]), ab[2].mul(bb[2]), ab[3].mul(bb[3])];
    let xor_b = [
        ab[0].add(bb[0]).sub(and_b[0].double()),
        ab[1].add(bb[1]).sub(and_b[1].double()),
        ab[2].add(bb[2]).sub(and_b[2].double()),
        ab[3].add(bb[3]).sub(and_b[3].double()),
    ];
    assert(felt_values(and_b@) =~= and_bits(local));
    assert(felt_values(xor_b@) =~= xor_bits(local));
    let a_and_b = horner_eval_bits(and_b.as_slice());
    let a_xor_b = horner_eval_bits(xor_b.as_slice());
    let expected_z = c.prev_output.mul(sixteen).add(a_and_b).add(c.op_flag.mul(a_xor_b.sub(a_and_b)));
    builder.assert_zero(active.mul(c.output.sub(expected_z)), RowDomain::EveryRow);
    assert(builder.base_view() =~= start + bitwise_constraints_spec(flags, k_first@, k_transition@, local, next));
}

/// The bitwise periodic columns over one 8-row cycle: `k_first` (1 on the first row) and
/// `k_transition` (1 on every row but the last).
pub fn periodic_columns() -> (r: [Vec<Felt>; 2])
    ensures
        r[0]@.len() == 8,
        r[1]@.len() == 8,
        forall|i: int| 0 <= i < 8 ==> #[trigger] r[0]@[i]@ == (if i == 0 { 1int } else { 0int }),
        forall|i: int| 0 <= i < 8 ==> #[trigger] r[1]@[i]@ == (if i < 7 { 1int } else { 0int }),
{
    let one = Felt::one();
    let zero = Felt::zero();
    let k_first = vec![one, zero, zero, zero, zero, zero, zero, zero];
    let k_transition = vec![one, one, one, one, one, one, one, zero];
    [k_first, k_transition]
}

// LAWS
// ================================================================================================

proof fn bv_and_xor(x: u8, y: u8, a0: u8, a1: u8, a2: u8, a3: u8, b0: u8, b1: u8, b2: u8, b3: u8)
    by (bit_vector)
    requires
        a0 <= 1 && a1 <= 1 && a2 <= 1 && a3 <= 1,
        b0 <= 1 && b1 <= 1 && b2 <= 1 && b3 <= 1,
        x == a0 + 2 * a1 + 4 * a2 + 8 * a3,
        y == b0 + 2 * b1 + 4 * b2 + 8 * b3,
    ensures
        x & y == a0 * b0 + 2 * (a1 * b1) + 4 * (a2 * b2) + 8 * (a3 * b3),
        x ^ y == (a0 + b0 - 2 * (a0 * b0)) + 2 * (a1 + b1 - 2 * (a1 * b1)) + 4 * (a2 + b2 - 2 * (a2
            * b2)) + 8 * (a3 + b3 - 2 * (a3 * b3)),
{
}

/// The integer value `b0 + 2 b1 + 4 b2 + 8 b3` of 4 bits.
pub open spec fn nibble(s: Seq<int>) -> int {
    s[0] + 2 * s[1] + 4 * s[2] + 8 * s[3]
}

proof fn lemma_bits_to_int_4(s: Seq<int>)
    requires
        s.len() == 4,
    ensures
        bits_to_int(s) == nibble(s),
{
    let s1 = s.subrange(1, 4);
    let s2 = s1.subrange(1, 3);
    let s3 = s2.subrange(1, 2);
    let s4 = s3.subrange(1, 1);
    assert(s4.len() == 0);
    assert(bits_to_int(s3) == 2 * bits_to_int(s4) + s3[0]);
    assert(bits_to_int(s2) == 2 * bits_to_int(s3) + s2[0]);
    assert(bits_to_int(s1) == 2 * bits_to_int(s2) + s1[0]);
}

/// On binary limb bits, the limbs are the 4-bit values of the bits, and the AND and XOR bit
/// formulas aggregate to the bitwise AND and XOR of the limbs.
pub proof fn lemma_bitwise_limb_ops(row: &MainCols<Felt>)
    requires
        forall|i: int| 5 <= i < 13 ==> (#[trigger] col(row, i) == 0 || col(row, i) == 1),
    ensures
        limb(row, 5) == nibble(cols(row, 5, 4)),
        limb(row, 9) == nibble(cols(row, 9, 4)),
        horner_bits_spec(and_bits(row)) == ((nibble(cols(row, 5, 4)) as u8) & (nibble(cols(row, 9, 4)) as u8)) as int,
        horner_bits_spec(xor_bits(row)) == ((nibble(cols(row, 5, 4)) as u8) ^ (nibble(cols(row, 9, 4)) as u8)) as int,
{
    let a = cols(row, 5, 4);
    let b = cols(row, 9, 4);
    assert(col(row, 5) == 0 || col(row, 5) == 1);
    assert(col(row, 6) == 0 || col(row, 6) == 1);
    assert(col(row, 7) == 0 || col(row, 7) == 1);
    assert(col(row, 8) == 0 || col(row, 8) == 1);
    assert(col(row, 9) == 0 || col(row, 9) == 1);
    assert(col(row, 10) == 0 || col(row, 10) == 1);
    assert(col(row, 11) == 0 || col(row, 11) == 1);
    assert(col(row, 12) == 0 || col(row, 12) == 1);
    assert(a[0] == 0 || a[0] == 1);
    assert(a[1] == 0 || a[1] == 1);
    assert(a[2] == 0 || a[2] == 1);
    assert(a[3] == 0 || a[3] == 1);
    assert(b[0] == 0 || b[0] == 1);
    assert(b[1] == 0 || b[1] == 1);
    assert(b[2] == 0 || b[2] == 1);
    assert(b[3] == 0 || b[3] == 1);
    lemma_horner_bits_value(a);
    lemma_horner_bits_value(b);
    lemma_bits_to_int_4(a);
    lemma_bits_to_int_4(b);
    let and_s = and_bits(row);
    let xor_s = xor_bits(row);
    assert forall|i: int| 0 <= i < 4 implies {
        &&& #[trigger] and_s[i] == a[i] * b[i]
        &&& xor_s[i] == a[i] + b[i] - 2 * (a[i] * b[i])
        &&& (and_s[i] == 0 || and_s[i] == 1)
        &&& (xor_s[i] == 0 || xor_s[i] == 1)
    } by {
        let ai = col(row, 5 + i);
        let bi = col(row, 9 + i);
        assert(ai == a[i] && bi == b[i]);
        assert(ai == 0 || ai == 1);
        assert(bi == 0 || bi == 1);
        lemma_bool_ops(ai, bi);
        let ab: int = if ai == 1 && bi == 1 { 1 } else { 0 };
        assert(ai * bi == ab) by (nonlinear_arith)
            requires
                ai == 0 || ai == 1,
                bi == 0 || bi == 1,
                ab == (if ai == 1 && bi == 1 { 1int } else { 0int }),
        ;
        lemma_small_values(ab, ab);
        lemma_small_values(ai, bi);
        assert(ai + bi >= 2 * ab);
        lemma_small_values(ai + bi, 2 * ab);
    }
    assert forall|i: int| 0 <= i < 4 implies (#[trigger] xor_s[i] == 0 || xor_s[i] == 1)
        && xor_s[i] == a[i] + b[i] - 2 * (a[i] * b[i]) by {
        assert(and_s[i] == a[i] * b[i]);
    }
    lemma_horner_bits_value(and_s);
    lemma_horner_bits_value(xor_s);
    lemma_bits_to_int_4(and_s);
    lemma_bits_to_int_4(xor_s);
    let x: u8 = nibble(a) as u8;
    let y: u8 = nibble(b) as u8;
    let a0: u8 = a[0] as u8;
    let a1: u8 = a[1] as u8;
    let a2: u8 = a[2] as u8;
    let a3: u8 = a[3] as u8;
    let b0: u8 = b[0] as u8;
    let b1: u8 = b[1] as u8;
    let b2: u8 = b[2] as u8;
    let b3: u8 = b[3] as u8;
    assert(x == nibble(a) && y == nibble(b));
    assert(a0 == a[0] && a1 == a[1] && a2 == a[2] && a3 == a[3]);
    assert(b0 == b[0] && b1 == b[1] && b2 == b[2] && b3 == b[3]);
    bv_and_xor(x, y, a0, a1, a2, a3, b0, b1, b2, b3);
}


/// The output law of an active bitwise row with binary limb bits and op flag: the expected
/// output is `16 * prev_output` plus the AND of the two limbs for op flag 0 and their XOR for op
/// flag 1, and the output constraint vanishes exactly when the output column holds it.
pub proof fn lemma_bitwise_output(
    flags: &ChipletFlags,
    k_first: int,
    k_transition: int,
    local: &MainCols<Felt>,
    next: &MainCols<Felt>,
)
    requires
        flags.is_active@ == 1,
        forall|i: int| 5 <= i < 13 ==> (#[trigger] col(local, i) == 0 || col(local, i) == 1),
        col(local, 2) == 0 || col(local, 2) == 1,
    ensures
        expected_output(local) == fadd(
            fmul(col(local, 13), 16),
            if col(local, 2) == 0 {
                ((nibble(cols(local, 5, 4)) as u8) & (nibble(cols(local, 9, 4)) as u8)) as int
            } else {
                ((nibble(cols(local, 5, 4)) as u8) ^ (nibble(cols(local, 9, 4)) as u8)) as int
            },
        ),
        (bitwise_constraints_spec(flags, k_first, k_transition, local, next)[16].0 == 0) == (col(local, 14)
            == expected_output(local)),
{
    broadcast use lemma_fadd_range, lemma_fsub_range;

    lemma_bitwise_limb_ops(local);
    let op = col(local, 2);
    let and_v = horner_bits_spec(and_bits(local));
    let xor_v = horner_bits_spec(xor_bits(local));
    let m = fmul(col(local, 13), 16);
    assert(0 <= and_v < P);
    assert(0 <= xor_v < P);
    lemma_mul_zero(fsub(xor_v, and_v));
    lemma_canonical(fsub(xor_v, and_v));
    lemma_canonical(fadd(m, and_v));
    lemma_fadd_assoc(m, and_v, fsub(xor_v, and_v));
    lemma_sub_add_cancel(xor_v, and_v);
    lemma_fadd_of_mods(and_v, fsub(xor_v, and_v));
    lemma_fadd_of_mods(fsub(xor_v, and_v), and_v);
    lemma_fsub_zero(col(local, 14), expected_output(local));
    lemma_canonical(fsub(col(local, 14), expected_output(local)));
}

} // verus!
