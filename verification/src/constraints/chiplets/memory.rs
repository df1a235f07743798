//! Memory chiplet constraints.
//!
//! Rows of the memory chiplet are sorted by context, word address and clock. Each row records
//! one access: a read or a write of one element or of a whole word. The constraints make the
//! flags binary, check the sort order through the delta columns, and make values that are not
//! written keep their previous value (or start at 0 at the first access of a word).
//!
//! Columns (from `chiplets[3]`): is_read 3, is_word 4, ctx 5, word_addr 6, idx0 7, idx1 8,
//! clk 9, values 10-13, d0 14, d1 15, d_inv 16, is_same_ctx_and_word 17.

use vstd::prelude::*;

use super::selectors::ChipletFlags;
use crate::constraint_set::{all_vanish, ConstraintSet, RowDomain};
use crate::constraints::chiplets::bus::chiplets::responses::col;
use crate::field::{
    fadd, fmul, fnot, fsub, lemma_binary_iff, lemma_bool_ops, lemma_canonical, lemma_fadd_range, lemma_felt_range,
    lemma_fmul_range, lemma_fmul_zero_iff, lemma_fsub_range, lemma_fsub_zero, lemma_mul_zero, lemma_small_values, Felt, P,
};

use crate::trace::MainCols;

verus! {

broadcast use lemma_felt_range;

// SPECIFICATION
// ================================================================================================

/// `flag * x * (x - 1)`.
pub open spec fn gated_binary(flag: int, x: int) -> int {
    fmul(fmul(flag, x), fsub(x, 1))
}

/// The flag of value lane `k` being constrained (`is_read + is_write * is_element * (1 - f_k)`,
/// `f_k` the lane selected by `idx0, idx1`): every lane of a read, and the lanes that an element
/// write leaves untouched.
pub open spec fn value_flag(row: &MainCols<Felt>, k: int) -> int {
    let is_read = col(row, 3);
    let i0 = col(row, 7);
    let i1 = col(row, 8);
    let f = if k == 0 {
        fmul(fsub(1, i1), fsub(1, i0))
    } else if k == 1 {
        fmul(fsub(1, i1), i0)
    } else if k == 2 {
        fmul(i1, fsub(1, i0))
    } else {
        fmul(i1, i0)
    };
    fadd(is_read, fmul(fmul(fsub(1, is_read), fsub(1, col(row, 4))), fsub(1, f)))
}

/// The constraints on every memory row: binary flags, and word accesses have `idx0 = idx1 = 0`.
pub open spec fn memory_all_rows_spec(flags: &ChipletFlags, local: &MainCols<Felt>) -> Seq<(int, RowDomain)> {
    let g = flags.is_active@;
    seq![
        (gated_binary(g, col(local, 3)), RowDomain::EveryRow),
        (gated_binary(g, col(local, 4)), RowDomain::EveryRow),
        (gated_binary(g, col(local, 7)), RowDomain::EveryRow),
        (gated_binary(g, col(local, 8)), RowDomain::EveryRow),
        (fmul(fmul(g, col(local, 4)), col(local, 7)), RowDomain::EveryRow),
        (fmul(fmul(g, col(local, 4)), col(local, 8)), RowDomain::EveryRow),
    ]
}

/// The constraints on the first memory row: the constrained lanes start at 0.
pub open spec fn memory_first_row_spec(flag: int, first: &MainCols<Felt>) -> Seq<(int, RowDomain)> {
    Seq::new(4, |k: int| (fmul(fmul(flag, value_flag(first, k)), col(first, 10 + k)), RowDomain::EveryRow))
}

/// `n0 = ctx_delta * d_inv'`: 1 when the context changes.
pub open spec fn n0_spec(local: &MainCols<Felt>, next: &MainCols<Felt>) -> int {
    fmul(fsub(col(next, 5), col(local, 5)), col(next, 16))
}

/// `n1 = addr_delta * d_inv'`: 1 when the word address changes.
pub open spec fn n1_spec(local: &MainCols<Felt>, next: &MainCols<Felt>) -> int {
    fmul(fsub(col(next, 6), col(local, 6)), col(next, 16))
}

/// The delta selected by `n0, n1`: the context delta, else the address delta, else the clock
/// delta.
pub open spec fn computed_delta_spec(local: &MainCols<Felt>, next: &MainCols<Felt>) -> int {
    let n0 = n0_spec(local, next);
    let n1 = n1_spec(local, next);
    fadd(
        fmul(n0, fsub(col(next, 5), col(local, 5))),
        fmul(fsub(1, n0), fadd(fmul(n1, fsub(col(next, 6), col(local, 6))), fmul(fsub(1, n1), fsub(col(next, 9), col(local, 9))))),
    )
}

/// The constraints between two memory rows.
pub open spec fn memory_except_last_spec(g: int, local: &MainCols<Felt>, next: &MainCols<Felt>) -> Seq<(int, RowDomain)> {
    let n0 = n0_spec(local, next);
    let n1 = n1_spec(local, next);
    let gnn0 = fmul(g, fsub(1, n0));
    let delta_next = fadd(fmul(col(next, 15), 65536), col(next, 14));
    let scw_next = col(next, 17);
    let clk_no_change = fsub(1, fmul(fsub(col(next, 9), col(local, 9)), col(next, 16)));
    let any_write = fadd(fsub(1, col(local, 3)), fsub(1, col(next, 3)));
    seq![
        (fmul(fmul(g, n0), fsub(n0, 1)), RowDomain::EveryRow),
        (fmul(gnn0, fsub(col(next, 5), col(local, 5))), RowDomain::EveryRow),
        (fmul(fmul(gnn0, n1), fsub(n1, 1)), RowDomain::EveryRow),
        (fmul(fmul(gnn0, fsub(1, n1)), fsub(col(next, 6), col(local, 6))), RowDomain::EveryRow),
        (fmul(g, fsub(computed_delta_spec(local, next), delta_next)), RowDomain::EveryRow),
        (fmul(g, fsub(scw_next, fmul(fnot(n0), fnot(n1)))), RowDomain::EveryRow),
        (fmul(fmul(fmul(g, scw_next), clk_no_change), any_write), RowDomain::EveryRow),
    ] + Seq::new(
        4,
        |k: int| (fmul(fmul(g, value_flag(next, k)), fsub(col(next, 10 + k), fmul(scw_next, col(local, 10 + k)))), RowDomain::EveryRow),
    )
}

/// All memory constraints.
pub open spec fn memory_constraints_spec(flags: &ChipletFlags, local: &MainCols<Felt>, next: &MainCols<Felt>) -> Seq<(int, RowDomain)> {
    memory_all_rows_spec(flags, local) + memory_first_row_spec(flags.next_is_first@, next)
        + memory_except_last_spec(flags.is_transition@, local, next)
}

// HELPERS
// ================================================================================================

/// The deltas between two memory rows.
pub struct MemoryDeltas {
    pub ctx_delta: Felt,
    pub addr_delta: Felt,
    pub clk_delta: Felt,
    pub n0: Felt,
    pub n1: Felt,
    pub delta_next: Felt,
    pub computed_delta: Felt,
    pub d_inv_next: Felt,
}

/// Computes the deltas between the memory rows `local` and `next`.
fn compute_memory_deltas(local: &MainCols<Felt>, next: &MainCols<Felt>) -> (r: MemoryDeltas)
    ensures
        r.ctx_delta@ == fsub(col(next, 5), col(local, 5)),
        r.addr_delta@ == fsub(col(next, 6), col(local, 6)),
        r.clk_delta@ == fsub(col(next, 9), col(local, 9)),
        r.n0@ == n0_spec(local, next),
        r.n1@ == n1_spec(local, next),
        r.delta_next@ == fadd(fmul(col(next, 15), 65536), col(next, 14)),
        r.computed_delta@ == computed_delta_spec(local, next),
        r.d_inv_next@ == col(next, 16),
{
    let c = local.memory();
    let cn = next.memory();
    let ctx_delta = cn.ctx.sub(c.ctx);
    let addr_delta = cn.word_addr.sub(c.word_addr);
    let clk_delta = cn.clk.sub(c.clk);
    let d_inv_next = cn.d_inv;
    let n0 = ctx_delta.mul(d_inv_next);
    let n1 = addr_delta.mul(d_inv_next);
    let delta_next = cn.d1.mul(Felt::new(65536)).add(cn.d0);
    let one = Felt::one();
    let computed_delta = n0.mul(ctx_delta).add(
        one.sub(n0).mul(n1.mul(addr_delta).add(one.sub(n1).mul(clk_delta))),
    );
    MemoryDeltas { ctx_delta, addr_delta, clk_delta, n0, n1, delta_next, computed_delta, d_inv_next }
}

/// Computes the flags of the four value lanes being constrained.
fn compute_value_constraint_flags(row: &MainCols<Felt>) -> (r: [Felt; 4])
    ensures
        forall|k: int| 0 <= k < 4 ==> #[trigger] r@[k]@ == value_flag(row, k),
{
    let c = row.memory();
    let one = Felt::one();
    let is_write = one.sub(c.is_read);
    let is_element = one.sub(c.is_word);
    let f0 = one.sub(c.idx1).mul(one.sub(c.idx0));
    let f1 = one.sub(c.idx1).mul(c.idx0);
    let f2 = c.idx1.mul(one.sub(c.idx0));
    let f3 = c.idx1.mul(c.idx0);
    let w = is_write.mul(is_element);
    [
        c.is_read.add(w.mul(one.sub(f0))),
        c.is_read.add(w.mul(one.sub(f1))),
        c.is_read.add(w.mul(one.sub(f2))),
        c.is_read.add(w.mul(one.sub(f3))),
    ]
}

// CONSTRAINTS
// ================================================================================================

/// Enforces the constraints on every memory row.
pub fn enforce_memory_constraints_all_rows(
    builder: &mut ConstraintSet,
    local: &MainCols<Felt>,
    _next: &MainCols<Felt>,
    flags: &ChipletFlags,
)
    ensures
        final(builder).base_view() == old(builder).base_view() + memory_all_rows_spec(flags, local),
        final(builder).ext_view() == old(builder).ext_view(),
        final(builder).tags_view() == old(builder).tags_view(),
{
    let c = local.memory();
    let g = flags.is_active;
    let one = Felt::one();
    let ghost start = builder.base_view();
    builder.assert_zero(g.mul(c.is_read).mul(c.is_read.sub(one)), RowDomain::EveryRow);
    builder.assert_zero(g.mul(c.is_word).mul(c.is_word.sub(one)), RowDomain::EveryRow);
    builder.assert_zero(g.mul(c.idx0).mul(c.idx0.sub(one)), RowDomain::EveryRow);
    builder.assert_zero(g.mul(c.idx1).mul(c.idx1.sub(one)), RowDomain::EveryRow);
    let word_gate = g.mul(c.is_word);
    builder.assert_zero(word_gate.mul(c.idx0), RowDomain::EveryRow);
    builder.assert_zero(word_gate.mul(c.idx1), RowDomain::EveryRow);
    assert(builder.base_view() =~= start + memory_all_rows_spec(flags, local));
}

/// Enforces the constraints on the first memory row (`first`, gated by `flag`): the constrained
/// lanes start at 0.
pub fn enforce_memory_constraints_first_row(
    builder: &mut ConstraintSet,
    _local: &MainCols<Felt>,
    first: &MainCols<Felt>,
    flag: Felt,
)
    ensures
        final(builder).base_view() == old(builder).base_view() + memory_first_row_spec(flag@, first),
        final(builder).ext_view() == old(builder).ext_view(),
        final(builder).tags_view() == old(builder).tags_view(),
{
    let c = first.memory();
    let f = compute_value_constraint_flags(first);
    let ghost start = builder.base_view();
    builder.assert_zero(flag.mul(f[0]).mul(c.values[0]), RowDomain::EveryRow);
    builder.assert_zero(flag.mul(f[1]).mul(c.values[1]), RowDomain::EveryRow);
    builder.assert_zero(flag.mul(f[2]).mul(c.values[2]), RowDomain::EveryRow);
    builder.assert_zero(flag.mul(f[3]).mul(c.values[3]), RowDomain::EveryRow);
    assert(builder.base_view() =~= start + memory_first_row_spec(flag@, first));
}

/// Enforces that `n0` and `n1` are binary, and that a delta they declare zero is zero.
fn enforce_delta_inverse_constraints(builder: &mut ConstraintSet, gate: Felt, deltas: &MemoryDeltas)
    ensures
        final(builder).base_view() == old(builder).base_view() + seq![
            (fmul(fmul(gate@, deltas.n0@), fsub(deltas.n0@, 1)), RowDomain::EveryRow),
            (fmul(fmul(gate@, fsub(1, deltas.n0@)), deltas.ctx_delta@), RowDomain::EveryRow),
            (fmul(fmul(fmul(gate@, fsub(1, deltas.n0@)), deltas.n1@), fsub(deltas.n1@, 1)), RowDomain::EveryRow),
            (fmul(fmul(fmul(gate@, fsub(1, deltas.n0@)), fsub(1, deltas.n1@)), deltas.addr_delta@), RowDomain::EveryRow),
        ],
        final(builder).ext_view() == old(builder).ext_view(),
        final(builder).tags_view() == old(builder).tags_view(),
{
    let one = Felt::one();
    let n0 = deltas.n0;
    let n1 = deltas.n1;
    let gate_not_n0 = gate.mul(one.sub(n0));
    let ghost start = builder.base_view();
    builder.assert_zero(gate.mul(n0).mul(n0.sub(one)), RowDomain::EveryRow);
    builder.assert_zero(gate_not_n0.mul(deltas.ctx_delta), RowDomain::EveryRow);
    builder.assert_zero(gate_not_n0.mul(n1).mul(n1.sub(one)), RowDomain::EveryRow);
    builder.assert_zero(gate_not_n0.mul(one.sub(n1)).mul(deltas.addr_delta), RowDomain::EveryRow);
    assert(builder.base_view() =~= start + seq![
        (fmul(fmul(gate@, deltas.n0@), fsub(deltas.n0@, 1)), RowDomain::EveryRow),
        (fmul(fmul(gate@, fsub(1, deltas.n0@)), deltas.ctx_delta@), RowDomain::EveryRow),
        (fmul(fmul(fmul(gate@, fsub(1, deltas.n0@)), deltas.n1@), fsub(deltas.n1@, 1)), RowDomain::EveryRow),
        (fmul(fmul(fmul(gate@, fsub(1, deltas.n0@)), fsub(1, deltas.n1@)), deltas.addr_delta@), RowDomain::EveryRow),
    ]);
}

/// Enforces that two accesses to the same context and word in the same clock cycle are both
/// reads.
fn enforce_scw_readonly_constraint(
    builder: &mut ConstraintSet,
    gate: Felt,
    local: &MainCols<Felt>,
    next: &MainCols<Felt>,
    deltas: &MemoryDeltas,
)
    ensures
        final(builder).base_view() == old(builder).base_view().push(
            (
                fmul(
                    fmul(fmul(gate@, col(next, 17)), fsub(1, fmul(deltas.clk_delta@, deltas.d_inv_next@))),
                    fadd(fsub(1, col(local, 3)), fsub(1, col(next, 3))),
                ),
                RowDomain::EveryRow,
            ),
        ),
        final(builder).ext_view() == old(builder).ext_view(),
        final(builder).tags_view() == old(builder).tags_view(),
{
    let one = Felt::one();
    let c = local.memory();
    let cn = next.memory();
    let clk_no_change = one.sub(deltas.clk_delta.mul(deltas.d_inv_next));
    let any_write = one.sub(c.is_read).add(one.sub(cn.is_read));
    builder.assert_zero(gate.mul(cn.is_same_ctx_and_word).mul(clk_no_change).mul(any_write), RowDomain::EveryRow);
}

/// Enforces the constraints between two memory rows (gated by `gate`): sort order through the
/// deltas, the same-context-and-word flag, and unchanged lanes keeping their values.
pub fn enforce_memory_constraints_all_rows_except_last(
    builder: &mut ConstraintSet,
    local: &MainCols<Felt>,
    next: &MainCols<Felt>,
    gate: Felt,
)
    ensures
        final(builder).base_view() == old(builder).base_view() + memory_except_last_spec(gate@, local, next),
        final(builder).ext_view() == old(builder).ext_view(),
        final(builder).tags_view() == old(builder).tags_view(),
{
    let c = local.memory();
    let cn = next.memory();
    let deltas = compute_memory_deltas(local, next);
    let ghost start = builder.base_view();
    enforce_delta_inverse_constraints(builder, gate, &deltas);
    builder.assert_zero(gate.mul(deltas.computed_delta.sub(deltas.delta_next)), RowDomain::EveryRow);
    let scw_next = cn.is_same_ctx_and_word;
    builder.assert_zero(gate.mul(scw_next.sub(deltas.n0.not().mul(deltas.n1.not()))), RowDomain::EveryRow);
    enforce_scw_readonly_constraint(builder, gate, local, next, &deltas);
    let f = compute_value_constraint_flags(next);
    builder.assert_zero(gate.mul(f[0]).mul(cn.values[0].sub(scw_next.mul(c.values[0]))), RowDomain::EveryRow);
    builder.assert_zero(gate.mul(f[1]).mul(cn.values[1].sub(scw_next.mul(c.values[1]))), RowDomain::EveryRow);
    builder.assert_zero(gate.mul(f[2]).mul(cn.values[2].sub(scw_next.mul(c.values[2]))), RowDomain::EveryRow);
    builder.assert_zero(gate.mul(f[3]).mul(cn.values[3].sub(scw_next.mul(c.values[3]))), RowDomain::EveryRow);
    assert(builder.base_view() =~= start + memory_except_last_spec(gate@, local, next));
}

/// Enforces all memory chiplet constraints.
pub fn enforce_memory_constraints(
    builder: &mut ConstraintSet,
    local: &MainCols<Felt>,
    next: &MainCols<Felt>,
    flags: &ChipletFlags,
)
    ensures
        final(builder).base_view() == old(builder).base_view() + memory_constraints_spec(flags, local, next),
        final(builder).ext_view() == old(builder).ext_view(),
        final(builder).tags_view() == old(builder).tags_view(),
{
    let ghost start = builder.base_view();
    enforce_memory_constraints_all_rows(builder, local, next, flags);
    enforce_memory_constraints_first_row(builder, local, next, flags.next_is_first);
    enforce_memory_constraints_all_rows_except_last(builder, local, next, flags.is_transition);
    assert(builder.base_view() =~= start + memory_constraints_spec(flags, local, next));
}


// LAWS
// ================================================================================================

/// On binary flags and indexes, a value lane is constrained exactly when the access does not
/// write it: always on reads, never on word writes, and on element writes for every lane but
/// the one at `idx0 + 2 * idx1`.
pub proof fn lemma_value_flag_unwritten(row: &MainCols<Felt>, k: int)
    requires
        0 <= k < 4,
        col(row, 3) == 0 || col(row, 3) == 1,
        col(row, 4) == 0 || col(row, 4) == 1,
        col(row, 7) == 0 || col(row, 7) == 1,
        col(row, 8) == 0 || col(row, 8) == 1,
    ensures
        value_flag(row, k) == (if col(row, 3) == 1 {
            1int
        } else if col(row, 4) == 1 {
            0int
        } else if k == col(row, 7) + 2 * col(row, 8) {
            0int
        } else {
            1int
        }),
{
    assert forall|x: int, y: int| (x == 0 || x == 1) && (y == 0 || y == 1) implies #[trigger] fmul(x, y) == (if x == 1
        && y == 1 {
        1int
    } else {
        0int
    }) by {
        lemma_bool_ops(x, y);
    }
    assert forall|x: int, y: int| 0 <= y <= x <= 1 implies #[trigger] fsub(x, y) == x - y by {
        lemma_small_values(x, y);
    }
    assert forall|x: int, y: int| 0 <= x <= 1 && 0 <= y <= 1 implies #[trigger] fadd(x, y) == x + y by {
        lemma_small_values(x, y);
    }
}


/// The constraints on every memory row, with a binary chiplet flag and any column values: off
/// the chiplet they vanish, and on it they vanish exactly when `is_read`, `is_word`, `idx0` and
/// `idx1` are binary and a word access has `idx0 = idx1 = 0`.
pub proof fn lemma_memory_all_rows(flags: &ChipletFlags, local: &MainCols<Felt>)
    requires
        flags.is_active@ == 0 || flags.is_active@ == 1,
    ensures
        all_vanish(memory_all_rows_spec(flags, local)) == (flags.is_active@ == 1 ==> {
            &&& col(local, 3) == 0 || col(local, 3) == 1
            &&& col(local, 4) == 0 || col(local, 4) == 1
            &&& col(local, 7) == 0 || col(local, 7) == 1
            &&& col(local, 8) == 0 || col(local, 8) == 1
            &&& col(local, 4) == 1 ==> col(local, 7) == 0 && col(local, 8) == 0
        }),
{
    broadcast use lemma_fsub_range, lemma_fmul_range;

    let cs = memory_all_rows_spec(flags, local);
    assert forall|x: int, y: int| 0 <= x < P && 0 <= y < P implies (#[trigger] fmul(x, y) == 0) == (x == 0 || y == 0) by {
        lemma_fmul_zero_iff(x, y);
    }
    assert forall|x: int| 0 <= x < P implies #[trigger] fmul(1, x) == x by {
        lemma_canonical(x);
    }
    lemma_binary_iff(col(local, 3));
    lemma_binary_iff(col(local, 4));
    lemma_binary_iff(col(local, 7));
    lemma_binary_iff(col(local, 8));
    assert(all_vanish(cs) == (cs[0].0 == 0 && cs[1].0 == 0 && cs[2].0 == 0 && cs[3].0 == 0 && cs[4].0 == 0 && cs[5].0
        == 0));
}

/// Off the chiplet's transitions (gate 0) every constraint between two memory rows vanishes.
pub proof fn lemma_memory_transition_inactive(local: &MainCols<Felt>, next: &MainCols<Felt>)
    ensures
        all_vanish(memory_except_last_spec(0, local, next)),
{
    let cs = memory_except_last_spec(0, local, next);
    assert forall|x: int| #[trigger] fmul(0, x) == 0 by {
        lemma_mul_zero(x);
    }
    assert forall|i: int| 0 <= i < cs.len() implies (#[trigger] cs[i]).0 == 0 by {
    }
}

/// Between two rows of the same context and word (`ctx' = ctx`, `word_addr' = word_addr`) on a
/// memory transition: the delta flags are 0 and their constraints vanish; the delta constraint
/// vanishes exactly when the delta columns hold the clock difference; the same-word flag
/// constraint exactly when `same_ctx_and_word' = 1`; and then each value lane constraint exactly
/// when a lane that the next access does not write keeps its value.
pub proof fn lemma_memory_same_word(local: &MainCols<Felt>, next: &MainCols<Felt>)
    requires
        col(next, 5) == col(local, 5),
        col(next, 6) == col(local, 6),
        col(next, 3) == 0 || col(next, 3) == 1,
        col(next, 4) == 0 || col(next, 4) == 1,
        col(next, 7) == 0 || col(next, 7) == 1,
        col(next, 8) == 0 || col(next, 8) == 1,
    ensures
        n0_spec(local, next) == 0,
        n1_spec(local, next) == 0,
        forall|i: int| 0 <= i < 4 ==> (#[trigger] memory_except_last_spec(1, local, next)[i]).0 == 0,
        (memory_except_last_spec(1, local, next)[4].0 == 0) == (fadd(fmul(col(next, 15), 65536), col(next, 14))
            == fsub(col(next, 9), col(local, 9))),
        (memory_except_last_spec(1, local, next)[5].0 == 0) == (col(next, 17) == 1),
        col(next, 17) == 1 ==> forall|k: int|
            0 <= k < 4 ==> ((#[trigger] memory_except_last_spec(1, local, next)[7 + k]).0 == 0) == (value_flag(next, k)
                == 1 ==> col(next, 10 + k) == col(local, 10 + k)),
{
    broadcast use lemma_fadd_range, lemma_fmul_range, lemma_fsub_range;

    let cs = memory_except_last_spec(1, local, next);
    assert forall|x: int| #[trigger] fmul(0, x) == 0 by {
        lemma_mul_zero(x);
    }
    assert forall|x: int| #[trigger] fmul(x, 0) == 0 by {
        lemma_mul_zero(x);
    }
    assert forall|x: int| 0 <= x < P implies #[trigger] fmul(1, x) == x && fadd(0, x) == x && fsub(x, 0) == x by {
        lemma_canonical(x);
    }
    assert forall|x: int, y: int| 0 <= x < P && 0 <= y < P implies (#[trigger] fsub(x, y) == 0) == (x == y) by {
        lemma_fsub_zero(x, y);
    }
    lemma_canonical(col(local, 5));
    lemma_canonical(col(local, 6));
    lemma_canonical(1);
    lemma_canonical(0);
    lemma_bool_ops(1, 1);
    assert(n0_spec(local, next) == 0);
    assert(n1_spec(local, next) == 0);
    let dclk = fsub(col(next, 9), col(local, 9));
    assert(computed_delta_spec(local, next) == dclk);
    if col(next, 17) == 1 {
        assert forall|k: int| 0 <= k < 4 implies ((#[trigger] cs[7 + k]).0 == 0) == (value_flag(next, k) == 1 ==> col(
            next,
            10 + k,
        ) == col(local, 10 + k)) by {
            lemma_value_flag_unwritten(next, k);
        }
    }
}


/// Between two memory rows of different contexts, with `d_inv'` the inverse of the context
/// delta (so `n0 = 1`): the delta flag constraints vanish, the delta constraint vanishes exactly
/// when the delta columns hold the context difference, and the same-word flag constraint exactly
/// when `same_ctx_and_word' = 0`.
pub proof fn lemma_memory_new_context(local: &MainCols<Felt>, next: &MainCols<Felt>)
    requires
        n0_spec(local, next) == 1,
    ensures
        forall|i: int| 0 <= i < 4 ==> (#[trigger] memory_except_last_spec(1, local, next)[i]).0 == 0,
        (memory_except_last_spec(1, local, next)[4].0 == 0) == (fadd(fmul(col(next, 15), 65536), col(next, 14))
            == fsub(col(next, 5), col(local, 5))),
        (memory_except_last_spec(1, local, next)[5].0 == 0) == (col(next, 17) == 0),
{
    broadcast use lemma_fadd_range, lemma_fmul_range, lemma_fsub_range;

    assert forall|x: int| #[trigger] fmul(0, x) == 0 by {
        lemma_mul_zero(x);
    }
    assert forall|x: int| #[trigger] fmul(x, 0) == 0 by {
        lemma_mul_zero(x);
    }
    assert forall|x: int| 0 <= x < P implies #[trigger] fmul(1, x) == x && fmul(x, 1) == x && fadd(x, 0) == x && fsub(x, 0)
        == x by {
        lemma_canonical(x);
    }
    assert forall|x: int, y: int| 0 <= x < P && 0 <= y < P implies (#[trigger] fsub(x, y) == 0) == (x == y) by {
        lemma_fsub_zero(x, y);
    }
    lemma_canonical(1);
    lemma_canonical(0);
    lemma_bool_ops(1, 1);
    lemma_bool_ops(0, 0);
    assert(computed_delta_spec(local, next) == fsub(col(next, 5), col(local, 5)));
}

/// Between two memory rows of the same context and different word addresses, with `d_inv'` the
/// inverse of the address delta (so `n0 = 0`, `n1 = 1`): the delta flag constraints vanish, the
/// delta constraint vanishes exactly when the delta columns hold the address difference, and the
/// same-word flag constraint exactly when `same_ctx_and_word' = 0`.
pub proof fn lemma_memory_new_word(local: &MainCols<Felt>, next: &MainCols<Felt>)
    requires
        col(next, 5) == col(local, 5),
        n1_spec(local, next) == 1,
    ensures
        n0_spec(local, next) == 0,
        forall|i: int| 0 <= i < 4 ==> (#[trigger] memory_except_last_spec(1, local, next)[i]).0 == 0,
        (memory_except_last_spec(1, local, next)[4].0 == 0) == (fadd(fmul(col(next, 15), 65536), col(next, 14))
            == fsub(col(next, 6), col(local, 6))),
        (memory_except_last_spec(1, local, next)[5].0 == 0) == (col(next, 17) == 0),
{
    broadcast use lemma_fadd_range, lemma_fmul_range, lemma_fsub_range;

    assert forall|x: int| #[trigger] fmul(0, x) == 0 by {
        lemma_mul_zero(x);
    }
    assert forall|x: int| #[trigger] fmul(x, 0) == 0 by {
        lemma_mul_zero(x);
    }
    assert forall|x: int| 0 <= x < P implies #[trigger] fmul(1, x) == x && fmul(x, 1) == x && fadd(x, 0) == x && fadd(0, x)
        == x && fsub(x, 0) == x by {
        lemma_canonical(x);
    }
    assert forall|x: int, y: int| 0 <= x < P && 0 <= y < P implies (#[trigger] fsub(x, y) == 0) == (x == y) by {
        lemma_fsub_zero(x, y);
    }
    lemma_canonical(col(local, 5));
    lemma_canonical(1);
    lemma_canonical(0);
    lemma_bool_ops(1, 1);
    lemma_bool_ops(0, 0);
    lemma_bool_ops(1, 0);
    assert(n0_spec(local, next) == 0);
    assert(computed_delta_spec(local, next) == fsub(col(next, 6), col(local, 6)));
}


/// The first nonzero of the context, address and clock deltas between two rows, or 0.
pub open spec fn first_nonzero_delta(local: &MainCols<Felt>, next: &MainCols<Felt>) -> int {
    let dc = fsub(col(next, 5), col(local, 5));
    let da = fsub(col(next, 6), col(local, 6));
    let dk = fsub(col(next, 9), col(local, 9));
    if dc != 0 {
        dc
    } else if da != 0 {
        da
    } else {
        dk
    }
}

/// `d_inv'` is the inverse of the first nonzero delta, or 0 when every delta is 0.
pub open spec fn delta_inverse_set(local: &MainCols<Felt>, next: &MainCols<Felt>) -> bool {
    let d = first_nonzero_delta(local, next);
    if d != 0 {
        fmul(d, col(next, 16)) == 1
    } else {
        col(next, 16) == 0
    }
}

/// The memory transition law, into a read row (`is_read' = 1`) with `d_inv'` set as the trace
/// sets it: the constraints between two memory rows vanish exactly when the delta columns hold
/// the first nonzero of the context, address and clock deltas (0 if none), the
/// same-context-and-word flag is 1 exactly when context and word address are unchanged, each
/// value lane of the next row is that of the current row times this flag, and a repeated access
/// to the same word at the same clock follows a read.
pub proof fn lemma_memory_transition(local: &MainCols<Felt>, next: &MainCols<Felt>)
    requires
        col(next, 3) == 1,
        delta_inverse_set(local, next),
    ensures
        all_vanish(memory_except_last_spec(1, local, next)) == {
            &&& fadd(fmul(col(next, 15), 65536), col(next, 14)) == first_nonzero_delta(local, next)
            &&& col(next, 17) == (if col(next, 5) == col(local, 5) && col(next, 6) == col(local, 6) {
                1int
            } else {
                0int
            })
            &&& forall|k: int| 0 <= k < 4 ==> #[trigger] col(next, 10 + k) == fmul(col(next, 17), col(local, 10 + k))
            &&& col(next, 17) == 1 && col(next, 9) == col(local, 9) ==> col(local, 3) == 1
        },
{
    broadcast use lemma_fadd_range, lemma_fmul_range, lemma_fsub_range;

    let cs = memory_except_last_spec(1, local, next);
    let dc = fsub(col(next, 5), col(local, 5));
    let da = fsub(col(next, 6), col(local, 6));
    let dk = fsub(col(next, 9), col(local, 9));
    let dinv = col(next, 16);
    assert forall|x: int| #[trigger] fmul(0, x) == 0 by {
        lemma_mul_zero(x);
    }
    assert forall|x: int| #[trigger] fmul(x, 0) == 0 by {
        lemma_mul_zero(x);
    }
    assert forall|x: int| 0 <= x < P implies #[trigger] fmul(1, x) == x && fmul(x, 1) == x && fadd(x, 0) == x && fadd(0, x)
        == x && fsub(x, 0) == x by {
        lemma_canonical(x);
    }
    assert forall|x: int, y: int| 0 <= x < P && 0 <= y < P implies (#[trigger] fsub(x, y) == 0) == (x == y) by {
        lemma_fsub_zero(x, y);
    }
    lemma_canonical(1);
    lemma_canonical(0);
    lemma_bool_ops(1, 1);
    lemma_bool_ops(0, 0);
    lemma_bool_ops(1, 0);
    lemma_bool_ops(0, 1);
    let n0 = n0_spec(local, next);
    let n1 = n1_spec(local, next);
    assert(n0 == (if dc != 0 { 1int } else { 0int }));
    assert(dc == 0 ==> n1 == (if da != 0 { 1int } else { 0int }));
    assert(computed_delta_spec(local, next) == first_nonzero_delta(local, next));
    let scw = col(next, 17);
    let expected_scw = if col(next, 5) == col(local, 5) && col(next, 6) == col(local, 6) { 1int } else { 0int };
    assert(fmul(fnot(n0), fnot(n1)) == expected_scw);
    assert forall|k: int| 0 <= k < 4 implies #[trigger] value_flag(next, k) == 1 by {
    }
    let clk_no_change = fsub(1, fmul(dk, dinv));
    let any_write = fadd(fsub(1, col(local, 3)), fsub(1, col(next, 3)));
    lemma_canonical(fsub(1, col(local, 3)));
    assert(any_write == fsub(1, col(local, 3)));
    assert(dc == 0 && da == 0 && dk != 0 ==> clk_no_change == 0);
    assert(dc == 0 && da == 0 && dk == 0 ==> clk_no_change == 1);
    assert(all_vanish(cs) == (cs[0].0 == 0 && cs[1].0 == 0 && cs[2].0 == 0 && cs[3].0 == 0 && cs[4].0 == 0 && cs[5].0
        == 0 && cs[6].0 == 0 && cs[7].0 == 0 && cs[8].0 == 0 && cs[9].0 == 0 && cs[10].0 == 0));
    assert(cs[0].0 == 0 && cs[1].0 == 0 && cs[2].0 == 0 && cs[3].0 == 0);
    assert((cs[4].0 == 0) == (fadd(fmul(col(next, 15), 65536), col(next, 14)) == first_nonzero_delta(local, next)));
    assert((cs[5].0 == 0) == (scw == expected_scw));
    assert forall|k: int| 0 <= k < 4 implies ((#[trigger] cs[7 + k]).0 == 0) == (col(next, 10 + k) == fmul(
        scw,
        col(local, 10 + k),
    )) by {
    }
    if scw == expected_scw {
        lemma_fsub_zero(1, col(local, 3));
        assert((cs[6].0 == 0) == (scw == 1 && col(next, 9) == col(local, 9) ==> col(local, 3) == 1));
    }
    assert(all_vanish(cs) ==> scw == expected_scw);
}

} // verus!
