//! ACE wiring bus (`v_wiring`), a LogUp bus that checks the wires of the arithmetic circuits.
//!
//! A READ row inserts its wires 0 and 1 with multiplicities `m0` and `m1`; an EVAL row inserts
//! its output wire 0 with multiplicity `m0` and removes its input wires 1 and 2. Over the common
//! denominator `w0 * w1 * w2` the constraint is
//! `delta * w0 * w1 * w2 = read * (m0 * w1 * w2 + m1 * w0 * w2)
//!                      + eval * (m0 * w1 * w2 - w0 * w2 - w0 * w1)`.

use vstd::prelude::*;

use crate::constraint_set::{ConstraintSet, EvalContext, RowDomain};
use crate::constraints::chiplets::bus::chiplets::responses::col;
use crate::constraints::chiplets::selectors::ChipletSelectors;
use crate::constraints::utils::felt_values;
use crate::field::{
    fmul, fnot, lemma_bool_ops, lemma_canonical, lemma_fadd_range, lemma_felt_range, lemma_fmul_range, lemma_fsub_range,
    lemma_mul_zero, lemma_qmul_one, lemma_qsub_zero, qadd, qmul, qscale, qsub, Felt, QuadFelt,
};
use crate::trace::bus_types::ACE_WIRING_BUS;
use crate::trace::challenges::Challenges;
use crate::trace::{MainCols, ACE_CHIPLET_WIRING_BUS_OFFSET};

verus! {

broadcast use lemma_felt_range;

/// Auxiliary column of the ACE wiring bus.
pub const V_WIRING: usize = ACE_CHIPLET_WIRING_BUS_OFFSET;

/// A wire of an ACE row: its id and its two value limbs.
pub struct AceWire {
    pub id: Felt,
    pub v0: Felt,
    pub v1: Felt,
}

/// The message of wire `k` (columns `10 + 3k .. 13 + 3k`): `[clk, ctx, id, v0, v1]`.
pub open spec fn wire_spec(ch: &Challenges, local: &MainCols<Felt>, k: int) -> (int, int) {
    ch.message(
        ACE_WIRING_BUS as int,
        seq![col(local, 8), col(local, 6), col(local, 10 + 3 * k), col(local, 11 + 3 * k), col(local, 12 + 3 * k)],
    )
}

/// The wiring constraint.
pub open spec fn wiring_constraint_spec(ctx: &EvalContext, local: &MainCols<Felt>, ch: &Challenges, selectors: &ChipletSelectors) -> (int, int) {
    let w0 = wire_spec(ch, local, 0);
    let w1 = wire_spec(ch, local, 1);
    let w2 = wire_spec(ch, local, 2);
    let m0 = col(local, 19);
    let m1 = col(local, 18);
    let sblock = col(local, 5);
    let delta = qsub(ctx.aux_next(V_WIRING as int), ctx.aux_local(V_WIRING as int));
    let read_terms = qadd(qscale(qmul(w1, w2), m0), qscale(qmul(w0, w2), m1));
    let eval_terms = qsub(qsub(qscale(qmul(w1, w2), m0), qmul(w0, w2)), qmul(w0, w1));
    let read_gate = fmul(selectors.ace.is_active@, fnot(sblock));
    let eval_gate = fmul(selectors.ace.is_active@, sblock);
    let common_den = qmul(qmul(w0, w1), w2);
    let rhs = qadd(qscale(read_terms, read_gate), qscale(eval_terms, eval_gate));
    qsub(qmul(delta, common_den), rhs)
}

/// Encodes a wire as `[clk, ctx, id, v0, v1]` on the ACE wiring bus.
pub fn encode_wire(ch: &Challenges, clk: Felt, ctx: Felt, wire: &AceWire) -> (r: QuadFelt)
    requires
        ch.wf(),
    ensures
        r@ == ch.message(ACE_WIRING_BUS as int, seq![clk@, ctx@, wire.id@, wire.v0@, wire.v1@]),
{
    let m = [clk, ctx, wire.id, wire.v0, wire.v1];
    assert(felt_values(m@) =~= seq![clk@, ctx@, wire.id@, wire.v0@, wire.v1@]);
    ch.encode(ACE_WIRING_BUS, m.as_slice())
}

/// Enforces the ACE wiring bus constraint on every transition.
pub fn enforce_wiring_bus_constraint(
    builder: &mut ConstraintSet,
    ctx: &EvalContext,
    local: &MainCols<Felt>,
    _next: &MainCols<Felt>,
    challenges: &Challenges,
    selectors: &ChipletSelectors,
)
    requires
        ctx.wf(),
        challenges.wf(),
    ensures
        final(builder).ext_view() == old(builder).ext_view().push(
            (wiring_constraint_spec(ctx, local, challenges, selectors), RowDomain::Transition),
        ),
        final(builder).base_view() == old(builder).base_view(),
        final(builder).tags_view() == old(builder).tags_view(),
{
    let v_local = ctx.aux.current_slice()[V_WIRING];
    let v_next = ctx.aux.next_slice()[V_WIRING];
    let ace = local.ace();
    let sblock = ace.s_block;
    let s = &ace.shared;
    let wire_0 = AceWire { id: s[0], v0: s[1], v1: s[2] };
    let wire_1 = AceWire { id: s[3], v0: s[4], v1: s[5] };
    let wire_2 = AceWire { id: s[6], v0: s[7], v1: s[8] };
    let m0 = s[9];
    let m1 = s[8];
    let w0 = encode_wire(challenges, ace.clk, ace.ctx, &wire_0);
    let w1 = encode_wire(challenges, ace.clk, ace.ctx, &wire_1);
    let w2 = encode_wire(challenges, ace.clk, ace.ctx, &wire_2);
    let delta = v_next.sub(v_local);
    let read_terms = w1.mul(w2).scale(m0).add(w0.mul(w2).scale(m1));
    let eval_terms = w1.mul(w2).scale(m0).sub(w0.mul(w2)).sub(w0.mul(w1));
    let read_gate = selectors.ace.is_active.mul(sblock.not());
    let eval_gate = selectors.ace.is_active.mul(sblock);
    let common_den = w0.mul(w1).mul(w2);
    let rhs = read_terms.scale(read_gate).add(eval_terms.scale(eval_gate));
    builder.assert_zero_ext(delta.mul(common_den).sub(rhs), RowDomain::Transition);
}


// LAWS
// ================================================================================================

/// The change `v' - v` of the wiring bus.
pub open spec fn wiring_delta(ctx: &EvalContext) -> (int, int) {
    qsub(ctx.aux_next(V_WIRING as int), ctx.aux_local(V_WIRING as int))
}

/// The common denominator `w0 * w1 * w2` of a row's wires.
pub open spec fn wiring_denominator(ch: &Challenges, local: &MainCols<Felt>) -> (int, int) {
    qmul(qmul(wire_spec(ch, local, 0), wire_spec(ch, local, 1)), wire_spec(ch, local, 2))
}

/// A READ row's insertions over the common denominator: `m0 * w1 * w2 + m1 * w0 * w2`, that is
/// `m0 / w0 + m1 / w1`.
pub open spec fn wiring_read_terms(ch: &Challenges, local: &MainCols<Felt>) -> (int, int) {
    let w0 = wire_spec(ch, local, 0);
    let w1 = wire_spec(ch, local, 1);
    let w2 = wire_spec(ch, local, 2);
    qadd(qscale(qmul(w1, w2), col(local, 19)), qscale(qmul(w0, w2), col(local, 18)))
}

/// An EVAL row's insertion and removals over the common denominator:
/// `m0 * w1 * w2 - w0 * w2 - w0 * w1`, that is `m0 / w0 - 1 / w1 - 1 / w2`.
pub open spec fn wiring_eval_terms(ch: &Challenges, local: &MainCols<Felt>) -> (int, int) {
    let w0 = wire_spec(ch, local, 0);
    let w1 = wire_spec(ch, local, 1);
    let w2 = wire_spec(ch, local, 2);
    qsub(qsub(qscale(qmul(w1, w2), col(local, 19)), qmul(w0, w2)), qmul(w0, w1))
}

/// The wiring constraint case by case, over the common denominator of the row's wires, with a
/// binary ACE selector `a` and block selector `s_block`: off the ACE chiplet it is
/// `(v' - v) * w0 * w1 * w2` and vanishes when the bus is unchanged; on a READ row it vanishes
/// exactly when `(v' - v) * w0 * w1 * w2 = m0 * w1 * w2 + m1 * w0 * w2`; on an EVAL row exactly
/// when `(v' - v) * w0 * w1 * w2 = m0 * w1 * w2 - w0 * w2 - w0 * w1`.
pub proof fn lemma_wiring_cases(ctx: &EvalContext, local: &MainCols<Felt>, ch: &Challenges, selectors: &ChipletSelectors)
    requires
        ctx.wf(),
        selectors.ace.is_active@ == 0 || selectors.ace.is_active@ == 1,
        col(local, 5) == 0 || col(local, 5) == 1,
    ensures
        selectors.ace.is_active@ == 0 ==> wiring_constraint_spec(ctx, local, ch, selectors) == qmul(
            wiring_delta(ctx),
            wiring_denominator(ch, local),
        ),
        selectors.ace.is_active@ == 0 && ctx.aux_next(V_WIRING as int) == ctx.aux_local(V_WIRING as int)
            ==> wiring_constraint_spec(ctx, local, ch, selectors) == (0int, 0int),
        selectors.ace.is_active@ == 1 && col(local, 5) == 0 ==> (wiring_constraint_spec(ctx, local, ch, selectors)
            == (0int, 0int)) == (qmul(wiring_delta(ctx), wiring_denominator(ch, local)) == wiring_read_terms(
            ch,
            local,
        )),
        selectors.ace.is_active@ == 1 && col(local, 5) == 1 ==> (wiring_constraint_spec(ctx, local, ch, selectors)
            == (0int, 0int)) == (qmul(wiring_delta(ctx), wiring_denominator(ch, local)) == wiring_eval_terms(
            ch,
            local,
        )),
{
    broadcast use lemma_fadd_range, lemma_fmul_range, lemma_fsub_range;

    let a = selectors.ace.is_active@;
    let sb = col(local, 5);
    lemma_bool_ops(sb, sb);
    lemma_bool_ops(a, sb);
    lemma_bool_ops(a, fnot(sb));
    assert forall|x: int| #[trigger] fmul(0, x) == 0 by {
        lemma_mul_zero(x);
    }
    assert forall|x: int| #[trigger] fmul(x, 0) == 0 by {
        lemma_mul_zero(x);
    }
    let lhs = qmul(wiring_delta(ctx), wiring_denominator(ch, local));
    let rt = wiring_read_terms(ch, local);
    let et = wiring_eval_terms(ch, local);
    lemma_qmul_one(lhs);
    lemma_qmul_one(rt);
    lemma_qmul_one(et);
    lemma_canonical(0);
    lemma_canonical(lhs.0);
    lemma_canonical(lhs.1);
    lemma_qsub_zero(lhs, rt);
    lemma_qsub_zero(lhs, et);
    let v = ctx.aux_local(V_WIRING as int);
    assert(v == ctx.aux.current()[V_WIRING as int]@);
    lemma_canonical(v.0);
    lemma_canonical(v.1);
    let den = wiring_denominator(ch, local);
    lemma_mul_zero(den.0);
    lemma_mul_zero(den.1);
    lemma_mul_zero(0);
    if ctx.aux_next(V_WIRING as int) == v {
        assert(wiring_delta(ctx) == (0int, 0int));
        assert(lhs == (0int, 0int));
    }
}

} // verus!
