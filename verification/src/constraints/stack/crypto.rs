//! Constraints of the crypto stack operations CRYPTOSTREAM, HORNERBASE and HORNEREXT.

use vstd::prelude::*;

use crate::constraint_set::{all_vanish, ConstraintSet, RowDomain};
use crate::constraints::op_flags::{op_flag, OpFlags};
use crate::field::{
    fadd, fmul, fsub, lemma_canonical, lemma_fadd_range, lemma_felt_range, lemma_fsub_range, lemma_fsub_zero, lemma_mul_zero, qadd,
    qbase, qmul, qscale, Felt, QuadFelt, P,
};
use crate::opcodes;
use crate::trace::MainCols;

verus! {

broadcast use lemma_felt_range;

// SPECIFICATION
// ================================================================================================

/// Stack item `i` of a row.
pub open spec fn s(row: &MainCols<Felt>, i: int) -> int {
    row.stack.top@[i]@
}

/// Helper register `i` of a row.
pub open spec fn helper(row: &MainCols<Felt>, i: int) -> int {
    row.decoder.hasher_state@[2 + i]@
}

/// CRYPTOSTREAM: stack items 8..16 unchanged, except the two stream pointers (12, 13) which
/// advance by 8.
pub open spec fn cryptostream_spec(gate: int, local: &MainCols<Felt>, next: &MainCols<Felt>) -> Seq<(int, RowDomain)> {
    Seq::new(
        8,
        |k: int|
            {
                let i = 8 + k;
                let expected = if i == 12 || i == 13 { fadd(s(local, i), 8) } else { s(local, i) };
                (fmul(gate, fsub(s(next, i), expected)), RowDomain::Transition)
            },
    )
}

/// Stack items 0..14 unchanged.
pub open spec fn low_items_unchanged(gate: int, local: &MainCols<Felt>, next: &MainCols<Felt>) -> Seq<(int, RowDomain)> {
    Seq::new(14, |i: int| (fmul(gate, fsub(s(next, i), s(local, i))), RowDomain::Transition))
}

/// The HORNERBASE expectations `(tmp0, tmp1, acc')`, with `alpha = (h0, h1)`, `tmp1 = (h2, h3)`,
/// `tmp0 = (h4, h5)`, `acc = (s14, s15)` and the base field coefficients `c_i = s_i`:
/// `tmp0 = acc * alpha^2 + (c0 * alpha + c1)`, `tmp1 = tmp0 * alpha^3 + (c2 * alpha^2 + c3 * alpha
/// + c4)`, `acc' = tmp1 * alpha^3 + (c5 * alpha^2 + c6 * alpha + c7)`.
pub open spec fn hornerbase_expected(local: &MainCols<Felt>) -> ((int, int), (int, int), (int, int)) {
    let alpha = (helper(local, 0), helper(local, 1));
    let alpha2 = qmul(alpha, alpha);
    let alpha3 = qmul(alpha2, alpha);
    let acc = (s(local, 14), s(local, 15));
    let tmp0 = (helper(local, 4), helper(local, 5));
    let tmp1 = (helper(local, 2), helper(local, 3));
    let c = |i: int| s(local, i);
    (
        qadd(qadd(qmul(acc, alpha2), qscale(alpha, c(0))), qbase(c(1))),
        qadd(qadd(qadd(qmul(tmp0, alpha3), qscale(alpha2, c(2))), qscale(alpha, c(3))), qbase(c(4))),
        qadd(qadd(qadd(qmul(tmp1, alpha3), qscale(alpha2, c(5))), qscale(alpha, c(6))), qbase(c(7))),
    )
}

/// The HORNERBASE constraints.
pub open spec fn hornerbase_spec(gate: int, local: &MainCols<Felt>, next: &MainCols<Felt>) -> Seq<(int, RowDomain)> {
    let e = hornerbase_expected(local);
    low_items_unchanged(gate, local, next) + seq![
        (fmul(gate, fsub(helper(local, 4), e.0.0)), RowDomain::EveryRow),
        (fmul(gate, fsub(helper(local, 5), e.0.1)), RowDomain::EveryRow),
        (fmul(gate, fsub(helper(local, 2), e.1.0)), RowDomain::EveryRow),
        (fmul(gate, fsub(helper(local, 3), e.1.1)), RowDomain::EveryRow),
        (fmul(gate, fsub(s(next, 14), e.2.0)), RowDomain::Transition),
        (fmul(gate, fsub(s(next, 15), e.2.1)), RowDomain::Transition),
    ]
}

/// The HORNEREXT expectations `(tmp, acc')`, with `alpha = (h0, h1)`, `tmp = (h4, h5)`,
/// `acc = (s14, s15)` and the extension coefficients `c_k = (s_{2k}, s_{2k+1})`:
/// `tmp = acc * alpha^2 + (c0 * alpha + c1)`, `acc' = tmp * alpha^2 + (c2 * alpha + c3)`.
pub open spec fn hornerext_expected(local: &MainCols<Felt>) -> ((int, int), (int, int)) {
    let alpha = (helper(local, 0), helper(local, 1));
    let alpha2 = qmul(alpha, alpha);
    let acc = (s(local, 14), s(local, 15));
    let tmp = (helper(local, 4), helper(local, 5));
    let c = |k: int| (s(local, 2 * k), s(local, 2 * k + 1));
    (
        qadd(qadd(qmul(acc, alpha2), qmul(alpha, c(0))), c(1)),
        qadd(qadd(qmul(tmp, alpha2), qmul(alpha, c(2))), c(3)),
    )
}

/// The HORNEREXT constraints.
pub open spec fn hornerext_spec(gate: int, local: &MainCols<Felt>, next: &MainCols<Felt>) -> Seq<(int, RowDomain)> {
    let e = hornerext_expected(local);
    low_items_unchanged(gate, local, next) + seq![
        (fmul(gate, fsub(helper(local, 4), e.0.0)), RowDomain::EveryRow),
        (fmul(gate, fsub(helper(local, 5), e.0.1)), RowDomain::EveryRow),
        (fmul(gate, fsub(s(next, 14), e.1.0)), RowDomain::Transition),
        (fmul(gate, fsub(s(next, 15), e.1.1)), RowDomain::Transition),
    ]
}

/// All crypto operation constraints.
pub open spec fn crypto_spec(f: &OpFlags, local: &MainCols<Felt>, next: &MainCols<Felt>) -> Seq<(int, RowDomain)> {
    cryptostream_spec(op_flag(f, opcodes::CRYPTOSTREAM), local, next) + hornerbase_spec(
        op_flag(f, opcodes::HORNERBASE),
        local,
        next,
    ) + hornerext_spec(op_flag(f, opcodes::HORNEREXT), local, next)
}

// CONSTRAINTS
// ================================================================================================

/// Asserts `gate * (next[i] - local[i])` for the stack items `0..14` on transition rows.
fn enforce_low_items_unchanged(builder: &mut ConstraintSet, gate: Felt, local: &MainCols<Felt>, next: &MainCols<Felt>)
    ensures
        final(builder).base_view() == old(builder).base_view() + low_items_unchanged(gate@, local, next),
        final(builder).ext_view() == old(builder).ext_view(),
        final(builder).tags_view() == old(builder).tags_view(),
{
    let mut values: Vec<Felt> = Vec::new();
    let mut i: usize = 0;
    while i < 14
        invariant
            i <= 14,
            values@.len() == i,
            forall|k: int| 0 <= k < i ==> #[trigger] values@[k]@ == fmul(gate@, fsub(s(next, k), s(local, k))),
        decreases 14 - i,
    {
        values.push(gate.mul(next.stack.top[i].sub(local.stack.top[i])));
        i += 1;
    }
    builder.assert_zeros(&values, RowDomain::Transition);
    assert(values@.map_values(|v: Felt| (v@, RowDomain::Transition)) =~= low_items_unchanged(gate@, local, next));
}

/// Enforces the CRYPTOSTREAM constraints.
fn enforce_cryptostream_constraints(builder: &mut ConstraintSet, local: &MainCols<Felt>, next: &MainCols<Felt>, op_flags: &OpFlags)
    requires
        op_flags.wf(),
    ensures
        final(builder).base_view() == old(builder).base_view() + cryptostream_spec(op_flag(op_flags, opcodes::CRYPTOSTREAM), local, next),
        final(builder).ext_view() == old(builder).ext_view(),
        final(builder).tags_view() == old(builder).tags_view(),
{
    let gate = op_flags.cryptostream();
    let l = &local.stack.top;
    let n = &next.stack.top;
    let eight = Felt::new(8);
    let values = vec![
        gate.mul(n[8].sub(l[8])),
        gate.mul(n[9].sub(l[9])),
        gate.mul(n[10].sub(l[10])),
        gate.mul(n[11].sub(l[11])),
        gate.mul(n[12].sub(l[12].add(eight))),
        gate.mul(n[13].sub(l[13].add(eight))),
        gate.mul(n[14].sub(l[14])),
        gate.mul(n[15].sub(l[15])),
    ];
    builder.assert_zeros(&values, RowDomain::Transition);
    assert(values@.map_values(|v: Felt| (v@, RowDomain::Transition)) =~= cryptostream_spec(gate@, local, next));
}

/// Enforces the HORNERBASE constraints: a degree-7 Horner step over the extension field.
fn enforce_hornerbase_constraints(builder: &mut ConstraintSet, local: &MainCols<Felt>, next: &MainCols<Felt>, op_flags: &OpFlags)
    requires
        op_flags.wf(),
    ensures
        final(builder).base_view() == old(builder).base_view() + hornerbase_spec(op_flag(op_flags, opcodes::HORNERBASE), local, next),
        final(builder).ext_view() == old(builder).ext_view(),
        final(builder).tags_view() == old(builder).tags_view(),
{
    let gate = op_flags.hornerbase();
    let ghost start = builder.base_view();
    enforce_low_items_unchanged(builder, gate, local, next);
    let h = &local.decoder.hasher_state;
    let l = &local.stack.top;
    let alpha = QuadFelt::new(h[2], h[3]);
    let alpha2 = alpha.square();
    let alpha3 = alpha2.mul(alpha);
    let acc = QuadFelt::new(l[14], l[15]);
    let tmp0 = QuadFelt::new(h[6], h[7]);
    let tmp1 = QuadFelt::new(h[4], h[5]);
    let tmp0_expected = acc.mul(alpha2).add(alpha.scale(l[0])).add_base(l[1]);
    let tmp1_expected = tmp0.mul(alpha3).add(alpha2.scale(l[2])).add(alpha.scale(l[3])).add_base(l[4]);
    let acc_expected = tmp1.mul(alpha3).add(alpha2.scale(l[5])).add(alpha.scale(l[6])).add_base(l[7]);
    builder.assert_zero(gate.mul(h[6].sub(tmp0_expected.c0)), RowDomain::EveryRow);
    builder.assert_zero(gate.mul(h[7].sub(tmp0_expected.c1)), RowDomain::EveryRow);
    builder.assert_zero(gate.mul(h[4].sub(tmp1_expected.c0)), RowDomain::EveryRow);
    builder.assert_zero(gate.mul(h[5].sub(tmp1_expected.c1)), RowDomain::EveryRow);
    builder.assert_zero(gate.mul(next.stack.top[14].sub(acc_expected.c0)), RowDomain::Transition);
    builder.assert_zero(gate.mul(next.stack.top[15].sub(acc_expected.c1)), RowDomain::Transition);
    assert(builder.base_view() =~= start + hornerbase_spec(gate@, local, next));
}

/// Enforces the HORNEREXT constraints: a degree-3 Horner step over the extension field.
fn enforce_hornerext_constraints(builder: &mut ConstraintSet, local: &MainCols<Felt>, next: &MainCols<Felt>, op_flags: &OpFlags)
    requires
        op_flags.wf(),
    ensures
        final(builder).base_view() == old(builder).base_view() + hornerext_spec(op_flag(op_flags, opcodes::HORNEREXT), local, next),
        final(builder).ext_view() == old(builder).ext_view(),
        final(builder).tags_view() == old(builder).tags_view(),
{
    let gate = op_flags.hornerext();
    let ghost start = builder.base_view();
    enforce_low_items_unchanged(builder, gate, local, next);
    let h = &local.decoder.hasher_state;
    let l = &local.stack.top;
    let alpha = QuadFelt::new(h[2], h[3]);
    let alpha2 = alpha.square();
    let acc = QuadFelt::new(l[14], l[15]);
    let tmp = QuadFelt::new(h[6], h[7]);
    let c0 = QuadFelt::new(l[0], l[1]);
    let c1 = QuadFelt::new(l[2], l[3]);
    let c2 = QuadFelt::new(l[4], l[5]);
    let c3 = QuadFelt::new(l[6], l[7]);
    let tmp_expected = acc.mul(alpha2).add(alpha.mul(c0)).add(c1);
    let acc_expected = tmp.mul(alpha2).add(alpha.mul(c2)).add(c3);
    builder.assert_zero(gate.mul(h[6].sub(tmp_expected.c0)), RowDomain::EveryRow);
    builder.assert_zero(gate.mul(h[7].sub(tmp_expected.c1)), RowDomain::EveryRow);
    builder.assert_zero(gate.mul(next.stack.top[14].sub(acc_expected.c0)), RowDomain::Transition);
    builder.assert_zero(gate.mul(next.stack.top[15].sub(acc_expected.c1)), RowDomain::Transition);
    assert(builder.base_view() =~= start + hornerext_spec(gate@, local, next));
}

/// Enforces the constraints of the crypto operations CRYPTOSTREAM, HORNERBASE and HORNEREXT.
pub fn enforce_main(builder: &mut ConstraintSet, local: &MainCols<Felt>, next: &MainCols<Felt>, op_flags: &OpFlags)
    requires
        op_flags.wf(),
    ensures
        final(builder).base_view() == old(builder).base_view() + crypto_spec(op_flags, local, next),
        final(builder).ext_view() == old(builder).ext_view(),
        final(builder).tags_view() == old(builder).tags_view(),
{
    let ghost start = builder.base_view();
    enforce_cryptostream_constraints(builder, local, next, op_flags);
    enforce_hornerbase_constraints(builder, local, next, op_flags);
    enforce_hornerext_constraints(builder, local, next, op_flags);
    assert(builder.base_view() =~= start + crypto_spec(op_flags, local, next));
}


// LAWS
// ================================================================================================

/// The CRYPTOSTREAM law: with a binary flag, the constraints vanish exactly when, on a
/// CRYPTOSTREAM row, stack items 8..16 are unchanged except the two stream pointers (items 12
/// and 13), which advance by 8.
pub proof fn lemma_cryptostream_vanish(gate: int, local: &MainCols<Felt>, next: &MainCols<Felt>)
    requires
        gate == 0 || gate == 1,
    ensures
        all_vanish(cryptostream_spec(gate, local, next)) == (gate == 1 ==> forall|k: int|
            0 <= k < 8 ==> #[trigger] s(next, 8 + k) == (if k == 4 || k == 5 {
                fadd(s(local, 8 + k), 8)
            } else {
                s(local, 8 + k)
            })),
{
    broadcast use lemma_fadd_range, lemma_fsub_range;

    let cs = cryptostream_spec(gate, local, next);
    assert forall|x: int| #[trigger] fmul(0, x) == 0 by {
        lemma_mul_zero(x);
    }
    assert forall|x: int| 0 <= x < P implies #[trigger] fmul(1, x) == x by {
        lemma_canonical(x);
    }
    assert forall|x: int, y: int| 0 <= x < P && 0 <= y < P implies (#[trigger] fsub(x, y) == 0) == (x == y) by {
        lemma_fsub_zero(x, y);
    }
    if gate == 1 {
        if all_vanish(cs) {
            assert forall|k: int| 0 <= k < 8 implies #[trigger] s(next, 8 + k) == (if k == 4 || k == 5 {
                fadd(s(local, 8 + k), 8)
            } else {
                s(local, 8 + k)
            }) by {
                assert(cs[k].0 == 0);
            }
        }
    } else {
        assert forall|i: int| 0 <= i < cs.len() implies (#[trigger] cs[i]).0 == 0 by {
        }
    }
}


/// The HORNEREXT law. With `alpha = (h0, h1)`, `acc = (s14, s15)`, `tmp = (h4, h5)` and the
/// extension coefficients `c_k = (s_{2k}, s_{2k+1})`, the constraints of a HORNEREXT row vanish
/// exactly when stack items `0..14` are unchanged, `tmp = acc * alpha^2 + c0 * alpha + c1` and
/// `acc' = tmp * alpha^2 + c2 * alpha + c3`, in the quadratic extension.
pub proof fn lemma_hornerext(local: &MainCols<Felt>, next: &MainCols<Felt>)
    ensures
        all_vanish(hornerext_spec(1, local, next)) == ({
            let alpha = (helper(local, 0), helper(local, 1));
            let c = |k: int| (s(local, 2 * k), s(local, 2 * k + 1));
            let tmp = (helper(local, 4), helper(local, 5));
            &&& forall|i: int| 0 <= i < 14 ==> #[trigger] s(next, i) == s(local, i)
            &&& tmp == qadd(qadd(qmul((s(local, 14), s(local, 15)), qmul(alpha, alpha)), qmul(alpha, c(0))), c(1))
            &&& (s(next, 14), s(next, 15)) == qadd(qadd(qmul(tmp, qmul(alpha, alpha)), qmul(alpha, c(2))), c(3))
        }),
{
    broadcast use lemma_fadd_range, lemma_fsub_range, crate::field::lemma_fmul_range;

    let cs = hornerext_spec(1, local, next);
    let low = low_items_unchanged(1, local, next);
    assert forall|x: int| 0 <= x < P implies #[trigger] fmul(1, x) == x by {
        lemma_canonical(x);
    }
    assert forall|x: int, y: int| 0 <= x < P && 0 <= y < P implies (#[trigger] fsub(x, y) == 0) == (x == y) by {
        lemma_fsub_zero(x, y);
    }
    assert(all_vanish(low) == (forall|i: int| 0 <= i < 14 ==> #[trigger] s(next, i) == s(local, i))) by {
        if all_vanish(low) {
            assert forall|i: int| 0 <= i < 14 implies #[trigger] s(next, i) == s(local, i) by {
                assert(low[i].0 == 0);
            }
        }
    }
    let tail = seq![
        (fmul(1, fsub(helper(local, 4), hornerext_expected(local).0.0)), RowDomain::EveryRow),
        (fmul(1, fsub(helper(local, 5), hornerext_expected(local).0.1)), RowDomain::EveryRow),
        (fmul(1, fsub(s(next, 14), hornerext_expected(local).1.0)), RowDomain::Transition),
        (fmul(1, fsub(s(next, 15), hornerext_expected(local).1.1)), RowDomain::Transition),
    ];
    assert(cs == low + tail);
    crate::constraint_set::lemma_all_vanish_concat(low, tail);
    assert(all_vanish(tail) == (tail[0].0 == 0 && tail[1].0 == 0 && tail[2].0 == 0 && tail[3].0 == 0));
}


/// The HORNERBASE law. With `alpha = (h0, h1)`, `acc = (s14, s15)`, `tmp0 = (h4, h5)`,
/// `tmp1 = (h2, h3)` and the base field coefficients `c_i = s_i`, the constraints of a HORNERBASE
/// row vanish exactly when stack items `0..14` are unchanged,
/// `tmp0 = acc * alpha^2 + c0 * alpha + c1`, `tmp1 = tmp0 * alpha^3 + c2 * alpha^2 + c3 * alpha +
/// c4` and `acc' = tmp1 * alpha^3 + c5 * alpha^2 + c6 * alpha + c7`, in the quadratic extension.
pub proof fn lemma_hornerbase(local: &MainCols<Felt>, next: &MainCols<Felt>)
    ensures
        all_vanish(hornerbase_spec(1, local, next)) == ({
            let alpha = (helper(local, 0), helper(local, 1));
            let a2 = qmul(alpha, alpha);
            let a3 = qmul(qmul(alpha, alpha), alpha);
            let tmp0 = (helper(local, 4), helper(local, 5));
            let tmp1 = (helper(local, 2), helper(local, 3));
            &&& forall|i: int| 0 <= i < 14 ==> #[trigger] s(next, i) == s(local, i)
            &&& tmp0 == qadd(qadd(qmul((s(local, 14), s(local, 15)), a2), qscale(alpha, s(local, 0))), qbase(s(local, 1)))
            &&& tmp1 == qadd(
                qadd(qadd(qmul(tmp0, a3), qscale(a2, s(local, 2))), qscale(alpha, s(local, 3))),
                qbase(s(local, 4)),
            )
            &&& (s(next, 14), s(next, 15)) == qadd(
                qadd(qadd(qmul(tmp1, a3), qscale(a2, s(local, 5))), qscale(alpha, s(local, 6))),
                qbase(s(local, 7)),
            )
        }),
{
    broadcast use lemma_fadd_range, lemma_fsub_range, crate::field::lemma_fmul_range;

    let cs = hornerbase_spec(1, local, next);
    let low = low_items_unchanged(1, local, next);
    assert forall|x: int| 0 <= x < P implies #[trigger] fmul(1, x) == x by {
        lemma_canonical(x);
    }
    assert forall|x: int, y: int| 0 <= x < P && 0 <= y < P implies (#[trigger] fsub(x, y) == 0) == (x == y) by {
        lemma_fsub_zero(x, y);
    }
    assert(all_vanish(low) == (forall|i: int| 0 <= i < 14 ==> #[trigger] s(next, i) == s(local, i))) by {
        if all_vanish(low) {
            assert forall|i: int| 0 <= i < 14 implies #[trigger] s(next, i) == s(local, i) by {
                assert(low[i].0 == 0);
            }
        }
    }
    let e = hornerbase_expected(local);
    let tail = seq![
        (fmul(1, fsub(helper(local, 4), e.0.0)), RowDomain::EveryRow),
        (fmul(1, fsub(helper(local, 5), e.0.1)), RowDomain::EveryRow),
        (fmul(1, fsub(helper(local, 2), e.1.0)), RowDomain::EveryRow),
        (fmul(1, fsub(helper(local, 3), e.1.1)), RowDomain::EveryRow),
        (fmul(1, fsub(s(next, 14), e.2.0)), RowDomain::Transition),
        (fmul(1, fsub(s(next, 15), e.2.1)), RowDomain::Transition),
    ];
    assert(cs == low + tail);
    crate::constraint_set::lemma_all_vanish_concat(low, tail);
    assert(all_vanish(tail) == (tail[0].0 == 0 && tail[1].0 == 0 && tail[2].0 == 0 && tail[3].0 == 0 && tail[4].0 == 0
        && tail[5].0 == 0));
}

} // verus!
