//! Merkle path constraints of the hasher chiplet: the node index shifts one bit per level, and
//! on an absorb row the current digest moves into the half of the next rate that its index bit
//! selects.

use vstd::prelude::*;

use super::{hasher_values, merkle_absorb_value, merkle_active_value, HasherFlags};
use crate::constraint_set::{all_vanish, ConstraintSet, RowDomain};
use crate::field::{
    fadd, fmul, fnot, fsub, lemma_canonical, lemma_felt_range, lemma_fmul_range, lemma_fsub_range, lemma_fsub_zero, lemma_mul_zero,
    Felt, P,
};
use crate::trace::chiplets::HasherCols;

verus! {

broadcast use lemma_felt_range;

/// The index bit `i - 2 * i'` of the hasher column values `h`, `hn` of two rows.
pub open spec fn index_bit(h: Seq<int>, hn: Seq<int>) -> int {
    fsub(h[15], fadd(hn[15], hn[15]))
}

/// The node index constraints: 0 on output rows, a binary shift on Merkle rows, unchanged
/// elsewhere.
pub open spec fn node_index_spec(hasher_flag: int, h: Seq<int>, hn: Seq<int>, fv: Seq<int>) -> Seq<(int, RowDomain)> {
    let b = index_bit(h, hn);
    let f_shift = merkle_active_value(fv);
    let keep = fnot(fadd(fv[5], f_shift));
    seq![
        (fmul(hasher_flag, fmul(fv[5], h[15])), RowDomain::EveryRow),
        (fmul(hasher_flag, fmul(f_shift, fmul(b, fsub(b, 1)))), RowDomain::EveryRow),
        (fmul(hasher_flag, fmul(keep, fsub(hn[15], h[15]))), RowDomain::EveryRow),
    ]
}

/// Enforces the node index constraints.
pub fn enforce_node_index_constraints(
    builder: &mut ConstraintSet,
    hasher_flag: Felt,
    cols: &HasherCols<Felt>,
    cols_next: &HasherCols<Felt>,
    flags: &HasherFlags,
)
    ensures
        final(builder).base_view() == old(builder).base_view() + node_index_spec(hasher_flag@, hasher_values(cols), hasher_values(cols_next), flags.values()),
        final(builder).ext_view() == old(builder).ext_view(),
        final(builder).tags_view() == old(builder).tags_view(),
{
    let node_index = cols.node_index;
    let node_index_next = cols_next.node_index;
    let ghost start = builder.base_view();
    builder.assert_zero(hasher_flag.mul(flags.f_out.mul(node_index)), RowDomain::EveryRow);
    let f_shift = flags.f_merkle_active();
    let b = node_index.sub(node_index_next.double());
    builder.assert_zero(hasher_flag.mul(f_shift.mul(b.mul(b.sub(Felt::one())))), RowDomain::EveryRow);
    let keep = flags.f_out.add(f_shift).not();
    builder.assert_zero(hasher_flag.mul(keep.mul(node_index_next.sub(node_index))), RowDomain::EveryRow);
    assert(builder.base_view() =~= start + node_index_spec(hasher_flag@, hasher_values(cols), hasher_values(cols_next), flags.values()));
}

/// The absorb constraints: the next capacity is 0 and the digest `h[0..4]` moves into RATE0
/// (index bit 0) or RATE1 (index bit 1) of the next row.
pub open spec fn merkle_absorb_spec(hasher_flag: int, h: Seq<int>, hn: Seq<int>, fv: Seq<int>) -> Seq<(int, RowDomain)> {
    let g = fmul(hasher_flag, merkle_absorb_value(fv));
    let b = index_bit(h, hn);
    Seq::new(4, |i: int| (fmul(g, hn[11 + i]), RowDomain::EveryRow))
        + Seq::new(4, |i: int| (fmul(g, fmul(fnot(b), fsub(hn[3 + i], h[3 + i]))), RowDomain::EveryRow))
        + Seq::new(4, |i: int| (fmul(g, fmul(b, fsub(hn[7 + i], h[3 + i]))), RowDomain::EveryRow))
}

/// Enforces the Merkle absorb constraints.
pub fn enforce_merkle_absorb_state(
    builder: &mut ConstraintSet,
    hasher_flag: Felt,
    cols: &HasherCols<Felt>,
    cols_next: &HasherCols<Felt>,
    flags: &HasherFlags,
)
    ensures
        final(builder).base_view() == old(builder).base_view() + merkle_absorb_spec(hasher_flag@, hasher_values(cols), hasher_values(cols_next), flags.values()),
        final(builder).ext_view() == old(builder).ext_view(),
        final(builder).tags_view() == old(builder).tags_view(),
{
    let g = hasher_flag.mul(flags.f_merkle_absorb());
    let digest = cols.digest();
    let rate0_next = cols_next.rate0();
    let rate1_next = cols_next.rate1();
    let cap_next = cols_next.capacity();
    let b = cols.node_index.sub(cols_next.node_index.double());
    let not_b = b.not();
    let ghost start = builder.base_view();
    builder.assert_zero(g.mul(cap_next[0]), RowDomain::EveryRow);
    builder.assert_zero(g.mul(cap_next[1]), RowDomain::EveryRow);
    builder.assert_zero(g.mul(cap_next[2]), RowDomain::EveryRow);
    builder.assert_zero(g.mul(cap_next[3]), RowDomain::EveryRow);
    builder.assert_zero(g.mul(not_b.mul(rate0_next[0].sub(digest[0]))), RowDomain::EveryRow);
    builder.assert_zero(g.mul(not_b.mul(rate0_next[1].sub(digest[1]))), RowDomain::EveryRow);
    builder.assert_zero(g.mul(not_b.mul(rate0_next[2].sub(digest[2]))), RowDomain::EveryRow);
    builder.assert_zero(g.mul(not_b.mul(rate0_next[3].sub(digest[3]))), RowDomain::EveryRow);
    builder.assert_zero(g.mul(b.mul(rate1_next[0].sub(digest[0]))), RowDomain::EveryRow);
    builder.assert_zero(g.mul(b.mul(rate1_next[1].sub(digest[1]))), RowDomain::EveryRow);
    builder.assert_zero(g.mul(b.mul(rate1_next[2].sub(digest[2]))), RowDomain::EveryRow);
    builder.assert_zero(g.mul(b.mul(rate1_next[3].sub(digest[3]))), RowDomain::EveryRow);
    assert(builder.base_view() =~= start + merkle_absorb_spec(hasher_flag@, hasher_values(cols), hasher_values(cols_next), flags.values()));
}


// LAWS
// ================================================================================================

/// The Merkle absorb law. Hasher columns: selectors 0-2, RATE0 3-6, RATE1 7-10, capacity 11-14,
/// node index 15. On an active absorb row (hasher flag times absorb flag 1) whose direction bit
/// `b = i - 2 * i'` is 0 or 1, the absorb constraints vanish exactly when the next capacity is 0
/// and the digest `h[3..7]` is the next RATE0 when `b = 0` and the next RATE1 when `b = 1`.
pub proof fn lemma_merkle_absorb(hasher_flag: int, h: Seq<int>, hn: Seq<int>, fv: Seq<int>)
    requires
        h.len() == 16,
        hn.len() == 16,
        forall|i: int| 0 <= i < 16 ==> 0 <= #[trigger] h[i] < P,
        forall|i: int| 0 <= i < 16 ==> 0 <= #[trigger] hn[i] < P,
        fmul(hasher_flag, merkle_absorb_value(fv)) == 1,
        fsub(h[15], fadd(hn[15], hn[15])) == 0 || fsub(h[15], fadd(hn[15], hn[15])) == 1,
    ensures
        all_vanish(merkle_absorb_spec(hasher_flag, h, hn, fv)) == {
            &&& hn[11] == 0 && hn[12] == 0 && hn[13] == 0 && hn[14] == 0
            &&& fsub(h[15], fadd(hn[15], hn[15])) == 0 ==> hn[3] == h[3] && hn[4] == h[4] && hn[5] == h[5] && hn[6]
                == h[6]
            &&& fsub(h[15], fadd(hn[15], hn[15])) == 1 ==> hn[7] == h[3] && hn[8] == h[4] && hn[9] == h[5] && hn[10]
                == h[6]
        },
{
    broadcast use lemma_fmul_range, lemma_fsub_range;

    let cs = merkle_absorb_spec(hasher_flag, h, hn, fv);
    let b = fsub(h[15], fadd(hn[15], hn[15]));
    assert forall|x: int| 0 <= x < P implies #[trigger] fmul(1, x) == x by {
        lemma_canonical(x);
    }
    assert forall|x: int| #[trigger] fmul(0, x) == 0 by {
        lemma_mul_zero(x);
    }
    assert forall|x: int, y: int| 0 <= x < P && 0 <= y < P implies (#[trigger] fsub(x, y) == 0) == (x == y) by {
        lemma_fsub_zero(x, y);
    }
    lemma_canonical(1);
    lemma_canonical(0);
    assert(fnot(b) == (if b == 0 { 1int } else { 0int }));
    assert(all_vanish(cs) == (cs[0].0 == 0 && cs[1].0 == 0 && cs[2].0 == 0 && cs[3].0 == 0 && cs[4].0 == 0 && cs[5].0
        == 0 && cs[6].0 == 0 && cs[7].0 == 0 && cs[8].0 == 0 && cs[9].0 == 0 && cs[10].0 == 0 && cs[11].0 == 0));
}

/// The node index law: on an active hasher row the index is 0 on an output row, drops one bit
/// per Merkle row (`i = 2 i'` or `i = 2 i' + 1`), and is kept on every other row.
pub proof fn lemma_node_index(h: Seq<int>, hn: Seq<int>, fv: Seq<int>)
    requires
        h.len() == 16,
        hn.len() == 16,
        forall|i: int| 0 <= i < 16 ==> 0 <= #[trigger] h[i] < P,
        forall|i: int| 0 <= i < 16 ==> 0 <= #[trigger] hn[i] < P,
        fv.len() == 10,
        forall|i: int| 0 <= i < 10 ==> 0 <= #[trigger] fv[i] < P,
    ensures
        ({
            let k = node_index_spec(1, h, hn, fv);
            let p = P as int;
            &&& fv[5] == 1 ==> ((k[0].0 == 0) == (h[15] == 0))
            &&& merkle_active_value(fv) == 1 ==> ((k[1].0 == 0) == (h[15] == (2 * hn[15]) % p || h[15] == (2 * hn[15] + 1) % p))
            &&& fadd(fv[5], merkle_active_value(fv)) == 0 ==> ((k[2].0 == 0) == (hn[15] == h[15]))
        }),
{
    broadcast use lemma_fmul_range, lemma_fsub_range, crate::field::lemma_fadd_range;

    let p = P as int;
    let m = fadd(hn[15], hn[15]);
    let b = fsub(h[15], m);
    assert(0 <= h[15] < P && 0 <= hn[15] < P);
    lemma_canonical(fmul(1, h[15]));
    lemma_canonical(h[15]);
    lemma_canonical(fmul(b, fsub(b, 1)));
    lemma_canonical(fmul(1, fmul(b, fsub(b, 1))));
    crate::field::lemma_binary_iff(b);
    lemma_fsub_zero(h[15], m);
    crate::field::lemma_field_ops_mod(hn[15], hn[15]);
    crate::field::lemma_step_by(h[15], m, 1);
    lemma_fsub_zero(b, 1);
    vstd::arithmetic::div_mod::lemma_add_mod_noop(2 * hn[15], 1, p);
    vstd::arithmetic::div_mod::lemma_small_mod(1, p as nat);
    lemma_canonical(fsub(hn[15], h[15]));
    lemma_fsub_zero(hn[15], h[15]);
    lemma_canonical(0);
    lemma_canonical(1);
    lemma_mul_zero(fsub(hn[15], h[15]));
}

} // verus!
