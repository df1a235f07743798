//! Hasher chiplet constraints.
//!
//! The hasher chiplet computes Poseidon2 permutations over 32-row cycles and supports linear
//! hashes, 2-to-1 hashes, Merkle path verification and Merkle root updates.
//!
//! Columns (from `chiplets[1]`): selectors 1-3, state 4-15 (RATE0, RATE1, capacity), node
//! index 16.

pub mod flags;
pub mod merkle;
pub mod periodic;
pub mod selectors;
pub mod state;

use vstd::prelude::*;

use self::merkle::{enforce_merkle_absorb_state, enforce_node_index_constraints, merkle_absorb_spec, node_index_spec};
use self::selectors::{enforce_selector_consistency, selector_consistency_spec};
use self::state::{
    enforce_abp_capacity_preservation, enforce_permutation_steps, mat_diag, mat_diag_spec, permutation_steps_spec,
};
use self::flags::{f_abp, f_mp, f_mpa, f_mu, f_mua, f_mv, f_mva, f_out, f_out_next, pattern_flag};
use self::periodic::{NUM_PERIODIC_COLUMNS, P_CYCLE_ROW_0, P_CYCLE_ROW_30, P_CYCLE_ROW_31};
use crate::constraint_set::{all_vanish, lemma_all_vanish_concat, ConstraintSet, EvalContext, RowDomain};
use crate::constraints::chiplets::bus::chiplets::responses::{col, cols};
use crate::constraints::chiplets::selectors::ChipletFlags;
use crate::constraints::utils::felt_values;
use crate::field::{fadd, fmul, fnot, fsub, lemma_felt_range, lemma_mul_zero, Felt};
use crate::trace::chiplets::HasherCols;
use crate::trace::MainCols;

verus! {

broadcast use lemma_felt_range;

/// Precomputed hasher flags, from the cycle markers and the hasher selectors.
pub struct HasherFlags {
    pub cycle_row_31: Felt,
    pub f_abp: Felt,
    pub f_mpa: Felt,
    pub f_mva: Felt,
    pub f_mua: Felt,
    pub f_out: Felt,
    pub f_out_next: Felt,
    pub f_mp: Felt,
    pub f_mv: Felt,
    pub f_mu: Felt,
}

/// The hasher flag values `[cycle_row_31, ABP, MPA, MVA, MUA, OUT, OUT', MP, MV, MU]` of the
/// periodic values `p` and the rows `local`, `next`.
pub open spec fn hasher_flag_values(p: Seq<int>, local: &MainCols<Felt>, next: &MainCols<Felt>) -> Seq<int> {
    let c0 = p[P_CYCLE_ROW_0 as int];
    let c30 = p[P_CYCLE_ROW_30 as int];
    let c31 = p[P_CYCLE_ROW_31 as int];
    let s0 = col(local, 1);
    let s1 = col(local, 2);
    let s2 = col(local, 3);
    seq![
        c31,
        pattern_flag(c31, s0, s1, s2, true, false, false),
        pattern_flag(c31, s0, s1, s2, true, false, true),
        pattern_flag(c31, s0, s1, s2, true, true, false),
        pattern_flag(c31, s0, s1, s2, true, true, true),
        fmul(fmul(c31, fnot(s0)), fnot(s1)),
        fmul(fmul(c30, fnot(col(next, 1))), fnot(col(next, 2))),
        pattern_flag(c0, s0, s1, s2, true, false, true),
        pattern_flag(c0, s0, s1, s2, true, true, false),
        pattern_flag(c0, s0, s1, s2, true, true, true),
    ]
}

/// Any Merkle operation is active: `MP + MV + MU + MPA + MVA + MUA`.
pub open spec fn merkle_active_value(fv: Seq<int>) -> int {
    fadd(fadd(fadd(fadd(fadd(fv[7], fv[8]), fv[9]), fv[2]), fv[3]), fv[4])
}

/// The next node is absorbed: `MPA + MVA + MUA`.
pub open spec fn merkle_absorb_value(fv: Seq<int>) -> int {
    fadd(fadd(fv[2], fv[3]), fv[4])
}

/// The operation continues into the next cycle: `ABP + MPA + MVA + MUA`.
pub open spec fn continuation_value(fv: Seq<int>) -> int {
    fadd(fadd(fadd(fv[1], fv[2]), fv[3]), fv[4])
}

/// The 16 hasher column values: selectors 0-2, state 3-14, node index 15.
pub open spec fn hasher_values(c: &HasherCols<Felt>) -> Seq<int> {
    felt_values(c.selectors@) + felt_values(c.state@) + seq![c.node_index@]
}

impl HasherFlags {
    /// The flag values `[cycle_row_31, ABP, MPA, MVA, MUA, OUT, OUT', MP, MV, MU]`.
    pub open spec fn values(&self) -> Seq<int> {
        seq![
            self.cycle_row_31@,
            self.f_abp@,
            self.f_mpa@,
            self.f_mva@,
            self.f_mua@,
            self.f_out@,
            self.f_out_next@,
            self.f_mp@,
            self.f_mv@,
            self.f_mu@,
        ]
    }

    /// The flags are those of the periodic values `p` and the rows `local`, `next`.
    pub open spec fn computed_from(&self, p: Seq<int>, local: &MainCols<Felt>, next: &MainCols<Felt>) -> bool {
        self.values() == hasher_flag_values(p, local, next)
    }

    /// Merkle operation active flag.
    pub fn f_merkle_active(&self) -> (r: Felt)
        ensures
            r@ == merkle_active_value(self.values()),
    {
        self.f_mp.add(self.f_mv).add(self.f_mu).add(self.f_mpa).add(self.f_mva).add(self.f_mua)
    }

    /// Merkle absorb flag (row 31 only).
    pub fn f_merkle_absorb(&self) -> (r: Felt)
        ensures
            r@ == merkle_absorb_value(self.values()),
    {
        self.f_mpa.add(self.f_mva).add(self.f_mua)
    }

    /// Continuation flag.
    pub fn f_continuation(&self) -> (r: Felt)
        ensures
            r@ == continuation_value(self.values()),
    {
        self.f_abp.add(self.f_mpa).add(self.f_mva).add(self.f_mua)
    }
}

/// Computes the hasher flags from the periodic values and the hasher columns of two rows.
fn compute_hasher_flags(
    periodic: &Vec<Felt>,
    cols: &HasherCols<Felt>,
    cols_next: &HasherCols<Felt>,
    Ghost(local): Ghost<&MainCols<Felt>>,
    Ghost(next): Ghost<&MainCols<Felt>>,
) -> (r: HasherFlags)
    requires
        periodic@.len() >= NUM_PERIODIC_COLUMNS,
        cols.matches(local.chiplets@, 1),
        cols_next.matches(next.chiplets@, 1),
    ensures
        r.computed_from(felt_values(periodic@), local, next),
{
    let cycle_row_31 = periodic[P_CYCLE_ROW_31];
    let cycle_row_0 = periodic[P_CYCLE_ROW_0];
    let cycle_row_30 = periodic[P_CYCLE_ROW_30];
    let s0 = cols.selectors[0];
    let s1 = cols.selectors[1];
    let s2 = cols.selectors[2];
    let r = HasherFlags {
        cycle_row_31,
        f_abp: f_abp(cycle_row_31, s0, s1, s2),
        f_mpa: f_mpa(cycle_row_31, s0, s1, s2),
        f_mva: f_mva(cycle_row_31, s0, s1, s2),
        f_mua: f_mua(cycle_row_31, s0, s1, s2),
        f_out: f_out(cycle_row_31, s0, s1),
        f_out_next: f_out_next(cycle_row_30, cols_next.selectors[0], cols_next.selectors[1]),
        f_mp: f_mp(cycle_row_0, s0, s1, s2),
        f_mv: f_mv(cycle_row_0, s0, s1, s2),
        f_mu: f_mu(cycle_row_0, s0, s1, s2),
    };
    assert(r.values() =~= hasher_flag_values(felt_values(periodic@), local, next));
    r
}

/// The values the hasher constraints read.
pub struct HasherContext {
    pub cols: HasherCols<Felt>,
    pub cols_next: HasherCols<Felt>,
    pub flags: HasherFlags,
    pub hasher_flag: Felt,
    pub periodic: Vec<Felt>,
}

impl HasherContext {
    /// Gathers the hasher columns of two rows, the hasher flags and the periodic values.
    pub fn new(ctx: &EvalContext, local: &MainCols<Felt>, next: &MainCols<Felt>, flags: &ChipletFlags) -> (r: HasherContext)
        requires
            ctx.periodic@.len() >= NUM_PERIODIC_COLUMNS,
        ensures
            r.cols.matches(local.chiplets@, 1),
            r.cols_next.matches(next.chiplets@, 1),
            r.flags.computed_from(felt_values(ctx.periodic@), local, next),
            r.hasher_flag == flags.is_active,
            r.periodic@ == ctx.periodic@,
    {
        let cols = local.hasher();
        let cols_next = next.hasher();
        let hasher_flags = compute_hasher_flags(&ctx.periodic, &cols, &cols_next, Ghost(local), Ghost(next));
        let periodic = ctx.periodic.clone();
        HasherContext { cols, cols_next, flags: hasher_flags, hasher_flag: flags.is_active, periodic }
    }
}

/// All hasher constraints, with the periodic values `p` and the internal diagonal `d`.
pub open spec fn hasher_constraints_spec(hasher_flag: int, p: Seq<int>, local: &MainCols<Felt>, next: &MainCols<Felt>, d: Seq<int>) -> Seq<(int, RowDomain)> {
    let h = cols(local, 1, 16);
    let hn = cols(next, 1, 16);
    let fv = hasher_flag_values(p, local, next);
    permutation_steps_spec(hasher_flag, h.subrange(3, 15), hn.subrange(3, 15), p, d)
        + Seq::new(3, |i: int| (fmul(hasher_flag, fmul(h[i], fsub(h[i], 1))), RowDomain::EveryRow))
        + selector_consistency_spec(hasher_flag, h, hn, fv)
        + Seq::new(4, |i: int| (fmul(fmul(hasher_flag, fv[1]), fsub(hn[11 + i], h[11 + i])), RowDomain::Transition))
        + node_index_spec(hasher_flag, h, hn, fv)
        + merkle_absorb_spec(hasher_flag, h, hn, fv)
}

/// Enforces all hasher chiplet constraints: the permutation steps, binary selectors, selector
/// consistency, capacity preservation on absorption, and the Merkle node index and absorb
/// constraints. The internal linear layer uses the Poseidon2 diagonal [`MAT_DIAG`].
pub fn enforce_hasher_constraints(
    builder: &mut ConstraintSet,
    ctx: &EvalContext,
    local: &MainCols<Felt>,
    next: &MainCols<Felt>,
    flags: &ChipletFlags,
)
    requires
        ctx.periodic@.len() >= NUM_PERIODIC_COLUMNS,
    ensures
        final(builder).base_view() == old(builder).base_view() + hasher_constraints_spec(
            flags.is_active@,
            felt_values(ctx.periodic@),
            local,
            next,
            mat_diag_spec(),
        ),
        final(builder).ext_view() == old(builder).ext_view(),
        final(builder).tags_view() == old(builder).tags_view(),
{
    let hc = HasherContext::new(ctx, local, next, flags);
    let hf = hc.hasher_flag;
    let ghost h = cols(local, 1, 16);
    let ghost hn = cols(next, 1, 16);
    assert(hasher_values(&hc.cols) =~= h);
    assert(hasher_values(&hc.cols_next) =~= hn);
    assert(felt_values(hc.cols.state@) =~= h.subrange(3, 15));
    assert(felt_values(hc.cols_next.state@) =~= hn.subrange(3, 15));
    let ghost start = builder.base_view();

    let diag = mat_diag();
    enforce_permutation_steps(builder, hf, &hc.cols.state, &hc.cols_next.state, &hc.periodic, &diag);

    let sel = &hc.cols.selectors;
    let one = Felt::one();
    builder.assert_zero(hf.mul(sel[0].mul(sel[0].sub(one))), RowDomain::EveryRow);
    builder.assert_zero(hf.mul(sel[1].mul(sel[1].sub(one))), RowDomain::EveryRow);
    builder.assert_zero(hf.mul(sel[2].mul(sel[2].sub(one))), RowDomain::EveryRow);

    enforce_selector_consistency(builder, hf, &hc.cols, &hc.cols_next, &hc.flags);

    let cap = hc.cols.capacity();
    let cap_next = hc.cols_next.capacity();
    enforce_abp_capacity_preservation(builder, hf, hc.flags.f_abp, &cap, &cap_next);

    enforce_node_index_constraints(builder, hf, &hc.cols, &hc.cols_next, &hc.flags);
    enforce_merkle_absorb_state(builder, hf, &hc.cols, &hc.cols_next, &hc.flags);
    assert(builder.base_view() =~= start + hasher_constraints_spec(
        flags.is_active@,
        felt_values(ctx.periodic@),
        local,
        next,
        mat_diag_spec(),
    ));
}


// LAWS
// ================================================================================================

/// Off the hasher chiplet (hasher flag 0) every hasher constraint vanishes, whatever the rows.
pub proof fn lemma_hasher_inactive(p: Seq<int>, local: &MainCols<Felt>, next: &MainCols<Felt>, d: Seq<int>)
    ensures
        all_vanish(hasher_constraints_spec(0, p, local, next, d)),
{
    assert forall|x: int| #[trigger] fmul(0, x) == 0 by {
        lemma_mul_zero(x);
    }
    let h = cols(local, 1, 16);
    let hn = cols(next, 1, 16);
    let fv = hasher_flag_values(p, local, next);
    let a = permutation_steps_spec(0, h.subrange(3, 15), hn.subrange(3, 15), p, d);
    let b = Seq::new(3, |i: int| (fmul(0, fmul(h[i], fsub(h[i], 1))), RowDomain::EveryRow));
    let c = selector_consistency_spec(0, h, hn, fv);
    let e = Seq::new(4, |i: int| (fmul(fmul(0, fv[1]), fsub(hn[11 + i], h[11 + i])), RowDomain::Transition));
    let g = node_index_spec(0, h, hn, fv);
    let m = merkle_absorb_spec(0, h, hn, fv);
    assert(all_vanish(a));
    assert(all_vanish(b));
    assert(all_vanish(c));
    assert(all_vanish(e));
    assert(all_vanish(g));
    assert(all_vanish(m));
    lemma_all_vanish_concat(a, b);
    lemma_all_vanish_concat(a + b, c);
    lemma_all_vanish_concat(a + b + c, e);
    lemma_all_vanish_concat(a + b + c + e, g);
    lemma_all_vanish_concat(a + b + c + e + g, m);
}

} // verus!
