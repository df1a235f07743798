//! Permutation state constraints of the hasher chiplet.
//!
//! The Poseidon2 permutation runs over a 32-row cycle:
//!
//! - row 0 (init linear): `h' = M_E(h)`;
//! - rows 1-4 and 27-30 (external rounds): `h' = M_E(sbox(h + ark_ext))`;
//! - rows 5-26 (internal rounds): `h' = M_I(h with h[0] = (h[0] + ark_int)^7)`;
//! - row 31: no step constraint (output or absorption row).

use vstd::prelude::*;

use super::periodic::{P_ARK_EXT_START, P_ARK_INT, P_CYCLE_ROW_0, P_IS_EXTERNAL, P_IS_INTERNAL};
use crate::constraint_set::{all_vanish, lemma_all_vanish_concat, ConstraintSet, RowDomain};
use crate::constraints::utils::felt_values;
use crate::field::{
    fadd, fmul, fpow7, fsub, lemma_canonical, lemma_fadd_of_mods, lemma_fadd_range, lemma_felt_range, lemma_fsub_range,
    lemma_fsub_zero, lemma_mul_zero, Felt, P,
};

verus! {

broadcast use lemma_felt_range;

// SPECIFICATION
// ================================================================================================

/// The 4x4 matrix M4 applied to `x` with the addition chain of Poseidon2.
pub open spec fn m4_spec(x: Seq<int>) -> Seq<int> {
    let t0 = fadd(x[0], x[1]);
    let t1 = fadd(x[2], x[3]);
    let t2 = fadd(fadd(x[1], x[1]), t1);
    let t3 = fadd(fadd(x[3], x[3]), t0);
    let t4 = fadd(fadd(fadd(t1, t1), fadd(t1, t1)), t3);
    let t5 = fadd(fadd(fadd(t0, t0), fadd(t0, t0)), t2);
    seq![fadd(t3, t5), t5, fadd(t2, t4), t4]
}

/// The external linear layer M_E: M4 on each block of 4, then each element plus the sum of its
/// position over the three blocks.
pub open spec fn matmul_external_spec(s: Seq<int>) -> Seq<int> {
    let b0 = m4_spec(s.subrange(0, 4));
    let b1 = m4_spec(s.subrange(4, 8));
    let b2 = m4_spec(s.subrange(8, 12));
    let stored = Seq::new(4, |i: int| fadd(fadd(b0[i], b1[i]), b2[i]));
    Seq::new(
        12,
        |i: int|
            if i < 4 {
                fadd(b0[i], stored[i])
            } else if i < 8 {
                fadd(b1[i - 4], stored[i - 4])
            } else {
                fadd(b2[i - 8], stored[i - 8])
            },
    )
}

/// The sum of the first `n` elements, from the first.
pub open spec fn state_sum(s: Seq<int>, n: int) -> int
    decreases n,
{
    if n <= 1 {
        s[0]
    } else {
        fadd(state_sum(s, n - 1), s[n - 1])
    }
}

/// The internal linear layer M_I = I + diag(d): `s[i] * d[i] + sum(s)`.
pub open spec fn matmul_internal_spec(s: Seq<int>, d: Seq<int>) -> Seq<int> {
    Seq::new(12, |i: int| fadd(fmul(s[i], d[i]), state_sum(s, 12)))
}

/// The external round: round constants, full S-box, then M_E.
pub open spec fn external_round_spec(h: Seq<int>, ark: Seq<int>) -> Seq<int> {
    matmul_external_spec(Seq::new(12, |i: int| fpow7(fadd(h[i], ark[i]))))
}

/// The internal round: round constant and S-box on lane 0, then M_I.
pub open spec fn internal_round_spec(h: Seq<int>, ark_int: int, d: Seq<int>) -> Seq<int> {
    matmul_internal_spec(h.update(0, fpow7(fadd(h[0], ark_int))), d)
}

/// `gate * (h'[i] - expected[i])` for the 12 lanes, on transition rows.
pub open spec fn step_constraints(gate: int, h_next: Seq<int>, expected: Seq<int>) -> Seq<(int, RowDomain)> {
    Seq::new(12, |i: int| (fmul(gate, fsub(h_next[i], expected[i])), RowDomain::Transition))
}

/// The permutation step constraints, with the periodic values `p` and the internal diagonal `d`.
pub open spec fn permutation_steps_spec(hasher_flag: int, h: Seq<int>, h_next: Seq<int>, p: Seq<int>, d: Seq<int>) -> Seq<(int, RowDomain)> {
    let ark = p.subrange(P_ARK_EXT_START as int, P_ARK_EXT_START + 12);
    step_constraints(fmul(hasher_flag, p[P_CYCLE_ROW_0 as int]), h_next, matmul_external_spec(h))
        + step_constraints(fmul(hasher_flag, p[P_IS_EXTERNAL as int]), h_next, external_round_spec(h, ark))
        + step_constraints(fmul(hasher_flag, p[P_IS_INTERNAL as int]), h_next, internal_round_spec(h, p[P_ARK_INT as int], d))
}

// INTERNAL DIAGONAL
// ================================================================================================

/// The diagonal of the internal linear layer of Poseidon2 over Goldilocks (width 12).
pub const MAT_DIAG: [u64; 12] = [
    0xfffffffeffffffff,
    0x0000000000000001,
    0x0000000000000002,
    0x7fffffff80000001,
    0x0000000000000003,
    0x0000000000000004,
    0x7fffffff80000000,
    0xfffffffefffffffe,
    0xfffffffefffffffd,
    0xbfffffff40000001,
    0x3fffffffc0000000,
    0xdfffffff20000001,
];

/// The values of [`MAT_DIAG`].
pub open spec fn mat_diag_spec() -> Seq<int> {
    seq![
        18446744069414584319,
        1,
        2,
        9223372034707292161,
        3,
        4,
        9223372034707292160,
        18446744069414584318,
        18446744069414584317,
        13835058052060938241,
        4611686017353646080,
        16140901060737761281,
    ]
}

/// The internal diagonal as field elements.
pub fn mat_diag() -> (r: [Felt; 12])
    ensures
        felt_values(r@) == mat_diag_spec(),
{
    let d = MAT_DIAG;
    let r = [
        Felt::new(d[0]),
        Felt::new(d[1]),
        Felt::new(d[2]),
        Felt::new(d[3]),
        Felt::new(d[4]),
        Felt::new(d[5]),
        Felt::new(d[6]),
        Felt::new(d[7]),
        Felt::new(d[8]),
        Felt::new(d[9]),
        Felt::new(d[10]),
        Felt::new(d[11]),
    ];
    assert(felt_values(r@) =~= mat_diag_spec());
    r
}

// LINEAR LAYERS
// ================================================================================================

/// Applies the 4x4 matrix M4.
pub fn matmul_m4(input: &[Felt; 4]) -> (r: [Felt; 4])
    ensures
        felt_values(r@) == m4_spec(felt_values(input@)),
{
    let a = input[0];
    let b = input[1];
    let c = input[2];
    let d = input[3];
    let t0 = a.add(b);
    let t1 = c.add(d);
    let t2 = b.add(b).add(t1);
    let t3 = d.add(d).add(t0);
    let t4 = t1.double().add(t1.double()).add(t3);
    let t5 = t0.double().add(t0.double()).add(t2);
    let r = [t3.add(t5), t5, t2.add(t4), t4];
    assert(felt_values(r@) =~= m4_spec(felt_values(input@)));
    r
}

/// Applies the external linear layer M_E.
pub fn apply_matmul_external(state: &[Felt; 12]) -> (r: [Felt; 12])
    ensures
        felt_values(r@) == matmul_external_spec(felt_values(state@)),
{
    let ghost s = felt_values(state@);
    let in0 = [state[0], state[1], state[2], state[3]];
    let in1 = [state[4], state[5], state[6], state[7]];
    let in2 = [state[8], state[9], state[10], state[11]];
    assert(felt_values(in0@) =~= s.subrange(0, 4));
    assert(felt_values(in1@) =~= s.subrange(4, 8));
    assert(felt_values(in2@) =~= s.subrange(8, 12));
    let b0 = matmul_m4(&in0);
    let b1 = matmul_m4(&in1);
    let b2 = matmul_m4(&in2);
    let stored0 = b0[0].add(b1[0]).add(b2[0]);
    let stored1 = b0[1].add(b1[1]).add(b2[1]);
    let stored2 = b0[2].add(b1[2]).add(b2[2]);
    let stored3 = b0[3].add(b1[3]).add(b2[3]);
    let r = [
        b0[0].add(stored0),
        b0[1].add(stored1),
        b0[2].add(stored2),
        b0[3].add(stored3),
        b1[0].add(stored0),
        b1[1].add(stored1),
        b1[2].add(stored2),
        b1[3].add(stored3),
        b2[0].add(stored0),
        b2[1].add(stored1),
        b2[2].add(stored2),
        b2[3].add(stored3),
    ];
    assert(felt_values(r@) =~= matmul_external_spec(s));
    r
}

/// Applies the internal linear layer M_I = I + diag(mat_diag): `state[i] * mat_diag[i] +
/// sum(state)`.
pub fn apply_matmul_internal(state: &[Felt; 12], mat_diag: &[Felt; 12]) -> (r: [Felt; 12])
    ensures
        felt_values(r@) == matmul_internal_spec(felt_values(state@), felt_values(mat_diag@)),
{
    let ghost s = felt_values(state@);
    let mut sum = state[0];
    let mut i: usize = 1;
    while i < 12
        invariant
            1 <= i <= 12,
            s == felt_values(state@),
            sum@ == state_sum(s, i as int),
        decreases 12 - i,
    {
        sum = sum.add(state[i]);
        i += 1;
    }
    let mut r = [Felt::zero(); 12];
    let mut j: usize = 0;
    while j < 12
        invariant
            j <= 12,
            s == felt_values(state@),
            sum@ == state_sum(s, 12),
            forall|k: int| 0 <= k < j ==> #[trigger] r@[k]@ == fadd(fmul(s[k], mat_diag@[k]@), sum@),
        decreases 12 - j,
    {
        r[j] = state[j].mul(mat_diag[j]).add(sum);
        j += 1;
    }
    assert(felt_values(r@) =~= matmul_internal_spec(s, felt_values(mat_diag@)));
    r
}

// CONSTRAINTS
// ================================================================================================

/// Asserts `gate * (h_next[i] - expected[i])` for the 12 lanes on transition rows.
fn assert_step(builder: &mut ConstraintSet, gate: Felt, h_next: &[Felt; 12], expected: &[Felt; 12])
    ensures
        final(builder).base_view() == old(builder).base_view() + step_constraints(gate@, felt_values(h_next@), felt_values(expected@)),
        final(builder).ext_view() == old(builder).ext_view(),
        final(builder).tags_view() == old(builder).tags_view(),
{
    let mut values: Vec<Felt> = Vec::new();
    let mut i: usize = 0;
    while i < 12
        invariant
            i <= 12,
            values@.len() == i,
            forall|k: int| 0 <= k < i ==> #[trigger] values@[k]@ == fmul(gate@, fsub(h_next@[k]@, expected@[k]@)),
        decreases 12 - i,
    {
        values.push(gate.mul(h_next[i].sub(expected[i])));
        i += 1;
    }
    builder.assert_zeros(&values, RowDomain::Transition);
    assert(values@.map_values(|v: Felt| (v@, RowDomain::Transition)) =~= step_constraints(
        gate@,
        felt_values(h_next@),
        felt_values(expected@),
    ));
}

/// Enforces the Poseidon2 permutation step constraints, with the periodic values `periodic` and
/// the diagonal `mat_diag` of the internal linear layer.
pub fn enforce_permutation_steps(
    builder: &mut ConstraintSet,
    hasher_flag: Felt,
    h: &[Felt; 12],
    h_next: &[Felt; 12],
    periodic: &Vec<Felt>,
    mat_diag: &[Felt; 12],
)
    requires
        periodic@.len() > P_ARK_INT,
    ensures
        final(builder).base_view() == old(builder).base_view() + permutation_steps_spec(
            hasher_flag@,
            felt_values(h@),
            felt_values(h_next@),
            felt_values(periodic@),
            felt_values(mat_diag@),
        ),
        final(builder).ext_view() == old(builder).ext_view(),
        final(builder).tags_view() == old(builder).tags_view(),
{
    let ghost p = felt_values(periodic@);
    let ghost hv = felt_values(h@);
    let cycle_row_0 = periodic[P_CYCLE_ROW_0];
    let is_external = periodic[P_IS_EXTERNAL];
    let is_internal = periodic[P_IS_INTERNAL];
    let ark_int = periodic[P_ARK_INT];

    // Init linear: h' = M_E(h).
    let expected_init = apply_matmul_external(h);

    // External round: h' = M_E(sbox(h + ark_ext)).
    let mut sboxed = [Felt::zero(); 12];
    let mut i: usize = 0;
    while i < 12
        invariant
            i <= 12,
            periodic@.len() > P_ARK_INT,
            p == felt_values(periodic@),
            hv == felt_values(h@),
            forall|k: int| 0 <= k < i ==> #[trigger] sboxed@[k]@ == fpow7(fadd(hv[k], p[P_ARK_EXT_START + k])),
        decreases 12 - i,
    {
        sboxed[i] = h[i].add(periodic[P_ARK_EXT_START + i]).exp7();
        i += 1;
    }
    let ghost ark = p.subrange(P_ARK_EXT_START as int, P_ARK_EXT_START + 12);
    assert(felt_values(sboxed@) =~= Seq::new(12, |k: int| fpow7(fadd(hv[k], ark[k]))));
    let expected_ext = apply_matmul_external(&sboxed);

    // Internal round: h' = M_I(h with h[0] = (h[0] + ark_int)^7).
    let mut tmp = *h;
    tmp[0] = h[0].add(ark_int).exp7();
    assert(felt_values(tmp@) =~= hv.update(0, fpow7(fadd(hv[0], ark_int@))));
    let expected_int = apply_matmul_internal(&tmp, mat_diag);

    let ghost start = builder.base_view();
    assert_step(builder, hasher_flag.mul(cycle_row_0), h_next, &expected_init);
    assert_step(builder, hasher_flag.mul(is_external), h_next, &expected_ext);
    assert_step(builder, hasher_flag.mul(is_internal), h_next, &expected_int);
    assert(builder.base_view() =~= start + permutation_steps_spec(
        hasher_flag@,
        hv,
        felt_values(h_next@),
        p,
        felt_values(mat_diag@),
    ));
}

/// Enforces that an absorption (ABP, row 31) preserves the capacity `h[8..12]`.
pub fn enforce_abp_capacity_preservation(
    builder: &mut ConstraintSet,
    hasher_flag: Felt,
    f_abp: Felt,
    h_cap: &[Felt; 4],
    h_cap_next: &[Felt; 4],
)
    ensures
        final(builder).base_view() == old(builder).base_view() + Seq::new(
            4,
            |i: int| (fmul(fmul(hasher_flag@, f_abp@), fsub(h_cap_next@[i]@, h_cap@[i]@)), RowDomain::Transition),
        ),
        final(builder).ext_view() == old(builder).ext_view(),
        final(builder).tags_view() == old(builder).tags_view(),
{
    let gate = hasher_flag.mul(f_abp);
    let values = vec![
        gate.mul(h_cap_next[0].sub(h_cap[0])),
        gate.mul(h_cap_next[1].sub(h_cap[1])),
        gate.mul(h_cap_next[2].sub(h_cap[2])),
        gate.mul(h_cap_next[3].sub(h_cap[3])),
    ];
    builder.assert_zeros(&values, RowDomain::Transition);
    assert(values@.map_values(|v: Felt| (v@, RowDomain::Transition)) =~= Seq::new(
        4,
        |i: int| (fmul(fmul(hasher_flag@, f_abp@), fsub(h_cap_next@[i]@, h_cap@[i]@)), RowDomain::Transition),
    ));
}


// LAWS
// ================================================================================================

/// M4 is the Poseidon2 matrix `[[5, 7, 1, 3], [4, 6, 1, 1], [1, 3, 5, 7], [1, 1, 4, 6]]`: its
/// addition chain computes these linear combinations of the inputs.
pub proof fn lemma_m4_matrix(x: Seq<int>)
    requires
        x.len() == 4,
    ensures
        m4_spec(x) == seq![
            (5 * x[0] + 7 * x[1] + x[2] + 3 * x[3]) % (P as int),
            (4 * x[0] + 6 * x[1] + x[2] + x[3]) % (P as int),
            (x[0] + 3 * x[1] + 5 * x[2] + 7 * x[3]) % (P as int),
            (x[0] + x[1] + 4 * x[2] + 6 * x[3]) % (P as int),
        ],
{
    let (a, b, c, d) = (x[0], x[1], x[2], x[3]);
    let p = P as int;
    lemma_fadd_of_mods(a, b);
    lemma_fadd_of_mods(c, d);
    lemma_fadd_of_mods(b, b);
    lemma_fadd_of_mods(d, d);
    let t0 = fadd(a, b);
    let t1 = fadd(c, d);
    lemma_fadd_of_mods(2 * b, c + d);
    lemma_fadd_of_mods(2 * d, a + b);
    let t2 = fadd(fadd(b, b), t1);
    let t3 = fadd(fadd(d, d), t0);
    assert(t2 == (2 * b + c + d) % p);
    assert(t3 == (a + b + 2 * d) % p);
    lemma_fadd_of_mods(c + d, c + d);
    lemma_fadd_of_mods(2 * (c + d), 2 * (c + d));
    lemma_fadd_of_mods(4 * (c + d), a + b + 2 * d);
    lemma_fadd_of_mods(a + b, a + b);
    lemma_fadd_of_mods(2 * (a + b), 2 * (a + b));
    lemma_fadd_of_mods(4 * (a + b), 2 * b + c + d);
    let t4 = fadd(fadd(fadd(t1, t1), fadd(t1, t1)), t3);
    let t5 = fadd(fadd(fadd(t0, t0), fadd(t0, t0)), t2);
    assert(t4 == (a + b + 4 * c + 6 * d) % p);
    assert(t5 == (4 * a + 6 * b + c + d) % p);
    lemma_fadd_of_mods(a + b + 2 * d, 4 * a + 6 * b + c + d);
    lemma_fadd_of_mods(2 * b + c + d, a + b + 4 * c + 6 * d);
}


/// Every value of `s` is canonical.
pub open spec fn canonical_state(s: Seq<int>) -> bool {
    forall|i: int| 0 <= i < s.len() ==> 0 <= #[trigger] s[i] < P
}

/// Step constraints gated by a binary flag vanish exactly when that flag is 0 or the next state
/// equals the required state.
pub proof fn lemma_step_constraints_vanish(gate: int, h_next: Seq<int>, expected: Seq<int>)
    requires
        gate == 0 || gate == 1,
        h_next.len() == 12,
        expected.len() == 12,
        canonical_state(h_next),
        canonical_state(expected),
    ensures
        all_vanish(step_constraints(gate, h_next, expected)) == (gate == 1 ==> h_next == expected),
{
    broadcast use lemma_fsub_range;

    let cs = step_constraints(gate, h_next, expected);
    assert forall|x: int| #[trigger] fmul(0, x) == 0 by {
        lemma_mul_zero(x);
    }
    assert forall|x: int| 0 <= x < P implies #[trigger] fmul(1, x) == x by {
        lemma_canonical(x);
    }
    assert forall|i: int| 0 <= i < 12 implies (#[trigger] fsub(h_next[i], expected[i]) == 0) == (h_next[i]
        == expected[i]) by {
        lemma_fsub_zero(h_next[i], expected[i]);
    }
    if gate == 1 {
        if all_vanish(cs) {
            assert forall|i: int| 0 <= i < 12 implies h_next[i] == expected[i] by {
                assert(cs[i].0 == 0);
            }
            assert(h_next =~= expected);
        }
        if h_next == expected {
            assert forall|i: int| 0 <= i < cs.len() implies (#[trigger] cs[i]).0 == 0 by {
                assert(fsub(h_next[i], expected[i]) == 0);
            }
        }
    } else {
        assert forall|i: int| 0 <= i < cs.len() implies (#[trigger] cs[i]).0 == 0 by {
        }
    }
}

/// The permutation step law: with a binary hasher flag and binary step selectors, the step
/// constraints vanish exactly when, on a hasher row, the next state is `M_E(h)` on the first row
/// of the cycle, the external round of `h` on an external round row, and the internal round of
/// `h` on an internal round row.
pub proof fn lemma_permutation_steps(hasher_flag: int, h: Seq<int>, h_next: Seq<int>, p: Seq<int>, d: Seq<int>)
    requires
        hasher_flag == 0 || hasher_flag == 1,
        p.len() > P_ARK_INT,
        p[P_CYCLE_ROW_0 as int] == 0 || p[P_CYCLE_ROW_0 as int] == 1,
        p[P_IS_EXTERNAL as int] == 0 || p[P_IS_EXTERNAL as int] == 1,
        p[P_IS_INTERNAL as int] == 0 || p[P_IS_INTERNAL as int] == 1,
        h.len() == 12,
        h_next.len() == 12,
        canonical_state(h_next),
    ensures
        all_vanish(permutation_steps_spec(hasher_flag, h, h_next, p, d)) == (hasher_flag == 1 ==> {
            &&& p[P_CYCLE_ROW_0 as int] == 1 ==> h_next == matmul_external_spec(h)
            &&& p[P_IS_EXTERNAL as int] == 1 ==> h_next == external_round_spec(
                h,
                p.subrange(P_ARK_EXT_START as int, P_ARK_EXT_START + 12),
            )
            &&& p[P_IS_INTERNAL as int] == 1 ==> h_next == internal_round_spec(h, p[P_ARK_INT as int], d)
        }),
{
    broadcast use lemma_fadd_range;

    let ark = p.subrange(P_ARK_EXT_START as int, P_ARK_EXT_START + 12);
    let g0 = fmul(hasher_flag, p[P_CYCLE_ROW_0 as int]);
    let g1 = fmul(hasher_flag, p[P_IS_EXTERNAL as int]);
    let g2 = fmul(hasher_flag, p[P_IS_INTERNAL as int]);
    crate::field::lemma_bool_ops(hasher_flag, p[P_CYCLE_ROW_0 as int]);
    crate::field::lemma_bool_ops(hasher_flag, p[P_IS_EXTERNAL as int]);
    crate::field::lemma_bool_ops(hasher_flag, p[P_IS_INTERNAL as int]);
    let e0 = matmul_external_spec(h);
    let e1 = external_round_spec(h, ark);
    let e2 = internal_round_spec(h, p[P_ARK_INT as int], d);
    assert(canonical_state(e0));
    assert(canonical_state(e1));
    assert(canonical_state(e2));
    lemma_step_constraints_vanish(g0, h_next, e0);
    lemma_step_constraints_vanish(g1, h_next, e1);
    lemma_step_constraints_vanish(g2, h_next, e2);
    let a = step_constraints(g0, h_next, e0);
    let b = step_constraints(g1, h_next, e1);
    let c = step_constraints(g2, h_next, e2);
    lemma_all_vanish_concat(a, b);
    lemma_all_vanish_concat(a + b, c);
}

} // verus!
