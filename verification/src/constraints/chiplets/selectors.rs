//! Chiplet selector constraints and the precomputed chiplet flags.
//!
//! Five selector columns `s[0..5]` identify the active chiplet:
//!
//! | Chiplet     | Active when                    | Selector pattern  |
//! |-------------|--------------------------------|-------------------|
//! | Hasher      | `!s0`                          | `(0, *, *, *, *)` |
//! | Bitwise     | `s0 * !s1`                     | `(1, 0, *, *, *)` |
//! | Memory      | `s0 * s1 * !s2`                | `(1, 1, 0, *, *)` |
//! | ACE         | `s0 * s1 * s2 * !s3`           | `(1, 1, 1, 0, *)` |
//! | Kernel ROM  | `s0 * s1 * s2 * s3 * !s4`      | `(1, 1, 1, 1, 0)` |
//!
//! The constraints make each selector binary when its prefix is active, forbid 1 -> 0
//! transitions, and require every selector to be 1 on the last row, so that every chiplet's
//! `is_active` flag vanishes there.

use vstd::prelude::*;

use crate::constraint_set::{ConstraintSet, RowDomain};
use crate::field::{
    fadd, fmul, fnot, fsub, lemma_binary_iff, lemma_bool_ops, lemma_felt_range, lemma_fmul_zero_iff, lemma_fsub_range,
    lemma_fsub_zero, lemma_mul_zero, lemma_small_values, Felt, P,
};
use crate::trace::MainCols;

verus! {

broadcast use lemma_felt_range;

// FLAGS
// ================================================================================================

/// Precomputed flags for a single chiplet.
#[derive(Clone, Copy)]
pub struct ChipletFlags {
    /// 1 when this chiplet owns the current row.
    pub is_active: Felt,
    /// `is_transition * prefix * (1 - s_n')`: the chiplet stays active on the next row.
    pub is_transition: Felt,
    /// `is_active * s_n'`: the last row of this chiplet's section.
    pub is_last: Felt,
    /// `is_last[n-1] * (1 - s_n')`: the next row is the first row of this chiplet.
    pub next_is_first: Felt,
}

impl ChipletFlags {
    /// The flag values `(is_active, is_transition, is_last, next_is_first)`.
    pub open spec fn view_tuple(&self) -> (int, int, int, int) {
        (self.is_active@, self.is_transition@, self.is_last@, self.next_is_first@)
    }
}

/// Precomputed flags for all chiplets.
#[derive(Clone, Copy)]
pub struct ChipletSelectors {
    pub hasher: ChipletFlags,
    pub bitwise: ChipletFlags,
    pub memory: ChipletFlags,
    pub ace: ChipletFlags,
    pub kernel_rom: ChipletFlags,
}

// SPECIFICATION
// ================================================================================================

/// Product of the first `k` selectors (`1` for `k == 0`).
pub open spec fn prefix(s: Seq<int>, k: int) -> int
    decreases k,
{
    if k <= 0 {
        1
    } else if k == 1 {
        s[0]
    } else {
        fmul(prefix(s, k - 1), s[k - 1])
    }
}

/// Active flag of chiplet `k` (0 hasher, 1 bitwise, 2 memory, 3 ACE, 4 kernel ROM):
/// `prefix(k) - prefix(k + 1)`.
pub open spec fn active_flag(s: Seq<int>, k: int) -> int {
    fsub(prefix(s, k), prefix(s, k + 1))
}

/// Last-row flag of chiplet `k`: `is_active * s_k'`.
pub open spec fn last_flag(s: Seq<int>, sn: Seq<int>, k: int) -> int {
    fmul(active_flag(s, k), sn[k])
}

/// Next-is-first flag of chiplet `k`: 0 for the hasher, else `is_last[k-1] * (1 - s_k')`.
pub open spec fn next_is_first_flag(s: Seq<int>, sn: Seq<int>, k: int) -> int {
    if k == 0 {
        0
    } else {
        fmul(last_flag(s, sn, k - 1), fnot(sn[k]))
    }
}

/// Transition flag of chiplet `k`: `t * prefix(k) * (1 - s_k')`.
pub open spec fn transition_flag(s: Seq<int>, sn: Seq<int>, t: int, k: int) -> int {
    if k == 0 {
        fmul(t, fnot(sn[0]))
    } else {
        fmul(fmul(t, prefix(s, k)), fnot(sn[k]))
    }
}

/// All four flags of chiplet `k`.
pub open spec fn chiplet_flags_spec(s: Seq<int>, sn: Seq<int>, t: int, k: int) -> (
    int,
    int,
    int,
    int,
) {
    (active_flag(s, k), transition_flag(s, sn, t, k), last_flag(s, sn, k), next_is_first_flag(s, sn, k))
}

impl ChipletSelectors {
    /// The flags are those of the selectors `s` (current row) and `sn` (next row), with `t`
    /// the transition selector.
    pub open spec fn computed_from(&self, s: Seq<int>, sn: Seq<int>, t: int) -> bool {
        &&& self.hasher.view_tuple() == chiplet_flags_spec(s, sn, t, 0)
        &&& self.bitwise.view_tuple() == chiplet_flags_spec(s, sn, t, 1)
        &&& self.memory.view_tuple() == chiplet_flags_spec(s, sn, t, 2)
        &&& self.ace.view_tuple() == chiplet_flags_spec(s, sn, t, 3)
        &&& self.kernel_rom.view_tuple() == chiplet_flags_spec(s, sn, t, 4)
    }
}

/// Binary constraint of selector `k`, gated by its prefix.
pub open spec fn binary_constraint(s: Seq<int>, k: int) -> int {
    if k == 0 {
        fmul(s[0], fsub(s[0], 1))
    } else {
        fmul(prefix(s, k), fmul(s[k], fsub(s[k], 1)))
    }
}

/// Stability constraint of selector `k`: `prefix(k + 1) * (s_k' - s_k)`.
pub open spec fn stability_constraint(s: Seq<int>, sn: Seq<int>, k: int) -> int {
    fmul(prefix(s, k + 1), fsub(sn[k], s[k]))
}

/// The selector constraints: binary (every row), stability (transition rows), all selectors
/// equal to 1 (last row).
pub open spec fn selector_constraints_spec(s: Seq<int>, sn: Seq<int>) -> Seq<(int, RowDomain)> {
    seq![
        (binary_constraint(s, 0), RowDomain::EveryRow),
        (binary_constraint(s, 1), RowDomain::EveryRow),
        (binary_constraint(s, 2), RowDomain::EveryRow),
        (binary_constraint(s, 3), RowDomain::EveryRow),
        (binary_constraint(s, 4), RowDomain::EveryRow),
        (stability_constraint(s, sn, 0), RowDomain::Transition),
        (stability_constraint(s, sn, 1), RowDomain::Transition),
        (stability_constraint(s, sn, 2), RowDomain::Transition),
        (stability_constraint(s, sn, 3), RowDomain::Transition),
        (stability_constraint(s, sn, 4), RowDomain::Transition),
        (fsub(s[0], 1), RowDomain::LastRow),
        (fsub(s[1], 1), RowDomain::LastRow),
        (fsub(s[2], 1), RowDomain::LastRow),
        (fsub(s[3], 1), RowDomain::LastRow),
        (fsub(s[4], 1), RowDomain::LastRow),
    ]
}

/// The 5 selector values of a row.
pub open spec fn row_selectors(row: &MainCols<Felt>) -> Seq<int> {
    Seq::new(5, |i: int| row.chiplets@[i]@)
}

// ENTRY POINT
// ================================================================================================

/// Enforces the chiplet selector constraints and builds the precomputed chiplet flags;
/// `is_transition` is the transition selector of the row.
pub fn build_chiplet_selectors(
    builder: &mut ConstraintSet,
    local: &MainCols<Felt>,
    next: &MainCols<Felt>,
    is_transition: Felt,
) -> (r: ChipletSelectors)
    ensures
        final(builder).base_view() == old(builder).base_view() + selector_constraints_spec(
            row_selectors(local),
            row_selectors(next),
        ),
        final(builder).ext_view() == old(builder).ext_view(),
        final(builder).tags_view() == old(builder).tags_view(),
        r.computed_from(row_selectors(local), row_selectors(next), is_transition@),
{
    let ghost s = row_selectors(local);
    let ghost sn = row_selectors(next);
    let sel = local.chiplet_selectors();
    let sel_next = next.chiplet_selectors();
    let s0 = sel[0];
    let s1 = sel[1];
    let s2 = sel[2];
    let s3 = sel[3];
    let s4 = sel[4];
    let s0_next = sel_next[0];
    let s1_next = sel_next[1];
    let s2_next = sel_next[2];
    let s3_next = sel_next[3];
    let s4_next = sel_next[4];
    assert(s0@ == s[0] && s1@ == s[1] && s2@ == s[2] && s3@ == s[3] && s4@ == s[4]);
    assert(s0_next@ == sn[0] && s1_next@ == sn[1] && s2_next@ == sn[2] && s3_next@ == sn[3]
        && s4_next@ == sn[4]);
    let one = Felt::one();

    // Binary constraints.
    let s01 = s0.mul(s1);
    let s012 = s01.mul(s2);
    let s0123 = s012.mul(s3);
    let s01234 = s0123.mul(s4);
    assert(prefix(s, 1) == s[0]);
    assert(prefix(s, 2) == fmul(prefix(s, 1), s[1]));
    assert(prefix(s, 3) == fmul(prefix(s, 2), s[2]));
    assert(prefix(s, 4) == fmul(prefix(s, 3), s[3]));
    assert(prefix(s, 5) == fmul(prefix(s, 4), s[4]));
    let ghost start = builder.base_view();
    builder.assert_zero(s0.mul(s0.sub(one)), RowDomain::EveryRow);
    builder.assert_zero(s0.mul(s1.mul(s1.sub(one))), RowDomain::EveryRow);
    builder.assert_zero(s01.mul(s2.mul(s2.sub(one))), RowDomain::EveryRow);
    builder.assert_zero(s012.mul(s3.mul(s3.sub(one))), RowDomain::EveryRow);
    builder.assert_zero(s0123.mul(s4.mul(s4.sub(one))), RowDomain::EveryRow);

    // Stability constraints: once a selector becomes 1 it stays 1.
    builder.assert_zero(s0.mul(s0_next.sub(s0)), RowDomain::Transition);
    builder.assert_zero(s01.mul(s1_next.sub(s1)), RowDomain::Transition);
    builder.assert_zero(s012.mul(s2_next.sub(s2)), RowDomain::Transition);
    builder.assert_zero(s0123.mul(s3_next.sub(s3)), RowDomain::Transition);
    builder.assert_zero(s01234.mul(s4_next.sub(s4)), RowDomain::Transition);

    // Every selector is 1 on the last row.
    builder.assert_zero(s0.sub(one), RowDomain::LastRow);
    builder.assert_zero(s1.sub(one), RowDomain::LastRow);
    builder.assert_zero(s2.sub(one), RowDomain::LastRow);
    builder.assert_zero(s3.sub(one), RowDomain::LastRow);
    builder.assert_zero(s4.sub(one), RowDomain::LastRow);
    assert(builder.base_view() =~= start + selector_constraints_spec(s, sn));

    // Active flags: prefix - prefix * s_n.
    let is_hasher = s0.not();
    let is_bitwise = s0.sub(s01);
    let is_memory = s01.sub(s012);
    let is_ace = s012.sub(s0123);
    let is_kernel_rom = s0123.sub(s01234);

    // Last-row flags: is_active * s_n'.
    let is_hasher_last = is_hasher.mul(s0_next);
    let is_bitwise_last = is_bitwise.mul(s1_next);
    let is_memory_last = is_memory.mul(s2_next);
    let is_ace_last = is_ace.mul(s3_next);
    let is_kernel_rom_last = is_kernel_rom.mul(s4_next);

    // Next-is-first flags: is_last[n-1] * (1 - s_n').
    let next_is_hasher_first = Felt::zero();
    let next_is_bitwise_first = is_hasher_last.mul(s1_next.not());
    let next_is_memory_first = is_bitwise_last.mul(s2_next.not());
    let next_is_ace_first = is_memory_last.mul(s3_next.not());
    let next_is_kernel_rom_first = is_ace_last.mul(s4_next.not());

    // Transition flags: is_transition * prefix * (1 - s_n').
    let hasher_transition = is_transition.mul(s0_next.not());
    let bitwise_transition = is_transition.mul(s0).mul(s1_next.not());
    let memory_transition = is_transition.mul(s01).mul(s2_next.not());
    let ace_transition = is_transition.mul(s012).mul(s3_next.not());
    let kernel_rom_transition = is_transition.mul(s0123).mul(s4_next.not());

    ChipletSelectors {
        hasher: ChipletFlags {
            is_active: is_hasher,
            is_transition: hasher_transition,
            is_last: is_hasher_last,
            next_is_first: next_is_hasher_first,
        },
        bitwise: ChipletFlags {
            is_active: is_bitwise,
            is_transition: bitwise_transition,
            is_last: is_bitwise_last,
            next_is_first: next_is_bitwise_first,
        },
        memory: ChipletFlags {
            is_active: is_memory,
            is_transition: memory_transition,
            is_last: is_memory_last,
            next_is_first: next_is_memory_first,
        },
        ace: ChipletFlags {
            is_active: is_ace,
            is_transition: ace_transition,
            is_last: is_ace_last,
            next_is_first: next_is_ace_first,
        },
        kernel_rom: ChipletFlags {
            is_active: is_kernel_rom,
            is_transition: kernel_rom_transition,
            is_last: is_kernel_rom_last,
            next_is_first: next_is_kernel_rom_first,
        },
    }
}

// LAWS
// ================================================================================================

/// Whether every selector value is 0 or 1.
pub open spec fn binary_selectors(s: Seq<int>) -> bool {
    forall|i: int| 0 <= i < 5 ==> (#[trigger] s[i] == 0 || s[i] == 1)
}

/// On binary selectors, the chiplet flags are one-hot: chiplet `k` is active exactly when the
/// first `k` selectors are 1 and selector `k` is 0, and the active flags sum to
/// `1 - s0 * s1 * s2 * s3 * s4`. In particular no chiplet is active when every selector is 1,
/// as on the last row.
pub proof fn lemma_chiplet_selection_one_hot(s: Seq<int>)
    requires
        s.len() == 5,
        binary_selectors(s),
    ensures
        forall|k: int|
            0 <= k < 5 ==> #[trigger] active_flag(s, k) == (if prefix(s, k) == 1 && s[k] == 0 {
                1int
            } else {
                0int
            }),
        fadd(
            fadd(fadd(fadd(active_flag(s, 0), active_flag(s, 1)), active_flag(s, 2)), active_flag(s, 3)),
            active_flag(s, 4),
        ) == fsub(1, prefix(s, 5)),
        (prefix(s, 5) == 1) == (s[0] == 1 && s[1] == 1 && s[2] == 1 && s[3] == 1 && s[4] == 1),
{
    assert(s[0] == 0 || s[0] == 1);
    assert(s[1] == 0 || s[1] == 1);
    assert(s[2] == 0 || s[2] == 1);
    assert(s[3] == 0 || s[3] == 1);
    assert(s[4] == 0 || s[4] == 1);
    assert forall|x: int, y: int| (x == 0 || x == 1) && (y == 0 || y == 1) implies #[trigger] fmul(
        x,
        y,
    ) == (if x == 1 && y == 1 { 1int } else { 0int }) by {
        lemma_bool_ops(x, y);
    }
    assert forall|x: int, y: int| 0 <= y <= x <= 1 implies #[trigger] fsub(x, y) == x - y by {
        lemma_small_values(x, y);
    }
    assert forall|x: int, y: int| 0 <= x <= 1 && 0 <= y <= 1 implies #[trigger] fadd(x, y) == x + y by {
        lemma_small_values(x, y);
    }
    assert(prefix(s, 1) == s[0]);
    assert(prefix(s, 2) == fmul(prefix(s, 1), s[1]));
    assert(prefix(s, 3) == fmul(prefix(s, 2), s[2]));
    assert(prefix(s, 4) == fmul(prefix(s, 3), s[3]));
    assert(prefix(s, 5) == fmul(prefix(s, 4), s[4]));
    assert forall|k: int| 0 <= k < 5 implies #[trigger] active_flag(s, k) == (if prefix(s, k) == 1
        && s[k] == 0 {
        1int
    } else {
        0int
    }) by {
        if k == 0 {
        } else if k == 1 {
        } else if k == 2 {
        } else if k == 3 {
        } else {
        }
    }
}


/// The valid selector patterns: `s0` is binary, and each selector whose prefix is all 1 is binary.
pub open spec fn valid_selector_prefixes(s: Seq<int>) -> bool {
    &&& (s[0] == 0 || s[0] == 1)
    &&& forall|k: int| 1 <= k < 5 ==> prefix(s, k) == 1 ==> (#[trigger] s[k] == 0 || s[k] == 1)
}

/// The selector law, for any selector values: the binary constraints all vanish exactly when the
/// selector pattern is valid; then every prefix product is 0 or 1, the stability constraint of
/// selector `k` vanishes exactly when, with the first `k + 1` selectors all 1, selector `k` keeps
/// its value on the next row, and the last-row constraint of selector `k` vanishes exactly when
/// it is 1.
pub proof fn lemma_selector_constraints_law(s: Seq<int>, sn: Seq<int>)
    requires
        s.len() == 5,
        sn.len() == 5,
        forall|i: int| 0 <= i < 5 ==> 0 <= #[trigger] s[i] < P,
        forall|i: int| 0 <= i < 5 ==> 0 <= #[trigger] sn[i] < P,
    ensures
        (forall|k: int| 0 <= k < 5 ==> #[trigger] binary_constraint(s, k) == 0) == valid_selector_prefixes(s),
        valid_selector_prefixes(s) ==> forall|k: int| 0 <= k <= 5 ==> (#[trigger] prefix(s, k) == 0 || prefix(s, k) == 1),
        valid_selector_prefixes(s) ==> forall|k: int|
            0 <= k < 5 ==> (#[trigger] stability_constraint(s, sn, k) == 0) == (prefix(s, k + 1) == 1 ==> sn[k] == s[k]),
        forall|k: int| 0 <= k < 5 ==> (#[trigger] fsub(s[k], 1) == 0) == (s[k] == 1),
{
    broadcast use lemma_fsub_range, crate::field::lemma_fmul_range;

    assert forall|x: int, y: int| 0 <= x < P && 0 <= y < P implies (#[trigger] fmul(x, y) == 0) == (x == 0 || y == 0) by {
        lemma_fmul_zero_iff(x, y);
    }
    assert forall|x: int| 0 <= x < P implies (#[trigger] fmul(x, fsub(x, 1)) == 0) == (x == 0 || x == 1) by {
        lemma_binary_iff(x);
    }
    assert forall|x: int, y: int| 0 <= x < P && 0 <= y < P implies (#[trigger] fsub(x, y) == 0) == (x == y) by {
        lemma_fsub_zero(x, y);
    }
    assert forall|x: int, y: int| (x == 0 || x == 1) && (y == 0 || y == 1) implies #[trigger] fmul(x, y) == (if x == 1
        && y == 1 {
        1int
    } else {
        0int
    }) by {
        lemma_bool_ops(x, y);
    }
    assert(prefix(s, 0) == 1);
    assert(prefix(s, 1) == s[0]);
    assert(prefix(s, 2) == fmul(prefix(s, 1), s[1]));
    assert(prefix(s, 3) == fmul(prefix(s, 2), s[2]));
    assert(prefix(s, 4) == fmul(prefix(s, 3), s[3]));
    assert(prefix(s, 5) == fmul(prefix(s, 4), s[4]));
    assert(0 <= s[0] < P && 0 <= s[1] < P && 0 <= s[2] < P && 0 <= s[3] < P && 0 <= s[4] < P);
    if valid_selector_prefixes(s) {
        assert(prefix(s, 1) == 1 ==> (s[1] == 0 || s[1] == 1));
        assert(prefix(s, 2) == 1 ==> (s[2] == 0 || s[2] == 1));
        assert(prefix(s, 3) == 1 ==> (s[3] == 0 || s[3] == 1));
        assert(prefix(s, 4) == 1 ==> (s[4] == 0 || s[4] == 1));
        assert(prefix(s, 2) == 0 || prefix(s, 2) == 1);
        assert(prefix(s, 3) == 0 || prefix(s, 3) == 1);
        assert(prefix(s, 4) == 0 || prefix(s, 4) == 1);
        assert(prefix(s, 5) == 0 || prefix(s, 5) == 1);
        assert forall|k: int| 0 <= k < 5 implies #[trigger] binary_constraint(s, k) == 0 by {
            if k > 0 {
                lemma_mul_zero(fmul(s[k], fsub(s[k], 1)));
            }
        }
    }
    if forall|k: int| 0 <= k < 5 ==> #[trigger] binary_constraint(s, k) == 0 {
        assert(binary_constraint(s, 0) == 0);
        assert(binary_constraint(s, 1) == 0);
        assert(binary_constraint(s, 2) == 0);
        assert(binary_constraint(s, 3) == 0);
        assert(binary_constraint(s, 4) == 0);
        assert(valid_selector_prefixes(s));
    }
}
} // verus!
