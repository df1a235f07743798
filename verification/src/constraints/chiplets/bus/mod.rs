//! Chiplet bus constraints: the hash-kernel virtual table, the main chiplets bus and the ACE
//! wiring bus.
//!
//! A running-product bus multiplies, on each row, by the product of the messages it receives and
//! divides by the product of those it sends. On a row, the contribution of a family of mutually
//! exclusive messages is `sum(flag_i * value_i) + (1 - sum(flag_i))`: the value of the message
//! whose flag is set, or 1 when no flag is set.

pub mod chiplets;
pub mod hash_kernel;
pub mod wiring;

use vstd::prelude::*;

use crate::field::{fadd, fnot, fsub, lemma_canonical, lemma_felt_range, lemma_mul_zero, qadd, qbase, qscale, Felt, QuadFelt, P};
use crate::constraints::utils::felt_values;
use crate::constraint_set::{ConstraintSet, EvalContext, RowDomain};
use crate::constraints::chiplets::bitwise::P_BITWISE_K_TRANSITION;
use crate::constraints::chiplets::selectors::ChipletSelectors;
use crate::constraints::op_flags::OpFlags;
use crate::trace::challenges::Challenges;
use crate::trace::MainCols;
use self::chiplets::{chiplets_bus_constraint_spec, enforce_chiplets_bus_constraint};
use self::hash_kernel::{enforce_hash_kernel_constraint, hash_kernel_constraint_spec};
use self::wiring::{enforce_wiring_bus_constraint, wiring_constraint_spec};

verus! {

broadcast use lemma_felt_range;

/// The values of a sequence of extension field elements.
pub open spec fn quad_values(s: Seq<QuadFelt>) -> Seq<(int, int)> {
    s.map_values(|x: QuadFelt| x@)
}

/// `sum_{i < n} values[i] * flags[i]`, summed from the first term.
pub open spec fn weighted_sum(flags: Seq<int>, values: Seq<(int, int)>, n: int) -> (int, int)
    decreases n,
{
    if n <= 0 {
        (0, 0)
    } else {
        qadd(weighted_sum(flags, values, n - 1), qscale(values[n - 1], flags[n - 1]))
    }
}

/// `sum_{i < n} flags[i]`, summed from the first term.
pub open spec fn flag_sum(flags: Seq<int>, n: int) -> int
    decreases n,
{
    if n <= 0 {
        0
    } else {
        fadd(flag_sum(flags, n - 1), flags[n - 1])
    }
}

/// `sum(flags[i] * values[i]) + (1 - sum(flags[i]))`.
pub open spec fn bus_multiplier(flags: Seq<int>, values: Seq<(int, int)>) -> (int, int) {
    qadd(
        weighted_sum(flags, values, flags.len() as int),
        qbase(fnot(flag_sum(flags, flags.len() as int))),
    )
}

/// Combines mutually exclusive messages: `sum(flags[i] * values[i]) + (1 - sum(flags[i]))`.
pub fn combine_messages(flags: &Vec<Felt>, values: &Vec<QuadFelt>) -> (r: QuadFelt)
    requires
        flags@.len() == values@.len(),
    ensures
        r@ == bus_multiplier(felt_values(flags@), quad_values(values@)),
{
    let ghost f = felt_values(flags@);
    let ghost v = quad_values(values@);
    let mut acc = QuadFelt::zero();
    let mut sum = Felt::zero();
    let mut i: usize = 0;
    while i < flags.len()
        invariant
            flags@.len() == values@.len(),
            i <= flags@.len(),
            f == felt_values(flags@),
            v == quad_values(values@),
            acc@ == weighted_sum(f, v, i as int),
            sum@ == flag_sum(f, i as int),
        decreases flags@.len() - i,
    {
        acc = acc.add(values[i].scale(flags[i]));
        sum = sum.add(flags[i]);
        i += 1;
    }
    acc.add_base(sum.not())
}

/// Enforces the chiplet bus constraints: the hash kernel virtual table, the chiplets bus and
/// the ACE wiring bus, in that order.
pub fn enforce_bus(
    builder: &mut ConstraintSet,
    ctx: &EvalContext,
    local: &MainCols<Felt>,
    next: &MainCols<Felt>,
    op_flags: &OpFlags,
    challenges: &Challenges,
    selectors: &ChipletSelectors,
)
    requires
        ctx.wf(),
        ctx.periodic@.len() > P_BITWISE_K_TRANSITION,
        op_flags.wf(),
        challenges.wf(),
    ensures
        final(builder).ext_view() == old(builder).ext_view() + seq![
            (hash_kernel_constraint_spec(ctx, local, next, op_flags, challenges), RowDomain::Transition),
            (chiplets_bus_constraint_spec(ctx, local, next, op_flags, challenges, selectors), RowDomain::Transition),
            (wiring_constraint_spec(ctx, local, challenges, selectors), RowDomain::Transition),
        ],
        final(builder).base_view() == old(builder).base_view(),
        final(builder).tags_view() == old(builder).tags_view(),
{
    let ghost start = builder.ext_view();
    enforce_hash_kernel_constraint(builder, ctx, local, next, op_flags, challenges);
    enforce_chiplets_bus_constraint(builder, ctx, local, next, op_flags, challenges, selectors);
    enforce_wiring_bus_constraint(builder, ctx, local, next, challenges, selectors);
    assert(builder.ext_view() =~= start + seq![
        (hash_kernel_constraint_spec(ctx, local, next, op_flags, challenges), RowDomain::Transition),
        (chiplets_bus_constraint_spec(ctx, local, next, op_flags, challenges, selectors), RowDomain::Transition),
        (wiring_constraint_spec(ctx, local, challenges, selectors), RowDomain::Transition),
    ]);
}

// LAWS
// ================================================================================================

/// Every value has canonical components.
pub open spec fn canonical_values(values: Seq<(int, int)>) -> bool {
    forall|i: int|
        0 <= i < values.len() ==> 0 <= (#[trigger] values[i]).0 < P && 0 <= values[i].1 < P
}

/// With exactly flag `j` set to 1 and every other flag 0, the first `n` weighted terms sum to
/// `values[j]` when `j < n` and to 0 otherwise, and the first `n` flags to 1 or 0 alike.
pub proof fn lemma_weighted_sum_one_hot(flags: Seq<int>, values: Seq<(int, int)>, j: int, n: int)
    requires
        0 <= n <= flags.len() == values.len(),
        0 <= j < flags.len(),
        canonical_values(values),
        flags[j] == 1,
        forall|i: int| 0 <= i < flags.len() && i != j ==> #[trigger] flags[i] == 0,
    ensures
        weighted_sum(flags, values, n) == (if j < n { values[j] } else { (0int, 0int) }),
        flag_sum(flags, n) == (if j < n { 1int } else { 0int }),
    decreases n,
{
    if n > 0 {
        lemma_weighted_sum_one_hot(flags, values, j, n - 1);
        let v = values[n - 1];
        lemma_canonical(v.0);
        lemma_canonical(v.1);
        lemma_canonical(values[j].0);
        lemma_canonical(values[j].1);
        lemma_canonical(1);
        lemma_canonical(0);
    }
}

/// With every flag 0, the first `n` weighted terms and flags sum to 0.
pub proof fn lemma_weighted_sum_none(flags: Seq<int>, values: Seq<(int, int)>, n: int)
    requires
        0 <= n <= flags.len() == values.len(),
        forall|i: int| 0 <= i < flags.len() ==> #[trigger] flags[i] == 0,
    ensures
        weighted_sum(flags, values, n) == (0int, 0int),
        flag_sum(flags, n) == 0,
    decreases n,
{
    if n > 0 {
        lemma_weighted_sum_none(flags, values, n - 1);
        let v = values[n - 1];
        lemma_mul_zero(v.0);
        lemma_mul_zero(v.1);
        lemma_canonical(0);
    }
}

/// When exactly one flag is set, the combined messages are that message's value; when no flag
/// is set, they are 1, the identity of the running product.
pub proof fn lemma_bus_multiplier_selects(flags: Seq<int>, values: Seq<(int, int)>)
    requires
        flags.len() == values.len(),
        canonical_values(values),
    ensures
        forall|j: int|
            0 <= j < flags.len() && flags[j] == 1 && (forall|i: int|
                0 <= i < flags.len() && i != j ==> #[trigger] flags[i] == 0) ==> bus_multiplier(
                flags,
                values,
            ) == #[trigger] values[j],
        (forall|i: int| 0 <= i < flags.len() ==> #[trigger] flags[i] == 0) ==> bus_multiplier(
            flags,
            values,
        ) == (1int, 0int),
{
    assert forall|j: int|
        0 <= j < flags.len() && flags[j] == 1 && (forall|i: int|
            0 <= i < flags.len() && i != j ==> #[trigger] flags[i] == 0) implies bus_multiplier(
        flags,
        values,
    ) == #[trigger] values[j] by {
        lemma_weighted_sum_one_hot(flags, values, j, flags.len() as int);
        let v = values[j];
        lemma_canonical(v.0);
        lemma_canonical(v.1);
        lemma_canonical(1);
        assert(fsub(1, 1) == 0);
    }
    if forall|i: int| 0 <= i < flags.len() ==> #[trigger] flags[i] == 0 {
        lemma_weighted_sum_none(flags, values, flags.len() as int);
        lemma_canonical(0);
        lemma_canonical(1);
    }
}


/// With no flag set, the combined messages are 1, whatever the values.
pub proof fn lemma_bus_multiplier_idle(flags: Seq<int>, values: Seq<(int, int)>)
    requires
        flags.len() == values.len(),
        forall|i: int| 0 <= i < flags.len() ==> #[trigger] flags[i] == 0,
    ensures
        bus_multiplier(flags, values) == (1int, 0int),
{
    lemma_weighted_sum_none(flags, values, flags.len() as int);
    lemma_canonical(0);
    lemma_canonical(1);
}

} // verus!
