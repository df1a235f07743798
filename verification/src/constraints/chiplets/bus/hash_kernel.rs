//! Hash kernel virtual table bus (`b_hash_kernel`).
//!
//! One running-product column aggregates three tables:
//!
//! 1. the sibling table of Merkle root updates (hasher chiplet),
//! 2. the memory reads of the ACE chiplet,
//! 3. the log-precompile transcript (capacity state transitions of LOGPRECOMPILE).
//!
//! Messages use the format `alpha + sum_i beta^i * element[i]`.

use vstd::prelude::*;

use crate::constraint_set::{ConstraintSet, EvalContext, RowDomain};
use crate::constraints::chiplets::bus::{
    bus_multiplier, canonical_values, combine_messages, lemma_bus_multiplier_idle, lemma_bus_multiplier_selects, quad_values,
};
use crate::constraints::chiplets::bus::chiplets::responses::{col, cols};
use crate::constraints::chiplets::hasher::flags::{f_mu, f_mua, f_mv, f_mva, pattern_flag};
use crate::constraints::chiplets::hasher::periodic::{P_CYCLE_ROW_0, P_CYCLE_ROW_31};
use crate::constraints::op_flags::{op_flag, OpFlags};
use crate::constraints::utils::felt_values;
use crate::field::{
    fadd, fmul, fsub, lemma_canonical, lemma_fadd_range, lemma_felt_range, lemma_fmul_range, lemma_fsub_range, lemma_mul_zero,
    lemma_qmul_one, lemma_qsub_zero, qadd, qmul, qscale, qsub, Felt, QuadFelt, P,
};
use crate::opcodes;
use crate::trace::challenges::{encode_sparse_spec, Challenges};
use crate::trace::chiplets::ace::{ACE_INSTRUCTION_ID1_OFFSET, ACE_INSTRUCTION_ID2_OFFSET};
use crate::trace::chiplets::memory::{MEMORY_READ_ELEMENT_LABEL, MEMORY_READ_WORD_LABEL};
use crate::trace::{MainCols, HASH_KERNEL_VTABLE_AUX_TRACE_OFFSET, LOG_PRECOMPILE_LABEL};

verus! {

broadcast use lemma_felt_range;

/// Auxiliary column of the hash kernel virtual table.
pub const B_HASH_KERNEL: usize = HASH_KERNEL_VTABLE_AUX_TRACE_OFFSET;

/// Coefficient positions of a sibling at `h[4..8]` (index bit 0): node index, then the word.
pub const SIBLING_B0_LAYOUT: [usize; 5] = [2, 7, 8, 9, 10];
/// Coefficient positions of a sibling at `h[0..4]` (index bit 1): node index, then the word.
pub const SIBLING_B1_LAYOUT: [usize; 5] = [2, 3, 4, 5, 6];

// SPECIFICATION
// ================================================================================================

/// The sibling message of a hasher state `h` (12 lanes) at node index `node`: the sibling word
/// is `h[4..8]` when the index bit is 0 and `h[0..4]` when it is 1.
pub open spec fn sibling_spec(ch: &Challenges, node: int, h: Seq<int>, bit_one: bool) -> (int, int) {
    if bit_one {
        encode_sparse_spec(ch.alpha@, ch.betas(), SIBLING_B1_LAYOUT@, seq![node] + h.subrange(0, 4), 5)
    } else {
        encode_sparse_spec(ch.alpha@, ch.betas(), SIBLING_B0_LAYOUT@, seq![node] + h.subrange(4, 8), 5)
    }
}

/// The sibling value selected by the index bit `b = i - 2 * i'`: `(1 - b) * sibling_b0 + b *
/// sibling_b1`.
pub open spec fn selected_sibling(ch: &Challenges, local: &MainCols<Felt>, next: &MainCols<Felt>, h: Seq<int>) -> (int, int) {
    let node = col(local, 16);
    let b = fsub(node, fadd(col(next, 16), col(next, 16)));
    qadd(qscale(sibling_spec(ch, node, h, false), fsub(1, b)), qscale(sibling_spec(ch, node, h, true), b))
}

/// The sibling table flags `[MU, MUA]` (requests) and `[MV, MVA]` (responses) of a hasher row.
pub open spec fn sibling_flag(local: &MainCols<Felt>, cycle: int, old_path: bool) -> int {
    fmul(fsub(1, col(local, 0)), pattern_flag(cycle, col(local, 1), col(local, 2), col(local, 3), true, true, !old_path))
}

/// The ACE row flag `s0 * s1 * s2 * (1 - s3)`.
pub open spec fn ace_row_flag(local: &MainCols<Felt>) -> int {
    fmul(fmul(fmul(col(local, 0), col(local, 1)), col(local, 2)), fsub(1, col(local, 3)))
}

/// The word read of an ACE read row: `[READ_WORD, ctx, ptr, clk, v_0, v_1]`.
pub open spec fn ace_word_spec(ch: &Challenges, local: &MainCols<Felt>) -> (int, int) {
    ch.alpha_message(seq![
        MEMORY_READ_WORD_LABEL as int,
        col(local, 6),
        col(local, 7),
        col(local, 8),
        col(local, 11),
        col(local, 12),
        col(local, 14),
        col(local, 15),
    ])
}

/// The instruction read of an ACE eval row: `[READ_ELEMENT, ctx, ptr, clk, instruction]`, the
/// instruction `id_1 + id_2 * 2^30 + (op + 1) * 2^60`.
pub open spec fn ace_element_spec(ch: &Challenges, local: &MainCols<Felt>) -> (int, int) {
    let instruction = fadd(
        fadd(col(local, 13), fmul(col(local, 16), ACE_INSTRUCTION_ID1_OFFSET as int)),
        fmul(fadd(col(local, 9), 1), ACE_INSTRUCTION_ID2_OFFSET as int),
    );
    ch.alpha_message(seq![MEMORY_READ_ELEMENT_LABEL as int, col(local, 6), col(local, 7), col(local, 8), instruction])
}

/// The capacity message `[LOG_PRECOMPILE_LABEL, cap]` of the log-precompile transcript.
pub open spec fn cap_message_spec(ch: &Challenges, cap: Seq<int>) -> (int, int) {
    ch.alpha_message(seq![LOG_PRECOMPILE_LABEL as int] + cap)
}

/// The previous capacity, from helper registers 1..4.
pub open spec fn cap_prev(local: &MainCols<Felt>) -> Seq<int> {
    Seq::new(4, |i: int| local.decoder.hasher_state@[3 + i]@)
}

/// The next capacity, from the next row's stack items 8..12.
pub open spec fn cap_next(next: &MainCols<Felt>) -> Seq<int> {
    Seq::new(4, |i: int| next.stack.top@[8 + i]@)
}

/// The request flags: MU, MUA, ACE read, ACE eval, LOGPRECOMPILE.
pub open spec fn hash_kernel_request_flags(ctx: &EvalContext, local: &MainCols<Felt>, f: &OpFlags) -> Seq<int> {
    let c0 = ctx.periodic@[P_CYCLE_ROW_0 as int]@;
    let c31 = ctx.periodic@[P_CYCLE_ROW_31 as int]@;
    seq![
        sibling_flag(local, c0, false),
        sibling_flag(local, c31, false),
        fmul(ace_row_flag(local), fsub(1, col(local, 5))),
        fmul(ace_row_flag(local), col(local, 5)),
        op_flag(f, opcodes::LOGPRECOMPILE),
    ]
}

/// The request values, in the order of [`hash_kernel_request_flags`].
pub open spec fn hash_kernel_request_values(ch: &Challenges, local: &MainCols<Felt>, next: &MainCols<Felt>) -> Seq<(int, int)> {
    seq![
        selected_sibling(ch, local, next, cols(local, 4, 12)),
        selected_sibling(ch, local, next, cols(next, 4, 12)),
        ace_word_spec(ch, local),
        ace_element_spec(ch, local),
        cap_message_spec(ch, cap_prev(local)),
    ]
}

/// The response flags: MV, MVA, LOGPRECOMPILE.
pub open spec fn hash_kernel_response_flags(ctx: &EvalContext, local: &MainCols<Felt>, f: &OpFlags) -> Seq<int> {
    let c0 = ctx.periodic@[P_CYCLE_ROW_0 as int]@;
    let c31 = ctx.periodic@[P_CYCLE_ROW_31 as int]@;
    seq![sibling_flag(local, c0, true), sibling_flag(local, c31, true), op_flag(f, opcodes::LOGPRECOMPILE)]
}

/// The response values, in the order of [`hash_kernel_response_flags`].
pub open spec fn hash_kernel_response_values(ch: &Challenges, local: &MainCols<Felt>, next: &MainCols<Felt>) -> Seq<(int, int)> {
    seq![
        selected_sibling(ch, local, next, cols(local, 4, 12)),
        selected_sibling(ch, local, next, cols(next, 4, 12)),
        cap_message_spec(ch, cap_next(next)),
    ]
}

/// The hash kernel constraint `p' * requests - p * responses`.
pub open spec fn hash_kernel_constraint_spec(
    ctx: &EvalContext,
    local: &MainCols<Felt>,
    next: &MainCols<Felt>,
    f: &OpFlags,
    ch: &Challenges,
) -> (int, int) {
    let requests = bus_multiplier(hash_kernel_request_flags(ctx, local, f), hash_kernel_request_values(ch, local, next));
    let responses = bus_multiplier(hash_kernel_response_flags(ctx, local, f), hash_kernel_response_values(ch, local, next));
    qsub(qmul(ctx.aux_next(B_HASH_KERNEL as int), requests), qmul(ctx.aux_local(B_HASH_KERNEL as int), responses))
}

// HELPERS
// ================================================================================================

/// Sibling message when the index bit is 0 (sibling at `h[4..8]`).
fn compute_sibling_b0(ch: &Challenges, node_index: Felt, h: &[Felt; 12]) -> (r: QuadFelt)
    requires
        ch.wf(),
    ensures
        r@ == sibling_spec(ch, node_index@, felt_values(h@), false),
{
    let values = [node_index, h[4], h[5], h[6], h[7]];
    let layout = SIBLING_B0_LAYOUT;
    assert(felt_values(values@) =~= seq![node_index@] + felt_values(h@).subrange(4, 8));
    ch.encode_sparse_with_alpha(layout.as_slice(), values.as_slice())
}

/// Sibling message when the index bit is 1 (sibling at `h[0..4]`).
fn compute_sibling_b1(ch: &Challenges, node_index: Felt, h: &[Felt; 12]) -> (r: QuadFelt)
    requires
        ch.wf(),
    ensures
        r@ == sibling_spec(ch, node_index@, felt_values(h@), true),
{
    let values = [node_index, h[0], h[1], h[2], h[3]];
    let layout = SIBLING_B1_LAYOUT;
    assert(felt_values(values@) =~= seq![node_index@] + felt_values(h@).subrange(0, 4));
    ch.encode_sparse_with_alpha(layout.as_slice(), values.as_slice())
}

// ENTRY POINT
// ================================================================================================

/// Enforces the hash kernel virtual table constraint `p' * requests = p * responses`, combining
/// the sibling table, the ACE memory reads and the log-precompile transcript.
#[verifier::rlimit(30)]
pub fn enforce_hash_kernel_constraint(
    builder: &mut ConstraintSet,
    ctx: &EvalContext,
    local: &MainCols<Felt>,
    next: &MainCols<Felt>,
    op_flags: &OpFlags,
    challenges: &Challenges,
)
    requires
        ctx.wf(),
        ctx.periodic@.len() > P_CYCLE_ROW_31,
        op_flags.wf(),
        challenges.wf(),
    ensures
        final(builder).ext_view() == old(builder).ext_view().push(
            (hash_kernel_constraint_spec(ctx, local, next, op_flags, challenges), RowDomain::Transition),
        ),
        final(builder).base_view() == old(builder).base_view(),
        final(builder).tags_view() == old(builder).tags_view(),
{
    let ch = challenges;
    let p_local = ctx.aux.current_slice()[B_HASH_KERNEL];
    let p_next = ctx.aux.next_slice()[B_HASH_KERNEL];
    let cycle_row_0 = ctx.periodic[P_CYCLE_ROW_0];
    let cycle_row_31 = ctx.periodic[P_CYCLE_ROW_31];
    let c = &local.chiplets;
    let cn = &next.chiplets;
    let one = Felt::one();

    // Sibling table.
    let is_hasher = one.sub(c[0]);
    let f_mu_v = is_hasher.mul(f_mu(cycle_row_0, c[1], c[2], c[3]));
    let f_mua_v = is_hasher.mul(f_mua(cycle_row_31, c[1], c[2], c[3]));
    let f_mv_v = is_hasher.mul(f_mv(cycle_row_0, c[1], c[2], c[3]));
    let f_mva_v = is_hasher.mul(f_mva(cycle_row_31, c[1], c[2], c[3]));
    let node_index = c[16];
    let b = node_index.sub(cn[16].double());
    let is_b_zero = one.sub(b);
    let h = [c[4], c[5], c[6], c[7], c[8], c[9], c[10], c[11], c[12], c[13], c[14], c[15]];
    let h_next = [cn[4], cn[5], cn[6], cn[7], cn[8], cn[9], cn[10], cn[11], cn[12], cn[13], cn[14], cn[15]];
    assert(felt_values(h@) =~= cols(local, 4, 12));
    assert(felt_values(h_next@) =~= cols(next, 4, 12));
    let v_sibling_curr = compute_sibling_b0(ch, node_index, &h).scale(is_b_zero).add(
        compute_sibling_b1(ch, node_index, &h).scale(b),
    );
    let v_sibling_next = compute_sibling_b0(ch, node_index, &h_next).scale(is_b_zero).add(
        compute_sibling_b1(ch, node_index, &h_next).scale(b),
    );

    // ACE memory reads.
    let is_ace_row = c[0].mul(c[1]).mul(c[2]).mul(one.sub(c[3]));
    let block_selector = c[5];
    let f_ace_read = is_ace_row.mul(one.sub(block_selector));
    let f_ace_eval = is_ace_row.mul(block_selector);
    let word = [Felt::new(MEMORY_READ_WORD_LABEL as u64), c[6], c[7], c[8], c[11], c[12], c[14], c[15]];
    assert(felt_values(word@) =~= seq![
        MEMORY_READ_WORD_LABEL as int,
        col(local, 6),
        col(local, 7),
        col(local, 8),
        col(local, 11),
        col(local, 12),
        col(local, 14),
        col(local, 15),
    ]);
    let v_ace_word = ch.encode_with_alpha(word.as_slice());
    let instruction = c[13].add(c[16].mul(Felt::new(ACE_INSTRUCTION_ID1_OFFSET))).add(
        c[9].add(one).mul(Felt::new(ACE_INSTRUCTION_ID2_OFFSET)),
    );
    let element = [Felt::new(MEMORY_READ_ELEMENT_LABEL as u64), c[6], c[7], c[8], instruction];
    assert(felt_values(element@) =~= seq![
        MEMORY_READ_ELEMENT_LABEL as int,
        col(local, 6),
        col(local, 7),
        col(local, 8),
        instruction@,
    ]);
    let v_ace_element = ch.encode_with_alpha(element.as_slice());

    // Log precompile transcript.
    let f_log = op_flags.log_precompile();
    let hs = &local.decoder.hasher_state;
    let nt = &next.stack.top;
    let label = Felt::new(LOG_PRECOMPILE_LABEL as u64);
    let prev = [label, hs[3], hs[4], hs[5], hs[6]];
    let nxt = [label, nt[8], nt[9], nt[10], nt[11]];
    assert(felt_values(prev@) =~= seq![LOG_PRECOMPILE_LABEL as int] + cap_prev(local));
    assert(felt_values(nxt@) =~= seq![LOG_PRECOMPILE_LABEL as int] + cap_next(next));
    let v_cap_prev = ch.encode_with_alpha(prev.as_slice());
    let v_cap_next = ch.encode_with_alpha(nxt.as_slice());

    // Running product: p' * requests = p * responses.
    let req_flags = vec![f_mu_v, f_mua_v, f_ace_read, f_ace_eval, f_log];
    let req_values = vec![v_sibling_curr, v_sibling_next, v_ace_word, v_ace_element, v_cap_prev];
    let resp_flags = vec![f_mv_v, f_mva_v, f_log];
    let resp_values = vec![v_sibling_curr, v_sibling_next, v_cap_next];
    assert(felt_values(req_flags@) =~= hash_kernel_request_flags(ctx, local, op_flags));
    assert(quad_values(req_values@) =~= hash_kernel_request_values(ch, local, next));
    assert(felt_values(resp_flags@) =~= hash_kernel_response_flags(ctx, local, op_flags));
    assert(quad_values(resp_values@) =~= hash_kernel_response_values(ch, local, next));
    let requests = combine_messages(&req_flags, &req_values);
    let responses = combine_messages(&resp_flags, &resp_values);
    builder.assert_zero_ext(p_next.mul(requests).sub(p_local.mul(responses)), RowDomain::Transition);
}


// LAWS
// ================================================================================================

/// On a row where no request and no response flag of the table is set, the hash kernel
/// constraint is `p' - p`: it vanishes exactly when the table is left unchanged.
pub proof fn lemma_hash_kernel_idle(
    ctx: &EvalContext,
    local: &MainCols<Felt>,
    next: &MainCols<Felt>,
    f: &OpFlags,
    ch: &Challenges,
)
    requires
        ctx.wf(),
        forall|i: int|
            0 <= i < hash_kernel_request_flags(ctx, local, f).len() ==> #[trigger] hash_kernel_request_flags(
                ctx,
                local,
                f,
            )[i] == 0,
        forall|i: int|
            0 <= i < hash_kernel_response_flags(ctx, local, f).len() ==> #[trigger] hash_kernel_response_flags(
                ctx,
                local,
                f,
            )[i] == 0,
    ensures
        hash_kernel_constraint_spec(ctx, local, next, f, ch) == qsub(
            ctx.aux_next(B_HASH_KERNEL as int),
            ctx.aux_local(B_HASH_KERNEL as int),
        ),
        (hash_kernel_constraint_spec(ctx, local, next, f, ch) == (0int, 0int)) == (ctx.aux_next(B_HASH_KERNEL as int)
            == ctx.aux_local(B_HASH_KERNEL as int)),
{
    lemma_bus_multiplier_idle(hash_kernel_request_flags(ctx, local, f), hash_kernel_request_values(ch, local, next));
    lemma_bus_multiplier_idle(hash_kernel_response_flags(ctx, local, f), hash_kernel_response_values(ch, local, next));
    let p = ctx.aux_local(B_HASH_KERNEL as int);
    let p_next = ctx.aux_next(B_HASH_KERNEL as int);
    assert(p == ctx.aux.current()[B_HASH_KERNEL as int]@);
    assert(p_next == ctx.aux.next()[B_HASH_KERNEL as int]@);
    lemma_qmul_one(p);
    lemma_qmul_one(p_next);
    lemma_qsub_zero(p_next, p);
}

/// On a LOGPRECOMPILE row that is no hasher row (`s0 = 1`) and no ACE row (`s1 = 0`), the
/// transcript removes the previous capacity and inserts the next one: the constraint is
/// `p' * [label, cap_prev] - p * [label, cap_next]`, and it vanishes exactly when these two
/// products are equal.
pub proof fn lemma_hash_kernel_log_precompile(
    ctx: &EvalContext,
    local: &MainCols<Felt>,
    next: &MainCols<Felt>,
    f: &OpFlags,
    ch: &Challenges,
)
    requires
        op_flag(f, opcodes::LOGPRECOMPILE) == 1,
        col(local, 0) == 1,
        col(local, 1) == 0,
    ensures
        hash_kernel_constraint_spec(ctx, local, next, f, ch) == qsub(
            qmul(ctx.aux_next(B_HASH_KERNEL as int), cap_message_spec(ch, cap_prev(local))),
            qmul(ctx.aux_local(B_HASH_KERNEL as int), cap_message_spec(ch, cap_next(next))),
        ),
        (hash_kernel_constraint_spec(ctx, local, next, f, ch) == (0int, 0int)) == (qmul(
            ctx.aux_next(B_HASH_KERNEL as int),
            cap_message_spec(ch, cap_prev(local)),
        ) == qmul(ctx.aux_local(B_HASH_KERNEL as int), cap_message_spec(ch, cap_next(next)))),
{
    broadcast use lemma_fadd_range, lemma_fmul_range, lemma_fsub_range;

    assert forall|x: int| #[trigger] fmul(0, x) == 0 by {
        lemma_mul_zero(x);
    }
    assert forall|x: int| #[trigger] fmul(x, 0) == 0 by {
        lemma_mul_zero(x);
    }
    lemma_canonical(1);
    let rf = hash_kernel_request_flags(ctx, local, f);
    let rv = hash_kernel_request_values(ch, local, next);
    let sf = hash_kernel_response_flags(ctx, local, f);
    let sv = hash_kernel_response_values(ch, local, next);
    assert(canonical_values(rv));
    assert(canonical_values(sv));
    lemma_bus_multiplier_selects(rf, rv);
    lemma_bus_multiplier_selects(sf, sv);
    assert(rf[4] == 1);
    assert forall|i: int| 0 <= i < rf.len() && i != 4 implies #[trigger] rf[i] == 0 by {
    }
    assert(sf[2] == 1);
    assert forall|i: int| 0 <= i < sf.len() && i != 2 implies #[trigger] sf[i] == 0 by {
    }
    let a = qmul(ctx.aux_next(B_HASH_KERNEL as int), cap_message_spec(ch, cap_prev(local)));
    let b = qmul(ctx.aux_local(B_HASH_KERNEL as int), cap_message_spec(ch, cap_next(next)));
    lemma_qsub_zero(a, b);
}

/// The instruction read by an ACE eval row packs its wires and operation as the integer
/// `id1 + id2 * 2^30 + (op + 1) * 2^60`, with `op + 1` being 0, 1, 2 for subtraction,
/// multiplication and addition.
pub proof fn lemma_ace_instruction(ch: &Challenges, local: &MainCols<Felt>)
    requires
        col(local, 13) < 0x4000_0000,
        col(local, 16) < 0x4000_0000,
        col(local, 9) == 0 || col(local, 9) == 1 || col(local, 9) == P - 1,
    ensures
        ace_element_spec(ch, local) == ch.alpha_message(seq![
            MEMORY_READ_ELEMENT_LABEL as int,
            col(local, 6),
            col(local, 7),
            col(local, 8),
            col(local, 13) + col(local, 16) * 0x4000_0000 + (if col(local, 9) == P - 1 {
                0int
            } else {
                col(local, 9) + 1
            }) * 0x1000_0000_0000_0000,
        ]),
{
    let p = P as int;
    let id1 = col(local, 13);
    let id2 = col(local, 16);
    let op = col(local, 9);
    let opc = if op == p - 1 { 0int } else { op + 1 };
    crate::field::lemma_field_ops_mod(op, 1);
    if op == p - 1 {
        vstd::arithmetic::div_mod::lemma_mod_self_0(p);
    } else {
        vstd::arithmetic::div_mod::lemma_small_mod((op + 1) as nat, p as nat);
    }
    assert(fadd(op, 1) == opc);
    crate::field::lemma_field_ops_mod(id2, 0x4000_0000);
    vstd::arithmetic::div_mod::lemma_small_mod((id2 * 0x4000_0000) as nat, p as nat);
    crate::field::lemma_field_ops_mod(id1, id2 * 0x4000_0000);
    vstd::arithmetic::div_mod::lemma_small_mod((id1 + id2 * 0x4000_0000) as nat, p as nat);
    crate::field::lemma_field_ops_mod(opc, 0x1000_0000_0000_0000);
    vstd::arithmetic::div_mod::lemma_small_mod((opc * 0x1000_0000_0000_0000) as nat, p as nat);
    crate::field::lemma_field_ops_mod(id1 + id2 * 0x4000_0000, opc * 0x1000_0000_0000_0000);
    vstd::arithmetic::div_mod::lemma_small_mod((id1 + id2 * 0x4000_0000 + opc * 0x1000_0000_0000_0000) as nat, p as nat);
}

} // verus!
