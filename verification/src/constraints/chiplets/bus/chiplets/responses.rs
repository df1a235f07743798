//! Response messages of the chiplets bus, sent by the chiplets.

use vstd::prelude::*;

use super::requests::{
    bitwise_request_spec, chiplets_message, encode_hasher_message, evalcircuit_request_spec, hasher_message,
    control_block_request_spec, end_request_spec, helper, hornerext_request_spec, hperm_request_spec, respan_request_spec, hs_range, two_word_request_spec, kernel_call_request_spec, memory_element_request_spec,
    memory_label, memory_word_request_spec, span_request_spec, st, st_range,
};
use super::{
    HASH_CYCLE_OFFSET, TRANSITION_LINEAR_HASH, TRANSITION_LINEAR_HASH_ABP, TRANSITION_MP_VERIFY,
    TRANSITION_MR_UPDATE_NEW, TRANSITION_MR_UPDATE_OLD, TRANSITION_RETURN_HASH,
    TRANSITION_RETURN_STATE,
};
use crate::constraint_set::EvalContext;
use crate::constraints::chiplets::bitwise::P_BITWISE_K_TRANSITION;
use crate::constraints::chiplets::bus::{
    bus_multiplier, canonical_values, combine_messages, flag_sum, lemma_bus_multiplier_selects, lemma_weighted_sum_none,
    lemma_weighted_sum_one_hot, quad_values, weighted_sum,
};
use crate::constraints::chiplets::hasher::periodic::{P_CYCLE_ROW_0, P_CYCLE_ROW_31};
use crate::constraints::chiplets::selectors::ChipletSelectors;
use crate::constraints::op_flags::{lemma_lit, lit};
use crate::constraints::utils::felt_values;
use crate::field::{
    fadd, fmul, fnot, fsub, lemma_add_sub_cancel, lemma_bool_ops, lemma_canonical, lemma_fadd_assoc, lemma_fadd_range,
    lemma_felt_range, lemma_fmul_range, lemma_fsub_range, lemma_mul_zero, lemma_qmul_one, lemma_small_values,
    lemma_sub_add_cancel, qadd, qscale, Felt, QuadFelt, P,
};
use crate::trace::bus_types::CHIPLETS_BUS;
use crate::trace::challenges::Challenges;
use crate::trace::chiplets::ace::ACE_INIT_LABEL;
use crate::trace::chiplets::bitwise::{BITWISE_AND_LABEL, BITWISE_XOR_LABEL};
use crate::trace::chiplets::kernel_rom::{KERNEL_PROC_CALL_LABEL, KERNEL_PROC_INIT_LABEL};
use crate::trace::chiplets::memory::{
    MEMORY_READ_ELEMENT_LABEL, MEMORY_READ_WORD_LABEL, MEMORY_WRITE_ELEMENT_LABEL,
    MEMORY_WRITE_WORD_LABEL,
};
use crate::trace::MainCols;

verus! {

broadcast use lemma_felt_range;

// SPECIFICATION
// ================================================================================================

/// Chiplet column `i` of a row.
pub open spec fn col(row: &MainCols<Felt>, i: int) -> int {
    row.chiplets@[i]@
}

/// Chiplet columns `from..from + n` of a row.
pub open spec fn cols(row: &MainCols<Felt>, from: int, n: int) -> Seq<int> {
    Seq::new(n as nat, |i: int| row.chiplets@[from + i]@)
}

/// A hasher response flag: `active * cycle * lit(s0) * lit(s1) * lit(s2)` with the hasher
/// selectors of the row.
pub open spec fn hasher_response_flag(active: int, cycle: int, row: &MainCols<Felt>, b0: bool, b1: bool, b2: bool) -> int {
    fmul(fmul(fmul(fmul(active, cycle), lit(col(row, 1), b0)), lit(col(row, 2), b1)), lit(col(row, 3), b2))
}

/// The hasher response flags: BP, MP, MV, MU (row 0), HOUT, SOUT, ABP (row 31).
pub open spec fn hasher_response_flags(active: int, c0: int, c31: int, local: &MainCols<Felt>) -> Seq<int> {
    seq![
        hasher_response_flag(active, c0, local, true, false, false),
        hasher_response_flag(active, c0, local, true, false, true),
        hasher_response_flag(active, c0, local, true, true, false),
        hasher_response_flag(active, c0, local, true, true, true),
        hasher_response_flag(active, c31, local, false, false, false),
        hasher_response_flag(active, c31, local, false, false, true),
        hasher_response_flag(active, c31, local, true, false, false),
    ]
}

/// The leaf word of a Merkle operation: RATE0 when the index bit is 0, RATE1 when it is 1, with
/// the bit `node_index - 2 * node_index'`.
pub open spec fn leaf_word(local: &MainCols<Felt>, next: &MainCols<Felt>) -> Seq<int> {
    let bit = fsub(col(local, 16), fmul(col(next, 16), 2));
    Seq::new(4, |i: int| fadd(fmul(fnot(bit), col(local, 4 + i)), fmul(bit, col(local, 8 + i))))
}

/// The hasher response values, in the order of [`hasher_response_flags`].
pub open spec fn hasher_response_values(ch: &Challenges, local: &MainCols<Felt>, next: &MainCols<Felt>) -> Seq<(int, int)> {
    let addr = fadd(local.system.clk@, 1);
    let node = col(local, 16);
    seq![
        hasher_message(ch, TRANSITION_LINEAR_HASH as int, addr, node, cols(local, 4, 12)),
        hasher_message(ch, TRANSITION_MP_VERIFY as int, addr, node, leaf_word(local, next)),
        hasher_message(ch, TRANSITION_MR_UPDATE_OLD as int, addr, node, leaf_word(local, next)),
        hasher_message(ch, TRANSITION_MR_UPDATE_NEW as int, addr, node, leaf_word(local, next)),
        hasher_message(ch, TRANSITION_RETURN_HASH as int, addr, node, cols(local, 4, 4)),
        hasher_message(ch, TRANSITION_RETURN_STATE as int, addr, node, cols(local, 4, 12)),
        hasher_message(ch, TRANSITION_LINEAR_HASH_ABP as int, addr, node, cols(next, 4, 8)),
    ]
}

/// The memory label `is_write * (is_element * WRITE_ELEMENT + is_word * WRITE_WORD) + is_read *
/// (is_element * READ_ELEMENT + is_word * READ_WORD)`.
pub open spec fn memory_label_spec(is_read: int, is_word: int) -> int {
    let is_element = fnot(is_word);
    let write = fadd(fmul(is_element, MEMORY_WRITE_ELEMENT_LABEL as int), fmul(is_word, MEMORY_WRITE_WORD_LABEL as int));
    let read = fadd(fmul(is_element, MEMORY_READ_ELEMENT_LABEL as int), fmul(is_word, MEMORY_READ_WORD_LABEL as int));
    fadd(fmul(fnot(is_read), write), fmul(is_read, read))
}

/// The element selected by `(idx0, idx1)`: `v0, v1, v2, v3` for `(0,0), (1,0), (0,1), (1,1)`.
pub open spec fn memory_element_spec(v: Seq<int>, idx0: int, idx1: int) -> int {
    fadd(
        fadd(
            fadd(fmul(fmul(v[0], fnot(idx0)), fnot(idx1)), fmul(fmul(v[1], idx0), fnot(idx1))),
            fmul(fmul(v[2], fnot(idx0)), idx1),
        ),
        fmul(fmul(v[3], idx0), idx1),
    )
}

/// The memory response: the element message for element accesses, the word message for word
/// accesses, at address `word_addr + 2 * idx1 + idx0`.
pub open spec fn memory_response_spec(ch: &Challenges, local: &MainCols<Felt>) -> (int, int) {
    let is_read = col(local, 3);
    let is_word = col(local, 4);
    let ctx = col(local, 5);
    let idx0 = col(local, 7);
    let idx1 = col(local, 8);
    let clk = col(local, 9);
    let v = cols(local, 10, 4);
    let label = memory_label_spec(is_read, is_word);
    let addr = fadd(fadd(col(local, 6), fmul(idx1, 2)), idx0);
    let element_msg = chiplets_message(ch, seq![label, ctx, addr, clk, memory_element_spec(v, idx0, idx1)]);
    let word_msg = chiplets_message(ch, seq![label, ctx, addr, clk] + v);
    crate::field::qadd(
        crate::field::qscale(element_msg, fnot(is_word)),
        crate::field::qscale(word_msg, is_word),
    )
}

/// The bitwise response `[label, a, b, output]`, the label chosen by the op flag.
pub open spec fn bitwise_response_spec(ch: &Challenges, local: &MainCols<Felt>) -> (int, int) {
    let sel = col(local, 2);
    let label = fadd(fmul(fnot(sel), BITWISE_AND_LABEL as int), fmul(sel, BITWISE_XOR_LABEL as int));
    chiplets_message(ch, seq![label, col(local, 3), col(local, 4), col(local, 14)])
}

/// The ACE response `[label, clk, ctx, ptr, num_read_rows, num_eval_rows]`.
pub open spec fn ace_response_spec(ch: &Challenges, local: &MainCols<Felt>) -> (int, int) {
    let num_eval_rows = fadd(col(local, 16), 1);
    let num_read_rows = fsub(fadd(col(local, 10), 1), num_eval_rows);
    chiplets_message(
        ch,
        seq![ACE_INIT_LABEL as int, col(local, 8), col(local, 6), col(local, 7), num_read_rows, num_eval_rows],
    )
}

/// The kernel ROM response `[label, root]`: the init label on the first row of a procedure,
/// the call label otherwise.
pub open spec fn kernel_rom_response_spec(ch: &Challenges, local: &MainCols<Felt>) -> (int, int) {
    let s_first = col(local, 5);
    let label = fadd(fmul(s_first, KERNEL_PROC_INIT_LABEL as int), fmul(fnot(s_first), KERNEL_PROC_CALL_LABEL as int));
    chiplets_message(ch, seq![label] + cols(local, 6, 4))
}

/// The response flags: the hasher's seven, then bitwise (not on the last row of a cycle),
/// memory, ACE (on the start row) and kernel ROM.
pub open spec fn response_flags(sel: &ChipletSelectors, c0: int, c31: int, k_transition: int, local: &MainCols<Felt>) -> Seq<int> {
    hasher_response_flags(sel.hasher.is_active@, c0, c31, local) + seq![
        fmul(sel.bitwise.is_active@, fnot(k_transition)),
        sel.memory.is_active@,
        fmul(sel.ace.is_active@, col(local, 4)),
        sel.kernel_rom.is_active@,
    ]
}

/// The response values, in the order of [`response_flags`].
pub open spec fn response_values(ch: &Challenges, local: &MainCols<Felt>, next: &MainCols<Felt>) -> Seq<(int, int)> {
    hasher_response_values(ch, local, next) + seq![
        bitwise_response_spec(ch, local),
        memory_response_spec(ch, local),
        ace_response_spec(ch, local),
        kernel_rom_response_spec(ch, local),
    ]
}

/// The response multiplier: `sum(flag_i * value_i) + (1 - sum(flag_i))` over the chiplet rows
/// that respond.
pub open spec fn response_multiplier_spec(
    sel: &ChipletSelectors,
    c0: int,
    c31: int,
    k_transition: int,
    ch: &Challenges,
    local: &MainCols<Felt>,
    next: &MainCols<Felt>,
) -> (int, int) {
    bus_multiplier(response_flags(sel, c0, c31, k_transition, local), response_values(ch, local, next))
}

// RESPONSE VALUES
// ================================================================================================

/// A field element from a small label.
fn label_felt(label: u64) -> (r: Felt)
    requires
        label < 256,
    ensures
        r@ == label,
{
    Felt::new(label)
}

/// `lit(s, on)`: `s` or `1 - s`.
fn lit_felt(s: Felt, on: bool) -> (r: Felt)
    ensures
        r@ == lit(s@, on),
{
    if on {
        s
    } else {
        s.not()
    }
}

/// The hasher's response flags and values.
pub struct HasherResponse {
    pub flags: Vec<Felt>,
    pub values: Vec<QuadFelt>,
}

/// Computes the hasher chiplet's response flags and values: initialization on row 0 of a cycle
/// (BP, MP, MV, MU), output and absorption on row 31 (HOUT, SOUT, ABP).
fn compute_hasher_response(
    ch: &Challenges,
    local: &MainCols<Felt>,
    next: &MainCols<Felt>,
    sel: &ChipletSelectors,
    cycle_row_0: Felt,
    cycle_row_31: Felt,
) -> (r: HasherResponse)
    requires
        ch.wf(),
    ensures
        felt_values(r.flags@) == hasher_response_flags(sel.hasher.is_active@, cycle_row_0@, cycle_row_31@, local),
        quad_values(r.values@) == hasher_response_values(ch, local, next),
{
    let h = local.hasher();
    let h_next = next.hasher();
    let active = sel.hasher.is_active;
    let hs0 = h.selectors[0];
    let hs1 = h.selectors[1];
    let hs2 = h.selectors[2];
    let a0 = active.mul(cycle_row_0);
    let a31 = active.mul(cycle_row_31);
    let f_bp = a0.mul(lit_felt(hs0, true)).mul(lit_felt(hs1, false)).mul(lit_felt(hs2, false));
    let f_mp = a0.mul(lit_felt(hs0, true)).mul(lit_felt(hs1, false)).mul(lit_felt(hs2, true));
    let f_mv = a0.mul(lit_felt(hs0, true)).mul(lit_felt(hs1, true)).mul(lit_felt(hs2, false));
    let f_mu = a0.mul(lit_felt(hs0, true)).mul(lit_felt(hs1, true)).mul(lit_felt(hs2, true));
    let f_hout = a31.mul(lit_felt(hs0, false)).mul(lit_felt(hs1, false)).mul(lit_felt(hs2, false));
    let f_sout = a31.mul(lit_felt(hs0, false)).mul(lit_felt(hs1, false)).mul(lit_felt(hs2, true));
    let f_abp = a31.mul(lit_felt(hs0, true)).mul(lit_felt(hs1, false)).mul(lit_felt(hs2, false));

    let node_index = h.node_index;
    let addr = local.system.clk.add(Felt::one());
    let st = &h.state;
    assert(felt_values(st@) =~= cols(local, 4, 12));

    // Leaf word: bit = node_index - 2 * node_index' selects RATE0 (bit 0) or RATE1 (bit 1).
    let bit = node_index.sub(h_next.node_index.mul(Felt::new(2)));
    let not_bit = bit.not();
    let leaf = [
        not_bit.mul(st[0]).add(bit.mul(st[4])),
        not_bit.mul(st[1]).add(bit.mul(st[5])),
        not_bit.mul(st[2]).add(bit.mul(st[6])),
        not_bit.mul(st[3]).add(bit.mul(st[7])),
    ];
    assert(felt_values(leaf@) =~= leaf_word(local, next));
    let digest = [st[0], st[1], st[2], st[3]];
    assert(felt_values(digest@) =~= cols(local, 4, 4));
    let ns = &h_next.state;
    let rate_next = [ns[0], ns[1], ns[2], ns[3], ns[4], ns[5], ns[6], ns[7]];
    assert(felt_values(rate_next@) =~= cols(next, 4, 8));

    let v_bp = encode_hasher_message(ch, label_felt(TRANSITION_LINEAR_HASH), addr, node_index, st.as_slice());
    let v_mp = encode_hasher_message(ch, label_felt(TRANSITION_MP_VERIFY), addr, node_index, leaf.as_slice());
    let v_mv = encode_hasher_message(ch, label_felt(TRANSITION_MR_UPDATE_OLD), addr, node_index, leaf.as_slice());
    let v_mu = encode_hasher_message(ch, label_felt(TRANSITION_MR_UPDATE_NEW), addr, node_index, leaf.as_slice());
    let v_hout = encode_hasher_message(ch, label_felt(TRANSITION_RETURN_HASH), addr, node_index, digest.as_slice());
    let v_sout = encode_hasher_message(ch, label_felt(TRANSITION_RETURN_STATE), addr, node_index, st.as_slice());
    let v_abp = encode_hasher_message(ch, label_felt(TRANSITION_LINEAR_HASH_ABP), addr, node_index, rate_next.as_slice());

    let flags = vec![f_bp, f_mp, f_mv, f_mu, f_hout, f_sout, f_abp];
    let values = vec![v_bp, v_mp, v_mv, v_mu, v_hout, v_sout, v_abp];
    assert(felt_values(flags@) =~= hasher_response_flags(active@, cycle_row_0@, cycle_row_31@, local));
    assert(quad_values(values@) =~= hasher_response_values(ch, local, next));
    HasherResponse { flags, values }
}

/// Computes the memory chiplet's response: the element at `word_addr + 2 * idx1 + idx0` for an
/// element access, the whole word for a word access.
fn compute_memory_response(ch: &Challenges, local: &MainCols<Felt>) -> (r: QuadFelt)
    requires
        ch.wf(),
    ensures
        r@ == memory_response_spec(ch, local),
{
    let mem = local.memory();
    let is_read = mem.is_read;
    let is_word = mem.is_word;
    let idx0 = mem.idx0;
    let idx1 = mem.idx1;
    let addr = mem.word_addr.add(idx1.mul(Felt::new(2))).add(idx0);
    let is_element = is_word.not();
    let is_write = is_read.not();
    let write_label = is_element.mul(label_felt(MEMORY_WRITE_ELEMENT_LABEL as u64)).add(
        is_word.mul(label_felt(MEMORY_WRITE_WORD_LABEL as u64)),
    );
    let read_label = is_element.mul(label_felt(MEMORY_READ_ELEMENT_LABEL as u64)).add(
        is_word.mul(label_felt(MEMORY_READ_WORD_LABEL as u64)),
    );
    let label = is_write.mul(write_label).add(is_read.mul(read_label));
    let v = &mem.values;
    let not_idx0 = idx0.not();
    let not_idx1 = idx1.not();
    let element = v[0].mul(not_idx0).mul(not_idx1).add(v[1].mul(idx0).mul(not_idx1)).add(
        v[2].mul(not_idx0).mul(idx1),
    ).add(v[3].mul(idx0).mul(idx1));
    let ghost vs = cols(local, 10, 4);
    assert(felt_values(v@) =~= vs);
    let m_element = [label, mem.ctx, addr, mem.clk, element];
    let m_word = [label, mem.ctx, addr, mem.clk, v[0], v[1], v[2], v[3]];
    assert(felt_values(m_element@) =~= seq![label@, col(local, 5), addr@, col(local, 9), memory_element_spec(vs, idx0@, idx1@)]);
    assert(felt_values(m_word@) =~= seq![label@, col(local, 5), addr@, col(local, 9)] + vs);
    let element_msg = ch.encode(CHIPLETS_BUS, m_element.as_slice());
    let word_msg = ch.encode(CHIPLETS_BUS, m_word.as_slice());
    element_msg.scale(is_element).add(word_msg.scale(is_word))
}

// FULL RESPONSE MULTIPLIER
// ================================================================================================

/// Computes the response multiplier of the chiplets bus:
/// `sum(flag_i * value_i) + (1 - sum(flag_i))` over the chiplet rows that send a response. The
/// cycle markers and the bitwise transition marker are read from the periodic columns.
pub fn compute_response_multiplier(
    ctx: &EvalContext,
    local: &MainCols<Felt>,
    next: &MainCols<Felt>,
    ch: &Challenges,
    selectors: &ChipletSelectors,
) -> (r: QuadFelt)
    requires
        ch.wf(),
        ctx.periodic@.len() > P_BITWISE_K_TRANSITION,
    ensures
        r@ == response_multiplier_spec(
            selectors,
            ctx.periodic@[P_CYCLE_ROW_0 as int]@,
            ctx.periodic@[P_CYCLE_ROW_31 as int]@,
            ctx.periodic@[P_BITWISE_K_TRANSITION as int]@,
            ch,
            local,
            next,
        ),
{
    let cycle_row_0 = ctx.periodic[P_CYCLE_ROW_0];
    let cycle_row_31 = ctx.periodic[P_CYCLE_ROW_31];
    let k_transition = ctx.periodic[P_BITWISE_K_TRANSITION];

    let hasher = compute_hasher_response(ch, local, next, selectors, cycle_row_0, cycle_row_31);

    // Bitwise response.
    let bw = local.bitwise();
    let sel = bw.op_flag;
    let bw_label = sel.not().mul(label_felt(BITWISE_AND_LABEL)).add(sel.mul(label_felt(BITWISE_XOR_LABEL)));
    let m_bitwise = [bw_label, bw.a, bw.b, bw.output];
    assert(felt_values(m_bitwise@) =~= seq![bw_label@, col(local, 3), col(local, 4), col(local, 14)]);
    let v_bitwise = ch.encode(CHIPLETS_BUS, m_bitwise.as_slice());

    // Memory response.
    let v_memory = compute_memory_response(ch, local);

    // ACE response.
    let ace = local.ace();
    let read = ace.read();
    let num_eval_rows = read.num_eval.add(Felt::one());
    let num_read_rows = read.id_0.add(Felt::one()).sub(num_eval_rows);
    let m_ace = [label_felt(ACE_INIT_LABEL), ace.clk, ace.ctx, ace.ptr, num_read_rows, num_eval_rows];
    assert(felt_values(m_ace@) =~= seq![ACE_INIT_LABEL as int, col(local, 8), col(local, 6), col(local, 7), num_read_rows@, num_eval_rows@]);
    let v_ace = ch.encode(CHIPLETS_BUS, m_ace.as_slice());

    // Kernel ROM response.
    let krom = local.kernel_rom();
    let s_first = krom.s_first;
    let krom_label = s_first.mul(label_felt(KERNEL_PROC_INIT_LABEL)).add(
        s_first.not().mul(label_felt(KERNEL_PROC_CALL_LABEL)),
    );
    let m_krom = [krom_label, krom.root[0], krom.root[1], krom.root[2], krom.root[3]];
    assert(felt_values(m_krom@) =~= seq![krom_label@] + cols(local, 6, 4));
    let v_kernel_rom = ch.encode(CHIPLETS_BUS, m_krom.as_slice());

    let mut flags = hasher.flags;
    let mut values = hasher.values;
    flags.push(selectors.bitwise.is_active.mul(k_transition.not()));
    values.push(v_bitwise);
    flags.push(selectors.memory.is_active);
    values.push(v_memory);
    flags.push(selectors.ace.is_active.mul(ace.s_start));
    values.push(v_ace);
    flags.push(selectors.kernel_rom.is_active);
    values.push(v_kernel_rom);
    assert(felt_values(flags@) =~= response_flags(selectors, cycle_row_0@, cycle_row_31@, k_transition@, local));
    assert(quad_values(values@) =~= response_values(ch, local, next));
    combine_messages(&flags, &values)
}

// LAWS
// ================================================================================================

/// On binary flags, the memory label is `4 + 8 * is_read + 16 * is_word`.
pub proof fn lemma_memory_label_formula(is_read: int, is_word: int)
    requires
        is_read == 0 || is_read == 1,
        is_word == 0 || is_word == 1,
    ensures
        memory_label_spec(is_read, is_word) == 4 + 8 * is_read + 16 * is_word,
{
    lemma_bool_ops(is_read, is_word);
    lemma_bool_ops(is_word, is_read);
    assert forall|x: int, y: int| 0 <= x < 64 && 0 <= y < 64 implies #[trigger] fmul(x, y) == x * y by {
        lemma_small_values(x, y);
    }
    assert forall|x: int, y: int| 0 <= x < 64 && 0 <= y < 64 implies #[trigger] fadd(x, y) == x + y by {
        lemma_small_values(x, y);
    }
    assert(fadd(0, 0) == 0) by {
        lemma_small_values(0, 0);
    }
}

/// On binary indexes, the selected element is `v[idx0 + 2 * idx1]`.
pub proof fn lemma_memory_element_selects(v: Seq<int>, idx0: int, idx1: int)
    requires
        v.len() == 4,
        forall|i: int| 0 <= i < 4 ==> 0 <= #[trigger] v[i] < P,
        idx0 == 0 || idx0 == 1,
        idx1 == 0 || idx1 == 1,
    ensures
        memory_element_spec(v, idx0, idx1) == v[idx0 + 2 * idx1],
{
    lemma_bool_ops(idx0, idx1);
    lemma_bool_ops(idx1, idx0);
    assert forall|x: int| 0 <= x < P implies #[trigger] fmul(x, 1) == x by {
        lemma_canonical(x);
    }
    assert forall|x: int| #[trigger] fmul(x, 0) == 0 by {
        lemma_mul_zero(x);
    }
    assert forall|x: int| 0 <= x < P implies #[trigger] fadd(x, 0) == x by {
        lemma_canonical(x);
    }
    assert forall|x: int| 0 <= x < P implies #[trigger] fadd(0, x) == x by {
        lemma_canonical(x);
    }
    lemma_mul_zero(0);
    lemma_canonical(0);
    assert(0 <= v[0] < P && 0 <= v[1] < P && 0 <= v[2] < P && 0 <= v[3] < P);
}


/// The memory response of a row with binary `is_read`, `is_word`, `idx0` and `idx1`: the message
/// `[4 + 8 * is_read + 16 * is_word, ctx, word_addr + 2 * idx1 + idx0, clk]` followed by the whole
/// word for a word access and by the element `v[idx0 + 2 * idx1]` for an element access.
pub proof fn lemma_memory_response_layout(ch: &Challenges, local: &MainCols<Felt>)
    requires
        col(local, 3) == 0 || col(local, 3) == 1,
        col(local, 4) == 0 || col(local, 4) == 1,
        col(local, 7) == 0 || col(local, 7) == 1,
        col(local, 8) == 0 || col(local, 8) == 1,
    ensures
        memory_response_spec(ch, local) == chiplets_message(
            ch,
            seq![
                4 + 8 * col(local, 3) + 16 * col(local, 4),
                col(local, 5),
                fadd(col(local, 6), 2 * col(local, 8) + col(local, 7)),
                col(local, 9),
            ] + (if col(local, 4) == 1 {
                cols(local, 10, 4)
            } else {
                seq![col(local, 10 + col(local, 7) + 2 * col(local, 8))]
            }),
        ),
{
    broadcast use lemma_fadd_range, lemma_fmul_range, lemma_fsub_range;

    let is_read = col(local, 3);
    let is_word = col(local, 4);
    let idx0 = col(local, 7);
    let idx1 = col(local, 8);
    let v = cols(local, 10, 4);
    lemma_memory_label_formula(is_read, is_word);
    lemma_memory_element_selects(v, idx0, idx1);
    lemma_small_values(idx1, 2);
    lemma_small_values(2 * idx1, idx0);
    lemma_fadd_assoc(col(local, 6), fmul(idx1, 2), idx0);
    let label = memory_label_spec(is_read, is_word);
    let addr = fadd(fadd(col(local, 6), fmul(idx1, 2)), idx0);
    let head = seq![label, col(local, 5), addr, col(local, 9)];
    let element_msg = chiplets_message(ch, seq![label, col(local, 5), addr, col(local, 9), memory_element_spec(v, idx0, idx1)]);
    let word_msg = chiplets_message(ch, head + v);
    assert(seq![label, col(local, 5), addr, col(local, 9), memory_element_spec(v, idx0, idx1)] =~= head + seq![
        memory_element_spec(v, idx0, idx1),
    ]);
    lemma_qmul_one(element_msg);
    lemma_qmul_one(word_msg);
    lemma_bool_ops(is_word, is_word);
}

/// The kernel ROM response with a binary first-row flag: the init label 48 on the first row of a
/// procedure, the call label 16 otherwise, followed by the procedure root.
pub proof fn lemma_kernel_rom_response_labels(ch: &Challenges, local: &MainCols<Felt>)
    requires
        col(local, 5) == 0 || col(local, 5) == 1,
    ensures
        kernel_rom_response_spec(ch, local) == chiplets_message(
            ch,
            seq![
                if col(local, 5) == 1 {
                    KERNEL_PROC_INIT_LABEL as int
                } else {
                    KERNEL_PROC_CALL_LABEL as int
                },
            ] + cols(local, 6, 4),
        ),
{
    let s = col(local, 5);
    lemma_bool_ops(s, s);
    lemma_small_values(s, KERNEL_PROC_INIT_LABEL as int);
    lemma_small_values(fnot(s), KERNEL_PROC_CALL_LABEL as int);
    lemma_small_values(fmul(s, KERNEL_PROC_INIT_LABEL as int), fmul(fnot(s), KERNEL_PROC_CALL_LABEL as int));
}

/// The ACE chiplet answers an EVALCIRCUIT request: on an ACE start row whose clock, context and
/// pointer are those of the request, with `num_eval - 1` evaluation rows and `id_0` the last
/// wire id, the response is the request's message `[8, clk, ctx, ptr, num_read, num_eval]`.
pub proof fn lemma_ace_response_matches_request(ch: &Challenges, local: &MainCols<Felt>, row: &MainCols<Felt>)
    requires
        col(row, 8) == local.system.clk@,
        col(row, 6) == local.system.ctx@,
        col(row, 7) == st(local, 0),
        col(row, 16) == fsub(st(local, 2), 1),
        col(row, 10) == fsub(fadd(st(local, 1), st(local, 2)), 1),
    ensures
        ace_response_spec(ch, row) == evalcircuit_request_spec(ch, local),
{
    broadcast use lemma_fadd_range;

    let ne = st(local, 2);
    let nr = st(local, 1);
    lemma_sub_add_cancel(ne, 1);
    lemma_sub_add_cancel(fadd(nr, ne), 1);
    lemma_add_sub_cancel(nr, ne);
    assert(seq![ACE_INIT_LABEL as int, col(row, 8), col(row, 6), col(row, 7), fsub(fadd(col(row, 10), 1), fadd(col(row, 16), 1)), fadd(col(row, 16), 1)]
        =~= seq![ACE_INIT_LABEL as int, local.system.clk@, local.system.ctx@, st(local, 0), nr, ne]);
}

/// On a bitwise row (the bitwise chiplet active, every other chiplet inactive) with a binary
/// transition marker `k` and op flag: off the last row of the cycle (`k = 1`) the response
/// multiplier is 1; on it (`k = 0`) it is the message `[label, a, b, output]`, with the AND label 2
/// for op flag 0 and the XOR label 6 for op flag 1.
pub proof fn lemma_bitwise_row_response(
    sel: &ChipletSelectors,
    c0: int,
    c31: int,
    k: int,
    ch: &Challenges,
    local: &MainCols<Felt>,
    next: &MainCols<Felt>,
)
    requires
        sel.bitwise.is_active@ == 1,
        sel.hasher.is_active@ == 0,
        sel.memory.is_active@ == 0,
        sel.ace.is_active@ == 0,
        sel.kernel_rom.is_active@ == 0,
        k == 0 || k == 1,
        col(local, 2) == 0 || col(local, 2) == 1,
    ensures
        k == 1 ==> response_multiplier_spec(sel, c0, c31, k, ch, local, next) == (1int, 0int),
        k == 0 ==> response_multiplier_spec(sel, c0, c31, k, ch, local, next) == chiplets_message(
            ch,
            seq![
                if col(local, 2) == 0 {
                    BITWISE_AND_LABEL as int
                } else {
                    BITWISE_XOR_LABEL as int
                },
                col(local, 3),
                col(local, 4),
                col(local, 14),
            ],
        ),
{
    broadcast use lemma_fadd_range, lemma_fmul_range, lemma_fsub_range;

    let flags = response_flags(sel, c0, c31, k, local);
    let values = response_values(ch, local, next);
    assert forall|x: int| #[trigger] fmul(0, x) == 0 by {
        lemma_mul_zero(x);
    }
    assert forall|x: int| #[trigger] fmul(x, 0) == 0 by {
        lemma_mul_zero(x);
    }
    lemma_bool_ops(k, k);
    lemma_bool_ops(1, fnot(k));
    assert(canonical_values(values));
    lemma_bus_multiplier_selects(flags, values);
    if k == 0 {
        assert forall|i: int| 0 <= i < flags.len() && i != 7 implies #[trigger] flags[i] == 0 by {
        }
        assert(flags[7] == 1);
        assert(values[7] == bitwise_response_spec(ch, local));
        let s = col(local, 2);
        lemma_bool_ops(s, s);
        lemma_small_values(fnot(s), BITWISE_AND_LABEL as int);
        lemma_small_values(s, BITWISE_XOR_LABEL as int);
        lemma_small_values(fmul(fnot(s), BITWISE_AND_LABEL as int), fmul(s, BITWISE_XOR_LABEL as int));
    } else {
        assert forall|i: int| 0 <= i < flags.len() implies #[trigger] flags[i] == 0 by {
        }
    }
}

/// The cases in which the hasher responds, in the order of [`hasher_response_flags`], for the
/// cycle markers `c0`, `c31` and the hasher selectors `s0, s1, s2`.
pub open spec fn hasher_response_cases(c0: int, c31: int, s0: int, s1: int, s2: int) -> Seq<bool> {
    seq![
        c0 == 1 && s0 == 1 && s1 == 0 && s2 == 0,
        c0 == 1 && s0 == 1 && s1 == 0 && s2 == 1,
        c0 == 1 && s0 == 1 && s1 == 1 && s2 == 0,
        c0 == 1 && s0 == 1 && s1 == 1 && s2 == 1,
        c31 == 1 && s0 == 0 && s1 == 0 && s2 == 0,
        c31 == 1 && s0 == 0 && s1 == 0 && s2 == 1,
        c31 == 1 && s0 == 1 && s1 == 0 && s2 == 0,
    ]
}

/// The hasher's response flags on binary inputs, with the two cycle markers not both set: each
/// flag is 1 exactly in its case of [`hasher_response_cases`] on an active hasher row, so every
/// flag is 0 when the hasher is inactive and at most one is 1. Their sum is 1 exactly on row 0
/// with `s0 = 1` and on row 31 with the selectors `(0,0,0)`, `(0,0,1)` or `(1,0,0)`.
pub proof fn lemma_hasher_response_flags(active: int, c0: int, c31: int, local: &MainCols<Felt>)
    requires
        active == 0 || active == 1,
        c0 == 0 || c0 == 1,
        c31 == 0 || c31 == 1,
        !(c0 == 1 && c31 == 1),
        col(local, 1) == 0 || col(local, 1) == 1,
        col(local, 2) == 0 || col(local, 2) == 1,
        col(local, 3) == 0 || col(local, 3) == 1,
    ensures
        forall|i: int|
            0 <= i < 7 ==> #[trigger] hasher_response_flags(active, c0, c31, local)[i] == (if active
                == 1 && hasher_response_cases(c0, c31, col(local, 1), col(local, 2), col(local, 3))[i] {
                1int
            } else {
                0int
            }),
        forall|i: int, j: int|
            0 <= i < 7 && 0 <= j < 7 && #[trigger] hasher_response_flags(active, c0, c31, local)[i] == 1
                && #[trigger] hasher_response_flags(active, c0, c31, local)[j] == 1 ==> i == j,
        flag_sum(hasher_response_flags(active, c0, c31, local), 7) == (if active == 1 && ((c0 == 1
            && col(local, 1) == 1) || (c31 == 1 && col(local, 2) == 0 && !(col(local, 1) == 1 && col(
            local,
            3,
        ) == 1))) {
            1int
        } else {
            0int
        }),
{
    let s0 = col(local, 1);
    let s1 = col(local, 2);
    let s2 = col(local, 3);
    let f = hasher_response_flags(active, c0, c31, local);
    assert forall|x: int, y: int| (x == 0 || x == 1) && (y == 0 || y == 1) implies #[trigger] fmul(x, y)
        == (if x == 1 && y == 1 { 1int } else { 0int }) by {
        lemma_bool_ops(x, y);
    }
    assert forall|x: int, on: bool| x == 0 || x == 1 implies #[trigger] lit(x, on) == (if (x == 1) == on {
        1int
    } else {
        0int
    }) by {
        lemma_lit(x, on);
    }
    assert forall|x: int, y: int| 0 <= x < 8 && 0 <= y < 8 implies #[trigger] fadd(x, y) == x + y by {
        lemma_small_values(x, y);
    }
    assert(f.len() == 7);
    assert(fmul(active, c0) == 0 || fmul(active, c0) == 1);
    assert(fmul(active, c31) == 0 || fmul(active, c31) == 1);
    assert(lit(s0, true) == 0 || lit(s0, true) == 1);
    assert(lit(s0, false) == 0 || lit(s0, false) == 1);
    assert(lit(s1, true) == 0 || lit(s1, true) == 1);
    assert(lit(s1, false) == 0 || lit(s1, false) == 1);
    assert(lit(s2, true) == 0 || lit(s2, true) == 1);
    assert(lit(s2, false) == 0 || lit(s2, false) == 1);
    reveal_with_fuel(flag_sum, 8);
}


/// Off the hasher (hasher flag 0) the hasher sends nothing: its flags and its weighted messages
/// sum to 0.
pub proof fn lemma_hasher_response_inactive(c0: int, c31: int, ch: &Challenges, local: &MainCols<Felt>, next: &MainCols<Felt>)
    ensures
        flag_sum(hasher_response_flags(0, c0, c31, local), 7) == 0,
        weighted_sum(hasher_response_flags(0, c0, c31, local), hasher_response_values(ch, local, next), 7) == (
        0int, 0int),
{
    let f = hasher_response_flags(0, c0, c31, local);
    assert forall|x: int| #[trigger] fmul(0, x) == 0 by {
        lemma_mul_zero(x);
    }
    assert forall|i: int| 0 <= i < f.len() implies #[trigger] f[i] == 0 by {
    }
    lemma_weighted_sum_none(f, hasher_response_values(ch, local, next), 7);
}

/// On an active hasher row with binary inputs in one of the cases of
/// [`hasher_response_cases`], the hasher sends exactly the message of that case: its flags sum
/// to 1 and its weighted messages to that message. In particular, on row 31 with the selectors
/// `(0, 0, 0)` it sends `[33, clk + 1, node_index, h0, h1, h2, h3]`.
pub proof fn lemma_hasher_response_selects(
    c0: int,
    c31: int,
    ch: &Challenges,
    local: &MainCols<Felt>,
    next: &MainCols<Felt>,
    j: int,
)
    requires
        c0 == 0 || c0 == 1,
        c31 == 0 || c31 == 1,
        !(c0 == 1 && c31 == 1),
        col(local, 1) == 0 || col(local, 1) == 1,
        col(local, 2) == 0 || col(local, 2) == 1,
        col(local, 3) == 0 || col(local, 3) == 1,
        0 <= j < 7,
        hasher_response_cases(c0, c31, col(local, 1), col(local, 2), col(local, 3))[j],
    ensures
        flag_sum(hasher_response_flags(1, c0, c31, local), 7) == 1,
        weighted_sum(hasher_response_flags(1, c0, c31, local), hasher_response_values(ch, local, next), 7)
            == hasher_response_values(ch, local, next)[j],
        j == 4 ==> weighted_sum(hasher_response_flags(1, c0, c31, local), hasher_response_values(ch, local, next), 7)
            == hasher_message(ch, 33, fadd(local.system.clk@, 1), col(local, 16), cols(local, 4, 4)),
{
    broadcast use lemma_fadd_range, lemma_fmul_range, lemma_fsub_range;

    let f = hasher_response_flags(1, c0, c31, local);
    let v = hasher_response_values(ch, local, next);
    lemma_hasher_response_flags(1, c0, c31, local);
    let cases = hasher_response_cases(c0, c31, col(local, 1), col(local, 2), col(local, 3));
    assert forall|i: int| 0 <= i < 7 && i != j implies !cases[i] by {
    }
    assert forall|i: int| 0 <= i < f.len() && i != j implies #[trigger] f[i] == 0 by {
        assert(!cases[i]);
    }
    assert(f[j] == 1);
    assert(canonical_values(v));
    lemma_weighted_sum_one_hot(f, v, j, 7);
}

/// With flag `j` of the response flags set and every other flag 0, the response multiplier is
/// response value `j`.
proof fn lemma_response_selects(
    sel: &ChipletSelectors,
    c0: int,
    c31: int,
    k: int,
    ch: &Challenges,
    local: &MainCols<Felt>,
    next: &MainCols<Felt>,
    j: int,
)
    requires
        0 <= j < 11,
        response_flags(sel, c0, c31, k, local)[j] == 1,
        forall|i: int| 0 <= i < 11 && i != j ==> #[trigger] response_flags(sel, c0, c31, k, local)[i] == 0,
    ensures
        response_multiplier_spec(sel, c0, c31, k, ch, local, next) == response_values(ch, local, next)[j],
{
    broadcast use lemma_fadd_range, lemma_fmul_range, lemma_fsub_range;

    let f = response_flags(sel, c0, c31, k, local);
    let v = response_values(ch, local, next);
    assert(canonical_values(v));
    lemma_bus_multiplier_selects(f, v);
    assert(f.len() == 11);
}

/// The flags of a row where only the chiplet `k` of memory (8), ACE (9) and kernel ROM (10) is
/// active.
proof fn lemma_single_chiplet_flags(sel: &ChipletSelectors, c0: int, c31: int, k: int, local: &MainCols<Felt>)
    requires
        sel.hasher.is_active@ == 0,
        sel.bitwise.is_active@ == 0,
    ensures
        forall|i: int| 0 <= i < 8 ==> #[trigger] response_flags(sel, c0, c31, k, local)[i] == 0,
        response_flags(sel, c0, c31, k, local)[8] == sel.memory.is_active@,
        response_flags(sel, c0, c31, k, local)[9] == fmul(sel.ace.is_active@, col(local, 4)),
        response_flags(sel, c0, c31, k, local)[10] == sel.kernel_rom.is_active@,
{
    assert forall|x: int| #[trigger] fmul(0, x) == 0 by {
        lemma_mul_zero(x);
    }
}

/// On a memory row (the memory chiplet active, every other chiplet inactive) with binary flags
/// and indexes, the response multiplier is the memory message of
/// [`lemma_memory_response_layout`].
pub proof fn lemma_memory_row_response(
    sel: &ChipletSelectors,
    c0: int,
    c31: int,
    k: int,
    ch: &Challenges,
    local: &MainCols<Felt>,
    next: &MainCols<Felt>,
)
    requires
        sel.hasher.is_active@ == 0,
        sel.bitwise.is_active@ == 0,
        sel.memory.is_active@ == 1,
        sel.ace.is_active@ == 0,
        sel.kernel_rom.is_active@ == 0,
        col(local, 3) == 0 || col(local, 3) == 1,
        col(local, 4) == 0 || col(local, 4) == 1,
        col(local, 7) == 0 || col(local, 7) == 1,
        col(local, 8) == 0 || col(local, 8) == 1,
    ensures
        response_multiplier_spec(sel, c0, c31, k, ch, local, next) == chiplets_message(
            ch,
            seq![
                4 + 8 * col(local, 3) + 16 * col(local, 4),
                col(local, 5),
                fadd(col(local, 6), 2 * col(local, 8) + col(local, 7)),
                col(local, 9),
            ] + (if col(local, 4) == 1 {
                cols(local, 10, 4)
            } else {
                seq![col(local, 10 + col(local, 7) + 2 * col(local, 8))]
            }),
        ),
{
    lemma_single_chiplet_flags(sel, c0, c31, k, local);
    lemma_mul_zero(col(local, 4));
    lemma_response_selects(sel, c0, c31, k, ch, local, next, 8);
    lemma_memory_response_layout(ch, local);
}

/// On a kernel ROM row (only the kernel ROM active) with a binary first-row flag, the response
/// multiplier is `[48 or 16, root]` ([`lemma_kernel_rom_response_labels`]).
pub proof fn lemma_kernel_rom_row_response(
    sel: &ChipletSelectors,
    c0: int,
    c31: int,
    k: int,
    ch: &Challenges,
    local: &MainCols<Felt>,
    next: &MainCols<Felt>,
)
    requires
        sel.hasher.is_active@ == 0,
        sel.bitwise.is_active@ == 0,
        sel.memory.is_active@ == 0,
        sel.ace.is_active@ == 0,
        sel.kernel_rom.is_active@ == 1,
        col(local, 5) == 0 || col(local, 5) == 1,
    ensures
        response_multiplier_spec(sel, c0, c31, k, ch, local, next) == chiplets_message(
            ch,
            seq![
                if col(local, 5) == 1 {
                    KERNEL_PROC_INIT_LABEL as int
                } else {
                    KERNEL_PROC_CALL_LABEL as int
                },
            ] + cols(local, 6, 4),
        ),
{
    lemma_single_chiplet_flags(sel, c0, c31, k, local);
    lemma_mul_zero(col(local, 4));
    lemma_response_selects(sel, c0, c31, k, ch, local, next, 10);
    lemma_kernel_rom_response_labels(ch, local);
}

/// On the start row of an ACE circuit (only the ACE chiplet active, `s_start = 1`) the response
/// multiplier is the ACE message; when the row's clock, context, pointer and counters are those
/// of an EVALCIRCUIT request, it is that request's message.
pub proof fn lemma_ace_row_response(
    sel: &ChipletSelectors,
    c0: int,
    c31: int,
    k: int,
    ch: &Challenges,
    row: &MainCols<Felt>,
    next: &MainCols<Felt>,
    local: &MainCols<Felt>,
)
    requires
        sel.hasher.is_active@ == 0,
        sel.bitwise.is_active@ == 0,
        sel.memory.is_active@ == 0,
        sel.ace.is_active@ == 1,
        sel.kernel_rom.is_active@ == 0,
        col(row, 4) == 1,
    ensures
        response_multiplier_spec(sel, c0, c31, k, ch, row, next) == ace_response_spec(ch, row),
        col(row, 8) == local.system.clk@ && col(row, 6) == local.system.ctx@ && col(row, 7) == st(local, 0) && col(
            row,
            16,
        ) == fsub(st(local, 2), 1) && col(row, 10) == fsub(fadd(st(local, 1), st(local, 2)), 1)
            ==> response_multiplier_spec(sel, c0, c31, k, ch, row, next) == evalcircuit_request_spec(ch, local),
{
    lemma_single_chiplet_flags(sel, c0, c31, k, row);
    lemma_bool_ops(1, 1);
    lemma_response_selects(sel, c0, c31, k, ch, row, next, 9);
    if col(row, 8) == local.system.clk@ && col(row, 6) == local.system.ctx@ && col(row, 7) == st(local, 0) && col(
        row,
        16,
    ) == fsub(st(local, 2), 1) && col(row, 10) == fsub(fadd(st(local, 1), st(local, 2)), 1) {
        lemma_ace_response_matches_request(ch, local, row);
    }
}

/// A U32AND / U32XOR request is answered by the bitwise row that holds the same operands and
/// output, with the op flag of the operation (0 for AND, 1 for XOR).
pub proof fn lemma_bitwise_request_matches_response(
    ch: &Challenges,
    local: &MainCols<Felt>,
    next: &MainCols<Felt>,
    row: &MainCols<Felt>,
    is_xor: bool,
)
    requires
        col(row, 2) == (if is_xor { 1int } else { 0int }),
        col(row, 3) == st(local, 0),
        col(row, 4) == st(local, 1),
        col(row, 14) == st(next, 0),
    ensures
        bitwise_response_spec(ch, row) == bitwise_request_spec(ch, local, next, is_xor),
{
    let sel = col(row, 2);
    lemma_bool_ops(sel, sel);
    lemma_canonical(BITWISE_AND_LABEL as int);
    lemma_canonical(BITWISE_XOR_LABEL as int);
    lemma_mul_zero(BITWISE_AND_LABEL as int);
    lemma_mul_zero(BITWISE_XOR_LABEL as int);
    lemma_canonical(0);
    let label = fadd(fmul(fnot(sel), BITWISE_AND_LABEL as int), fmul(sel, BITWISE_XOR_LABEL as int));
    assert(label == (if is_xor { BITWISE_XOR_LABEL as int } else { BITWISE_AND_LABEL as int }));
}

/// An MLOAD / MSTORE request is answered by the memory row that accesses the same element: the
/// row's context and clock are the request's, its address `word_addr + 2 idx1 + idx0` is `s0`,
/// and the selected element is the value read into `s0'` or written from `s1`.
pub proof fn lemma_memory_element_request_matches_response(
    ch: &Challenges,
    local: &MainCols<Felt>,
    next: &MainCols<Felt>,
    row: &MainCols<Felt>,
    is_read: bool,
)
    requires
        col(row, 3) == (if is_read { 1int } else { 0int }),
        col(row, 4) == 0,
        col(row, 7) == 0 || col(row, 7) == 1,
        col(row, 8) == 0 || col(row, 8) == 1,
        col(row, 5) == local.system.ctx@,
        fadd(col(row, 6), 2 * col(row, 8) + col(row, 7)) == st(local, 0),
        col(row, 9) == local.system.clk@,
        col(row, 10 + col(row, 7) + 2 * col(row, 8)) == (if is_read { st(next, 0) } else { st(local, 1) }),
    ensures
        memory_response_spec(ch, row) == memory_element_request_spec(ch, local, next, is_read),
{
    lemma_memory_response_layout(ch, row);
    let head = seq![
        4 + 8 * col(row, 3) + 16 * col(row, 4),
        col(row, 5),
        fadd(col(row, 6), 2 * col(row, 8) + col(row, 7)),
        col(row, 9),
    ];
    let element = if is_read { st(next, 0) } else { st(local, 1) };
    assert(4 + 8 * col(row, 3) + 16 * col(row, 4) == memory_label(is_read, false));
    assert(head + seq![col(row, 10 + col(row, 7) + 2 * col(row, 8))] =~= seq![
        memory_label(is_read, false),
        local.system.ctx@,
        st(local, 0),
        local.system.clk@,
        element,
    ]);
}

/// An MLOADW / MSTOREW request is answered by the memory row that accesses the same word: the
/// row's context, address and clock are the request's and its word is the one read into
/// `s0'..s3'` or written from `s1..s4`.
pub proof fn lemma_memory_word_request_matches_response(
    ch: &Challenges,
    local: &MainCols<Felt>,
    next: &MainCols<Felt>,
    row: &MainCols<Felt>,
    is_read: bool,
)
    requires
        col(row, 3) == (if is_read { 1int } else { 0int }),
        col(row, 4) == 1,
        col(row, 7) == 0 || col(row, 7) == 1,
        col(row, 8) == 0 || col(row, 8) == 1,
        col(row, 5) == local.system.ctx@,
        fadd(col(row, 6), 2 * col(row, 8) + col(row, 7)) == st(local, 0),
        col(row, 9) == local.system.clk@,
        cols(row, 10, 4) == (if is_read { st_range(next, 0, 4) } else { st_range(local, 1, 4) }),
    ensures
        memory_response_spec(ch, row) == memory_word_request_spec(ch, local, next, is_read),
{
    lemma_memory_response_layout(ch, row);
    let head = seq![
        4 + 8 * col(row, 3) + 16 * col(row, 4),
        col(row, 5),
        fadd(col(row, 6), 2 * col(row, 8) + col(row, 7)),
        col(row, 9),
    ];
    assert(4 + 8 * col(row, 3) + 16 * col(row, 4) == memory_label(is_read, true));
    assert(head =~= seq![memory_label(is_read, true), local.system.ctx@, st(local, 0), local.system.clk@]);
}

/// A SYSCALL's kernel ROM lookup is answered by a kernel ROM row (not the first of its
/// procedure) that holds the callee digest `h0..h3`.
pub proof fn lemma_kernel_call_matches_response(ch: &Challenges, local: &MainCols<Felt>, row: &MainCols<Felt>)
    requires
        col(row, 5) == 0,
        cols(row, 6, 4) == hs_range(local, 4),
    ensures
        kernel_rom_response_spec(ch, row) == kernel_call_request_spec(ch, local),
{
    lemma_bool_ops(0, 0);
    lemma_mul_zero(KERNEL_PROC_INIT_LABEL as int);
    lemma_canonical(KERNEL_PROC_CALL_LABEL as int);
    lemma_canonical(0);
}

/// SPAN's request is answered by the hasher's linear hash response on the row at `addr' - 1`
/// (row 0 of the block's cycle) whose state is the decoder rate with a zero capacity and whose
/// node index is 0.
pub proof fn lemma_span_matches_response(
    ch: &Challenges,
    local: &MainCols<Felt>,
    next: &MainCols<Felt>,
    row: &MainCols<Felt>,
    row_next: &MainCols<Felt>,
)
    requires
        fadd(row.system.clk@, 1) == next.decoder.addr@,
        col(row, 16) == 0,
        cols(row, 4, 12) == hs_range(local, 8) + seq![0int, 0int, 0int, 0int],
    ensures
        hasher_response_values(ch, row, row_next)[0] == span_request_spec(ch, local, next),
{
}

/// A control block request (JOIN, SPLIT, LOOP, CALL, SYSCALL) is answered by the hasher's linear
/// hash response whose state is the decoder rate with the opcode in the capacity's domain slot.
pub proof fn lemma_control_block_matches_response(
    ch: &Challenges,
    local: &MainCols<Felt>,
    next: &MainCols<Felt>,
    row: &MainCols<Felt>,
    row_next: &MainCols<Felt>,
    opcode: u8,
)
    requires
        fadd(row.system.clk@, 1) == next.decoder.addr@,
        col(row, 16) == 0,
        cols(row, 4, 12) == hs_range(local, 8) + seq![0int, opcode as int, 0int, 0int],
    ensures
        hasher_response_values(ch, row, row_next)[0] == control_block_request_spec(ch, local, next, opcode),
{
}

/// END's request is answered by the hasher's return-hash response on the last row of the
/// block's cycle (`addr + 31`) whose digest is the decoder's `h0..h3`.
pub proof fn lemma_end_matches_response(ch: &Challenges, local: &MainCols<Felt>, row: &MainCols<Felt>, row_next: &MainCols<Felt>)
    requires
        fadd(row.system.clk@, 1) == fadd(local.decoder.addr@, HASH_CYCLE_OFFSET as int),
        col(row, 16) == 0,
        cols(row, 4, 4) == hs_range(local, 4),
    ensures
        hasher_response_values(ch, row, row_next)[4] == end_request_spec(ch, local),
{
}

/// HPERM's request is answered by two hasher responses of one permutation: the linear hash
/// response on row `helper0 - 1` with the input state `s0..s11`, and the return-state response
/// 31 rows later with the output state `s0'..s11'`.
pub proof fn lemma_hperm_matches_responses(
    ch: &Challenges,
    local: &MainCols<Felt>,
    next: &MainCols<Felt>,
    first: &MainCols<Felt>,
    first_next: &MainCols<Felt>,
    last: &MainCols<Felt>,
    last_next: &MainCols<Felt>,
)
    requires
        fadd(first.system.clk@, 1) == helper(local, 0),
        fadd(last.system.clk@, 1) == fadd(helper(local, 0), HASH_CYCLE_OFFSET as int),
        col(first, 16) == 0,
        col(last, 16) == 0,
        cols(first, 4, 12) == st_range(local, 0, 12),
        cols(last, 4, 12) == st_range(next, 0, 12),
    ensures
        hperm_request_spec(ch, local, next) == crate::field::qmul(
            hasher_response_values(ch, first, first_next)[0],
            hasher_response_values(ch, last, last_next)[5],
        ),
{
}

/// MSTREAM / PIPE's request is answered by two word reads of the memory chiplet at `s12` and
/// `s12 + 4`, with the words `s0'..s3'` and `s4'..s7'` and the request's context and clock.
pub proof fn lemma_two_word_matches_responses(
    ch: &Challenges,
    local: &MainCols<Felt>,
    next: &MainCols<Felt>,
    row_a: &MainCols<Felt>,
    row_b: &MainCols<Felt>,
)
    requires
        col(row_a, 3) == 1,
        col(row_b, 3) == 1,
        col(row_a, 4) == 1,
        col(row_b, 4) == 1,
        col(row_a, 7) == 0 && col(row_a, 8) == 0,
        col(row_b, 7) == 0 && col(row_b, 8) == 0,
        col(row_a, 5) == local.system.ctx@,
        col(row_b, 5) == local.system.ctx@,
        col(row_a, 6) == st(local, 12),
        col(row_b, 6) == fadd(st(local, 12), 4),
        col(row_a, 9) == local.system.clk@,
        col(row_b, 9) == local.system.clk@,
        cols(row_a, 10, 4) == st_range(next, 0, 4),
        cols(row_b, 10, 4) == st_range(next, 4, 4),
    ensures
        two_word_request_spec(ch, local, next, true) == crate::field::qmul(
            memory_response_spec(ch, row_a),
            memory_response_spec(ch, row_b),
        ),
{
    broadcast use lemma_fadd_range;

    lemma_memory_response_layout(ch, row_a);
    lemma_memory_response_layout(ch, row_b);
    lemma_canonical(col(row_a, 6));
    lemma_canonical(col(row_b, 6));
    assert(memory_label(true, true) == 28);
    assert(seq![4 + 8 * col(row_a, 3) + 16 * col(row_a, 4), col(row_a, 5), fadd(col(row_a, 6), 2 * col(row_a, 8) + col(row_a, 7)), col(row_a, 9)]
        =~= seq![memory_label(true, true), local.system.ctx@, st(local, 12), local.system.clk@]);
    assert(seq![4 + 8 * col(row_b, 3) + 16 * col(row_b, 4), col(row_b, 5), fadd(col(row_b, 6), 2 * col(row_b, 8) + col(row_b, 7)), col(row_b, 9)]
        =~= seq![memory_label(true, true), local.system.ctx@, fadd(st(local, 12), 4), local.system.clk@]);
}

/// RESPAN's request is answered by the hasher's absorb response on the row before `addr'`, whose
/// next row's rate is the decoder rate.
pub proof fn lemma_respan_matches_response(
    ch: &Challenges,
    local: &MainCols<Felt>,
    next: &MainCols<Felt>,
    row: &MainCols<Felt>,
    row_next: &MainCols<Felt>,
)
    requires
        fadd(row.system.clk@, 1) == fsub(next.decoder.addr@, 1),
        col(row, 16) == 0,
        cols(row_next, 4, 8) == hs_range(local, 8),
    ensures
        hasher_response_values(ch, row, row_next)[6] == respan_request_spec(ch, local, next),
{
}

/// HORNEREXT's word read at `s13` is answered by the memory row that reads the word
/// `helper0..helper3` at that address, in the request's context and clock cycle.
pub proof fn lemma_hornerext_matches_response(ch: &Challenges, local: &MainCols<Felt>, row: &MainCols<Felt>)
    requires
        col(row, 3) == 1,
        col(row, 4) == 1,
        col(row, 7) == 0 && col(row, 8) == 0,
        col(row, 5) == local.system.ctx@,
        col(row, 6) == st(local, 13),
        col(row, 9) == local.system.clk@,
        cols(row, 10, 4) == Seq::new(4, |i: int| helper(local, i)),
    ensures
        memory_response_spec(ch, row) == hornerext_request_spec(ch, local),
{
    lemma_memory_response_layout(ch, row);
    lemma_canonical(col(row, 6));
    assert(seq![4 + 8 * col(row, 3) + 16 * col(row, 4), col(row, 5), fadd(col(row, 6), 2 * col(row, 8) + col(row, 7)), col(row, 9)]
        + cols(row, 10, 4) =~= seq![
        MEMORY_READ_WORD_LABEL as int,
        local.system.ctx@,
        st(local, 13),
        local.system.clk@,
        helper(local, 0),
        helper(local, 1),
        helper(local, 2),
        helper(local, 3),
    ]);
}

} // verus!
