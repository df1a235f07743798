//! Request messages of the chiplets bus, sent by the stack and the decoder.

use vstd::prelude::*;

use super::{
    FMP_ADDR, FMP_INIT_VALUE, HASH_CYCLE_OFFSET, TRANSITION_LINEAR_HASH, TRANSITION_LINEAR_HASH_ABP,
    TRANSITION_MP_VERIFY, TRANSITION_MR_UPDATE_NEW, TRANSITION_MR_UPDATE_OLD,
    TRANSITION_RETURN_HASH, TRANSITION_RETURN_STATE,
};
use crate::constraints::chiplets::bus::{
    bus_multiplier, canonical_values, combine_messages, lemma_bus_multiplier_selects, quad_values,
};
use crate::constraints::op_flags::{is_opcode, lemma_op_flags_one_hot, op_flag, opcode_bits, opcode_extra, OpFlags};
use crate::constraints::utils::felt_values;
use crate::field::{
    fadd, fmul, fsub, lemma_fadd_range, lemma_felt_range, lemma_fmul_range, lemma_fsub_range, qmul, Felt, QuadFelt, P,
};
use crate::opcodes;
use crate::trace::bus_types::CHIPLETS_BUS;
use crate::trace::challenges::Challenges;
use crate::trace::chiplets::ace::ACE_INIT_LABEL;
use crate::trace::chiplets::bitwise::{BITWISE_AND_LABEL, BITWISE_XOR_LABEL};
use crate::trace::chiplets::kernel_rom::KERNEL_PROC_CALL_LABEL;
use crate::trace::chiplets::memory::{
    MEMORY_READ_ELEMENT_LABEL, MEMORY_READ_WORD_LABEL, MEMORY_WRITE_ELEMENT_LABEL,
    MEMORY_WRITE_WORD_LABEL,
};
use crate::trace::MainCols;

verus! {

broadcast use lemma_felt_range;

// ROW VALUES
// ================================================================================================

/// Stack item `i` of a row.
pub open spec fn st(row: &MainCols<Felt>, i: int) -> int {
    row.stack.top@[i]@
}

/// Stack items `from..from + n` of a row.
pub open spec fn st_range(row: &MainCols<Felt>, from: int, n: int) -> Seq<int> {
    Seq::new(n as nat, |i: int| row.stack.top@[from + i]@)
}

/// Decoder hasher state element `i` of a row.
pub open spec fn hs(row: &MainCols<Felt>, i: int) -> int {
    row.decoder.hasher_state@[i]@
}

/// Decoder hasher state elements `0..n` of a row.
pub open spec fn hs_range(row: &MainCols<Felt>, n: int) -> Seq<int> {
    Seq::new(n as nat, |i: int| row.decoder.hasher_state@[i]@)
}

/// User-op helper register `i` of a row (`hasher_state[2 + i]`).
pub open spec fn helper(row: &MainCols<Felt>, i: int) -> int {
    row.decoder.hasher_state@[2 + i]@
}

// HASHER MESSAGE ENCODING
// ================================================================================================

/// A hasher message `[label, addr, node_index, payload...]` on the chiplets bus.
pub open spec fn hasher_message(ch: &Challenges, label: int, addr: int, node_index: int, payload: Seq<int>) -> (
    int,
    int,
) {
    ch.message(CHIPLETS_BUS as int, seq![label, addr, node_index] + payload)
}

/// Encodes a hasher message with a payload of 4 (word), 8 (rate) or 12 (full state) lanes.
pub fn encode_hasher_message(
    ch: &Challenges,
    label: Felt,
    addr: Felt,
    node_index: Felt,
    payload: &[Felt],
) -> (r: QuadFelt)
    requires
        ch.wf(),
        payload@.len() <= 12,
    ensures
        r@ == hasher_message(ch, label@, addr@, node_index@, felt_values(payload@)),
{
    let mut elems: Vec<Felt> = Vec::new();
    elems.push(label);
    elems.push(addr);
    elems.push(node_index);
    let mut i: usize = 0;
    while i < payload.len()
        invariant
            i <= payload@.len() <= 12,
            elems@.len() == 3 + i,
            felt_values(elems@) == seq![label@, addr@, node_index@] + felt_values(
                payload@.subrange(0, i as int),
            ),
        decreases payload@.len() - i,
    {
        let ghost prev = felt_values(elems@);
        elems.push(payload[i]);
        assert(felt_values(elems@) =~= prev.push(payload@[i as int]@));
        assert(felt_values(payload@.subrange(0, i + 1)) =~= felt_values(payload@.subrange(0, i as int)).push(payload@[i as int]@));
        assert(felt_values(elems@) =~= seq![label@, addr@, node_index@] + felt_values(
            payload@.subrange(0, i + 1),
        ));
        i += 1;
    }
    assert(payload@.subrange(0, payload@.len() as int) =~= payload@);
    ch.encode(CHIPLETS_BUS, elems.as_slice())
}

/// A message on the chiplets bus.
pub open spec fn chiplets_message(ch: &Challenges, elems: Seq<int>) -> (int, int) {
    ch.message(CHIPLETS_BUS as int, elems)
}

/// Encodes a message on the chiplets bus.
fn encode_message(ch: &Challenges, elems: &[Felt]) -> (r: QuadFelt)
    requires
        ch.wf(),
        elems@.len() <= 16,
    ensures
        r@ == chiplets_message(ch, felt_values(elems@)),
{
    ch.encode(CHIPLETS_BUS, elems)
}


// MESSAGE SPECIFICATIONS
// ================================================================================================

/// Label of a memory message: `4 + 8 * is_read + 16 * is_word`.
pub open spec fn memory_label(is_read: bool, is_word: bool) -> int {
    if is_read {
        if is_word { MEMORY_READ_WORD_LABEL as int } else { MEMORY_READ_ELEMENT_LABEL as int }
    } else {
        if is_word { MEMORY_WRITE_WORD_LABEL as int } else { MEMORY_WRITE_ELEMENT_LABEL as int }
    }
}

/// U32AND / U32XOR: `[label, s0, s1, s0']`.
pub open spec fn bitwise_request_spec(ch: &Challenges, local: &MainCols<Felt>, next: &MainCols<Felt>, is_xor: bool) -> (int, int) {
    let label = if is_xor { BITWISE_XOR_LABEL as int } else { BITWISE_AND_LABEL as int };
    chiplets_message(ch, seq![label, st(local, 0), st(local, 1), st(next, 0)])
}

/// MLOADW / MSTOREW: `[label, ctx, s0, clk, word]`, the word read into `s0'..s3'` or written
/// from `s1..s4`.
pub open spec fn memory_word_request_spec(ch: &Challenges, local: &MainCols<Felt>, next: &MainCols<Felt>, is_read: bool) -> (int, int) {
    let word = if is_read { st_range(next, 0, 4) } else { st_range(local, 1, 4) };
    chiplets_message(
        ch,
        seq![memory_label(is_read, true), local.system.ctx@, st(local, 0), local.system.clk@] + word,
    )
}

/// MLOAD / MSTORE: `[label, ctx, s0, clk, element]`, the element read into `s0'` or written
/// from `s1`.
pub open spec fn memory_element_request_spec(ch: &Challenges, local: &MainCols<Felt>, next: &MainCols<Felt>, is_read: bool) -> (int, int) {
    let element = if is_read { st(next, 0) } else { st(local, 1) };
    chiplets_message(
        ch,
        seq![memory_label(is_read, false), local.system.ctx@, st(local, 0), local.system.clk@, element],
    )
}

/// MSTREAM / PIPE: two words `s0'..s3'` and `s4'..s7'` at addresses `s12` and `s12 + 4`.
pub open spec fn two_word_request_spec(ch: &Challenges, local: &MainCols<Felt>, next: &MainCols<Felt>, is_read: bool) -> (int, int) {
    let label = memory_label(is_read, true);
    let ctx = local.system.ctx@;
    let clk = local.system.clk@;
    let addr = st(local, 12);
    qmul(
        chiplets_message(ch, seq![label, ctx, addr, clk] + st_range(next, 0, 4)),
        chiplets_message(ch, seq![label, ctx, fadd(addr, 4), clk] + st_range(next, 4, 4)),
    )
}

/// The plaintext lanes of CRYPTOSTREAM: `s_i' - s_i`.
pub open spec fn plaintext(local: &MainCols<Felt>, next: &MainCols<Felt>, from: int) -> Seq<int> {
    Seq::new(4, |i: int| fsub(st(next, from + i), st(local, from + i)))
}

/// CRYPTOSTREAM: reads the plaintext at `s12`, `s12 + 4` and writes the ciphertext `s0'..s7'` at
/// `s13`, `s13 + 4`.
pub open spec fn cryptostream_request_spec(ch: &Challenges, local: &MainCols<Felt>, next: &MainCols<Felt>) -> (int, int) {
    let rl = MEMORY_READ_WORD_LABEL as int;
    let wl = MEMORY_WRITE_WORD_LABEL as int;
    let ctx = local.system.ctx@;
    let clk = local.system.clk@;
    let src = st(local, 12);
    let dst = st(local, 13);
    qmul(
        qmul(
            qmul(
                chiplets_message(ch, seq![rl, ctx, src, clk] + plaintext(local, next, 0)),
                chiplets_message(ch, seq![rl, ctx, fadd(src, 4), clk] + plaintext(local, next, 4)),
            ),
            chiplets_message(ch, seq![wl, ctx, dst, clk] + st_range(next, 0, 4)),
        ),
        chiplets_message(ch, seq![wl, ctx, fadd(dst, 4), clk] + st_range(next, 4, 4)),
    )
}

/// JOIN, SPLIT, LOOP, CALL, SYSCALL: the decoder hasher state as rate and the opcode in the
/// capacity domain position, sent to the block address `addr'`.
pub open spec fn control_block_request_spec(ch: &Challenges, local: &MainCols<Felt>, next: &MainCols<Felt>, opcode: u8) -> (int, int) {
    hasher_message(
        ch,
        TRANSITION_LINEAR_HASH as int,
        next.decoder.addr@,
        0,
        hs_range(local, 8) + seq![0int, opcode as int, 0int, 0int],
    )
}

/// DYN, DYNCALL: a zero rate and the opcode in the capacity domain position.
pub open spec fn control_block_request_zeros_spec(ch: &Challenges, next: &MainCols<Felt>, opcode: u8) -> (int, int) {
    hasher_message(
        ch,
        TRANSITION_LINEAR_HASH as int,
        next.decoder.addr@,
        0,
        Seq::new(8, |i: int| 0int) + seq![0int, opcode as int, 0int, 0int],
    )
}

/// SPAN: the decoder hasher state as rate, a zero capacity.
pub open spec fn span_request_spec(ch: &Challenges, local: &MainCols<Felt>, next: &MainCols<Felt>) -> (int, int) {
    hasher_message(
        ch,
        TRANSITION_LINEAR_HASH as int,
        next.decoder.addr@,
        0,
        hs_range(local, 8) + seq![0int, 0int, 0int, 0int],
    )
}

/// RESPAN: the decoder hasher state absorbed as rate, at address `addr' - 1`.
pub open spec fn respan_request_spec(ch: &Challenges, local: &MainCols<Felt>, next: &MainCols<Felt>) -> (int, int) {
    hasher_message(
        ch,
        TRANSITION_LINEAR_HASH_ABP as int,
        fsub(next.decoder.addr@, 1),
        0,
        hs_range(local, 8),
    )
}

/// END: the digest `h0..h3` returned at the last row of the block's hash cycle.
pub open spec fn end_request_spec(ch: &Challenges, local: &MainCols<Felt>) -> (int, int) {
    hasher_message(
        ch,
        TRANSITION_RETURN_HASH as int,
        fadd(local.decoder.addr@, HASH_CYCLE_OFFSET as int),
        0,
        hs_range(local, 4),
    )
}

/// The write of the initial frame pointer in the new context (CALL, DYNCALL).
pub open spec fn fmp_write_request_spec(ch: &Challenges, local: &MainCols<Felt>, next: &MainCols<Felt>) -> (int, int) {
    chiplets_message(
        ch,
        seq![
            MEMORY_WRITE_ELEMENT_LABEL as int,
            next.system.ctx@,
            FMP_ADDR as int,
            local.system.clk@,
            FMP_INIT_VALUE as int,
        ],
    )
}

/// The read of the callee hash word at address `s0` (DYN, DYNCALL).
pub open spec fn dyn_callee_hash_read_spec(ch: &Challenges, local: &MainCols<Felt>) -> (int, int) {
    chiplets_message(
        ch,
        seq![MEMORY_READ_WORD_LABEL as int, local.system.ctx@, st(local, 0), local.system.clk@]
            + hs_range(local, 4),
    )
}

/// The kernel ROM lookup of the callee digest (SYSCALL).
pub open spec fn kernel_call_request_spec(ch: &Challenges, local: &MainCols<Felt>) -> (int, int) {
    chiplets_message(ch, seq![KERNEL_PROC_CALL_LABEL as int] + hs_range(local, 4))
}

/// HPERM: the input state `s0..s11` at address `helper0`, the output state `s0'..s11'` at
/// `helper0 + 31`.
pub open spec fn hperm_request_spec(ch: &Challenges, local: &MainCols<Felt>, next: &MainCols<Felt>) -> (int, int) {
    let addr = helper(local, 0);
    qmul(
        hasher_message(ch, TRANSITION_LINEAR_HASH as int, addr, 0, st_range(local, 0, 12)),
        hasher_message(
            ch,
            TRANSITION_RETURN_STATE as int,
            fadd(addr, HASH_CYCLE_OFFSET as int),
            0,
            st_range(next, 0, 12),
        ),
    )
}

/// MPVERIFY: the node `s0..s3` at index `s5`, and the root `s6..s9` returned after `s4` cycles.
pub open spec fn mpverify_request_spec(ch: &Challenges, local: &MainCols<Felt>) -> (int, int) {
    let addr = helper(local, 0);
    qmul(
        hasher_message(ch, TRANSITION_MP_VERIFY as int, addr, st(local, 5), st_range(local, 0, 4)),
        hasher_message(
            ch,
            TRANSITION_RETURN_HASH as int,
            fsub(fadd(addr, fmul(st(local, 4), 32)), 1),
            0,
            st_range(local, 6, 4),
        ),
    )
}

/// MRUPDATE: the old path input and output, then the new path input and output.
pub open spec fn mrupdate_request_spec(ch: &Challenges, local: &MainCols<Felt>, next: &MainCols<Felt>) -> (int, int) {
    let addr = helper(local, 0);
    let depth = st(local, 4);
    let index = st(local, 5);
    qmul(
        qmul(
            qmul(
                hasher_message(ch, TRANSITION_MR_UPDATE_OLD as int, addr, index, st_range(local, 0, 4)),
                hasher_message(
                    ch,
                    TRANSITION_RETURN_HASH as int,
                    fsub(fadd(addr, fmul(depth, 32)), 1),
                    0,
                    st_range(local, 6, 4),
                ),
            ),
            hasher_message(
                ch,
                TRANSITION_MR_UPDATE_NEW as int,
                fadd(addr, fmul(depth, 32)),
                index,
                st_range(local, 10, 4),
            ),
        ),
        hasher_message(
            ch,
            TRANSITION_RETURN_HASH as int,
            fsub(fadd(addr, fmul(depth, 64)), 1),
            0,
            st_range(next, 0, 4),
        ),
    )
}

/// LOGPRECOMPILE: absorbs `[COMM, TAG]` (`s0..s7`) with capacity `CAP_PREV` (helpers 1..4) and
/// returns `[R0, R1, CAP_NEXT]` (`s0'..s11'`).
pub open spec fn log_precompile_request_spec(ch: &Challenges, local: &MainCols<Felt>, next: &MainCols<Felt>) -> (int, int) {
    let addr = helper(local, 0);
    let cap_prev = Seq::new(4, |i: int| helper(local, 1 + i));
    qmul(
        hasher_message(ch, TRANSITION_LINEAR_HASH as int, addr, 0, st_range(local, 0, 8) + cap_prev),
        hasher_message(
            ch,
            TRANSITION_RETURN_STATE as int,
            fadd(addr, HASH_CYCLE_OFFSET as int),
            0,
            st_range(next, 0, 12),
        ),
    )
}

/// HORNERBASE: two element reads at `s13` and `s13 + 1` into helpers 0 and 1.
pub open spec fn hornerbase_request_spec(ch: &Challenges, local: &MainCols<Felt>) -> (int, int) {
    let label = MEMORY_READ_ELEMENT_LABEL as int;
    let ctx = local.system.ctx@;
    let clk = local.system.clk@;
    let addr = st(local, 13);
    qmul(
        chiplets_message(ch, seq![label, ctx, addr, clk, helper(local, 0)]),
        chiplets_message(ch, seq![label, ctx, fadd(addr, 1), clk, helper(local, 1)]),
    )
}

/// HORNEREXT: one word read at `s13` into helpers 0..3.
pub open spec fn hornerext_request_spec(ch: &Challenges, local: &MainCols<Felt>) -> (int, int) {
    chiplets_message(
        ch,
        seq![
            MEMORY_READ_WORD_LABEL as int,
            local.system.ctx@,
            st(local, 13),
            local.system.clk@,
            helper(local, 0),
            helper(local, 1),
            helper(local, 2),
            helper(local, 3),
        ],
    )
}

/// EVALCIRCUIT: `[label, clk, ctx, ptr, num_read_rows, num_eval_rows]` from `s0..s2`.
pub open spec fn evalcircuit_request_spec(ch: &Challenges, local: &MainCols<Felt>) -> (int, int) {
    chiplets_message(
        ch,
        seq![
            ACE_INIT_LABEL as int,
            local.system.clk@,
            local.system.ctx@,
            st(local, 0),
            st(local, 1),
            st(local, 2),
        ],
    )
}

/// The operations that send a request on the chiplets bus, in order.
pub open spec fn request_opcodes() -> Seq<u8> {
    seq![
        opcodes::HPERM,
        opcodes::MPVERIFY,
        opcodes::MRUPDATE,
        opcodes::JOIN,
        opcodes::SPLIT,
        opcodes::LOOP,
        opcodes::CALL,
        opcodes::DYN,
        opcodes::DYNCALL,
        opcodes::SYSCALL,
        opcodes::SPAN,
        opcodes::RESPAN,
        opcodes::END,
        opcodes::MLOAD,
        opcodes::MSTORE,
        opcodes::MLOADW,
        opcodes::MSTOREW,
        opcodes::HORNERBASE,
        opcodes::HORNEREXT,
        opcodes::MSTREAM,
        opcodes::PIPE,
        opcodes::CRYPTOSTREAM,
        opcodes::U32AND,
        opcodes::U32XOR,
        opcodes::EVALCIRCUIT,
        opcodes::LOGPRECOMPILE,
    ]
}

/// The flags of the requesting operations.
pub open spec fn request_flags(f: &OpFlags) -> Seq<int> {
    request_opcodes().map_values(|op: u8| op_flag(f, op))
}

/// The request value of each requesting operation, in the order of [`request_opcodes`].
pub open spec fn request_values(ch: &Challenges, local: &MainCols<Felt>, next: &MainCols<Felt>) -> Seq<(int, int)> {
    seq![
        hperm_request_spec(ch, local, next),
        mpverify_request_spec(ch, local),
        mrupdate_request_spec(ch, local, next),
        control_block_request_spec(ch, local, next, opcodes::JOIN),
        control_block_request_spec(ch, local, next, opcodes::SPLIT),
        control_block_request_spec(ch, local, next, opcodes::LOOP),
        qmul(control_block_request_spec(ch, local, next, opcodes::CALL), fmp_write_request_spec(ch, local, next)),
        qmul(control_block_request_zeros_spec(ch, next, opcodes::DYN), dyn_callee_hash_read_spec(ch, local)),
        qmul(
            qmul(control_block_request_zeros_spec(ch, next, opcodes::DYNCALL), dyn_callee_hash_read_spec(ch, local)),
            fmp_write_request_spec(ch, local, next),
        ),
        qmul(control_block_request_spec(ch, local, next, opcodes::SYSCALL), kernel_call_request_spec(ch, local)),
        span_request_spec(ch, local, next),
        respan_request_spec(ch, local, next),
        end_request_spec(ch, local),
        memory_element_request_spec(ch, local, next, true),
        memory_element_request_spec(ch, local, next, false),
        memory_word_request_spec(ch, local, next, true),
        memory_word_request_spec(ch, local, next, false),
        hornerbase_request_spec(ch, local),
        hornerext_request_spec(ch, local),
        two_word_request_spec(ch, local, next, true),
        two_word_request_spec(ch, local, next, false),
        cryptostream_request_spec(ch, local, next),
        bitwise_request_spec(ch, local, next, false),
        bitwise_request_spec(ch, local, next, true),
        evalcircuit_request_spec(ch, local),
        log_precompile_request_spec(ch, local, next),
    ]
}

/// The request multiplier: `sum(flag_op * value_op) + (1 - sum(flag_op))` over the requesting
/// operations.
pub open spec fn request_multiplier_spec(f: &OpFlags, ch: &Challenges, local: &MainCols<Felt>, next: &MainCols<Felt>) -> (int, int) {
    bus_multiplier(request_flags(f), request_values(ch, local, next))
}

// REQUEST VALUES
// ================================================================================================

/// A field element from a small label.
fn label_felt(label: u64) -> (r: Felt)
    requires
        label < 256,
    ensures
        r@ == label,
{
    Felt::new(label)
}

fn compute_bitwise_request(ch: &Challenges, local: &MainCols<Felt>, next: &MainCols<Felt>, is_xor: bool) -> (r: QuadFelt)
    requires
        ch.wf(),
    ensures
        r@ == bitwise_request_spec(ch, local, next, is_xor),
{
    let label = label_felt(if is_xor { BITWISE_XOR_LABEL } else { BITWISE_AND_LABEL });
    let m = [label, local.stack.top[0], local.stack.top[1], next.stack.top[0]];
    assert(felt_values(m@) =~= seq![label@, st(local, 0), st(local, 1), st(next, 0)]);
    encode_message(ch, m.as_slice())
}

fn compute_memory_word_request(ch: &Challenges, local: &MainCols<Felt>, next: &MainCols<Felt>, is_read: bool) -> (r: QuadFelt)
    requires
        ch.wf(),
    ensures
        r@ == memory_word_request_spec(ch, local, next, is_read),
{
    let label = label_felt(if is_read { MEMORY_READ_WORD_LABEL as u64 } else { MEMORY_WRITE_WORD_LABEL as u64 });
    let w = if is_read {
        [next.stack.top[0], next.stack.top[1], next.stack.top[2], next.stack.top[3]]
    } else {
        [local.stack.top[1], local.stack.top[2], local.stack.top[3], local.stack.top[4]]
    };
    let m = [label, local.system.ctx, local.stack.top[0], local.system.clk, w[0], w[1], w[2], w[3]];
    let ghost word = if is_read { st_range(next, 0, 4) } else { st_range(local, 1, 4) };
    assert(felt_values(m@) =~= seq![memory_label(is_read, true), local.system.ctx@, st(local, 0), local.system.clk@] + word);
    encode_message(ch, m.as_slice())
}

fn compute_memory_element_request(ch: &Challenges, local: &MainCols<Felt>, next: &MainCols<Felt>, is_read: bool) -> (r: QuadFelt)
    requires
        ch.wf(),
    ensures
        r@ == memory_element_request_spec(ch, local, next, is_read),
{
    let label = label_felt(if is_read { MEMORY_READ_ELEMENT_LABEL as u64 } else { MEMORY_WRITE_ELEMENT_LABEL as u64 });
    let element = if is_read { next.stack.top[0] } else { local.stack.top[1] };
    let m = [label, local.system.ctx, local.stack.top[0], local.system.clk, element];
    assert(felt_values(m@) =~= seq![memory_label(is_read, false), local.system.ctx@, st(local, 0), local.system.clk@, element@]);
    encode_message(ch, m.as_slice())
}

fn compute_two_word_request(ch: &Challenges, local: &MainCols<Felt>, next: &MainCols<Felt>, is_read: bool) -> (r: QuadFelt)
    requires
        ch.wf(),
    ensures
        r@ == two_word_request_spec(ch, local, next, is_read),
{
    let label = label_felt(if is_read { MEMORY_READ_WORD_LABEL as u64 } else { MEMORY_WRITE_WORD_LABEL as u64 });
    let ctx = local.system.ctx;
    let clk = local.system.clk;
    let addr = local.stack.top[12];
    let n = &next.stack.top;
    let m1 = [label, ctx, addr, clk, n[0], n[1], n[2], n[3]];
    let addr2 = addr.add(Felt::new(4));
    let m2 = [label, ctx, addr2, clk, n[4], n[5], n[6], n[7]];
    assert(felt_values(m1@) =~= seq![label@, ctx@, addr@, clk@] + st_range(next, 0, 4));
    assert(felt_values(m2@) =~= seq![label@, ctx@, fadd(addr@, 4), clk@] + st_range(next, 4, 4));
    encode_message(ch, m1.as_slice()).mul(encode_message(ch, m2.as_slice()))
}

fn compute_cryptostream_request(ch: &Challenges, local: &MainCols<Felt>, next: &MainCols<Felt>) -> (r: QuadFelt)
    requires
        ch.wf(),
    ensures
        r@ == cryptostream_request_spec(ch, local, next),
{
    let rl = label_felt(MEMORY_READ_WORD_LABEL as u64);
    let wl = label_felt(MEMORY_WRITE_WORD_LABEL as u64);
    let ctx = local.system.ctx;
    let clk = local.system.clk;
    let src = local.stack.top[12];
    let dst = local.stack.top[13];
    let l = &local.stack.top;
    let n = &next.stack.top;
    let four = Felt::new(4);
    let r1 = [rl, ctx, src, clk, n[0].sub(l[0]), n[1].sub(l[1]), n[2].sub(l[2]), n[3].sub(l[3])];
    let r2 = [rl, ctx, src.add(four), clk, n[4].sub(l[4]), n[5].sub(l[5]), n[6].sub(l[6]), n[7].sub(l[7])];
    let w1 = [wl, ctx, dst, clk, n[0], n[1], n[2], n[3]];
    let w2 = [wl, ctx, dst.add(four), clk, n[4], n[5], n[6], n[7]];
    assert(felt_values(r1@) =~= seq![rl@, ctx@, src@, clk@] + plaintext(local, next, 0));
    assert(felt_values(r2@) =~= seq![rl@, ctx@, fadd(src@, 4), clk@] + plaintext(local, next, 4));
    assert(felt_values(w1@) =~= seq![wl@, ctx@, dst@, clk@] + st_range(next, 0, 4));
    assert(felt_values(w2@) =~= seq![wl@, ctx@, fadd(dst@, 4), clk@] + st_range(next, 4, 4));
    encode_message(ch, r1.as_slice()).mul(encode_message(ch, r2.as_slice())).mul(
        encode_message(ch, w1.as_slice()),
    ).mul(encode_message(ch, w2.as_slice()))
}

fn compute_control_block_request(ch: &Challenges, local: &MainCols<Felt>, next: &MainCols<Felt>, opcode: u8) -> (r: QuadFelt)
    requires
        ch.wf(),
    ensures
        r@ == control_block_request_spec(ch, local, next, opcode),
{
    let h = &local.decoder.hasher_state;
    let z = Felt::zero();
    let state = [h[0], h[1], h[2], h[3], h[4], h[5], h[6], h[7], z, label_felt(opcode as u64), z, z];
    assert(felt_values(state@) =~= hs_range(local, 8) + seq![0int, opcode as int, 0int, 0int]);
    encode_hasher_message(ch, label_felt(TRANSITION_LINEAR_HASH), next.decoder.addr, z, state.as_slice())
}

fn compute_control_block_request_zeros(ch: &Challenges, next: &MainCols<Felt>, opcode: u8) -> (r: QuadFelt)
    requires
        ch.wf(),
    ensures
        r@ == control_block_request_zeros_spec(ch, next, opcode),
{
    let z = Felt::zero();
    let state = [z, z, z, z, z, z, z, z, z, label_felt(opcode as u64), z, z];
    assert(felt_values(state@) =~= Seq::new(8, |i: int| 0int) + seq![0int, opcode as int, 0int, 0int]);
    encode_hasher_message(ch, label_felt(TRANSITION_LINEAR_HASH), next.decoder.addr, z, state.as_slice())
}

fn compute_span_request(ch: &Challenges, local: &MainCols<Felt>, next: &MainCols<Felt>) -> (r: QuadFelt)
    requires
        ch.wf(),
    ensures
        r@ == span_request_spec(ch, local, next),
{
    let h = &local.decoder.hasher_state;
    let z = Felt::zero();
    let state = [h[0], h[1], h[2], h[3], h[4], h[5], h[6], h[7], z, z, z, z];
    assert(felt_values(state@) =~= hs_range(local, 8) + seq![0int, 0int, 0int, 0int]);
    encode_hasher_message(ch, label_felt(TRANSITION_LINEAR_HASH), next.decoder.addr, z, state.as_slice())
}

fn compute_respan_request(ch: &Challenges, local: &MainCols<Felt>, next: &MainCols<Felt>) -> (r: QuadFelt)
    requires
        ch.wf(),
    ensures
        r@ == respan_request_spec(ch, local, next),
{
    let h = &local.decoder.hasher_state;
    let rate = [h[0], h[1], h[2], h[3], h[4], h[5], h[6], h[7]];
    assert(felt_values(rate@) =~= hs_range(local, 8));
    let addr = next.decoder.addr.sub(Felt::one());
    encode_hasher_message(ch, label_felt(TRANSITION_LINEAR_HASH_ABP), addr, Felt::zero(), rate.as_slice())
}

fn compute_end_request(ch: &Challenges, local: &MainCols<Felt>) -> (r: QuadFelt)
    requires
        ch.wf(),
    ensures
        r@ == end_request_spec(ch, local),
{
    let h = &local.decoder.hasher_state;
    let digest = [h[0], h[1], h[2], h[3]];
    assert(felt_values(digest@) =~= hs_range(local, 4));
    let addr = local.decoder.addr.add(label_felt(HASH_CYCLE_OFFSET));
    encode_hasher_message(ch, label_felt(TRANSITION_RETURN_HASH), addr, Felt::zero(), digest.as_slice())
}

fn compute_fmp_write_request(ch: &Challenges, local: &MainCols<Felt>, next: &MainCols<Felt>) -> (r: QuadFelt)
    requires
        ch.wf(),
    ensures
        r@ == fmp_write_request_spec(ch, local, next),
{
    let m = [
        label_felt(MEMORY_WRITE_ELEMENT_LABEL as u64),
        next.system.ctx,
        Felt::new(FMP_ADDR),
        local.system.clk,
        Felt::new(FMP_INIT_VALUE),
    ];
    assert(felt_values(m@) =~= seq![
        MEMORY_WRITE_ELEMENT_LABEL as int,
        next.system.ctx@,
        FMP_ADDR as int,
        local.system.clk@,
        FMP_INIT_VALUE as int,
    ]);
    encode_message(ch, m.as_slice())
}

fn compute_dyn_callee_hash_read(ch: &Challenges, local: &MainCols<Felt>) -> (r: QuadFelt)
    requires
        ch.wf(),
    ensures
        r@ == dyn_callee_hash_read_spec(ch, local),
{
    let h = &local.decoder.hasher_state;
    let m = [
        label_felt(MEMORY_READ_WORD_LABEL as u64),
        local.system.ctx,
        local.stack.top[0],
        local.system.clk,
        h[0],
        h[1],
        h[2],
        h[3],
    ];
    assert(felt_values(m@) =~= seq![MEMORY_READ_WORD_LABEL as int, local.system.ctx@, st(local, 0), local.system.clk@] + hs_range(local, 4));
    encode_message(ch, m.as_slice())
}

fn compute_kernel_call_request(ch: &Challenges, local: &MainCols<Felt>) -> (r: QuadFelt)
    requires
        ch.wf(),
    ensures
        r@ == kernel_call_request_spec(ch, local),
{
    let h = &local.decoder.hasher_state;
    let m = [label_felt(KERNEL_PROC_CALL_LABEL), h[0], h[1], h[2], h[3]];
    assert(felt_values(m@) =~= seq![KERNEL_PROC_CALL_LABEL as int] + hs_range(local, 4));
    encode_message(ch, m.as_slice())
}

fn compute_hperm_request(ch: &Challenges, local: &MainCols<Felt>, next: &MainCols<Felt>) -> (r: QuadFelt)
    requires
        ch.wf(),
    ensures
        r@ == hperm_request_spec(ch, local, next),
{
    let addr = local.decoder.hasher_state[2];
    let l = &local.stack.top;
    let n = &next.stack.top;
    let input = [l[0], l[1], l[2], l[3], l[4], l[5], l[6], l[7], l[8], l[9], l[10], l[11]];
    let output = [n[0], n[1], n[2], n[3], n[4], n[5], n[6], n[7], n[8], n[9], n[10], n[11]];
    assert(felt_values(input@) =~= st_range(local, 0, 12));
    assert(felt_values(output@) =~= st_range(next, 0, 12));
    let z = Felt::zero();
    let input_msg = encode_hasher_message(ch, label_felt(TRANSITION_LINEAR_HASH), addr, z, input.as_slice());
    let output_msg = encode_hasher_message(
        ch,
        label_felt(TRANSITION_RETURN_STATE),
        addr.add(label_felt(HASH_CYCLE_OFFSET)),
        z,
        output.as_slice(),
    );
    input_msg.mul(output_msg)
}

fn compute_mpverify_request(ch: &Challenges, local: &MainCols<Felt>) -> (r: QuadFelt)
    requires
        ch.wf(),
    ensures
        r@ == mpverify_request_spec(ch, local),
{
    let helper_0 = local.decoder.hasher_state[2];
    let l = &local.stack.top;
    let node = [l[0], l[1], l[2], l[3]];
    let root = [l[6], l[7], l[8], l[9]];
    assert(felt_values(node@) =~= st_range(local, 0, 4));
    assert(felt_values(root@) =~= st_range(local, 6, 4));
    let input_msg = encode_hasher_message(ch, label_felt(TRANSITION_MP_VERIFY), helper_0, l[5], node.as_slice());
    let output_addr = helper_0.add(l[4].mul(label_felt(32))).sub(Felt::one());
    let output_msg = encode_hasher_message(
        ch,
        label_felt(TRANSITION_RETURN_HASH),
        output_addr,
        Felt::zero(),
        root.as_slice(),
    );
    input_msg.mul(output_msg)
}

fn compute_mrupdate_request(ch: &Challenges, local: &MainCols<Felt>, next: &MainCols<Felt>) -> (r: QuadFelt)
    requires
        ch.wf(),
    ensures
        r@ == mrupdate_request_spec(ch, local, next),
{
    let helper_0 = local.decoder.hasher_state[2];
    let l = &local.stack.top;
    let n = &next.stack.top;
    let depth = l[4];
    let index = l[5];
    let old_node = [l[0], l[1], l[2], l[3]];
    let old_root = [l[6], l[7], l[8], l[9]];
    let new_node = [l[10], l[11], l[12], l[13]];
    let new_root = [n[0], n[1], n[2], n[3]];
    assert(felt_values(old_node@) =~= st_range(local, 0, 4));
    assert(felt_values(old_root@) =~= st_range(local, 6, 4));
    assert(felt_values(new_node@) =~= st_range(local, 10, 4));
    assert(felt_values(new_root@) =~= st_range(next, 0, 4));
    let z = Felt::zero();
    let one = Felt::one();
    let input_old = encode_hasher_message(ch, label_felt(TRANSITION_MR_UPDATE_OLD), helper_0, index, old_node.as_slice());
    let output_old = encode_hasher_message(
        ch,
        label_felt(TRANSITION_RETURN_HASH),
        helper_0.add(depth.mul(label_felt(32))).sub(one),
        z,
        old_root.as_slice(),
    );
    let input_new = encode_hasher_message(
        ch,
        label_felt(TRANSITION_MR_UPDATE_NEW),
        helper_0.add(depth.mul(label_felt(32))),
        index,
        new_node.as_slice(),
    );
    let output_new = encode_hasher_message(
        ch,
        label_felt(TRANSITION_RETURN_HASH),
        helper_0.add(depth.mul(label_felt(64))).sub(one),
        z,
        new_root.as_slice(),
    );
    input_old.mul(output_old).mul(input_new).mul(output_new)
}

fn compute_log_precompile_request(ch: &Challenges, local: &MainCols<Felt>, next: &MainCols<Felt>) -> (r: QuadFelt)
    requires
        ch.wf(),
    ensures
        r@ == log_precompile_request_spec(ch, local, next),
{
    let h = &local.decoder.hasher_state;
    let addr = h[2];
    let l = &local.stack.top;
    let n = &next.stack.top;
    let input = [l[0], l[1], l[2], l[3], l[4], l[5], l[6], l[7], h[3], h[4], h[5], h[6]];
    let output = [n[0], n[1], n[2], n[3], n[4], n[5], n[6], n[7], n[8], n[9], n[10], n[11]];
    assert(felt_values(input@) =~= st_range(local, 0, 8) + Seq::new(4, |i: int| helper(local, 1 + i)));
    assert(felt_values(output@) =~= st_range(next, 0, 12));
    let z = Felt::zero();
    let input_msg = encode_hasher_message(ch, label_felt(TRANSITION_LINEAR_HASH), addr, z, input.as_slice());
    let output_msg = encode_hasher_message(
        ch,
        label_felt(TRANSITION_RETURN_STATE),
        addr.add(label_felt(HASH_CYCLE_OFFSET)),
        z,
        output.as_slice(),
    );
    input_msg.mul(output_msg)
}

fn compute_hornerbase_request(ch: &Challenges, local: &MainCols<Felt>) -> (r: QuadFelt)
    requires
        ch.wf(),
    ensures
        r@ == hornerbase_request_spec(ch, local),
{
    let label = label_felt(MEMORY_READ_ELEMENT_LABEL as u64);
    let ctx = local.system.ctx;
    let clk = local.system.clk;
    let addr = local.stack.top[13];
    let h = &local.decoder.hasher_state;
    let m0 = [label, ctx, addr, clk, h[2]];
    let m1 = [label, ctx, addr.add(Felt::one()), clk, h[3]];
    assert(felt_values(m0@) =~= seq![label@, ctx@, addr@, clk@, helper(local, 0)]);
    assert(felt_values(m1@) =~= seq![label@, ctx@, fadd(addr@, 1), clk@, helper(local, 1)]);
    encode_message(ch, m0.as_slice()).mul(encode_message(ch, m1.as_slice()))
}

fn compute_hornerext_request(ch: &Challenges, local: &MainCols<Felt>) -> (r: QuadFelt)
    requires
        ch.wf(),
    ensures
        r@ == hornerext_request_spec(ch, local),
{
    let h = &local.decoder.hasher_state;
    let m = [
        label_felt(MEMORY_READ_WORD_LABEL as u64),
        local.system.ctx,
        local.stack.top[13],
        local.system.clk,
        h[2],
        h[3],
        h[4],
        h[5],
    ];
    assert(felt_values(m@) =~= seq![
        MEMORY_READ_WORD_LABEL as int,
        local.system.ctx@,
        st(local, 13),
        local.system.clk@,
        helper(local, 0),
        helper(local, 1),
        helper(local, 2),
        helper(local, 3),
    ]);
    encode_message(ch, m.as_slice())
}

fn compute_evalcircuit_request(ch: &Challenges, local: &MainCols<Felt>) -> (r: QuadFelt)
    requires
        ch.wf(),
    ensures
        r@ == evalcircuit_request_spec(ch, local),
{
    let m = [
        label_felt(ACE_INIT_LABEL),
        local.system.clk,
        local.system.ctx,
        local.stack.top[0],
        local.stack.top[1],
        local.stack.top[2],
    ];
    assert(felt_values(m@) =~= seq![
        ACE_INIT_LABEL as int,
        local.system.clk@,
        local.system.ctx@,
        st(local, 0),
        st(local, 1),
        st(local, 2),
    ]);
    encode_message(ch, m.as_slice())
}

// FULL REQUEST MULTIPLIER
// ================================================================================================

/// Computes the request multiplier of the chiplets bus:
/// `sum(flag_op * value_op) + (1 - sum(flag_op))` over the operations that send a message to a
/// chiplet.
#[verifier::rlimit(40)]
pub fn compute_request_multiplier(
    local: &MainCols<Felt>,
    next: &MainCols<Felt>,
    op_flags: &OpFlags,
    ch: &Challenges,
) -> (r: QuadFelt)
    requires
        op_flags.wf(),
        ch.wf(),
    ensures
        r@ == request_multiplier_spec(op_flags, ch, local, next),
{
    let mut flags: Vec<Felt> = Vec::new();
    let mut values: Vec<QuadFelt> = Vec::new();
    flags.push(op_flags.hperm());
    values.push(compute_hperm_request(ch, local, next));
    flags.push(op_flags.mpverify());
    values.push(compute_mpverify_request(ch, local));
    flags.push(op_flags.mrupdate());
    values.push(compute_mrupdate_request(ch, local, next));
    flags.push(op_flags.join());
    values.push(compute_control_block_request(ch, local, next, opcodes::JOIN));
    flags.push(op_flags.split());
    values.push(compute_control_block_request(ch, local, next, opcodes::SPLIT));
    flags.push(op_flags.loop_op());
    values.push(compute_control_block_request(ch, local, next, opcodes::LOOP));
    flags.push(op_flags.call());
    values.push(compute_control_block_request(ch, local, next, opcodes::CALL).mul(compute_fmp_write_request(ch, local, next)));
    flags.push(op_flags.dyn_op());
    values.push(compute_control_block_request_zeros(ch, next, opcodes::DYN).mul(compute_dyn_callee_hash_read(ch, local)));
    flags.push(op_flags.dyncall());
    values.push(compute_control_block_request_zeros(ch, next, opcodes::DYNCALL).mul(compute_dyn_callee_hash_read(ch, local)).mul(compute_fmp_write_request(ch, local, next)));
    flags.push(op_flags.syscall());
    values.push(compute_control_block_request(ch, local, next, opcodes::SYSCALL).mul(compute_kernel_call_request(ch, local)));
    flags.push(op_flags.span());
    values.push(compute_span_request(ch, local, next));
    flags.push(op_flags.respan());
    values.push(compute_respan_request(ch, local, next));
    flags.push(op_flags.end());
    values.push(compute_end_request(ch, local));
    flags.push(op_flags.mload());
    values.push(compute_memory_element_request(ch, local, next, true));
    flags.push(op_flags.mstore());
    values.push(compute_memory_element_request(ch, local, next, false));
    flags.push(op_flags.mloadw());
    values.push(compute_memory_word_request(ch, local, next, true));
    flags.push(op_flags.mstorew());
    values.push(compute_memory_word_request(ch, local, next, false));
    flags.push(op_flags.hornerbase());
    values.push(compute_hornerbase_request(ch, local));
    flags.push(op_flags.hornerext());
    values.push(compute_hornerext_request(ch, local));
    flags.push(op_flags.mstream());
    values.push(compute_two_word_request(ch, local, next, true));
    flags.push(op_flags.pipe());
    values.push(compute_two_word_request(ch, local, next, false));
    flags.push(op_flags.cryptostream());
    values.push(compute_cryptostream_request(ch, local, next));
    flags.push(op_flags.u32and());
    values.push(compute_bitwise_request(ch, local, next, false));
    flags.push(op_flags.u32xor());
    values.push(compute_bitwise_request(ch, local, next, true));
    flags.push(op_flags.evalcircuit());
    values.push(compute_evalcircuit_request(ch, local));
    flags.push(op_flags.log_precompile());
    values.push(compute_log_precompile_request(ch, local, next));
    assert(felt_values(flags@) =~= request_flags(op_flags));
    assert(quad_values(values@) =~= request_values(ch, local, next));
    combine_messages(&flags, &values)
}


// LAWS
// ================================================================================================

proof fn lemma_request_values_canonical(ch: &Challenges, local: &MainCols<Felt>, next: &MainCols<Felt>)
    ensures
        canonical_values(request_values(ch, local, next)),
{
    broadcast use lemma_fadd_range, lemma_fmul_range, lemma_fsub_range;

    let v = request_values(ch, local, next);
    assert forall|i: int| 0 <= i < v.len() implies 0 <= (#[trigger] v[i]).0 < P && 0 <= v[i].1 < P by {
    }
}

/// On a row whose op bits encode the opcode `k`, the request multiplier is the message of `k`
/// when `k` sends a request to a chiplet, and 1 when it sends none.
pub proof fn lemma_request_multiplier_selects(
    flags: OpFlags,
    k: int,
    h0: int,
    depth: int,
    is_loop: int,
    ch: &Challenges,
    local: &MainCols<Felt>,
    next: &MainCols<Felt>,
)
    requires
        is_opcode(k),
        flags.computed_from(opcode_bits(k), opcode_extra(k), h0, depth, is_loop),
    ensures
        forall|j: int|
            0 <= j < request_opcodes().len() && request_opcodes()[j] == k ==> request_multiplier_spec(
                &flags,
                ch,
                local,
                next,
            ) == #[trigger] request_values(ch, local, next)[j],
        (forall|j: int| 0 <= j < request_opcodes().len() ==> #[trigger] request_opcodes()[j] != k)
            ==> request_multiplier_spec(&flags, ch, local, next) == (1int, 0int),
{
    lemma_op_flags_one_hot(flags, k, h0, depth, is_loop);
    lemma_request_values_canonical(ch, local, next);
    let ops = request_opcodes();
    let fl = request_flags(&flags);
    assert forall|j: int| 0 <= j < ops.len() implies #[trigger] fl[j] == (if ops[j] == k {
        1int
    } else {
        0int
    }) by {
        let op = ops[j];
        assert(op < 64 || 80 <= op < 96 || (96 <= op < 128 && op % 4 == 0));
    }
    lemma_bus_multiplier_selects(fl, request_values(ch, local, next));
    assert forall|j: int| 0 <= j < ops.len() && ops[j] == k implies request_multiplier_spec(
        &flags,
        ch,
        local,
        next,
    ) == #[trigger] request_values(ch, local, next)[j] by {
        assert forall|i: int| 0 <= i < fl.len() && i != j implies #[trigger] fl[i] == 0 by {
            assert(ops[i] != ops[j]);
        }
    }
}

} // verus!
