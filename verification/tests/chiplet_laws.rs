use miden_air_verified::constraint_set::{ConstraintSet, EvalContext, OwnedWindow, RowDomain};
use miden_air_verified::constraints::chiplets::bitwise::{enforce_bitwise_constraints, P_BITWISE_K_FIRST, P_BITWISE_K_TRANSITION};
use miden_air_verified::constraints::chiplets::bus::chiplets::requests::compute_request_multiplier;
use miden_air_verified::constraints::chiplets::bus::chiplets::responses::compute_response_multiplier;
use miden_air_verified::constraints::chiplets::bus::chiplets::{enforce_chiplets_bus_constraint, B_CHIPLETS};
use miden_air_verified::constraints::chiplets::bus::hash_kernel::{enforce_hash_kernel_constraint, B_HASH_KERNEL};
use miden_air_verified::constraints::chiplets::bus::wiring::{enforce_wiring_bus_constraint, V_WIRING};
use miden_air_verified::constraints::chiplets::hasher::enforce_hasher_constraints;
use miden_air_verified::constraints::chiplets::hasher::state::{mat_diag, MAT_DIAG};
use miden_air_verified::constraints::chiplets::selectors::build_chiplet_selectors;
use miden_air_verified::constraints::range::bus as range_bus;
use miden_air_verified::constraints::stack::crypto;
use miden_air_verified::constraints::stack::ops as stack_ops;
use miden_air_verified::constraints::tagging::{tagged_assert_zero_ext, TagGroup};
use miden_air_verified::trace::range::B_RANGE_COL_IDX;
use miden_air_verified::constraints::chiplets::hasher::flags::{f_abp, f_bp, f_hout, f_mp, f_mu, f_mv, f_sout};
use miden_air_verified::constraints::chiplets::hasher::state::{apply_matmul_external, apply_matmul_internal, matmul_m4};
use miden_air_verified::constraints::chiplets::selectors::{ChipletFlags, ChipletSelectors};
use miden_air_verified::constraints::chiplets::memory::{enforce_memory_constraints_all_rows_except_last, enforce_memory_constraints_first_row};
use miden_air_verified::constraints::chiplets::kernel_rom::enforce_kernel_rom_constraints;
use miden_air_verified::constraints::decoder;
use miden_air_verified::constraints::system::{enforce_ctx_constraints, enforce_fn_hash_constraints};
use miden_air_verified::constraints::op_flags::{ExprDecoderAccess, OpFlags};
use miden_air_verified::field::{Felt, QuadFelt, P};
use miden_air_verified::opcodes;
use miden_air_verified::trace::bus_types::CHIPLETS_BUS;
use miden_air_verified::trace::challenges::Challenges;
use miden_air_verified::trace::decoder::DecoderCols;
use miden_air_verified::trace::range::RangeCols;
use miden_air_verified::trace::stack::StackCols;
use miden_air_verified::trace::{MainCols, SystemCols};

fn f(x: u64) -> Felt {
    Felt::new(x)
}

fn blank_row() -> MainCols<Felt> {
    let z = Felt::zero();
    MainCols {
        system: SystemCols { clk: z, ctx: z, fn_hash: [z; 4] },
        decoder: DecoderCols {
            addr: z,
            op_bits: [z; 7],
            hasher_state: [z; 8],
            in_span: z,
            group_count: z,
            op_index: z,
            batch_flags: [z; 3],
            extra: [z; 2],
        },
        stack: StackCols { top: [z; 16], b0: f(16), b1: z, h0: z },
        range: RangeCols { multiplicity: z, value: z },
        chiplets: [z; 20],
    }
}

fn canonical(set: &ConstraintSet) -> Vec<u64> {
    set.base.iter().map(|c| c.value.as_canonical_u64()).collect()
}

fn inactive() -> ChipletFlags {
    let z = Felt::zero();
    ChipletFlags { is_active: z, is_transition: z, is_last: z, next_is_first: z }
}

fn active() -> ChipletFlags {
    ChipletFlags { is_active: Felt::one(), ..inactive() }
}

fn context(periodic: Vec<Felt>) -> EvalContext {
    EvalContext {
        is_transition: Felt::one(),
        periodic,
        aux: OwnedWindow::new(vec![QuadFelt::zero(); 16], 8),
        randomness: vec![QuadFelt::one()],
    }
}

/// Writes a bitwise chiplet row: op flag, aggregated inputs, the 4-bit limbs, and outputs.
fn bitwise_row(op: u64, a: u64, b: u64, prev_output: u64, output: u64) -> MainCols<Felt> {
    let mut row = blank_row();
    row.chiplets[2] = f(op);
    row.chiplets[3] = f(a);
    row.chiplets[4] = f(b);
    for i in 0..4 {
        row.chiplets[5 + i] = f((a >> i) & 1);
        row.chiplets[9 + i] = f((b >> i) & 1);
    }
    row.chiplets[13] = f(prev_output);
    row.chiplets[14] = f(output);
    row
}

fn bitwise_periodic(k_first: u64, k_transition: u64) -> Vec<Felt> {
    let mut p = vec![Felt::zero(); 20];
    p[P_BITWISE_K_FIRST] = f(k_first);
    p[P_BITWISE_K_TRANSITION] = f(k_transition);
    p
}

#[test]
fn bitwise_rows_compute_and_and_xor_of_limbs() {
    // First row of a cycle: limbs a = 0b1100, b = 0b1010; next row: a' = 16 a + 0b0101,
    // b' = 16 b + 0b0011.
    for (op, out, out_next) in [(0u64, 12u64 & 10, (12u64 & 10) * 16 + (5 & 3)), (1, 12 ^ 10, (12 ^ 10) * 16 + (5 ^ 3))] {
        let local = bitwise_row(op, 12, 10, 0, out);
        // The limb bits of the next row are the low 4 bits of its aggregated inputs.
        let next = bitwise_row(op, 12 * 16 + 5, 10 * 16 + 3, out, out_next);
        let ctx = context(bitwise_periodic(1, 1));
        let mut set = ConstraintSet::new();
        enforce_bitwise_constraints(&mut set, &ctx, &local, &next, &active());
        assert_eq!(set.base_count(), 17);
        assert!(canonical(&set).iter().all(|v| *v == 0), "op {op}");
    }
}

#[test]
fn bitwise_wrong_output_is_caught() {
    let local = bitwise_row(0, 12, 10, 0, 9);
    let next = bitwise_row(0, 0, 0, 9, 0);
    let ctx = context(bitwise_periodic(1, 0));
    let mut set = ConstraintSet::new();
    enforce_bitwise_constraints(&mut set, &ctx, &local, &next, &active());
    // The output constraint is the last: active * (9 - 12 & 10) = 1.
    assert_eq!(canonical(&set)[16], 1);
    // An inactive chiplet asserts nothing.
    let mut set = ConstraintSet::new();
    enforce_bitwise_constraints(&mut set, &ctx, &local, &next, &inactive());
    assert!(canonical(&set).iter().all(|v| *v == 0));
}

#[test]
fn m4_is_the_poseidon2_matrix() {
    let out = matmul_m4(&[f(1), f(2), f(3), f(4)]);
    // [[5, 7, 1, 3], [4, 6, 1, 1], [1, 3, 5, 7], [1, 1, 4, 6]] * [1, 2, 3, 4]
    assert_eq!(out.map(|x| x.as_canonical_u64()), [34, 23, 50, 39]);
    let wrap = matmul_m4(&[f(P - 1), f(0), f(0), f(0)]);
    assert_eq!(wrap.map(|x| x.as_canonical_u64()), [P - 5, P - 4, P - 1, P - 1]);
}

#[test]
fn external_and_internal_layers() {
    let mut state = [Felt::zero(); 12];
    state[0] = f(1);
    // M4 of (1, 0, 0, 0) is (5, 4, 1, 1); the other blocks are 0, so the block sums equal it.
    let ext = apply_matmul_external(&state);
    assert_eq!(ext.map(|x| x.as_canonical_u64()), [10, 8, 2, 2, 5, 4, 1, 1, 5, 4, 1, 1]);
    let diag: [Felt; 12] = core::array::from_fn(|i| f(i as u64 + 2));
    let state: [Felt; 12] = core::array::from_fn(|i| f(i as u64));
    // state[i] * (i + 2) + sum(0..12)
    let int = apply_matmul_internal(&state, &diag);
    let expected: Vec<u64> = (0..12u64).map(|i| i * (i + 2) + 66).collect();
    assert_eq!(int.map(|x| x.as_canonical_u64()).to_vec(), expected);
}

#[test]
fn hasher_pattern_flags_are_one_hot() {
    for bits in 0u64..8 {
        let (s0, s1, s2) = (f(bits & 1), f((bits >> 1) & 1), f(bits >> 2));
        let row0 = [f_bp(Felt::one(), s0, s1, s2), f_mp(Felt::one(), s0, s1, s2), f_mv(Felt::one(), s0, s1, s2), f_mu(Felt::one(), s0, s1, s2)];
        let ones = row0.iter().filter(|x| x.as_canonical_u64() == 1).count();
        let zeros = row0.iter().filter(|x| x.as_canonical_u64() == 0).count();
        assert_eq!(ones, (bits & 1) as usize, "selectors {bits:03b}");
        assert_eq!(ones + zeros, 4);
        let row31 = [f_abp(Felt::one(), s0, s1, s2), f_hout(Felt::one(), s0, s1, s2), f_sout(Felt::one(), s0, s1, s2)];
        assert!(row31.iter().filter(|x| x.as_canonical_u64() == 1).count() <= 1);
        // Off the cycle row, every flag is 0.
        assert_eq!(f_bp(Felt::zero(), s0, s1, s2).as_canonical_u64(), 0);
    }
    assert_eq!(f_mv(Felt::one(), f(1), f(1), f(0)).as_canonical_u64(), 1);
    assert_eq!(f_hout(Felt::one(), f(0), f(0), f(0)).as_canonical_u64(), 1);
}

fn test_challenges() -> Challenges {
    let prefixes: Vec<QuadFelt> = (0..9).map(|i| QuadFelt::from_base(f(1000 + i))).collect();
    Challenges::new(QuadFelt::one(), QuadFelt::new(f(3), f(5)), prefixes)
}

fn memory_only() -> ChipletSelectors {
    ChipletSelectors { hasher: inactive(), bitwise: inactive(), memory: active(), ace: inactive(), kernel_rom: inactive() }
}

#[test]
fn memory_response_selects_the_addressed_element() {
    let ch = test_challenges();
    let ctx = context(vec![Felt::zero(); 20]);
    let next = blank_row();
    for (idx0, idx1) in [(0u64, 0u64), (1, 0), (0, 1), (1, 1)] {
        let mut local = blank_row();
        local.chiplets[3] = f(1); // read
        local.chiplets[4] = f(0); // element access
        local.chiplets[5] = f(7); // ctx
        local.chiplets[6] = f(40); // word address
        local.chiplets[7] = f(idx0);
        local.chiplets[8] = f(idx1);
        local.chiplets[9] = f(99); // clk
        for i in 0..4 {
            local.chiplets[10 + i] = f(500 + i as u64);
        }
        let r = compute_response_multiplier(&ctx, &local, &next, &ch, &memory_only());
        let element = f(500 + idx0 + 2 * idx1);
        // Read element label 12, address word_addr + idx0 + 2 * idx1.
        let expected = ch.encode(CHIPLETS_BUS, &[f(12), f(7), f(40 + idx0 + 2 * idx1), f(99), element]);
        assert_eq!(r, expected, "idx ({idx0}, {idx1})");
    }
}

#[test]
fn memory_word_response_sends_the_word() {
    let ch = test_challenges();
    let ctx = context(vec![Felt::zero(); 20]);
    let mut local = blank_row();
    local.chiplets[4] = f(1); // word write
    local.chiplets[5] = f(2);
    local.chiplets[6] = f(8);
    local.chiplets[9] = f(3);
    for i in 0..4 {
        local.chiplets[10 + i] = f(10 * (i as u64 + 1));
    }
    let r = compute_response_multiplier(&ctx, &local, &blank_row(), &ch, &memory_only());
    let expected = ch.encode(CHIPLETS_BUS, &[f(20), f(2), f(8), f(3), f(10), f(20), f(30), f(40)]);
    assert_eq!(r, expected);
}

/// A row whose op bits and degree reduction columns encode `opcode`.
fn op_row(opcode: u8) -> MainCols<Felt> {
    let op = opcode as u64;
    let mut row = blank_row();
    for i in 0..7 {
        row.decoder.op_bits[i] = f((op >> i) & 1);
    }
    let (b4, b5, b6) = ((op >> 4) & 1, (op >> 5) & 1, (op >> 6) & 1);
    row.decoder.extra[0] = f(b6 * (1 - b5) * b4);
    row.decoder.extra[1] = f(b6 * b5);
    row
}

fn halt_row() -> MainCols<Felt> {
    op_row(opcodes::HALT)
}

#[test]
fn decoder_asserts_all_constraints_and_halt_is_absorbing() {
    let local = halt_row();
    let next = halt_row();
    let flags = OpFlags::new(ExprDecoderAccess::new(&local));
    let mut set = ConstraintSet::new();
    decoder::enforce_main(&mut set, &local, &next, &flags);
    assert_eq!(set.base_count(), decoder::NUM_CONSTRAINTS);
    assert!(canonical(&set).iter().all(|v| *v == 0));
    assert_eq!(set.base[0].domain, RowDomain::FirstRow);

    // Inside a span HALT breaks `1 - sp - f_ctrl = 0` (the last constraint).
    let mut in_span = halt_row();
    in_span.decoder.in_span = Felt::one();
    let flags = OpFlags::new(ExprDecoderAccess::new(&in_span));
    let mut set = ConstraintSet::new();
    decoder::enforce_main(&mut set, &in_span, &next, &flags);
    assert_eq!(canonical(&set)[56], P - 1);

    // HALT followed by a NOOP breaks `f_halt * (1 - f_halt') = 0`.
    let noop = blank_row();
    let mut set = ConstraintSet::new();
    decoder::enforce_main(&mut set, &local, &noop, &OpFlags::new(ExprDecoderAccess::new(&local)));
    assert_eq!(canonical(&set)[4 + 7 + 2 + 3 + 3 + 13], 1);
}

#[test]
fn decoder_block_address_advances_on_respan() {
    let mut local = op_row(opcodes::RESPAN);
    local.decoder.addr = f(64);
    let mut next = blank_row();
    next.decoder.addr = f(64 + 32);
    let flags = OpFlags::new(ExprDecoderAccess::new(&local));
    let mut set = ConstraintSet::new();
    decoder::enforce_main(&mut set, &local, &next, &flags);
    // The block address constraints are 53..56: in-span, RESPAN step, HALT.
    let vals = canonical(&set);
    assert_eq!(vals[54], 0);
    next.decoder.addr = f(64 + 31);
    let mut set = ConstraintSet::new();
    decoder::enforce_main(&mut set, &local, &next, &flags);
    assert_eq!(canonical(&set)[54], P - 1);
}

#[test]
fn messages_on_different_buses_differ() {
    let ch = test_challenges();
    let msg = [f(3), f(4), f(5)];
    let on_chiplets = ch.encode(CHIPLETS_BUS, &msg);
    let on_block_stack = ch.encode(1, &msg);
    assert_ne!(on_chiplets, on_block_stack);
    // The difference is the difference of the prefixes, 1000 and 1001.
    assert_eq!(on_block_stack.c0.as_canonical_u64(), (on_chiplets.c0.as_canonical_u64() + 1) % P);
    assert_eq!(on_block_stack.c1, on_chiplets.c1);
}

#[test]
fn memory_first_row_constrains_the_lanes_not_written() {
    // (is_read, is_word, idx0, idx1) and the expected flag * c_i * v_i for v = [5, 6, 7, 8].
    let cases: [((u64, u64, u64, u64), [u64; 4]); 4] = [
        ((1, 0, 1, 0), [5, 6, 7, 8]),
        ((0, 1, 0, 0), [0, 0, 0, 0]),
        ((0, 0, 1, 0), [5, 0, 7, 8]),
        ((0, 0, 1, 1), [5, 6, 7, 0]),
    ];
    for ((is_read, is_word, idx0, idx1), expected) in cases {
        let mut first = blank_row();
        first.chiplets[3] = f(is_read);
        first.chiplets[4] = f(is_word);
        first.chiplets[7] = f(idx0);
        first.chiplets[8] = f(idx1);
        for i in 0..4 {
            first.chiplets[10 + i] = f(5 + i as u64);
        }
        let mut set = ConstraintSet::new();
        enforce_memory_constraints_first_row(&mut set, &blank_row(), &first, Felt::one());
        assert_eq!(canonical(&set), expected.to_vec());
    }
}

#[test]
fn call_and_syscall_switch_contexts() {
    let mut local = op_row(opcodes::CALL);
    local.system.clk = f(10);
    local.system.ctx = f(3);
    let mut next = blank_row();
    next.system.ctx = f(11);
    let mut set = ConstraintSet::new();
    enforce_ctx_constraints(&mut set, &local, &next);
    assert_eq!(canonical(&set), vec![0, 0, 0]);
    next.system.ctx = f(12);
    let mut set = ConstraintSet::new();
    enforce_ctx_constraints(&mut set, &local, &next);
    assert_eq!(canonical(&set)[0], 1);

    let mut local = op_row(opcodes::SYSCALL);
    local.system.ctx = f(3);
    let mut set = ConstraintSet::new();
    enforce_ctx_constraints(&mut set, &local, &next);
    // SYSCALL enters the root context: ctx' = 12 violates it.
    assert_eq!(canonical(&set), vec![0, 12, 0]);

    // Any other operation keeps the context.
    let mut local = op_row(opcodes::SWAP);
    local.system.ctx = f(12);
    let mut set = ConstraintSet::new();
    enforce_ctx_constraints(&mut set, &local, &next);
    assert_eq!(canonical(&set), vec![0, 0, 0]);
}

#[test]
fn call_loads_the_callee_hash() {
    let mut local = op_row(opcodes::CALL);
    for i in 0..4 {
        local.decoder.hasher_state[i] = f(70 + i as u64);
        local.system.fn_hash[i] = f(1);
    }
    let mut next = blank_row();
    for i in 0..4 {
        next.system.fn_hash[i] = f(70 + i as u64);
    }
    let mut set = ConstraintSet::new();
    enforce_fn_hash_constraints(&mut set, &local, &next);
    assert!(canonical(&set).iter().all(|v| *v == 0));
    // A NOOP must keep the hash: fn_hash' - fn_hash = 69 on each lane.
    let mut local = op_row(opcodes::NOOP);
    local.system.fn_hash = [f(1); 4];
    let mut set = ConstraintSet::new();
    enforce_fn_hash_constraints(&mut set, &local, &next);
    assert_eq!(canonical(&set)[4..].to_vec(), vec![69, 70, 71, 72]);
}

#[test]
fn kernel_rom_keeps_the_root_within_a_procedure() {
    let mut local = blank_row();
    let mut next = blank_row();
    for i in 0..4 {
        local.chiplets[6 + i] = f(40 + i as u64);
        next.chiplets[6 + i] = f(40 + i as u64);
    }
    let flags = ChipletFlags { is_active: Felt::one(), is_transition: Felt::one(), ..inactive() };
    let mut set = ConstraintSet::new();
    enforce_kernel_rom_constraints(&mut set, &local, &next, &flags);
    assert_eq!(canonical(&set), vec![0; 6]);
    next.chiplets[7] = f(50);
    let mut set = ConstraintSet::new();
    enforce_kernel_rom_constraints(&mut set, &local, &next, &flags);
    assert_eq!(canonical(&set), vec![0, 0, 9, 0, 0, 0]);
    // A new procedure (s_first' = 1) may change the root.
    next.chiplets[5] = Felt::one();
    let mut set = ConstraintSet::new();
    enforce_kernel_rom_constraints(&mut set, &local, &next, &flags);
    assert_eq!(canonical(&set), vec![0; 6]);
}

fn ext_values(set: &ConstraintSet) -> Vec<QuadFelt> {
    set.ext.iter().map(|c| c.value).collect()
}

fn selectors_with(bitwise: bool, ace: bool, kernel_rom: bool) -> ChipletSelectors {
    let pick = |on: bool| if on { active() } else { inactive() };
    ChipletSelectors { hasher: inactive(), bitwise: pick(bitwise), memory: inactive(), ace: pick(ace), kernel_rom: pick(kernel_rom) }
}

/// A context whose auxiliary column `col` holds `b` on the current row and `b_next` on the next.
fn context_with_aux(periodic: Vec<Felt>, col: usize, b: QuadFelt, b_next: QuadFelt) -> EvalContext {
    let mut values = vec![QuadFelt::zero(); 16];
    values[col] = b;
    values[8 + col] = b_next;
    EvalContext { is_transition: Felt::one(), periodic, aux: OwnedWindow::new(values, 8), randomness: vec![QuadFelt::one()] }
}

#[test]
fn tagged_constraints_record_id_name_and_position() {
    let mut set = ConstraintSet::new();
    set.assert_zero_ext(QuadFelt::one(), RowDomain::Transition);
    let group = TagGroup { base: 100, names: vec!["first", "second"] };
    let mut idx = 0usize;
    tagged_assert_zero_ext(&mut set, &group, &mut idx, QuadFelt::from_base(f(5)));
    tagged_assert_zero_ext(&mut set, &group, &mut idx, QuadFelt::from_base(f(6)));
    assert_eq!(idx, 2);
    assert_eq!(set.ext.len(), 3);
    assert_eq!(set.tags.len(), 2);
    assert_eq!((set.tags[0].id, set.tags[0].name, set.tags[0].position), (100, "first", 1));
    assert_eq!((set.tags[1].id, set.tags[1].name, set.tags[1].position), (101, "second", 2));
    assert_eq!(set.ext[2].value, QuadFelt::from_base(f(6)));
}

#[test]
fn bitwise_row_responds_only_on_the_last_row_of_its_cycle() {
    let ch = test_challenges();
    let next = blank_row();
    let sel = selectors_with(true, false, false);
    let and_row = bitwise_row(0, 12, 10, 0, 8);
    let r = compute_response_multiplier(&context(bitwise_periodic(0, 1)), &and_row, &next, &ch, &sel);
    assert_eq!(r, QuadFelt::one());
    let r = compute_response_multiplier(&context(bitwise_periodic(0, 0)), &and_row, &next, &ch, &sel);
    assert_eq!(r, ch.encode(CHIPLETS_BUS, &[f(2), f(12), f(10), f(8)]));
    let xor_row = bitwise_row(1, 12, 10, 0, 6);
    let r = compute_response_multiplier(&context(bitwise_periodic(0, 0)), &xor_row, &next, &ch, &sel);
    assert_eq!(r, ch.encode(CHIPLETS_BUS, &[f(6), f(12), f(10), f(6)]));
}

#[test]
fn kernel_rom_response_labels_init_and_call() {
    let ch = test_challenges();
    let sel = selectors_with(false, false, true);
    for (s_first, label) in [(1u64, 48u64), (0, 16)] {
        let mut local = blank_row();
        local.chiplets[5] = f(s_first);
        for i in 0..4 {
            local.chiplets[6 + i] = f(70 + i as u64);
        }
        let r = compute_response_multiplier(&context(vec![Felt::zero(); 20]), &local, &blank_row(), &ch, &sel);
        assert_eq!(r, ch.encode(CHIPLETS_BUS, &[f(label), f(70), f(71), f(72), f(73)]));
    }
}

#[test]
fn ace_response_matches_the_evalcircuit_request() {
    let ch = test_challenges();
    let mut local = op_row(opcodes::EVALCIRCUIT);
    local.system.clk = f(41);
    local.system.ctx = f(3);
    local.stack.top[0] = f(800); // ptr
    local.stack.top[1] = f(5); // number of read rows
    local.stack.top[2] = f(9); // number of eval rows
    let flags = OpFlags::new(ExprDecoderAccess::new(&local));
    let request = compute_request_multiplier(&local, &blank_row(), &flags, &ch);
    assert_eq!(request, ch.encode(CHIPLETS_BUS, &[f(8), f(41), f(3), f(800), f(5), f(9)]));

    let mut ace = blank_row();
    ace.chiplets[4] = f(1); // start row
    ace.chiplets[8] = f(41);
    ace.chiplets[6] = f(3);
    ace.chiplets[7] = f(800);
    ace.chiplets[16] = f(8); // num_eval - 1
    ace.chiplets[10] = f(13); // id_0 = num_read + num_eval - 1
    let sel = selectors_with(false, true, false);
    let response = compute_response_multiplier(&context(vec![Felt::zero(); 20]), &ace, &blank_row(), &ch, &sel);
    assert_eq!(response, request);
}

#[test]
fn u32and_request_is_the_bitwise_message_and_noop_sends_none() {
    let ch = test_challenges();
    let mut local = op_row(opcodes::U32AND);
    local.stack.top[0] = f(12);
    local.stack.top[1] = f(10);
    let mut next = blank_row();
    next.stack.top[0] = f(8);
    let flags = OpFlags::new(ExprDecoderAccess::new(&local));
    let r = compute_request_multiplier(&local, &next, &flags, &ch);
    assert_eq!(r, ch.encode(CHIPLETS_BUS, &[f(2), f(12), f(10), f(8)]));
    let noop = op_row(opcodes::NOOP);
    let flags = OpFlags::new(ExprDecoderAccess::new(&noop));
    assert_eq!(compute_request_multiplier(&noop, &next, &flags, &ch), QuadFelt::one());
}

#[test]
fn chiplets_bus_is_unchanged_on_an_idle_bitwise_row() {
    let ch = test_challenges();
    let local = bitwise_row(0, 1, 1, 0, 1);
    let noop = op_row(opcodes::NOOP);
    let mut row = local;
    row.decoder = noop.decoder;
    row.chiplets[0] = f(1);
    let flags = OpFlags::new(ExprDecoderAccess::new(&row));
    let sel = selectors_with(true, false, false);
    let b = QuadFelt::new(f(4), f(9));
    let ctx = context_with_aux(bitwise_periodic(0, 1), B_CHIPLETS, b, b);
    let mut set = ConstraintSet::new();
    enforce_chiplets_bus_constraint(&mut set, &ctx, &row, &blank_row(), &flags, &ch, &sel);
    assert_eq!(ext_values(&set), vec![QuadFelt::zero()]);
    let ctx = context_with_aux(bitwise_periodic(0, 1), B_CHIPLETS, b, QuadFelt::one());
    let mut set = ConstraintSet::new();
    enforce_chiplets_bus_constraint(&mut set, &ctx, &row, &blank_row(), &flags, &ch, &sel);
    assert_eq!(ext_values(&set), vec![QuadFelt::one().sub(b)]);
}

#[test]
fn hash_kernel_table_is_unchanged_without_requests() {
    let ch = test_challenges();
    let mut row = op_row(opcodes::NOOP);
    row.chiplets[0] = f(1); // not a hasher row
    let flags = OpFlags::new(ExprDecoderAccess::new(&row));
    let p = QuadFelt::new(f(2), f(3));
    let ctx = context_with_aux(vec![Felt::zero(); 20], B_HASH_KERNEL, p, p);
    let mut set = ConstraintSet::new();
    enforce_hash_kernel_constraint(&mut set, &ctx, &row, &blank_row(), &flags, &ch);
    assert_eq!(ext_values(&set), vec![QuadFelt::zero()]);
}

#[test]
fn wiring_bus_is_unchanged_off_the_ace_chiplet() {
    let ch = test_challenges();
    let mut row = blank_row();
    for i in 6..20 {
        row.chiplets[i] = f(i as u64 + 3);
    }
    let v = QuadFelt::new(f(11), f(12));
    let ctx = context_with_aux(vec![Felt::zero(); 20], V_WIRING, v, v);
    let mut set = ConstraintSet::new();
    enforce_wiring_bus_constraint(&mut set, &ctx, &row, &blank_row(), &ch, &selectors_with(false, false, false));
    assert_eq!(ext_values(&set), vec![QuadFelt::zero()]);
}

#[test]
fn hasher_constraints_vanish_off_the_hasher() {
    let mut local = blank_row();
    let mut next = blank_row();
    for i in 0..20 {
        local.chiplets[i] = f(3 * i as u64 + 1);
        next.chiplets[i] = f(7 * i as u64 + 2);
    }
    let mut periodic = vec![Felt::zero(); 20];
    periodic[0] = f(1);
    let mut set = ConstraintSet::new();
    enforce_hasher_constraints(&mut set, &context(periodic), &local, &next, &inactive());
    assert!(!set.base.is_empty());
    assert!(canonical(&set).iter().all(|v| *v == 0));
}

#[test]
fn selector_constraints_vanish_on_stable_binary_selectors() {
    let mut local = blank_row();
    let mut next = blank_row();
    for (i, v) in [1u64, 1, 0, 1, 0].iter().enumerate() {
        local.chiplets[i] = f(*v);
        next.chiplets[i] = f(*v);
    }
    let mut set = ConstraintSet::new();
    build_chiplet_selectors(&mut set, &local, &next, Felt::one());
    let values = canonical(&set);
    // Binary and stability constraints vanish; the last-row ones do not, since not every
    // selector is 1.
    assert!(values[..10].iter().all(|v| *v == 0));
    assert_eq!(values[10..].to_vec(), vec![0, 0, P - 1, 0, P - 1]);
}

#[test]
fn swap_constraints_vanish_exactly_when_the_top_items_are_exchanged() {
    let mut local = op_row(opcodes::SWAP);
    local.stack.top[0] = f(5);
    local.stack.top[1] = f(9);
    let flags = OpFlags::new(ExprDecoderAccess::new(&local));
    let mut next = blank_row();
    next.stack.top[0] = f(9);
    next.stack.top[1] = f(5);
    let mut set = ConstraintSet::new();
    stack_ops::enforce_main(&mut set, &local, &next, &flags);
    assert!(canonical(&set).iter().all(|v| *v == 0));
    next.stack.top[1] = f(6);
    let mut set = ConstraintSet::new();
    stack_ops::enforce_main(&mut set, &local, &next, &flags);
    assert!(canonical(&set).iter().any(|v| *v != 0));
}

#[test]
fn range_bus_is_unchanged_without_lookups() {
    let row = blank_row();
    let b = QuadFelt::new(f(21), f(22));
    let ctx = context_with_aux(vec![Felt::zero(); 20], B_RANGE_COL_IDX, b, b);
    let mut set = ConstraintSet::new();
    range_bus::enforce_bus(&mut set, &ctx, &row);
    assert_eq!(ext_values(&set), vec![QuadFelt::zero()]);
}

#[test]
fn dup_constraints_vanish_exactly_when_the_item_is_copied() {
    let mut local = op_row(opcodes::DUP5);
    for i in 0..16 {
        local.stack.top[i] = f(100 + i as u64);
    }
    let flags = OpFlags::new(ExprDecoderAccess::new(&local));
    let mut next = blank_row();
    next.stack.top[0] = f(105);
    let mut set = ConstraintSet::new();
    stack_ops::enforce_main(&mut set, &local, &next, &flags);
    assert!(canonical(&set).iter().all(|v| *v == 0));
    next.stack.top[0] = f(104);
    let mut set = ConstraintSet::new();
    stack_ops::enforce_main(&mut set, &local, &next, &flags);
    assert_eq!(canonical(&set).iter().filter(|v| **v != 0).count(), 1);
}

#[test]
fn cryptostream_advances_only_the_stream_pointers() {
    let mut local = op_row(opcodes::CRYPTOSTREAM);
    let mut next = blank_row();
    for i in 8..16 {
        local.stack.top[i] = f(40 + i as u64);
        next.stack.top[i] = f(if i == 12 || i == 13 { 48 + i as u64 } else { 40 + i as u64 });
    }
    let flags = OpFlags::new(ExprDecoderAccess::new(&local));
    let mut set = ConstraintSet::new();
    crypto::enforce_main(&mut set, &local, &next, &flags);
    assert!(canonical(&set).iter().all(|v| *v == 0));
    next.stack.top[12] = f(52);
    let mut set = ConstraintSet::new();
    crypto::enforce_main(&mut set, &local, &next, &flags);
    assert!(canonical(&set).iter().any(|v| *v != 0));
}

fn mulmod(a: u64, b: u64) -> u64 {
    ((a as u128 * b as u128) % P as u128) as u64
}

fn addmod(a: u64, b: u64) -> u64 {
    ((a as u128 + b as u128) % P as u128) as u64
}

#[test]
fn internal_diagonal_is_the_poseidon2_one() {
    let d = mat_diag();
    let expected: [u64; 12] = [
        0xfffffffeffffffff, 0x1, 0x2, 0x7fffffff80000001, 0x3, 0x4, 0x7fffffff80000000, 0xfffffffefffffffe,
        0xfffffffefffffffd, 0xbfffffff40000001, 0x3fffffffc0000000, 0xdfffffff20000001,
    ];
    for i in 0..12 {
        assert_eq!(d[i].as_canonical_u64(), expected[i]);
        assert_eq!(MAT_DIAG[i], expected[i]);
    }
}

#[test]
fn internal_round_row_of_a_real_permutation_satisfies_the_step_constraints() {
    // First internal round constant of Poseidon2 over Goldilocks.
    let ark_int: u64 = 0x4adf842aa75d4316;
    let mut local = blank_row();
    let mut next = blank_row();
    local.chiplets[1] = f(1); // a linear hash, so that the row is a hasher row
    let x: Vec<u64> = (0..12).map(|i| 0x1234_5678_9abc_def0u64.wrapping_mul(i + 1) % P).collect();
    for i in 0..12 {
        local.chiplets[4 + i] = f(x[i]);
    }
    // S-box on lane 0, then the internal layer: y_i = d_i * x_i + sum(x).
    let mut s = x.clone();
    let t = addmod(s[0], ark_int);
    let t2 = mulmod(t, t);
    let t4 = mulmod(t2, t2);
    s[0] = mulmod(mulmod(t4, t2), t);
    let sum = s.iter().fold(0u64, |acc, v| addmod(acc, *v));
    let d: Vec<u64> = mat_diag().iter().map(|v| v.as_canonical_u64()).collect();
    for i in 0..12 {
        next.chiplets[4 + i] = f(addmod(mulmod(s[i], d[i]), sum));
    }
    let mut periodic = vec![Felt::zero(); 20];
    periodic[4] = f(1); // internal round row
    periodic[17] = f(ark_int);
    let mut set = ConstraintSet::new();
    enforce_hasher_constraints(&mut set, &context(periodic.clone()), &local, &next, &active());
    let values = canonical(&set);
    assert!(values[..36].iter().all(|v| *v == 0));
    // A next state built with another diagonal entry violates the internal round.
    next.chiplets[15] = f(addmod(mulmod(s[11], 1), sum));
    let mut set = ConstraintSet::new();
    enforce_hasher_constraints(&mut set, &context(periodic), &local, &next, &active());
    assert!(canonical(&set)[24..36].iter().any(|v| *v != 0));
}

#[test]
fn range_step_of_two_violates_and_of_27_satisfies() {
    let mut local = blank_row();
    let mut next = blank_row();
    local.range.value = f(100);
    for (step, vanishes) in [(2u64, false), (27, true), (3, true), (4, false)] {
        next.range.value = f(100 + step);
        let mut set = ConstraintSet::new();
        miden_air_verified::constraints::range::enforce_main(&mut set, &local, &next);
        assert_eq!(canonical(&set)[2] == 0, vanishes, "step {step}");
    }
    next.range.value = f(102);
    let mut set = ConstraintSet::new();
    miden_air_verified::constraints::range::enforce_main(&mut set, &local, &next);
    assert_eq!(canonical(&set)[2], P - 10585174706750);
}

fn powmod(mut b: u64, mut e: u64) -> u64 {
    let mut r = 1u64;
    while e > 0 {
        if e & 1 == 1 {
            r = mulmod(r, b);
        }
        b = mulmod(b, b);
        e >>= 1;
    }
    r
}

#[test]
fn memory_transition_into_a_read_of_the_same_word() {
    let mut local = blank_row();
    let mut next = blank_row();
    for i in 0..2 {
        let row = if i == 0 { &mut local } else { &mut next };
        row.chiplets[3] = f(1); // read
        row.chiplets[5] = f(1); // ctx
        row.chiplets[6] = f(10); // word address
        for i in 0..4 {
            row.chiplets[10 + i] = f(70 + i as u64);
        }
    }
    local.chiplets[9] = f(5);
    next.chiplets[9] = f(8);
    next.chiplets[14] = f(3); // delta: the clock difference
    next.chiplets[16] = f(powmod(3, P - 2)); // its inverse
    next.chiplets[17] = f(1); // same context and word
    let mut set = ConstraintSet::new();
    enforce_memory_constraints_all_rows_except_last(&mut set, &local, &next, Felt::one());
    assert_eq!(set.base.len(), 11);
    assert!(canonical(&set).iter().all(|v| *v == 0));
    next.chiplets[17] = f(0);
    let mut set = ConstraintSet::new();
    enforce_memory_constraints_all_rows_except_last(&mut set, &local, &next, Felt::one());
    assert!(canonical(&set).iter().any(|v| *v != 0));
}

#[test]
fn selector_binary_constraints_catch_a_non_binary_selector() {
    let mut local = blank_row();
    local.chiplets[0] = f(2);
    let mut next = blank_row();
    next.chiplets[0] = f(2);
    let mut set = ConstraintSet::new();
    build_chiplet_selectors(&mut set, &local, &next, Felt::one());
    assert_eq!(canonical(&set)[0], 2);
}
