use miden_air_verified::constraint_set::{ConstraintSet, EvalContext, OwnedWindow, RowDomain};
use miden_air_verified::constraints::chiplets::ace::compute_arithmetic_expected;
use miden_air_verified::constraints::chiplets::bitwise::periodic_columns;
use miden_air_verified::constraints::chiplets::bus::combine_messages;
use miden_air_verified::constraints::chiplets::selectors::build_chiplet_selectors;
use miden_air_verified::constraints::op_flags::{get_op_index, ExprDecoderAccess, OpFlags};
use miden_air_verified::constraints::range;
use miden_air_verified::constraints::stack::ops;
use miden_air_verified::constraints::system;
use miden_air_verified::constraints::utils::{binary_or, horner_eval_bits, BoolNot};
use miden_air_verified::field::{Felt, QuadFelt, P};
use miden_air_verified::opcodes;
use miden_air_verified::trace::challenges::Challenges;
use miden_air_verified::trace::decoder::DecoderCols;
use miden_air_verified::trace::range::RangeCols;
use miden_air_verified::trace::stack::StackCols;
use miden_air_verified::trace::{MainCols, SystemCols};

fn f(x: u64) -> Felt {
    Felt::new(x)
}

fn zero_row() -> MainCols<Felt> {
    let z = Felt::zero();
    MainCols {
        system: SystemCols { clk: z, ctx: z, fn_hash: [z; 4] },
        decoder: DecoderCols {
            addr: z,
            op_bits: [z; 7],
            hasher_state: [z; 8],
            in_span: z,
            group_count: z,
            op_index: z,
            batch_flags: [z; 3],
            extra: [z; 2],
        },
        stack: StackCols { top: [z; 16], b0: f(16), b1: z, h0: z },
        range: RangeCols { multiplicity: z, value: z },
        chiplets: [z; 20],
    }
}

/// A row whose op bits and degree reduction columns encode `opcode`.
fn op_row(opcode: u64) -> MainCols<Felt> {
    let mut row = zero_row();
    for i in 0..7 {
        row.decoder.op_bits[i] = f((opcode >> i) & 1);
    }
    let b4 = (opcode >> 4) & 1;
    let b5 = (opcode >> 5) & 1;
    let b6 = (opcode >> 6) & 1;
    row.decoder.extra[0] = f(b6 * (1 - b5) * b4);
    row.decoder.extra[1] = f(b6 * b5);
    row
}

fn flags_of(row: &MainCols<Felt>) -> OpFlags {
    OpFlags::new(ExprDecoderAccess::new(row))
}

fn values(set: &ConstraintSet) -> Vec<u64> {
    set.base.iter().map(|c| c.value.as_canonical_u64()).collect()
}

#[test]
fn op_flags_one_hot_for_every_opcode() {
    for opcode in 0u64..128 {
        let flags = flags_of(&op_row(opcode));
        let index = get_op_index(opcode as u8);
        let groups: [(&Vec<Felt>, u64, u64); 4] = [
            (&flags.degree7_op_flags, 0, 64),
            (&flags.degree6_op_flags, 64, 80),
            (&flags.degree5_op_flags, 80, 96),
            (&flags.degree4_op_flags, 96, 128),
        ];
        for (group, lo, hi) in groups.iter() {
            for (j, flag) in group.iter().enumerate() {
                let expected = if opcode >= *lo && opcode < *hi && j == index { 1 } else { 0 };
                assert_eq!(flag.as_canonical_u64(), expected, "opcode {opcode} flag {j}");
            }
        }
    }
}

#[test]
fn op_index_by_degree() {
    assert_eq!(get_op_index(opcodes::SWAP), 8);
    assert_eq!(get_op_index(opcodes::U32SUB), 1);
    assert_eq!(get_op_index(opcodes::HPERM), 0);
    assert_eq!(get_op_index(opcodes::LOGPRECOMPILE), 14);
    assert_eq!(get_op_index(opcodes::HALT), 7);
}

#[test]
fn shift_flags_of_swap_and_pad() {
    let swap = flags_of(&op_row(opcodes::SWAP as u64));
    assert_eq!(swap.no_shift_at(2).as_canonical_u64(), 1);
    assert_eq!(swap.left_shift().as_canonical_u64(), 0);
    assert_eq!(swap.right_shift().as_canonical_u64(), 0);
    let pad = flags_of(&op_row(opcodes::PAD as u64));
    assert_eq!(pad.right_shift().as_canonical_u64(), 1);
    assert_eq!(pad.right_shift_at(0).as_canonical_u64(), 1);
    let drop = flags_of(&op_row(opcodes::DROP as u64));
    assert_eq!(drop.left_shift().as_canonical_u64(), 1);
    assert_eq!(drop.left_shift_at(1).as_canonical_u64(), 1);
}

#[test]
fn swap_constraints_vanish_on_a_swap() {
    let mut local = op_row(opcodes::SWAP as u64);
    local.stack.top[0] = f(5);
    local.stack.top[1] = f(9);
    let mut next = zero_row();
    next.stack.top[0] = f(9);
    next.stack.top[1] = f(5);
    let flags = flags_of(&local);
    let mut set = ConstraintSet::new();
    ops::enforce_main(&mut set, &local, &next, &flags);
    assert_eq!(set.base_count(), 88);
    assert!(values(&set).iter().all(|v| *v == 0));

    next.stack.top[1] = f(6);
    let mut set = ConstraintSet::new();
    ops::enforce_main(&mut set, &local, &next, &flags);
    // SWAP's second constraint is the 16th: s1' - s0 = 1.
    assert_eq!(values(&set)[15], 1);
    assert_eq!(set.base[15].domain, RowDomain::Transition);
}

#[test]
fn assert_constraint_requires_one() {
    let mut local = op_row(opcodes::ASSERT as u64);
    local.stack.top[0] = f(3);
    let next = zero_row();
    let flags = flags_of(&local);
    let mut set = ConstraintSet::new();
    ops::enforce_main(&mut set, &local, &next, &flags);
    let vals = values(&set);
    // ASSERT is the 82nd constraint: s0 - 1 = 2, on every row.
    assert_eq!(vals[82], 2);
    assert_eq!(set.base[82].domain, RowDomain::EveryRow);
}

#[test]
fn chiplet_selectors_pick_one_chiplet() {
    let patterns: [[u64; 5]; 6] = [
        [0, 0, 0, 0, 0],
        [1, 0, 0, 0, 0],
        [1, 1, 0, 0, 0],
        [1, 1, 1, 0, 0],
        [1, 1, 1, 1, 0],
        [1, 1, 1, 1, 1],
    ];
    for (k, p) in patterns.iter().enumerate() {
        let mut local = zero_row();
        let mut next = zero_row();
        for i in 0..5 {
            local.chiplets[i] = f(p[i]);
            next.chiplets[i] = f(p[i]);
        }
        let mut set = ConstraintSet::new();
        let sel = build_chiplet_selectors(&mut set, &local, &next, Felt::one());
        let active = [
            sel.hasher.is_active,
            sel.bitwise.is_active,
            sel.memory.is_active,
            sel.ace.is_active,
            sel.kernel_rom.is_active,
        ];
        for (j, a) in active.iter().enumerate() {
            assert_eq!(a.as_canonical_u64(), if j == k { 1 } else { 0 });
        }
        assert_eq!(set.base_count(), 15);
        // Binary and stability constraints vanish on binary, constant selectors.
        assert!(values(&set)[..10].iter().all(|v| *v == 0));
    }
}

#[test]
fn messages_encode_with_bus_prefix() {
    let one = QuadFelt::one();
    let beta = QuadFelt::from_base(f(2));
    let prefixes: Vec<QuadFelt> = (0..9).map(|i| QuadFelt::from_base(f(100 + i))).collect();
    let ch = Challenges::new(one, beta, prefixes);
    assert_eq!(ch.beta_powers[3], QuadFelt::from_base(f(8)));
    let m = ch.encode(0, &[f(3), f(4), f(5)]);
    // 100 + 3 + 2 * 4 + 4 * 5
    assert_eq!(m, QuadFelt::from_base(f(131)));
    let m7 = ch.encode(7, &[f(3)]);
    assert_eq!(m7, QuadFelt::from_base(f(110)));
    let a = ch.encode_with_alpha(&[f(3), f(4)]);
    assert_eq!(a, QuadFelt::from_base(f(12)));
    let s = ch.encode_sparse(1, &[2, 0], &[f(1), f(5)]);
    // 101 + 4 * 1 + 1 * 5
    assert_eq!(s, QuadFelt::from_base(f(110)));
}

#[test]
fn combined_messages_select_the_flagged_value() {
    let values = vec![QuadFelt::from_base(f(7)), QuadFelt::new(f(3), f(4)), QuadFelt::from_base(f(9))];
    let one_hot = vec![Felt::zero(), Felt::one(), Felt::zero()];
    assert_eq!(combine_messages(&one_hot, &values), QuadFelt::new(f(3), f(4)));
    let none = vec![Felt::zero(), Felt::zero(), Felt::zero()];
    assert_eq!(combine_messages(&none, &values), QuadFelt::one());
}

#[test]
fn ace_operations() {
    let (a0, a1) = compute_arithmetic_expected(f(1), f(5), f(6), f(7), f(8));
    assert_eq!((a0, a1), (f(12), f(14)));
    let (s0, s1) = compute_arithmetic_expected(f(P - 1), f(5), f(6), f(7), f(3));
    assert_eq!((s0, s1), (f(P - 2), f(3)));
    let (m0, m1) = compute_arithmetic_expected(Felt::zero(), f(5), f(6), f(7), f(8));
    // (5 + 6u)(7 + 8u) = 35 + 7 * 48 + (40 + 42)u
    assert_eq!((m0, m1), (f(371), f(82)));
}

#[test]
fn range_checker_steps() {
    let mut local = zero_row();
    let mut next = zero_row();
    local.range.value = f(100);
    for (step, allowed) in [(0u64, true), (1, true), (2, false), (3, true), (27, true), (28, false), (2187, true)] {
        next.range.value = f(100 + step);
        let mut set = ConstraintSet::new();
        range::enforce_main(&mut set, &local, &next);
        let vals = values(&set);
        assert_eq!(vals[0], 100);
        assert_eq!(vals[1], 100 + P - 65535);
        assert_eq!(vals[2] == 0, allowed, "step {step}");
    }
}

#[test]
fn horner_and_or() {
    assert_eq!(horner_eval_bits(&[f(1), f(0), f(1), f(1)]), f(13));
    assert_eq!(horner_eval_bits(&[f(1)]), f(1));
    assert_eq!(binary_or(f(0), f(0)), f(0));
    assert_eq!(binary_or(f(1), f(0)), f(1));
    assert_eq!(binary_or(f(1), f(1)), f(1));
    assert_eq!(BoolNot::not(&f(1)), f(0));
}

#[test]
fn bitwise_cycle_markers() {
    let [k_first, k_transition] = periodic_columns();
    assert_eq!(k_first.iter().map(|x| x.as_canonical_u64()).collect::<Vec<_>>(), vec![1, 0, 0, 0, 0, 0, 0, 0]);
    assert_eq!(k_transition.iter().map(|x| x.as_canonical_u64()).collect::<Vec<_>>(), vec![1, 1, 1, 1, 1, 1, 1, 0]);
}

#[test]
fn clock_increments() {
    let mut local = op_row(opcodes::NOOP as u64);
    local.system.clk = f(4);
    let mut next = zero_row();
    next.system.clk = f(5);
    let mut set = ConstraintSet::new();
    system::enforce_main(&mut set, &local, &next);
    let vals = values(&set);
    assert_eq!(vals[0], 4);
    assert_eq!(vals[1], 0);
    // NOOP keeps the context and the procedure hash.
    assert!(vals[2..].iter().all(|v| *v == 0));
}

#[test]
fn owned_window_rows() {
    let w = OwnedWindow::new(vec![f(1), f(2), f(3), f(4)], 2);
    assert_eq!(w.current_slice(), &[f(1), f(2)]);
    assert_eq!(w.next_slice(), &[f(3), f(4)]);
    let ctx = EvalContext {
        is_transition: Felt::one(),
        periodic: vec![],
        aux: OwnedWindow::new(vec![QuadFelt::zero(); 16], 8),
        randomness: vec![QuadFelt::one()],
    };
    assert_eq!(ctx.aux.current_slice().len(), 8);
}
