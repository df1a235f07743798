use miden_air_verified::constraint_recorder::{
    deterministic_felt, deterministic_quad, filter_backtrace, ConstraintRecorder, CHALLENGE_DOMAIN, MAIN_DOMAIN,
    SELECTOR_DOMAIN,
};
use miden_air_verified::constraint_set::{ConstraintSet, EvalContext};
use miden_air_verified::constraints::chiplets::bus::enforce_bus;
use miden_air_verified::constraints::chiplets::hasher::periodic::NUM_PERIODIC_COLUMNS;
use miden_air_verified::constraints::chiplets::selectors::build_chiplet_selectors;
use miden_air_verified::constraints::op_flags::{ExprDecoderAccess, OpFlags};
use miden_air_verified::constraints::stack::{crypto, ops, stack_arith};
use miden_air_verified::constraints::{chiplets, decoder, range, system};
use miden_air_verified::field::{Felt, QuadFelt, P};
use miden_air_verified::trace::bus_types::NUM_BUS_TYPES;
use miden_air_verified::trace::challenges::Challenges;
use miden_air_verified::trace::{MainCols, AUX_TRACE_RAND_CHALLENGES, AUX_TRACE_WIDTH, TRACE_WIDTH};

#[test]
fn deterministic_values() {
    // The xorshift-multiply mix plus one, reduced modulo p.
    assert_eq!(deterministic_felt(MAIN_DOMAIN, 0).as_canonical_u64(), 16343739160353521947);
    assert_eq!(deterministic_felt(MAIN_DOMAIN, 1).as_canonical_u64(), 3721754825735868670);
    assert_eq!(deterministic_felt(SELECTOR_DOMAIN, 2).as_canonical_u64(), 8348015945049029966);
    let q = deterministic_quad(CHALLENGE_DOMAIN, 0);
    assert_eq!(q, QuadFelt::new(Felt::new(763761113553245587), Felt::new(12386019040561063164)));
}

#[test]
fn recorder_point_has_the_trace_shape() {
    let rec = ConstraintRecorder::new(3, 5, 2);
    let point = &rec.eval_point;
    assert_eq!(point.main_values.len(), 2 * TRACE_WIDTH);
    assert_eq!(point.aux_values.len(), 2 * AUX_TRACE_WIDTH);
    assert_eq!(point.public_values.len(), 3);
    assert_eq!(point.periodic_values.len(), 5);
    assert_eq!(point.challenges.len(), 2);
    assert_eq!(point.perm_values.len(), AUX_TRACE_WIDTH);
    assert_eq!(rec.is_transition_window(2).as_canonical_u64(), 8348015945049029966);
    let main = rec.main();
    assert_eq!(main.current_slice().len(), TRACE_WIDTH);
    assert_eq!(main.next_slice()[0], point.main_values[TRACE_WIDTH]);
    assert_eq!(rec.base_count(), 0);
    assert_eq!(rec.ext_count(), 0);
}

#[test]
fn recorder_groups_constraints_by_fingerprint() {
    let mut rec = ConstraintRecorder::new(0, 0, 0);
    rec.assert_zero(Felt::new(7), "a::b\nat x.rs:1".to_string());
    rec.assert_zero(Felt::new(P - 1), "c".to_string());
    rec.assert_zero(Felt::new(7), "d".to_string());
    rec.assert_zero_ext(QuadFelt::new(Felt::new(1), Felt::new(2)), String::new());
    assert_eq!(rec.base_count(), 3);
    assert_eq!(rec.ext_count(), 1);
    assert_eq!(rec.base_constraints.len(), 2);
    assert_eq!(rec.base_constraints[&7].len(), 2);
    assert_eq!(rec.base_constraints[&7][1].location, "d");

    let summary = rec.dump();
    let expected = [
        "# base_constraints: 3",
        "# ext_constraints: 1",
        "# unique_base: 2",
        "# unique_ext: 1",
        "---",
        "base:0000000000000007 x2 a::b",
        "base:ffffffff00000000 x1 c",
        "ext:0000000000000001_0000000000000002 x1 <unknown>",
    ]
    .join("\n");
    assert_eq!(summary, expected);

    let full = rec.dump_full();
    let expected_full = [
        "# base_constraints: 3",
        "# ext_constraints: 1",
        "# unique_base: 2",
        "# unique_ext: 1",
        "---",
        "base:0000000000000007 x2",
        "  a::b",
        "  at x.rs:1",
        "  [1]:",
        "  d",
        "",
        "base:ffffffff00000000 x1",
        "  c",
        "",
        "ext:0000000000000001_0000000000000002 x1",
        "",
    ]
    .join("\n");
    assert_eq!(full, expected_full);
}

#[test]
fn backtrace_filter_keeps_constraint_frames() {
    let bt = "   0: std::backtrace::Backtrace::force_capture\n\
              \x20            at /rustc/src/backtrace.rs:10\n\
              \x20  1: miden_air_verified::constraints::stack::enforce_main\n\
              \x20            at ./src/constraints/stack.rs:42:9\n\
              \x20  2: miden_air_verified::constraint_recorder::ConstraintRecorder::assert_zero\r\n\
              \x20            at ./src/constraint_recorder.rs:3\n\
              \x20  3: core::ops::function::FnOnce::call_once\n";
    let filtered = filter_backtrace(bt);
    assert_eq!(filtered, "1: miden_air_verified::constraints::stack::enforce_main\nat ./src/constraints/stack.rs:42:9");

    // A frame that names the constraint modules of the AIR crate is kept.
    assert_eq!(filter_backtrace("  5: eval in miden_air::constraints\n"), "5: eval in miden_air::constraints");

    // Without a constraint frame, the first ten lines are kept as they are.
    let plain = "one\r\n  two\nthree";
    assert_eq!(filter_backtrace(plain), "one\n  two\nthree");
    assert_eq!(filter_backtrace(""), "");
}

#[test]
fn dump_constraint_fingerprints() {
    // Hasher periodic columns, then the two bitwise cycle markers.
    let num_periodic = NUM_PERIODIC_COLUMNS + 2;
    let mut recorder = ConstraintRecorder::new(0, num_periodic, AUX_TRACE_RAND_CHALLENGES);
    let main = recorder.main();
    let local = MainCols::borrow(main.current_slice());
    let next = MainCols::borrow(main.next_slice());
    let randomness = recorder.permutation_randomness().to_vec();
    let ctx = EvalContext {
        is_transition: recorder.is_transition_window(2),
        periodic: recorder.periodic_values().to_vec(),
        aux: recorder.permutation(),
        randomness: randomness.clone(),
    };
    let prefixes: Vec<QuadFelt> =
        (0..NUM_BUS_TYPES as u64).map(|i| randomness[0].add(QuadFelt::from_base(Felt::new(i + 1)))).collect();
    let challenges = Challenges::new(randomness[0], randomness[1], prefixes);

    let op_flags = OpFlags::new(ExprDecoderAccess::new(&local));
    let mut set = ConstraintSet::new();
    system::enforce_main(&mut set, &local, &next);
    decoder::enforce_main(&mut set, &local, &next, &op_flags);
    ops::enforce_main(&mut set, &local, &next, &op_flags);
    crypto::enforce_main(&mut set, &local, &next, &op_flags);
    stack_arith::enforce_main(&mut set, &local, &next, &op_flags);
    range::enforce_main(&mut set, &local, &next);
    range::bus::enforce_bus(&mut set, &ctx, &local);
    let selectors = build_chiplet_selectors(&mut set, &local, &next, ctx.is_transition);
    chiplets::enforce_main(&mut set, &ctx, &local, &next, &selectors);
    enforce_bus(&mut set, &ctx, &local, &next, &op_flags, &challenges, &selectors);

    for (i, c) in set.base.iter().enumerate() {
        recorder.assert_zero(c.value, format!("base constraint {i}\n  at {:?}", c.domain));
    }
    for (i, c) in set.ext.iter().enumerate() {
        recorder.assert_zero_ext(c.value, format!("ext constraint {i}"));
    }

    let summary = recorder.dump();
    let full = recorder.dump_full();
    println!("{summary}");

    let base_count = recorder.base_count();
    let ext_count = recorder.ext_count();
    assert!(base_count > 100, "expected >100 base constraints, got {base_count}");
    assert!(ext_count > 0, "expected >0 extension constraints, got {ext_count}");
    assert_eq!(base_count, set.base.len());
    assert_eq!(ext_count, set.ext.len());
    assert!(summary.starts_with(&format!("# base_constraints: {base_count}\n# ext_constraints: {ext_count}\n")));
    assert!(full.len() > summary.len());
}
