use miden_air_verified::trace::decoder;
use miden_air_verified::trace::range;
use miden_air_verified::trace::stack;
use miden_air_verified::trace::{
    indices_arr, main_col_map, ACE_CHIPLET_WIRING_BUS_OFFSET, CHIPLETS_BUS_AUX_TRACE_OFFSET,
    CHIPLETS_OFFSET, CLK_COL_IDX, CTX_COL_IDX, DECODER_AUX_TRACE_OFFSET, DECODER_TRACE_OFFSET,
    FN_HASH_OFFSET, HASH_KERNEL_VTABLE_AUX_TRACE_OFFSET, RANGE_CHECK_AUX_TRACE_OFFSET,
    STACK_AUX_TRACE_OFFSET, STACK_TRACE_OFFSET, TRACE_WIDTH, AUX_TRACE_WIDTH, DECODER_TRACE_WIDTH,
    STACK_TRACE_WIDTH, MainCols,
};

#[test]
fn col_map_system() {
    let m = main_col_map();
    assert_eq!(m.system.clk, CLK_COL_IDX);
    assert_eq!(m.system.ctx, CTX_COL_IDX);
    assert_eq!(m.system.fn_hash[0], FN_HASH_OFFSET);
    assert_eq!(m.system.fn_hash[3], FN_HASH_OFFSET + 3);
}

#[test]
fn col_map_decoder() {
    let m = main_col_map();
    assert_eq!(m.decoder.addr, DECODER_TRACE_OFFSET + decoder::ADDR_COL_IDX);
    assert_eq!(m.decoder.op_bits[0], DECODER_TRACE_OFFSET + decoder::OP_BITS_OFFSET);
    assert_eq!(m.decoder.op_bits[6], DECODER_TRACE_OFFSET + decoder::OP_BITS_OFFSET + 6);
    assert_eq!(m.decoder.hasher_state[0], DECODER_TRACE_OFFSET + decoder::HASHER_STATE_OFFSET);
    assert_eq!(m.decoder.in_span, DECODER_TRACE_OFFSET + decoder::IN_SPAN_COL_IDX);
    assert_eq!(m.decoder.group_count, DECODER_TRACE_OFFSET + decoder::GROUP_COUNT_COL_IDX);
    assert_eq!(m.decoder.op_index, DECODER_TRACE_OFFSET + decoder::OP_INDEX_COL_IDX);
    assert_eq!(m.decoder.batch_flags[0], DECODER_TRACE_OFFSET + decoder::OP_BATCH_FLAGS_OFFSET);
    assert_eq!(m.decoder.extra[0], DECODER_TRACE_OFFSET + decoder::OP_BITS_EXTRA_COLS_OFFSET);
}

#[test]
fn col_map_stack() {
    let m = main_col_map();
    assert_eq!(m.stack.top[0], STACK_TRACE_OFFSET + stack::STACK_TOP_OFFSET);
    assert_eq!(m.stack.top[15], STACK_TRACE_OFFSET + 15);
    assert_eq!(m.stack.b0, STACK_TRACE_OFFSET + stack::B0_COL_IDX);
    assert_eq!(m.stack.b1, STACK_TRACE_OFFSET + stack::B1_COL_IDX);
    assert_eq!(m.stack.h0, STACK_TRACE_OFFSET + stack::H0_COL_IDX);
}

#[test]
fn col_map_range() {
    let m = main_col_map();
    assert_eq!(m.range.multiplicity, range::M_COL_IDX);
    assert_eq!(m.range.value, range::V_COL_IDX);
}

#[test]
fn col_map_chiplets() {
    let m = main_col_map();
    assert_eq!(m.chiplets[0], CHIPLETS_OFFSET);
    assert_eq!(m.chiplets[19], CHIPLETS_OFFSET + 19);
}

#[test]
fn aux_col_map() {
    let a = miden_air_verified::trace::aux_col_map();
    assert_eq!(a.p1_block_stack, DECODER_AUX_TRACE_OFFSET);
    assert_eq!(a.p2_block_hash, DECODER_AUX_TRACE_OFFSET + 1);
    assert_eq!(a.p3_op_group, DECODER_AUX_TRACE_OFFSET + 2);
    assert_eq!(a.stack_overflow, STACK_AUX_TRACE_OFFSET);
    assert_eq!(a.range_check, RANGE_CHECK_AUX_TRACE_OFFSET);
    assert_eq!(a.hash_kernel_vtable, HASH_KERNEL_VTABLE_AUX_TRACE_OFFSET);
    assert_eq!(a.chiplets_bus, CHIPLETS_BUS_AUX_TRACE_OFFSET);
    assert_eq!(a.ace_wiring, ACE_CHIPLET_WIRING_BUS_OFFSET);
}

#[test]
fn trace_widths() {
    assert_eq!(TRACE_WIDTH, 71);
    assert_eq!(AUX_TRACE_WIDTH, 8);
    let idx = indices_arr(5);
    assert_eq!(idx, vec![0, 1, 2, 3, 4]);
}

#[test]
fn row_columns_from_values() {
    let values: Vec<u64> = (0..TRACE_WIDTH as u64).map(|i| 1000 + i).collect();
    let row = MainCols::borrow(&values);
    assert_eq!(row.system.clk, 1000);
    assert_eq!(row.decoder.addr, 1000 + DECODER_TRACE_OFFSET as u64);
    assert_eq!(row.stack.top[3], 1000 + STACK_TRACE_OFFSET as u64 + 3);
    assert_eq!(row.chiplets[19], 1000 + TRACE_WIDTH as u64 - 1);
    for i in 0..DECODER_TRACE_WIDTH {
        assert_eq!(*row.decoder.index(i), 1000 + (DECODER_TRACE_OFFSET + i) as u64);
    }
    for i in 0..STACK_TRACE_WIDTH {
        assert_eq!(*row.stack.index(i), 1000 + (STACK_TRACE_OFFSET + i) as u64);
    }
}
