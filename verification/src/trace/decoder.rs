//! Decoder columns of the main trace.

use vstd::prelude::*;

verus! {

/// Index of the column holding code block IDs.
pub const ADDR_COL_IDX: usize = 0;
/// Index at which operation bit columns start in the decoder trace.
pub const OP_BITS_OFFSET: usize = ADDR_COL_IDX + 1;
/// Number of columns needed to hold a binary representation of opcodes.
pub const NUM_OP_BITS: usize = 7;
/// Index at which hasher state columns start in the decoder trace.
pub const HASHER_STATE_OFFSET: usize = OP_BITS_OFFSET + NUM_OP_BITS;
/// Number of hasher columns in the decoder trace.
pub const NUM_HASHER_COLUMNS: usize = 8;
/// Number of helper registers available to user ops.
pub const NUM_USER_OP_HELPERS: usize = 6;
/// Index at which helper registers available to user ops start.
pub const USER_OP_HELPERS_OFFSET: usize = HASHER_STATE_OFFSET + 2;
/// Index of the in_span column in the decoder trace.
pub const IN_SPAN_COL_IDX: usize = HASHER_STATE_OFFSET + NUM_HASHER_COLUMNS;
/// Index of the operation group count column.
pub const GROUP_COUNT_COL_IDX: usize = IN_SPAN_COL_IDX + 1;
/// Index of the operation index column.
pub const OP_INDEX_COL_IDX: usize = GROUP_COUNT_COL_IDX + 1;
/// Index at which operation batch flag columns start.
pub const OP_BATCH_FLAGS_OFFSET: usize = OP_INDEX_COL_IDX + 1;
/// Number of operation batch flag columns.
pub const NUM_OP_BATCH_FLAGS: usize = 3;
/// Index at which the op bits extra columns start.
pub const OP_BITS_EXTRA_COLS_OFFSET: usize = OP_BATCH_FLAGS_OFFSET + NUM_OP_BATCH_FLAGS;
/// Number of columns needed for degree reduction of the operation flags.
pub const NUM_OP_BITS_EXTRA_COLS: usize = 2;
/// Index of the flag column indicating whether an ending block is a body of a loop.
pub const IS_LOOP_BODY_FLAG_COL_IDX: usize = HASHER_STATE_OFFSET + 4;
/// Index of the flag column indicating whether an ending block is a LOOP block.
pub const IS_LOOP_FLAG_COL_IDX: usize = HASHER_STATE_OFFSET + 5;
/// Index of the flag column indicating whether an ending block is a CALL or DYNCALL block.
pub const IS_CALL_FLAG_COL_IDX: usize = HASHER_STATE_OFFSET + 6;
/// Index of the flag column indicating whether an ending block is a SYSCALL block.
pub const IS_SYSCALL_FLAG_COL_IDX: usize = HASHER_STATE_OFFSET + 7;
/// Running product column representing block stack table.
pub const P1_COL_IDX: usize = super::DECODER_AUX_TRACE_OFFSET;
/// Running product column representing block hash table.
pub const P2_COL_IDX: usize = super::DECODER_AUX_TRACE_OFFSET + 1;
/// Running product column representing op group table.
pub const P3_COL_IDX: usize = super::DECODER_AUX_TRACE_OFFSET + 2;

/// Decoder columns in the main execution trace (24 columns).
pub struct DecoderCols<T> {
    /// Block address (hasher table row pointer).
    pub addr: T,
    /// Opcode bits b0-b6.
    pub op_bits: [T; 7],
    /// Hasher state h0-h7.
    pub hasher_state: [T; 8],
    /// In-span flag.
    pub in_span: T,
    /// Remaining operation group count.
    pub group_count: T,
    /// Position within operation group.
    pub op_index: T,
    /// Operation batch flags c0, c1, c2.
    pub batch_flags: [T; 3],
    /// Degree-reduction extra columns e0, e1.
    pub extra: [T; 2],
}

/// Named end-block flag overlay for `hasher_state[4..8]`.
pub struct EndBlockFlags<T> {
    pub is_loop_body: T,
    pub is_loop: T,
    pub is_call: T,
    pub is_syscall: T,
}

impl<T: Copy> DecoderCols<T> {
    /// Returns the 6 user-op helper registers (`hasher_state[2..8]`).
    pub fn user_op_helpers(&self) -> (r: [T; 6])
        ensures
            forall|i: int| 0 <= i < 6 ==> r@[i] == self.hasher_state@[i + 2],
    {
        [
            self.hasher_state[2],
            self.hasher_state[3],
            self.hasher_state[4],
            self.hasher_state[5],
            self.hasher_state[6],
            self.hasher_state[7],
        ]
    }

    /// Returns the 4 end-block flags (`hasher_state[4..8]`).
    pub fn end_block_flags(&self) -> (r: EndBlockFlags<T>)
        ensures
            r.is_loop_body == self.hasher_state@[4],
            r.is_loop == self.hasher_state@[5],
            r.is_call == self.hasher_state@[6],
            r.is_syscall == self.hasher_state@[7],
    {
        EndBlockFlags {
            is_loop_body: self.hasher_state[4],
            is_loop: self.hasher_state[5],
            is_call: self.hasher_state[6],
            is_syscall: self.hasher_state[7],
        }
    }
}


impl<T> DecoderCols<T> {
    /// Decoder column `idx`, in layout order: the address, the op bits, the hasher state, the
    /// in-span flag, the group count, the op index, the batch flags and the extra columns.
    pub open spec fn column(&self, idx: int) -> T {
        if idx == ADDR_COL_IDX {
            self.addr
        } else if idx < HASHER_STATE_OFFSET {
            self.op_bits@[idx - OP_BITS_OFFSET]
        } else if idx < IN_SPAN_COL_IDX {
            self.hasher_state@[idx - HASHER_STATE_OFFSET]
        } else if idx == IN_SPAN_COL_IDX {
            self.in_span
        } else if idx == GROUP_COUNT_COL_IDX {
            self.group_count
        } else if idx == OP_INDEX_COL_IDX {
            self.op_index
        } else if idx < OP_BITS_EXTRA_COLS_OFFSET {
            self.batch_flags@[idx - OP_BATCH_FLAGS_OFFSET]
        } else {
            self.extra@[idx - OP_BITS_EXTRA_COLS_OFFSET]
        }
    }

    /// Returns decoder column `idx`.
    pub fn index(&self, idx: usize) -> (r: &T)
        requires
            idx < super::DECODER_TRACE_WIDTH,
        ensures
            *r == self.column(idx as int),
    {
        if idx == ADDR_COL_IDX {
            &self.addr
        } else if idx < HASHER_STATE_OFFSET {
            &self.op_bits[idx - OP_BITS_OFFSET]
        } else if idx < IN_SPAN_COL_IDX {
            &self.hasher_state[idx - HASHER_STATE_OFFSET]
        } else if idx == IN_SPAN_COL_IDX {
            &self.in_span
        } else if idx == GROUP_COUNT_COL_IDX {
            &self.group_count
        } else if idx == OP_INDEX_COL_IDX {
            &self.op_index
        } else if idx < OP_BITS_EXTRA_COLS_OFFSET {
            &self.batch_flags[idx - OP_BATCH_FLAGS_OFFSET]
        } else {
            &self.extra[idx - OP_BITS_EXTRA_COLS_OFFSET]
        }
    }
}

} // verus!
