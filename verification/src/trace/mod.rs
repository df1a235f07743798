//! Column layout of the main and auxiliary execution traces.
//!
//! The main trace has 71 columns:
//!
//! ```text
//!      system          decoder           stack      range checks       chiplets
//!    (6 columns)     (24 columns)    (19 columns)    (2 columns)     (20 columns)
//! ```
//!
//! The 20 chiplet columns are a union: their interpretation depends on which chiplet is active.

pub mod bus_message;
pub mod bus_types;
pub mod challenges;
pub mod chiplets;
pub mod decoder;
pub mod log_precompile;
pub mod range;
pub mod stack;

use vstd::prelude::*;

use self::chiplets::{AceCols, BitwiseCols, HasherCols, KernelRomCols, MemoryCols};
use self::decoder::DecoderCols;
use self::range::RangeCols;
use self::stack::StackCols;

verus! {

// MAIN TRACE LAYOUT
// ================================================================================================

/// The minimum length of the execution trace.
pub const MIN_TRACE_LEN: usize = 64;

pub const SYS_TRACE_OFFSET: usize = 0;
pub const SYS_TRACE_WIDTH: usize = 6;

pub const CLK_COL_IDX: usize = SYS_TRACE_OFFSET;
pub const CTX_COL_IDX: usize = SYS_TRACE_OFFSET + 1;
pub const FN_HASH_OFFSET: usize = SYS_TRACE_OFFSET + 2;

pub const DECODER_TRACE_OFFSET: usize = SYS_TRACE_OFFSET + SYS_TRACE_WIDTH;
pub const DECODER_TRACE_WIDTH: usize = 24;

pub const STACK_TRACE_OFFSET: usize = DECODER_TRACE_OFFSET + DECODER_TRACE_WIDTH;
pub const STACK_TRACE_WIDTH: usize = 19;

pub const RANGE_CHECK_TRACE_OFFSET: usize = STACK_TRACE_OFFSET + STACK_TRACE_WIDTH;
pub const RANGE_CHECK_TRACE_WIDTH: usize = 2;

pub const CHIPLETS_OFFSET: usize = RANGE_CHECK_TRACE_OFFSET + RANGE_CHECK_TRACE_WIDTH;
pub const CHIPLETS_WIDTH: usize = 20;

pub const CHIPLET_S0_COL_IDX: usize = CHIPLETS_OFFSET;
pub const CHIPLET_S1_COL_IDX: usize = CHIPLETS_OFFSET + 1;
pub const CHIPLET_S2_COL_IDX: usize = CHIPLETS_OFFSET + 2;
pub const CHIPLET_S3_COL_IDX: usize = CHIPLETS_OFFSET + 3;
pub const CHIPLET_S4_COL_IDX: usize = CHIPLETS_OFFSET + 4;

/// Number of columns in the main trace.
pub const TRACE_WIDTH: usize = CHIPLETS_OFFSET + CHIPLETS_WIDTH;

// AUXILIARY TRACE LAYOUT
// ================================================================================================

pub const DECODER_AUX_TRACE_OFFSET: usize = 0;
pub const DECODER_AUX_TRACE_WIDTH: usize = 3;
pub const STACK_AUX_TRACE_OFFSET: usize = DECODER_AUX_TRACE_OFFSET + DECODER_AUX_TRACE_WIDTH;
pub const STACK_AUX_TRACE_WIDTH: usize = 1;
pub const RANGE_CHECK_AUX_TRACE_OFFSET: usize = STACK_AUX_TRACE_OFFSET + STACK_AUX_TRACE_WIDTH;
pub const RANGE_CHECK_AUX_TRACE_WIDTH: usize = 1;
pub const HASH_KERNEL_VTABLE_AUX_TRACE_OFFSET: usize = RANGE_CHECK_AUX_TRACE_OFFSET
    + RANGE_CHECK_AUX_TRACE_WIDTH;
pub const HASHER_AUX_TRACE_WIDTH: usize = 1;
pub const CHIPLETS_BUS_AUX_TRACE_OFFSET: usize = HASH_KERNEL_VTABLE_AUX_TRACE_OFFSET
    + HASHER_AUX_TRACE_WIDTH;
pub const CHIPLETS_BUS_AUX_TRACE_WIDTH: usize = 1;
pub const ACE_CHIPLET_WIRING_BUS_OFFSET: usize = CHIPLETS_BUS_AUX_TRACE_OFFSET
    + CHIPLETS_BUS_AUX_TRACE_WIDTH;
pub const ACE_CHIPLET_WIRING_BUS_WIDTH: usize = 1;

/// Auxiliary trace segment width.
pub const AUX_TRACE_WIDTH: usize = ACE_CHIPLET_WIRING_BUS_OFFSET + ACE_CHIPLET_WIRING_BUS_WIDTH;

/// Number of random challenges used for auxiliary trace constraints.
pub const AUX_TRACE_RAND_CHALLENGES: usize = 2;

/// Maximum number of coefficients used in bus message encodings.
pub const MAX_MESSAGE_WIDTH: usize = 16;

/// Label for log_precompile transcript state messages on the virtual table bus.
pub const LOG_PRECOMPILE_LABEL: u8 = 94;

// COLUMN STRUCTS
// ================================================================================================

/// System columns (6 columns): clock, context, and current function hash.
pub struct SystemCols<T> {
    pub clk: T,
    pub ctx: T,
    pub fn_hash: [T; 4],
}

/// Column layout of the main execution trace (71 columns).
///
/// The chiplet columns are accessed through typed accessors, since their meaning depends on
/// which chiplet is active.
pub struct MainCols<T> {
    pub system: SystemCols<T>,
    pub decoder: DecoderCols<T>,
    pub stack: StackCols<T>,
    pub range: RangeCols<T>,
    pub chiplets: [T; 20],
}

impl<T: Copy> MainCols<T> {
    /// Returns the 5 shared chiplet selector columns `[s0, s1, s2, s3, s4]`.
    pub fn chiplet_selectors(&self) -> (r: [T; 5])
        ensures
            forall|i: int| 0 <= i < 5 ==> r@[i] == self.chiplets@[i],
    {
        [self.chiplets[0], self.chiplets[1], self.chiplets[2], self.chiplets[3], self.chiplets[4]]
    }

    /// Returns the hasher chiplet columns (`chiplets[1..17]`).
    pub fn hasher(&self) -> (r: HasherCols<T>)
        ensures
            r.matches(self.chiplets@, 1),
    {
        HasherCols::from_slice(&self.chiplets, 1)
    }

    /// Returns the bitwise chiplet columns (`chiplets[2..15]`).
    pub fn bitwise(&self) -> (r: BitwiseCols<T>)
        ensures
            r.matches(self.chiplets@, 2),
    {
        BitwiseCols::from_slice(&self.chiplets, 2)
    }

    /// Returns the memory chiplet columns (`chiplets[3..18]`).
    pub fn memory(&self) -> (r: MemoryCols<T>)
        ensures
            r.matches(self.chiplets@, 3),
    {
        MemoryCols::from_slice(&self.chiplets, 3)
    }

    /// Returns the ACE chiplet columns (`chiplets[4..20]`).
    pub fn ace(&self) -> (r: AceCols<T>)
        ensures
            r.matches(self.chiplets@, 4),
    {
        AceCols::from_slice(&self.chiplets, 4)
    }

    /// Returns the kernel ROM chiplet columns (`chiplets[5..10]`).
    pub fn kernel_rom(&self) -> (r: KernelRomCols<T>)
        ensures
            r.matches(self.chiplets@, 5),
    {
        KernelRomCols::from_slice(&self.chiplets, 5)
    }
}

/// Column layout of the auxiliary execution trace (8 columns).
pub struct AuxCols<T> {
    /// Decoder: block stack table running product.
    pub p1_block_stack: T,
    /// Decoder: block hash table running product.
    pub p2_block_hash: T,
    /// Decoder: op group table running product.
    pub p3_op_group: T,
    /// Stack overflow running product.
    pub stack_overflow: T,
    /// Range checker LogUp sum.
    pub range_check: T,
    /// Hash-kernel virtual table bus.
    pub hash_kernel_vtable: T,
    /// Chiplets bus running product.
    pub chiplets_bus: T,
    /// ACE wiring LogUp sum.
    pub ace_wiring: T,
}

// INDEX MAPS
// ================================================================================================

/// Returns the vector `[0, 1, 2, ..., n-1]`.
pub fn indices_arr(n: usize) -> (r: Vec<usize>)
    ensures
        r@.len() == n,
        forall|i: int| 0 <= i < n ==> r@[i] == i,
{
    let mut arr: Vec<usize> = Vec::new();
    let mut i: usize = 0;
    while i < n
        invariant
            i <= n,
            arr@.len() == i,
            forall|j: int| 0 <= j < i ==> arr@[j] == j,
        decreases n - i,
    {
        arr.push(i);
        i += 1;
    }
    arr
}

/// The column index of every position of the main trace, in layout order.
pub open spec fn main_col_map_holds(m: MainCols<usize>) -> bool {
    &&& m.system.clk == 0
    &&& m.system.ctx == 1
    &&& forall|i: int| 0 <= i < 4 ==> m.system.fn_hash@[i] == 2 + i
    &&& m.decoder.addr == 6
    &&& forall|i: int| 0 <= i < 7 ==> m.decoder.op_bits@[i] == 7 + i
    &&& forall|i: int| 0 <= i < 8 ==> m.decoder.hasher_state@[i] == 14 + i
    &&& m.decoder.in_span == 22
    &&& m.decoder.group_count == 23
    &&& m.decoder.op_index == 24
    &&& forall|i: int| 0 <= i < 3 ==> m.decoder.batch_flags@[i] == 25 + i
    &&& forall|i: int| 0 <= i < 2 ==> m.decoder.extra@[i] == 28 + i
    &&& forall|i: int| 0 <= i < 16 ==> m.stack.top@[i] == 30 + i
    &&& m.stack.b0 == 46
    &&& m.stack.b1 == 47
    &&& m.stack.h0 == 48
    &&& m.range.multiplicity == 49
    &&& m.range.value == 50
    &&& forall|i: int| 0 <= i < 20 ==> m.chiplets@[i] == 51 + i
}

/// `row` holds the values `v` of one row of the main trace, each field the value of its column.
pub open spec fn laid_out<T>(row: &MainCols<T>, v: Seq<T>) -> bool {
    &&& row.system.clk == v[0]
    &&& row.system.ctx == v[1]
    &&& forall|i: int| 0 <= i < 4 ==> row.system.fn_hash@[i] == v[2 + i]
    &&& row.decoder.addr == v[6]
    &&& forall|i: int| 0 <= i < 7 ==> row.decoder.op_bits@[i] == v[7 + i]
    &&& forall|i: int| 0 <= i < 8 ==> row.decoder.hasher_state@[i] == v[14 + i]
    &&& row.decoder.in_span == v[22]
    &&& row.decoder.group_count == v[23]
    &&& row.decoder.op_index == v[24]
    &&& forall|i: int| 0 <= i < 3 ==> row.decoder.batch_flags@[i] == v[25 + i]
    &&& forall|i: int| 0 <= i < 2 ==> row.decoder.extra@[i] == v[28 + i]
    &&& forall|i: int| 0 <= i < 16 ==> row.stack.top@[i] == v[30 + i]
    &&& row.stack.b0 == v[46]
    &&& row.stack.b1 == v[47]
    &&& row.stack.h0 == v[48]
    &&& row.range.multiplicity == v[49]
    &&& row.range.value == v[50]
    &&& forall|i: int| 0 <= i < 20 ==> row.chiplets@[i] == v[51 + i]
}

impl<T: Copy> MainCols<T> {
    /// The columns of one row of the main trace, from its `TRACE_WIDTH` values in layout order.
    pub fn borrow(v: &[T]) -> (r: MainCols<T>)
        requires
            v@.len() == TRACE_WIDTH,
        ensures
            laid_out(&r, v@),
    {
        let system = SystemCols { clk: v[0], ctx: v[1], fn_hash: [v[2], v[3], v[4], v[5]] };
        let decoder = DecoderCols {
            addr: v[6],
            op_bits: [v[7], v[8], v[9], v[10], v[11], v[12], v[13]],
            hasher_state: [v[14], v[15], v[16], v[17], v[18], v[19], v[20], v[21]],
            in_span: v[22],
            group_count: v[23],
            op_index: v[24],
            batch_flags: [v[25], v[26], v[27]],
            extra: [v[28], v[29]],
        };
        let stack = StackCols {
            top: [
                v[30], v[31], v[32], v[33], v[34], v[35], v[36], v[37],
                v[38], v[39], v[40], v[41], v[42], v[43], v[44], v[45],
            ],
            b0: v[46],
            b1: v[47],
            h0: v[48],
        };
        let range = RangeCols { multiplicity: v[49], value: v[50] };
        let chiplets = [
            v[51], v[52], v[53], v[54], v[55], v[56], v[57], v[58], v[59], v[60],
            v[61], v[62], v[63], v[64], v[65], v[66], v[67], v[68], v[69], v[70],
        ];
        MainCols { system, decoder, stack, range, chiplets }
    }
}

/// Index map of the main trace: each field holds its column index.
pub fn main_col_map() -> (r: MainCols<usize>)
    ensures
        main_col_map_holds(r),
{
    let idx = indices_arr(TRACE_WIDTH);
    let system = SystemCols { clk: idx[0], ctx: idx[1], fn_hash: [idx[2], idx[3], idx[4], idx[5]] };
    let decoder = DecoderCols {
        addr: idx[6],
        op_bits: [idx[7], idx[8], idx[9], idx[10], idx[11], idx[12], idx[13]],
        hasher_state: [idx[14], idx[15], idx[16], idx[17], idx[18], idx[19], idx[20], idx[21]],
        in_span: idx[22],
        group_count: idx[23],
        op_index: idx[24],
        batch_flags: [idx[25], idx[26], idx[27]],
        extra: [idx[28], idx[29]],
    };
    let stack = StackCols {
        top: [
            idx[30], idx[31], idx[32], idx[33], idx[34], idx[35], idx[36], idx[37],
            idx[38], idx[39], idx[40], idx[41], idx[42], idx[43], idx[44], idx[45],
        ],
        b0: idx[46],
        b1: idx[47],
        h0: idx[48],
    };
    let range = RangeCols { multiplicity: idx[49], value: idx[50] };
    let chiplets = [
        idx[51], idx[52], idx[53], idx[54], idx[55], idx[56], idx[57], idx[58], idx[59], idx[60],
        idx[61], idx[62], idx[63], idx[64], idx[65], idx[66], idx[67], idx[68], idx[69], idx[70],
    ];
    MainCols { system, decoder, stack, range, chiplets }
}

/// Index map of the auxiliary trace: each field holds its column index.
pub fn aux_col_map() -> (r: AuxCols<usize>)
    ensures
        r.p1_block_stack == 0,
        r.p2_block_hash == 1,
        r.p3_op_group == 2,
        r.stack_overflow == 3,
        r.range_check == 4,
        r.hash_kernel_vtable == 5,
        r.chiplets_bus == 6,
        r.ace_wiring == 7,
{
    let idx = indices_arr(AUX_TRACE_WIDTH);
    AuxCols {
        p1_block_stack: idx[0],
        p2_block_hash: idx[1],
        p3_op_group: idx[2],
        stack_overflow: idx[3],
        range_check: idx[4],
        hash_kernel_vtable: idx[5],
        chiplets_bus: idx[6],
        ace_wiring: idx[7],
    }
}

} // verus!
