//! Chiplet columns of the main trace.
//!
//! The 20 chiplet columns start with the shared selectors `s0..s4`. A chiplet's own columns
//! start right after the selectors that identify it, so they overlap the unused selectors of
//! chiplets further down the hierarchy.

use vstd::prelude::*;

use super::MainCols;

pub mod ace;
pub mod bitwise;
pub mod hasher;
pub mod kernel_rom;
pub mod memory;

verus! {

// CONSTANTS
// ================================================================================================

/// Number of selector columns of each chiplet.
pub const NUM_HASHER_SELECTORS: usize = 1;
pub const NUM_BITWISE_SELECTORS: usize = 2;
pub const NUM_MEMORY_SELECTORS: usize = 3;
pub const NUM_ACE_SELECTORS: usize = 4;
pub const NUM_KERNEL_ROM_SELECTORS: usize = 5;

/// First column of each chiplet in the main trace.
pub const HASHER_TRACE_OFFSET: usize = super::CHIPLETS_OFFSET + NUM_HASHER_SELECTORS;
pub const BITWISE_TRACE_OFFSET: usize = super::CHIPLETS_OFFSET + NUM_BITWISE_SELECTORS;
pub const MEMORY_TRACE_OFFSET: usize = super::CHIPLETS_OFFSET + NUM_MEMORY_SELECTORS;






// COLUMN STRUCTS
// ================================================================================================

/// Hasher chiplet columns (16 columns), viewed from `chiplets[1..17]`.
pub struct HasherCols<T> {
    pub selectors: [T; 3],
    pub state: [T; 12],
    pub node_index: T,
}

impl<T> HasherCols<T> {
    /// These columns are `c[off..off + 16]`.
    pub open spec fn matches(&self, c: Seq<T>, off: int) -> bool {
        &&& forall|i: int| 0 <= i < 3 ==> self.selectors@[i] == c[off + i]
        &&& forall|i: int| 0 <= i < 12 ==> self.state@[i] == c[off + 3 + i]
        &&& self.node_index == c[off + 15]
    }
}

impl<T: Copy> HasherCols<T> {
    pub fn from_slice(c: &[T; 20], off: usize) -> (r: HasherCols<T>)
        requires
            off + 16 <= 20,
        ensures
            r.matches(c@, off as int),
    {
        HasherCols {
            selectors: [c[off], c[off + 1], c[off + 2]],
            state: [
                c[off + 3], c[off + 4], c[off + 5], c[off + 6], c[off + 7], c[off + 8],
                c[off + 9], c[off + 10], c[off + 11], c[off + 12], c[off + 13], c[off + 14],
            ],
            node_index: c[off + 15],
        }
    }

    /// The digest lanes `state[0..4]` (RATE0).
    pub fn digest(&self) -> (r: [T; 4])
        ensures
            forall|i: int| 0 <= i < 4 ==> r@[i] == self.state@[i],
    {
        [self.state[0], self.state[1], self.state[2], self.state[3]]
    }

    /// The first rate word `state[0..4]`.
    pub fn rate0(&self) -> (r: [T; 4])
        ensures
            forall|i: int| 0 <= i < 4 ==> r@[i] == self.state@[i],
    {
        [self.state[0], self.state[1], self.state[2], self.state[3]]
    }

    /// The second rate word `state[4..8]`.
    pub fn rate1(&self) -> (r: [T; 4])
        ensures
            forall|i: int| 0 <= i < 4 ==> r@[i] == self.state@[4 + i],
    {
        [self.state[4], self.state[5], self.state[6], self.state[7]]
    }

    /// The capacity lanes `state[8..12]`.
    pub fn capacity(&self) -> (r: [T; 4])
        ensures
            forall|i: int| 0 <= i < 4 ==> r@[i] == self.state@[8 + i],
    {
        [self.state[8], self.state[9], self.state[10], self.state[11]]
    }
}

/// Bitwise chiplet columns (13 columns), viewed from `chiplets[2..15]`.
pub struct BitwiseCols<T> {
    /// Operation type: 0 = AND, 1 = XOR.
    pub op_flag: T,
    /// Aggregated value of input `a`.
    pub a: T,
    /// Aggregated value of input `b`.
    pub b: T,
    /// 4-bit decomposition of `a` in this row.
    pub a_bits: [T; 4],
    /// 4-bit decomposition of `b` in this row.
    pub b_bits: [T; 4],
    /// Aggregated output of the previous row.
    pub prev_output: T,
    /// Aggregated output of this row.
    pub output: T,
}

impl<T> BitwiseCols<T> {
    /// These columns are `c[off..off + 13]`.
    pub open spec fn matches(&self, c: Seq<T>, off: int) -> bool {
        &&& self.op_flag == c[off]
        &&& self.a == c[off + 1]
        &&& self.b == c[off + 2]
        &&& forall|i: int| 0 <= i < 4 ==> self.a_bits@[i] == c[off + 3 + i]
        &&& forall|i: int| 0 <= i < 4 ==> self.b_bits@[i] == c[off + 7 + i]
        &&& self.prev_output == c[off + 11]
        &&& self.output == c[off + 12]
    }
}

impl<T: Copy> BitwiseCols<T> {
    pub fn from_slice(c: &[T; 20], off: usize) -> (r: BitwiseCols<T>)
        requires
            off + 13 <= 20,
        ensures
            r.matches(c@, off as int),
    {
        BitwiseCols {
            op_flag: c[off],
            a: c[off + 1],
            b: c[off + 2],
            a_bits: [c[off + 3], c[off + 4], c[off + 5], c[off + 6]],
            b_bits: [c[off + 7], c[off + 8], c[off + 9], c[off + 10]],
            prev_output: c[off + 11],
            output: c[off + 12],
        }
    }
}

/// Memory chiplet columns (15 columns), viewed from `chiplets[3..18]`.
pub struct MemoryCols<T> {
    /// 1 = read, 0 = write.
    pub is_read: T,
    /// 1 = word access, 0 = element access.
    pub is_word: T,
    pub ctx: T,
    pub word_addr: T,
    pub idx0: T,
    pub idx1: T,
    pub clk: T,
    pub values: [T; 4],
    /// Lower 16 bits of the delta between consecutive rows.
    pub d0: T,
    /// Upper 16 bits of the delta between consecutive rows.
    pub d1: T,
    /// Inverse of the delta.
    pub d_inv: T,
    /// Same context and word address as the previous row.
    pub is_same_ctx_and_word: T,
}

impl<T> MemoryCols<T> {
    /// These columns are `c[off..off + 15]`.
    pub open spec fn matches(&self, c: Seq<T>, off: int) -> bool {
        &&& self.is_read == c[off]
        &&& self.is_word == c[off + 1]
        &&& self.ctx == c[off + 2]
        &&& self.word_addr == c[off + 3]
        &&& self.idx0 == c[off + 4]
        &&& self.idx1 == c[off + 5]
        &&& self.clk == c[off + 6]
        &&& forall|i: int| 0 <= i < 4 ==> self.values@[i] == c[off + 7 + i]
        &&& self.d0 == c[off + 11]
        &&& self.d1 == c[off + 12]
        &&& self.d_inv == c[off + 13]
        &&& self.is_same_ctx_and_word == c[off + 14]
    }
}

impl<T: Copy> MemoryCols<T> {
    pub fn from_slice(c: &[T; 20], off: usize) -> (r: MemoryCols<T>)
        requires
            off + 15 <= 20,
        ensures
            r.matches(c@, off as int),
    {
        MemoryCols {
            is_read: c[off],
            is_word: c[off + 1],
            ctx: c[off + 2],
            word_addr: c[off + 3],
            idx0: c[off + 4],
            idx1: c[off + 5],
            clk: c[off + 6],
            values: [c[off + 7], c[off + 8], c[off + 9], c[off + 10]],
            d0: c[off + 11],
            d1: c[off + 12],
            d_inv: c[off + 13],
            is_same_ctx_and_word: c[off + 14],
        }
    }
}

/// Kernel ROM chiplet columns (5 columns), viewed from `chiplets[5..10]`.
pub struct KernelRomCols<T> {
    /// 1 = first row of a digest block.
    pub s_first: T,
    /// Kernel procedure digest.
    pub root: [T; 4],
}

impl<T> KernelRomCols<T> {
    /// These columns are `c[off..off + 5]`.
    pub open spec fn matches(&self, c: Seq<T>, off: int) -> bool {
        &&& self.s_first == c[off]
        &&& forall|i: int| 0 <= i < 4 ==> self.root@[i] == c[off + 1 + i]
    }
}

impl<T: Copy> KernelRomCols<T> {
    pub fn from_slice(c: &[T; 20], off: usize) -> (r: KernelRomCols<T>)
        requires
            off + 5 <= 20,
        ensures
            r.matches(c@, off as int),
    {
        KernelRomCols { s_first: c[off], root: [c[off + 1], c[off + 2], c[off + 3], c[off + 4]] }
    }
}

/// ACE chiplet columns (16 columns), viewed from `chiplets[4..20]`.
pub struct AceCols<T> {
    /// Start-of-circuit flag.
    pub s_start: T,
    /// Block selector: 0 = READ, 1 = EVAL.
    pub s_block: T,
    /// Memory context.
    pub ctx: T,
    /// Pointer for memory read.
    pub ptr: T,
    /// Clock cycle.
    pub clk: T,
    /// Evaluation operation selector.
    pub eval_op: T,
    /// Dual-mode columns (interpretation depends on `s_block`).
    pub shared: [T; 10],
}

/// READ mode overlay for the ACE shared columns.
pub struct AceReadCols<T> {
    pub id_0: T,
    pub v_0: [T; 2],
    pub id_1: T,
    pub v_1: [T; 2],
    pub num_eval: T,
    pub unused: T,
    pub m_1: T,
    pub m_0: T,
}

/// EVAL mode overlay for the ACE shared columns.
pub struct AceEvalCols<T> {
    pub id_0: T,
    pub v_0: [T; 2],
    pub id_1: T,
    pub v_1: [T; 2],
    pub id_2: T,
    pub v_2: [T; 2],
    pub m_0: T,
}

impl<T> AceCols<T> {
    /// These columns are `c[off..off + 16]`.
    pub open spec fn matches(&self, c: Seq<T>, off: int) -> bool {
        &&& self.s_start == c[off]
        &&& self.s_block == c[off + 1]
        &&& self.ctx == c[off + 2]
        &&& self.ptr == c[off + 3]
        &&& self.clk == c[off + 4]
        &&& self.eval_op == c[off + 5]
        &&& forall|i: int| 0 <= i < 10 ==> self.shared@[i] == c[off + 6 + i]
    }
}

impl<T: Copy> AceCols<T> {
    pub fn from_slice(c: &[T; 20], off: usize) -> (r: AceCols<T>)
        requires
            off + 16 <= 20,
        ensures
            r.matches(c@, off as int),
    {
        AceCols {
            s_start: c[off],
            s_block: c[off + 1],
            ctx: c[off + 2],
            ptr: c[off + 3],
            clk: c[off + 4],
            eval_op: c[off + 5],
            shared: [
                c[off + 6], c[off + 7], c[off + 8], c[off + 9], c[off + 10],
                c[off + 11], c[off + 12], c[off + 13], c[off + 14], c[off + 15],
            ],
        }
    }

    /// Returns the READ-mode overlay of the shared columns.
    pub fn read(&self) -> (r: AceReadCols<T>)
        ensures
            r.id_0 == self.shared@[0],
            r.v_0@ == seq![self.shared@[1], self.shared@[2]],
            r.id_1 == self.shared@[3],
            r.v_1@ == seq![self.shared@[4], self.shared@[5]],
            r.num_eval == self.shared@[6],
            r.unused == self.shared@[7],
            r.m_1 == self.shared@[8],
            r.m_0 == self.shared@[9],
    {
        let s = &self.shared;
        AceReadCols {
            id_0: s[0],
            v_0: [s[1], s[2]],
            id_1: s[3],
            v_1: [s[4], s[5]],
            num_eval: s[6],
            unused: s[7],
            m_1: s[8],
            m_0: s[9],
        }
    }

    /// Returns the EVAL-mode overlay of the shared columns.
    pub fn eval(&self) -> (r: AceEvalCols<T>)
        ensures
            r.id_0 == self.shared@[0],
            r.v_0@ == seq![self.shared@[1], self.shared@[2]],
            r.id_1 == self.shared@[3],
            r.v_1@ == seq![self.shared@[4], self.shared@[5]],
            r.id_2 == self.shared@[6],
            r.v_2@ == seq![self.shared@[7], self.shared@[8]],
            r.m_0 == self.shared@[9],
    {
        let s = &self.shared;
        AceEvalCols {
            id_0: s[0],
            v_0: [s[1], s[2]],
            id_1: s[3],
            v_1: [s[4], s[5]],
            id_2: s[6],
            v_2: [s[7], s[8]],
            m_0: s[9],
        }
    }
}

// CHIPLETS VIEW
// ================================================================================================

/// View into the chiplet columns of the current and next rows.
pub struct ChipletsView<'a, V> {
    pub local: &'a [V; 20],
    pub next: &'a [V; 20],
}

impl<'a, V: Copy> ChipletsView<'a, V> {
    pub fn new(local: &'a MainCols<V>, next: &'a MainCols<V>) -> (r: Self)
        ensures
            *r.local == local.chiplets,
            *r.next == next.chiplets,
    {
        ChipletsView { local: &local.chiplets, next: &next.chiplets }
    }

    /// The 5 shared chiplet selectors of the current row.
    pub fn selectors_local(&self) -> (r: [V; 5])
        ensures
            forall|i: int| 0 <= i < 5 ==> r@[i] == self.local@[i],
    {
        let c = self.local;
        [c[0], c[1], c[2], c[3], c[4]]
    }

    /// The 5 shared chiplet selectors of the next row.
    pub fn selectors_next(&self) -> (r: [V; 5])
        ensures
            forall|i: int| 0 <= i < 5 ==> r@[i] == self.next@[i],
    {
        let c = self.next;
        [c[0], c[1], c[2], c[3], c[4]]
    }

    pub fn hasher_local(&self) -> (r: HasherCols<V>)
        ensures
            r.matches(self.local@, 1),
    {
        HasherCols::from_slice(self.local, 1)
    }

    pub fn hasher_next(&self) -> (r: HasherCols<V>)
        ensures
            r.matches(self.next@, 1),
    {
        HasherCols::from_slice(self.next, 1)
    }

    pub fn bitwise_local(&self) -> (r: BitwiseCols<V>)
        ensures
            r.matches(self.local@, 2),
    {
        BitwiseCols::from_slice(self.local, 2)
    }

    pub fn bitwise_next(&self) -> (r: BitwiseCols<V>)
        ensures
            r.matches(self.next@, 2),
    {
        BitwiseCols::from_slice(self.next, 2)
    }

    pub fn memory_local(&self) -> (r: MemoryCols<V>)
        ensures
            r.matches(self.local@, 3),
    {
        MemoryCols::from_slice(self.local, 3)
    }

    pub fn memory_next(&self) -> (r: MemoryCols<V>)
        ensures
            r.matches(self.next@, 3),
    {
        MemoryCols::from_slice(self.next, 3)
    }

    pub fn ace_local(&self) -> (r: AceCols<V>)
        ensures
            r.matches(self.local@, 4),
    {
        AceCols::from_slice(self.local, 4)
    }

    pub fn ace_next(&self) -> (r: AceCols<V>)
        ensures
            r.matches(self.next@, 4),
    {
        AceCols::from_slice(self.next, 4)
    }

    pub fn kernel_rom_local(&self) -> (r: KernelRomCols<V>)
        ensures
            r.matches(self.local@, 5),
    {
        KernelRomCols::from_slice(self.local, 5)
    }

    pub fn kernel_rom_next(&self) -> (r: KernelRomCols<V>)
        ensures
            r.matches(self.next@, 5),
    {
        KernelRomCols::from_slice(self.next, 5)
    }
}

} // verus!
