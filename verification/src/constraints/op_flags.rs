//! Operation flags computed from the decoder op bits.
//!
//! Operations are grouped by the degree of their flag:
//! - degree 7: opcodes 0..64, flags use all 7 op bits;
//! - degree 6: opcodes 64..80 (even), u32 operations with the common prefix `100`;
//! - degree 5: opcodes 80..96, flags use the degree reduction column `e0`;
//! - degree 4: opcodes 96..128 (every 4th), flags use the degree reduction column `e1`.
//!
//! The module also computes composite flags describing how an operation shifts the stack.

use vstd::prelude::*;

use crate::field::{fadd, fmul, fnot, fsub, lemma_bool_ops, lemma_felt_range, lemma_small_values, Felt};
use crate::opcodes;
use crate::trace::MainCols;

verus! {

broadcast use lemma_felt_range;

// CONSTANTS
// ================================================================================================

/// Total number of degree 7 operations in the VM.
pub const NUM_DEGREE_7_OPS: usize = 64;
/// Total number of degree 6 operations in the VM.
pub const NUM_DEGREE_6_OPS: usize = 8;
/// Total number of degree 5 operations in the VM.
pub const NUM_DEGREE_5_OPS: usize = 16;
/// Total number of degree 4 operations in the VM.
pub const NUM_DEGREE_4_OPS: usize = 8;
/// Total number of composite flags per stack impact type in the VM.
pub const NUM_STACK_IMPACT_FLAGS: usize = 16;

/// Opcode at which degree 7 operations end.
pub const DEGREE_7_OPCODE_ENDS: usize = 63;
/// Opcode at which degree 6 operations start.
pub const DEGREE_6_OPCODE_STARTS: usize = 64;
/// Opcode at which degree 6 operations end.
pub const DEGREE_6_OPCODE_ENDS: usize = 79;
/// Opcode at which degree 5 operations start.
pub const DEGREE_5_OPCODE_STARTS: usize = 80;
/// Opcode at which degree 5 operations end.
pub const DEGREE_5_OPCODE_ENDS: usize = 95;
/// Opcode at which degree 4 operations start.
pub const DEGREE_4_OPCODE_STARTS: usize = 96;

// SPECIFICATION
// ================================================================================================

/// Whether bit `d` (given as the power of two `2^d`) of `k` is set.
pub open spec fn kbit(k: int, pow: int) -> bool {
    (k / pow) % 2 == 1
}

/// The literal of an op bit: `b` when the opcode bit is set, `1 - b` otherwise.
pub open spec fn lit(b: int, on: bool) -> int {
    if on {
        b
    } else {
        fnot(b)
    }
}

/// Degree 7 flag, bits 5 and 4.
pub open spec fn d7_stage_a(b: Seq<int>, k: int) -> int {
    fmul(lit(b[5], kbit(k, 32)), lit(b[4], kbit(k, 16)))
}

/// Degree 7 flag, adding bits 6 (always 0) and 3.
pub open spec fn d7_stage_b(b: Seq<int>, k: int) -> int {
    fmul(d7_stage_a(b, k), fmul(fnot(b[6]), lit(b[3], kbit(k, 8))))
}

/// Degree 7 flag, adding bit 2.
pub open spec fn d7_stage_c(b: Seq<int>, k: int) -> int {
    fmul(d7_stage_b(b, k), lit(b[2], kbit(k, 4)))
}

/// Degree 7 flag, adding bit 1.
pub open spec fn d7_stage_d(b: Seq<int>, k: int) -> int {
    fmul(d7_stage_c(b, k), lit(b[1], kbit(k, 2)))
}

/// Flag of the degree 7 operation with opcode `k`: the product of the literals of all 7 bits.
pub open spec fn degree7_flag(b: Seq<int>, k: int) -> int {
    fmul(d7_stage_d(b, k), lit(b[0], kbit(k, 1)))
}

/// The prefix `100` of the degree 6 operations: `b6 * (1 - b5) * (1 - b4)`.
pub open spec fn degree6_prefix(b: Seq<int>) -> int {
    fmul(fmul(b[6], fnot(b[5])), fnot(b[4]))
}

/// The part of a degree 6 flag that depends on op bits 1 to 3.
pub open spec fn degree6_low(b: Seq<int>, j: int) -> int {
    fmul(lit(b[1], kbit(j, 1)), fmul(lit(b[2], kbit(j, 2)), lit(b[3], kbit(j, 4))))
}

/// The part of a degree 5 flag that depends on op bits 0 to 2.
pub open spec fn degree5_low(b: Seq<int>, j: int) -> int {
    fmul(fmul(lit(b[0], kbit(j, 1)), lit(b[1], kbit(j, 2))), lit(b[2], kbit(j, 4)))
}

/// The part of a degree 4 flag that depends on op bits 2 and 3.
pub open spec fn degree4_low(b: Seq<int>, j: int) -> int {
    fmul(lit(b[2], kbit(j, 1)), lit(b[3], kbit(j, 2)))
}

/// Flag of the degree 6 operation with opcode `64 + 2 * j`.
pub open spec fn degree6_flag(b: Seq<int>, j: int) -> int {
    fmul(degree6_low(b, j), degree6_prefix(b))
}

/// Flag of the degree 5 operation with opcode `80 + j`, using the reduction column `e0`.
pub open spec fn degree5_flag(b: Seq<int>, e: Seq<int>, j: int) -> int {
    fmul(degree5_low(b, j), fmul(lit(b[3], kbit(j, 8)), e[0]))
}

/// Flag of the degree 4 operation with opcode `96 + 4 * j`, using the reduction column `e1`.
pub open spec fn degree4_flag(b: Seq<int>, e: Seq<int>, j: int) -> int {
    fmul(degree4_low(b, j), fmul(lit(b[4], kbit(j, 4)), e[1]))
}

/// Composite no-shift flags: the stack item at depth `i` is unchanged.
pub open spec fn no_shift_spec(b: Seq<int>, e: Seq<int>, is_loop: int, i: int) -> int
    decreases i,
{
    let d7 = |k: int| degree7_flag(b, k);
    let d6 = |k: int| degree6_flag(b, k);
    let d5 = |k: int| degree5_flag(b, e, k);
    let d4 = |k: int| degree4_flag(b, e, k);
    if i <= 0 {
        fadd(fadd(fadd(fadd(fadd(fadd(fadd(fadd(fadd(d7(0), d6(5)), d5(1)), d5(6)), d5(7)), d7(31)), d4(6)), d4(7)), d4(3)), fmul(d4(4), fnot(is_loop)))
    } else if i == 1 {
        fadd(no_shift_spec(b, e, is_loop, 0), fsub(d7_stage_b(b, 0), d7(0)))
    } else if i == 2 {
        fadd(
            fadd(no_shift_spec(b, e, is_loop, 1), d7(8)),
            fmul(fmul(d7_stage_a(b, 0), b[6]), fnot(b[3])),
        )
    } else if i == 3 {
        fadd(no_shift_spec(b, e, is_loop, 2), d7_stage_d(b, 10))
    } else if i == 4 {
        fadd(fadd(fadd(fadd(fadd(no_shift_spec(b, e, is_loop, 3), d7_stage_d(b, 12)), d7_stage_d(b, 14)), d7_stage_d(b, 28)), d7(25)), d4(0))
    } else if i == 5 {
        fadd(no_shift_spec(b, e, is_loop, 4), d7_stage_d(b, 16))
    } else if i == 6 {
        fadd(no_shift_spec(b, e, is_loop, 5), d7_stage_d(b, 18))
    } else if i == 7 {
        fadd(no_shift_spec(b, e, is_loop, 6), d7_stage_d(b, 20))
    } else if i == 8 {
        fsub(fadd(fadd(no_shift_spec(b, e, is_loop, 7), d7_stage_d(b, 22)), d7(24)), d7(28))
    } else if i <= 11 {
        fadd(no_shift_spec(b, e, is_loop, 8), d7_stage_d(b, 26))
    } else {
        fadd(fadd(fsub(no_shift_spec(b, e, is_loop, 11), d7(29)), d7(28)), d5(0))
    }
}

/// Sum of the MOVDN2..MOVDN8 flags.
pub open spec fn movdnn_spec(b: Seq<int>) -> int {
    fadd(fadd(fadd(fadd(fadd(fadd(degree7_flag(b, 11), degree7_flag(b, 13)), degree7_flag(b, 17)), degree7_flag(b, 19)), degree7_flag(b, 21)), degree7_flag(b, 23)), degree7_flag(b, 27))
}

/// Sum of the MOVUP2..MOVUP8 flags.
pub open spec fn movupn_spec(b: Seq<int>) -> int {
    fadd(fadd(fadd(fadd(fadd(fadd(degree7_flag(b, 10), degree7_flag(b, 12)), degree7_flag(b, 16)), degree7_flag(b, 18)), degree7_flag(b, 20)), degree7_flag(b, 22)), degree7_flag(b, 26))
}

/// Composite left-shift flags: the stack item at depth `i` shifts left (`i >= 1`).
pub open spec fn left_shift_spec(b: Seq<int>, e: Seq<int>, is_loop: int, i: int) -> int
    decreases i,
{
    let d7 = |k: int| degree7_flag(b, k);
    if i <= 0 {
        0
    } else if i == 1 {
        fadd(fadd(fadd(fadd(fadd(fadd(fadd(fadd(fadd(d7(32), movdnn_spec(b)), d7(41)), d7(45)), d7(47)), d7(46)), fadd(degree5_flag(b, e, 4), degree5_flag(b, e, 5))), fmul(degree4_flag(b, e, 4), is_loop)), degree5_flag(b, e, 8)), degree5_flag(b, e, 12))
    } else if i == 2 {
        fadd(left_shift_spec(b, e, is_loop, 1), fsub(d7_stage_b(b, 32), d7(32)))
    } else if i == 3 {
        fsub(
            fadd(
                fadd(left_shift_spec(b, e, is_loop, 2), fadd(degree6_flag(b, 6), degree6_flag(b, 7))),
                d7(42),
            ),
            d7(11),
        )
    } else if i == 4 {
        fsub(left_shift_spec(b, e, is_loop, 3), d7(13))
    } else if i == 5 {
        fsub(fadd(left_shift_spec(b, e, is_loop, 4), d7(44)), d7(17))
    } else if i == 6 {
        fsub(left_shift_spec(b, e, is_loop, 5), d7(19))
    } else if i == 7 {
        fsub(left_shift_spec(b, e, is_loop, 6), d7(21))
    } else if i == 8 {
        fsub(left_shift_spec(b, e, is_loop, 7), d7(23))
    } else {
        fsub(fadd(left_shift_spec(b, e, is_loop, 8), d7(43)), d7(27))
    }
}

/// Composite right-shift flags: the stack item at depth `i` shifts right.
pub open spec fn right_shift_spec(b: Seq<int>, e: Seq<int>, i: int) -> int
    decreases i,
{
    let d7 = |k: int| degree7_flag(b, k);
    if i <= 0 {
        fadd(
            fadd(fadd(d7_stage_b(b, 48), d7_stage_b(b, 56)), degree5_flag(b, e, 11)),
            movupn_spec(b),
        )
    } else if i == 1 {
        fadd(right_shift_spec(b, e, 0), degree6_flag(b, 4))
    } else if i == 2 {
        fsub(right_shift_spec(b, e, 1), d7(10))
    } else if i == 3 {
        fsub(right_shift_spec(b, e, 2), d7(12))
    } else if i == 4 {
        fsub(right_shift_spec(b, e, 3), d7(16))
    } else if i == 5 {
        fsub(right_shift_spec(b, e, 4), d7(18))
    } else if i == 6 {
        fsub(right_shift_spec(b, e, 5), d7(20))
    } else if i == 7 {
        fsub(right_shift_spec(b, e, 6), d7(22))
    } else {
        fsub(right_shift_spec(b, e, 7), d7(26))
    }
}

/// Aggregate right-shift flag (degree 6): prefix `011`, PUSH, or U32SPLIT.
pub open spec fn right_shift_total_spec(b: Seq<int>, e: Seq<int>) -> int {
    fadd(
        fadd(fmul(fmul(fnot(b[6]), b[5]), b[4]), degree5_flag(b, e, 11)),
        degree6_flag(b, 4),
    )
}

/// Aggregate left-shift flag (degree 5); DYNCALL is not included.
pub open spec fn left_shift_total_spec(b: Seq<int>, e: Seq<int>, is_loop: int) -> int {
    fadd(fadd(fadd(fadd(fadd(fmul(fmul(fnot(b[6]), b[5]), fnot(b[4])), fmul(fmul(fmul(fmul(b[6], fnot(b[5])), fnot(b[4])), b[3]), b[2])), fadd(degree5_flag(b, e, 4), degree5_flag(b, e, 5))), degree4_flag(b, e, 5)), fmul(degree4_flag(b, e, 4), is_loop)), degree5_flag(b, e, 8))
}

/// Control flow flag: SPAN, JOIN, SPLIT, LOOP, END, REPEAT, RESPAN, HALT, DYN, DYNCALL,
/// SYSCALL, CALL.
pub open spec fn control_flow_spec(b: Seq<int>, e: Seq<int>) -> int {
    fadd(fadd(fadd(fadd(fadd(fmul(fmul(e[0], fnot(b[3])), b[2]), fmul(e[1], b[4])), degree5_flag(b, e, 8)), degree5_flag(b, e, 12)), degree4_flag(b, e, 2)), degree4_flag(b, e, 3))
}

/// Overflow flag: `(depth - 16) * h0`.
pub open spec fn overflow_spec(depth: int, h0: int) -> int {
    fmul(fsub(depth, 16), h0)
}

/// The value of the degree 7 flag of the operation with opcode `op`.
pub open spec fn flag7(f: &OpFlags, op: u8) -> int {
    f.degree7_op_flags@[op as int]@
}

/// The value of the flag of the operation with opcode `op`, in the group of its degree.
pub open spec fn op_flag(f: &OpFlags, op: u8) -> int {
    if op < 64 {
        f.degree7_op_flags@[op as int]@
    } else if op < 80 {
        f.degree6_op_flags@[(op - 64) / 2]@
    } else if op < 96 {
        f.degree5_op_flags@[op - 80]@
    } else {
        f.degree4_op_flags@[(op - 96) / 4]@
    }
}

// DECODER ACCESS
// ================================================================================================

/// Access to the decoder columns that the operation flags are computed from.
pub trait DecoderAccess {
    /// Values of the 7 op bits.
    spec fn op_bits_view(&self) -> Seq<int>;

    /// Values of the 2 degree reduction columns.
    spec fn op_bits_extra_view(&self) -> Seq<int>;

    /// Value of the stack overflow helper `h0`.
    spec fn overflow_register_view(&self) -> int;

    /// Value of the stack depth column `b0`.
    spec fn stack_depth_view(&self) -> int;

    /// Value of the decoder's is-loop flag.
    spec fn is_loop_end_view(&self) -> int;

    /// Returns the value of `op_bit[index]`.
    fn op_bit(&self, index: usize) -> (r: Felt)
        requires
            index < 7,
        ensures
            r@ == self.op_bits_view()[index as int],
    ;

    /// Returns the value of `op_bit_extra[index]`.
    fn op_bit_extra(&self, index: usize) -> (r: Felt)
        requires
            index < 2,
        ensures
            r@ == self.op_bits_extra_view()[index as int],
    ;

    /// Returns the `h0` helper register.
    fn overflow_register(&self) -> (r: Felt)
        ensures
            r@ == self.overflow_register_view(),
    ;

    /// Returns the stack depth.
    fn stack_depth(&self) -> (r: Felt)
        ensures
            r@ == self.stack_depth_view(),
    ;

    /// Returns the is-loop flag.
    fn is_loop_end(&self) -> (r: Felt)
        ensures
            r@ == self.is_loop_end_view(),
    ;
}

/// Decoder access over a main trace row.
pub struct ExprDecoderAccess<'a> {
    pub row: &'a MainCols<Felt>,
}

impl<'a> ExprDecoderAccess<'a> {
    /// Creates a decoder access wrapper for a row.
    pub fn new(row: &'a MainCols<Felt>) -> (r: Self)
        ensures
            r.row == row,
    {
        ExprDecoderAccess { row }
    }
}

/// The op bit values of a row.
pub open spec fn row_op_bits(row: &MainCols<Felt>) -> Seq<int> {
    Seq::new(7, |i: int| row.decoder.op_bits@[i]@)
}

/// The degree reduction column values of a row.
pub open spec fn row_op_bits_extra(row: &MainCols<Felt>) -> Seq<int> {
    Seq::new(2, |i: int| row.decoder.extra@[i]@)
}

impl<'a> DecoderAccess for ExprDecoderAccess<'a> {
    open spec fn op_bits_view(&self) -> Seq<int> {
        row_op_bits(self.row)
    }

    open spec fn op_bits_extra_view(&self) -> Seq<int> {
        row_op_bits_extra(self.row)
    }

    open spec fn overflow_register_view(&self) -> int {
        self.row.stack.h0@
    }

    open spec fn stack_depth_view(&self) -> int {
        self.row.stack.b0@
    }

    open spec fn is_loop_end_view(&self) -> int {
        self.row.decoder.hasher_state@[5]@
    }

    fn op_bit(&self, index: usize) -> (r: Felt) {
        self.row.decoder.op_bits[index]
    }

    fn op_bit_extra(&self, index: usize) -> (r: Felt) {
        self.row.decoder.extra[index]
    }

    fn overflow_register(&self) -> (r: Felt) {
        self.row.stack.h0
    }

    fn stack_depth(&self) -> (r: Felt) {
        self.row.stack.b0
    }

    fn is_loop_end(&self) -> (r: Felt) {
        self.row.decoder.hasher_state[5]
    }
}

// OPERATION FLAGS
// ================================================================================================

/// An op bit and its negation.
#[derive(Clone, Copy)]
pub struct Op {
    pub bit: Felt,
    pub not: Felt,
}

impl Op {
    /// The bit.
    pub fn is(&self) -> (r: Felt)
        ensures
            r == self.bit,
    {
        self.bit
    }

    /// The negated bit.
    pub fn not(&self) -> (r: Felt)
        ensures
            r == self.not,
    {
        self.not
    }
}

/// Operation flags for all stack operations.
pub struct OpFlags {
    pub degree7_op_flags: Vec<Felt>,
    pub degree6_op_flags: Vec<Felt>,
    pub degree5_op_flags: Vec<Felt>,
    pub degree4_op_flags: Vec<Felt>,
    pub no_shift_flags: Vec<Felt>,
    pub left_shift_flags: Vec<Felt>,
    pub right_shift_flags: Vec<Felt>,
    pub left_shift: Felt,
    pub right_shift: Felt,
    pub control_flow: Felt,
    pub overflow: Felt,
    pub u32_rc_op: Felt,
}

impl OpFlags {
    /// The flags are those of the op bits `b`, reduction columns `e`, overflow helper `h0`,
    /// stack depth and is-loop flag.
    pub open spec fn computed_from(
        &self,
        b: Seq<int>,
        e: Seq<int>,
        h0: int,
        depth: int,
        is_loop: int,
    ) -> bool {
        &&& self.degree7_op_flags@.len() == NUM_DEGREE_7_OPS
        &&& self.degree6_op_flags@.len() == NUM_DEGREE_6_OPS
        &&& self.degree5_op_flags@.len() == NUM_DEGREE_5_OPS
        &&& self.degree4_op_flags@.len() == NUM_DEGREE_4_OPS
        &&& self.no_shift_flags@.len() == NUM_STACK_IMPACT_FLAGS
        &&& self.left_shift_flags@.len() == NUM_STACK_IMPACT_FLAGS
        &&& self.right_shift_flags@.len() == NUM_STACK_IMPACT_FLAGS
        &&& forall|k: int| 0 <= k < 64 ==> #[trigger] self.degree7_op_flags@[k]@ == degree7_flag(b, k)
        &&& forall|j: int| 0 <= j < 8 ==> #[trigger] self.degree6_op_flags@[j]@ == degree6_flag(b, j)
        &&& forall|j: int| 0 <= j < 16 ==> #[trigger] self.degree5_op_flags@[j]@ == degree5_flag(b, e, j)
        &&& forall|j: int| 0 <= j < 8 ==> #[trigger] self.degree4_op_flags@[j]@ == degree4_flag(b, e, j)
        &&& forall|i: int| 0 <= i < 16 ==> #[trigger] self.no_shift_flags@[i]@ == no_shift_spec(b, e, is_loop, i)
        &&& forall|i: int| 0 <= i < 16 ==> #[trigger] self.left_shift_flags@[i]@ == left_shift_spec(b, e, is_loop, i)
        &&& forall|i: int| 0 <= i < 16 ==> #[trigger] self.right_shift_flags@[i]@ == right_shift_spec(b, e, i)
        &&& self.left_shift@ == left_shift_total_spec(b, e, is_loop)
        &&& self.right_shift@ == right_shift_total_spec(b, e)
        &&& self.control_flow@ == control_flow_spec(b, e)
        &&& self.overflow@ == overflow_spec(depth, h0)
        &&& self.u32_rc_op@ == fmul(d7_stage_a(b, 0), b[6])
    }
}


/// A vector of `n` zeros.
pub fn zeros(n: usize) -> (r: Vec<Felt>)
    ensures
        r@.len() == n,
        forall|i: int| 0 <= i < n ==> #[trigger] r@[i]@ == 0,
{
    let mut v: Vec<Felt> = Vec::new();
    let mut i: usize = 0;
    while i < n
        invariant
            i <= n,
            v@.len() == i,
            forall|j: int| 0 <= j < i ==> #[trigger] v@[j]@ == 0,
        decreases n - i,
    {
        v.push(Felt::zero());
        i += 1;
    }
    v
}

impl Op {
    /// An op bit together with its negation `1 - bit`.
    pub fn new(bit: Felt) -> (r: Op)
        ensures
            r.bit == bit,
            r.not@ == fnot(bit@),
    {
        Op { bit, not: bit.not() }
    }
}

/// Bits of small indices: the low bits of `j` are those of `j % 8` and `j % 4`.
proof fn lemma_low_bits(j: int)
    requires
        0 <= j < 16,
    ensures
        kbit(j % 8, 1) == kbit(j, 1),
        kbit(j % 8, 2) == kbit(j, 2),
        kbit(j % 8, 4) == kbit(j, 4),
        kbit(j, 8) == (j >= 8),
        kbit(j % 4, 1) == kbit(j, 1),
        kbit(j % 4, 2) == kbit(j, 2),
        j < 8 ==> kbit(j, 4) == (j >= 4),
{
}

/// The op bits and their negations match the bit values `b`.
pub open spec fn ops_match(op: [Op; 7], b: Seq<int>) -> bool {
    forall|i: int| 0 <= i < 7 ==> #[trigger] op@[i].bit@ == b[i] && op@[i].not@ == fnot(b[i])
}

proof fn lemma_ops_match(op: [Op; 7], b: Seq<int>)
    requires
        ops_match(op, b),
    ensures
        op@[0].bit@ == b[0] && op@[0].not@ == fnot(b[0]),
        op@[1].bit@ == b[1] && op@[1].not@ == fnot(b[1]),
        op@[2].bit@ == b[2] && op@[2].not@ == fnot(b[2]),
        op@[3].bit@ == b[3] && op@[3].not@ == fnot(b[3]),
        op@[4].bit@ == b[4] && op@[4].not@ == fnot(b[4]),
        op@[5].bit@ == b[5] && op@[5].not@ == fnot(b[5]),
        op@[6].bit@ == b[6] && op@[6].not@ == fnot(b[6]),
{
    assert(op@[0].bit@ == b[0]);
    assert(op@[1].bit@ == b[1]);
    assert(op@[2].bit@ == b[2]);
    assert(op@[3].bit@ == b[3]);
    assert(op@[4].bit@ == b[4]);
    assert(op@[5].bit@ == b[5]);
    assert(op@[6].bit@ == b[6]);
}

/// Within one block `[i, i + 2 * half)` of the split, the multiples of `half` are `i` and
/// `i + half`; the next block starts at a multiple of `2 * half`.
proof fn lemma_split_index(i: int, half: int, k: int)
    requires
        half == 1 || half == 2 || half == 4 || half == 8,
        0 <= i < 64,
        i % (2 * half) == 0,
    ensures
        i + 2 * half <= 64,
        (i + 2 * half) % (2 * half) == 0,
        i % half == 0,
        (i + half) % half == 0,
        0 <= k < i + 2 * half && k % half == 0 ==> k < i || k == i || k == i + half,
        k % (2 * half) == 0 ==> k % half == 0,
        k % (2 * half) == 0 && k >= i ==> k == i || k >= i + 2 * half,
{
    let q: int = i / (2 * half);
    vstd::arithmetic::div_mod::lemma_fundamental_div_mod(i, 2 * half);
    assert(i == q * (2 * half)) by (nonlinear_arith)
        requires
            i == (2 * half) * q + i % (2 * half),
            i % (2 * half) == 0,
    ;
    assert(q * (2 * half) + 2 * half == (q + 1) * (2 * half)) by (nonlinear_arith);
    assert(q * (2 * half) + 2 * half <= 64) by (nonlinear_arith)
        requires
            half == 1 || half == 2 || half == 4 || half == 8,
            i == q * (2 * half),
            0 <= i < 64,
    ;
    assert(((q + 1) * (2 * half)) % (2 * half) == 0) by (nonlinear_arith)
        requires
            half > 0,
    ;
    if half == 1 {
    } else if half == 2 {
    } else if half == 4 {
    } else {
    }
}

/// Applies one level of the degree 7 flag hierarchy: every flag at a multiple of `2 * half`
/// is split into the flags at offsets 0 and `half`, multiplied by `not` and `yes` respectively.
fn split_flags(
    d7: &mut Vec<Felt>,
    half: usize,
    not: Felt,
    yes: Felt,
    Ghost(prev): Ghost<spec_fn(int) -> int>,
    Ghost(next): Ghost<spec_fn(int) -> int>,
)
    requires
        old(d7)@.len() == 64,
        half == 1 || half == 2 || half == 4 || half == 8,
        forall|k: int| 0 <= k < 64 && k % (2 * half) as int == 0 ==> #[trigger] old(d7)@[k]@ == prev(k),
        forall|k: int|
            0 <= k < 64 && k % (2 * half) as int == 0 ==> #[trigger] next(k) == fmul(prev(k), not@),
        forall|k: int|
            0 <= k < 64 && k % (2 * half) as int == 0 ==> #[trigger] next(k + half) == fmul(prev(k), yes@),
    ensures
        final(d7)@.len() == 64,
        forall|k: int| 0 <= k < 64 && k % half as int == 0 ==> #[trigger] final(d7)@[k]@ == next(k),
{
    let step = 2 * half;
    let mut i: usize = 0;
    while i < 64
        invariant
            d7@.len() == 64,
            step == 2 * half,
            half == 1 || half == 2 || half == 4 || half == 8,
            i % step == 0,
            i <= 64,
            forall|k: int| 0 <= k < i && k % half as int == 0 ==> #[trigger] d7@[k]@ == next(k),
            forall|k: int| i <= k < 64 && k % step as int == 0 ==> #[trigger] d7@[k]@ == prev(k),
            forall|k: int|
                0 <= k < 64 && k % step as int == 0 ==> #[trigger] next(k) == fmul(prev(k), not@),
            forall|k: int|
                0 <= k < 64 && k % step as int == 0 ==> #[trigger] next(k + half) == fmul(prev(k), yes@),
        decreases 64 - i,
    {
        proof {
            lemma_split_index(i as int, half as int, 0);
        }
        let base = d7[i];
        assert(base@ == prev(i as int));
        assert(next(i + half) == fmul(prev(i as int), yes@));
        assert(next(i as int) == fmul(prev(i as int), not@));
        d7.set(i + half, base.mul(yes));
        d7.set(i, base.mul(not));
        proof {
            assert forall|k: int| 0 <= k < i + step && k % half as int == 0 implies #[trigger] d7@[k]@ == next(k) by {
                lemma_split_index(i as int, half as int, k);
            }
            assert forall|k: int| i + step <= k < 64 && k % step as int == 0 implies #[trigger] d7@[k]@ == prev(k) by {
                lemma_split_index(i as int, half as int, k);
            }
            lemma_split_index(i as int, half as int, i as int);
        }
        i += step;
    }
}

impl OpFlags {
    /// Computes all operation flags from the decoder columns.
    ///
    /// Degree 7 flags are built hierarchically from the most significant bits; degree 6, 5 and
    /// 4 flags share common prefixes and use the degree reduction columns.
    pub fn new<D: DecoderAccess>(frame: D) -> (r: OpFlags)
        ensures
            r.computed_from(
                frame.op_bits_view(),
                frame.op_bits_extra_view(),
                frame.overflow_register_view(),
                frame.stack_depth_view(),
                frame.is_loop_end_view(),
            ),
    {
        let ghost b = frame.op_bits_view();
        let ghost e = frame.op_bits_extra_view();

        let op: [Op; 7] = [
            Op::new(frame.op_bit(0)),
            Op::new(frame.op_bit(1)),
            Op::new(frame.op_bit(2)),
            Op::new(frame.op_bit(3)),
            Op::new(frame.op_bit(4)),
            Op::new(frame.op_bit(5)),
            Op::new(frame.op_bit(6)),
        ];
        assert(ops_match(op, b));

        // Low-degree prefix selectors.
        let prefix_010 = op[6].not().mul(op[5].is()).mul(op[4].not());
        let prefix_011 = op[6].not().mul(op[5].is()).mul(op[4].is());
        let add3_madd_prefix = op[6].is().mul(op[5].not()).mul(op[4].not()).mul(op[3].is()).mul(
            op[2].is(),
        );

        // --- Degree 7 operation flags ---
        let mut d7 = zeros(NUM_DEGREE_7_OPS);
        d7.set(0, op[5].not().mul(op[4].not()));
        d7.set(16, op[5].not().mul(op[4].is()));
        d7.set(32, op[5].is().mul(op[4].not()));
        d7.set(48, op[5].is().mul(op[4].is()));
        assert(forall|k: int| 0 <= k < 64 && k % 16 == 0 ==> #[trigger] d7@[k]@ == d7_stage_a(b, k));

        // Prefix `100`: all degree 6 u32 operations; prefix `1000`: u32 arithmetic.
        let f100 = d7[0].mul(op[6].is());
        let f1000 = f100.mul(op[3].not());

        // Add the fourth most significant bit along with the most significant bit.
        let not_6_not_3 = op[6].not().mul(op[3].not());
        let not_6_yes_3 = op[6].not().mul(op[3].is());
        split_flags(
            &mut d7,
            8,
            not_6_not_3,
            not_6_yes_3,
            Ghost(|k: int| d7_stage_a(b, k)),
            Ghost(|k: int| d7_stage_b(b, k)),
        );

        let f011 = d7[48].add(d7[56]);
        let f0000 = d7[0];
        let f0100 = d7[32];

        // Add the fifth, sixth and least significant bits.
        split_flags(
            &mut d7,
            4,
            op[2].not(),
            op[2].is(),
            Ghost(|k: int| d7_stage_b(b, k)),
            Ghost(|k: int| d7_stage_c(b, k)),
        );
        split_flags(
            &mut d7,
            2,
            op[1].not(),
            op[1].is(),
            Ghost(|k: int| d7_stage_c(b, k)),
            Ghost(|k: int| d7_stage_d(b, k)),
        );

        // Cache flags for mov{up/dn}{2-8}, swapw{2-3} operations.
        let mov2_flag = d7[10];
        let mov3_flag = d7[12];
        let mov4_flag = d7[16];
        let mov5_flag = d7[18];
        let mov6_flag = d7[20];
        let mov7_flag = d7[22];
        let mov8_flag = d7[26];
        let swapwx_flag = d7[28];
        let adv_popw_expacc = d7[14];

        split_flags(
            &mut d7,
            1,
            op[0].not(),
            op[0].is(),
            Ghost(|k: int| d7_stage_d(b, k)),
            Ghost(|k: int| degree7_flag(b, k)),
        );

        let ext2mul_flag = d7[25];

        // Items from the first position onwards are copied over (excludes NOOP).
        let no_change_1_flag = f0000.sub(d7[0]);
        // Items from the second position onwards shift left (excludes ASSERT).
        let left_change_1_flag = f0100.sub(d7[32]);

        let d6 = Self::degree6_flags(&op, Ghost(b));
        let degree_5_flag = frame.op_bit_extra(0);
        let d5 = Self::degree5_flags(&op, degree_5_flag, Ghost(b), Ghost(e));
        let degree_4_flag = frame.op_bit_extra(1);
        let d4 = Self::degree4_flags(&op, degree_4_flag, Ghost(b), Ghost(e));

        let is_loop_end = frame.is_loop_end();
        Self::composite(
            d7, d6, d5, d4, is_loop_end, no_change_1_flag, left_change_1_flag, f1000, f011,
            mov2_flag, mov3_flag, mov4_flag, mov5_flag, mov6_flag, mov7_flag, mov8_flag,
            swapwx_flag, adv_popw_expacc, ext2mul_flag, prefix_010, prefix_011, add3_madd_prefix,
            degree_5_flag, degree_4_flag, op[4], op[3], op[2],
            frame.stack_depth(), frame.overflow_register(), f100, Ghost(b), Ghost(e),
        )
    }

    /// Degree 6 flags: prefix `100`, op bit 0 unused.
    fn degree6_flags(op: &[Op; 7], Ghost(b): Ghost<Seq<int>>) -> (d6: Vec<Felt>)
        requires
            ops_match(*op, b),
        ensures
            d6@.len() == 8,
            forall|j: int| 0 <= j < 8 ==> #[trigger] d6@[j]@ == degree6_flag(b, j),
    {
        proof {
            lemma_ops_match(*op, b);
        }
        let degree_6_flag = op[6].is().mul(op[5].not()).mul(op[4].not());
        let not_2_not_3 = op[2].not().mul(op[3].not());
        let yes_2_not_3 = op[2].is().mul(op[3].not());
        let not_2_yes_3 = op[2].not().mul(op[3].is());
        let yes_2_yes_3 = op[2].is().mul(op[3].is());

        let mut d6: Vec<Felt> = Vec::new();
        d6.push(op[1].not().mul(not_2_not_3)); // U32ADD
        d6.push(op[1].is().mul(not_2_not_3)); // U32SUB
        d6.push(op[1].not().mul(yes_2_not_3)); // U32MUL
        d6.push(op[1].is().mul(yes_2_not_3)); // U32DIV
        d6.push(op[1].not().mul(not_2_yes_3)); // U32SPLIT
        d6.push(op[1].is().mul(not_2_yes_3)); // U32ASSERT2
        d6.push(op[1].not().mul(yes_2_yes_3)); // U32ADD3
        d6.push(op[1].is().mul(yes_2_yes_3)); // U32MADD
        assert(forall|k: int| 0 <= k < 8 ==> #[trigger] d6@[k]@ == degree6_low(b, k));
        let mut j: usize = 0;
        while j < 8
            invariant
                j <= 8,
                d6@.len() == 8,
                degree_6_flag@ == degree6_prefix(b),
                forall|k: int| 0 <= k < j ==> #[trigger] d6@[k]@ == degree6_flag(b, k),
                forall|k: int| j <= k < 8 ==> #[trigger] d6@[k]@ == degree6_low(b, k),
            decreases 8 - j,
        {
            let f = d6[j].mul(degree_6_flag);
            d6.set(j, f);
            j += 1;
        }
        d6
    }

    /// Degree 5 flags: use the degree reduction column `e0`.
    fn degree5_flags(op: &[Op; 7], degree_5_flag: Felt, Ghost(b): Ghost<Seq<int>>, Ghost(e): Ghost<Seq<int>>) -> (d5: Vec<Felt>)
        requires
            ops_match(*op, b),
            degree_5_flag@ == e[0],
        ensures
            d5@.len() == 16,
            forall|j: int| 0 <= j < 16 ==> #[trigger] d5@[j]@ == degree5_flag(b, e, j),
    {
        proof {
            lemma_ops_match(*op, b);
        }
        let not_0_not_1 = op[0].not().mul(op[1].not());
        let yes_0_not_1 = op[0].is().mul(op[1].not());
        let not_0_yes_1 = op[0].not().mul(op[1].is());
        let yes_0_yes_1 = op[0].is().mul(op[1].is());

        let mut d5: Vec<Felt> = Vec::new();
        d5.push(not_0_not_1.mul(op[2].not())); // HPERM
        d5.push(yes_0_not_1.mul(op[2].not())); // MPVERIFY
        d5.push(not_0_yes_1.mul(op[2].not())); // PIPE
        d5.push(yes_0_yes_1.mul(op[2].not())); // MSTREAM
        d5.push(not_0_not_1.mul(op[2].is())); // SPLIT
        d5.push(yes_0_not_1.mul(op[2].is())); // LOOP
        d5.push(not_0_yes_1.mul(op[2].is())); // SPAN
        d5.push(yes_0_yes_1.mul(op[2].is())); // JOIN
        assert(forall|k: int| 0 <= k < 8 ==> #[trigger] d5@[k]@ == degree5_low(b, k));

        // The second half shares the same lower 3 bits.
        let mut j: usize = 0;
        while j < 8
            invariant
                j <= 8,
                d5@.len() == 8 + j,
                forall|k: int| 0 <= k < 8 + j ==> #[trigger] d5@[k]@ == degree5_low(b, k % 8),
            decreases 8 - j,
        {
            let f = d5[j];
            d5.push(f);
            j += 1;
        }

        let deg_5_not_3 = op[3].not().mul(degree_5_flag);
        let deg_5_yes_3 = op[3].is().mul(degree_5_flag);
        let mut j: usize = 0;
        while j < 16
            invariant
                j <= 16,
                d5@.len() == 16,
                deg_5_not_3@ == fmul(fnot(b[3]), e[0]),
                deg_5_yes_3@ == fmul(b[3], e[0]),
                forall|k: int| 0 <= k < j ==> #[trigger] d5@[k]@ == degree5_flag(b, e, k),
                forall|k: int| j <= k < 16 ==> #[trigger] d5@[k]@ == degree5_low(b, k % 8),
            decreases 16 - j,
        {
            proof {
                lemma_low_bits(j as int);
            }
            let f = if j < 8 {
                d5[j].mul(deg_5_not_3)
            } else {
                d5[j].mul(deg_5_yes_3)
            };
            d5.set(j, f);
            j += 1;
        }
        d5
    }

    /// Degree 4 flags: use the degree reduction column `e1`; op bits 0 and 1 are unused.
    fn degree4_flags(op: &[Op; 7], degree_4_flag: Felt, Ghost(b): Ghost<Seq<int>>, Ghost(e): Ghost<Seq<int>>) -> (d4: Vec<Felt>)
        requires
            ops_match(*op, b),
            degree_4_flag@ == e[1],
        ensures
            d4@.len() == 8,
            forall|j: int| 0 <= j < 8 ==> #[trigger] d4@[j]@ == degree4_flag(b, e, j),
    {
        proof {
            lemma_ops_match(*op, b);
        }
        let mut d4: Vec<Felt> = Vec::new();
        d4.push(op[2].not().mul(op[3].not())); // MRUPDATE
        d4.push(op[2].is().mul(op[3].not())); // CRYPTOSTREAM
        d4.push(op[2].not().mul(op[3].is())); // SYSCALL
        d4.push(op[2].is().mul(op[3].is())); // CALL
        assert(forall|k: int| 0 <= k < 4 ==> #[trigger] d4@[k]@ == degree4_low(b, k));

        // The second half shares the same lower 4 bits.
        let mut j: usize = 0;
        while j < 4
            invariant
                j <= 4,
                d4@.len() == 4 + j,
                forall|k: int| 0 <= k < 4 + j ==> #[trigger] d4@[k]@ == degree4_low(b, k % 4),
            decreases 4 - j,
        {
            let f = d4[j];
            d4.push(f);
            j += 1;
        }
        let deg_4_not_4 = op[4].not().mul(degree_4_flag);
        let deg_4_yes_4 = op[4].is().mul(degree_4_flag);
        let mut j: usize = 0;
        while j < 8
            invariant
                j <= 8,
                d4@.len() == 8,
                deg_4_not_4@ == fmul(fnot(b[4]), e[1]),
                deg_4_yes_4@ == fmul(b[4], e[1]),
                forall|k: int| 0 <= k < j ==> #[trigger] d4@[k]@ == degree4_flag(b, e, k),
                forall|k: int| j <= k < 8 ==> #[trigger] d4@[k]@ == degree4_low(b, k % 4),
            decreases 8 - j,
        {
            proof {
                lemma_low_bits(j as int);
            }
            let f = if j < 4 {
                d4[j].mul(deg_4_not_4)
            } else {
                d4[j].mul(deg_4_yes_4)
            };
            d4.set(j, f);
            j += 1;
        }
        d4
    }
}

impl OpFlags {
    /// Builds the composite stack-shift flags from the individual operation flags.
    #[verifier::rlimit(60)]
    fn composite(
        d7: Vec<Felt>,
        d6: Vec<Felt>,
        d5: Vec<Felt>,
        d4: Vec<Felt>,
        is_loop_end: Felt,
        no_change_1_flag: Felt,
        left_change_1_flag: Felt,
        f1000: Felt,
        f011: Felt,
        mov2_flag: Felt,
        mov3_flag: Felt,
        mov4_flag: Felt,
        mov5_flag: Felt,
        mov6_flag: Felt,
        mov7_flag: Felt,
        mov8_flag: Felt,
        swapwx_flag: Felt,
        adv_popw_expacc: Felt,
        ext2mul_flag: Felt,
        prefix_010: Felt,
        prefix_011: Felt,
        add3_madd_prefix: Felt,
        degree_5_flag: Felt,
        degree_4_flag: Felt,
        op4: Op,
        op3: Op,
        op2: Op,
        stack_depth: Felt,
        overflow_register: Felt,
        f100: Felt,
        Ghost(b): Ghost<Seq<int>>,
        Ghost(e): Ghost<Seq<int>>,
    ) -> (r: OpFlags)
        requires
            d7@.len() == 64,
            d6@.len() == 8,
            d5@.len() == 16,
            d4@.len() == 8,
            forall|k: int| 0 <= k < 64 ==> #[trigger] d7@[k]@ == degree7_flag(b, k),
            forall|j: int| 0 <= j < 8 ==> #[trigger] d6@[j]@ == degree6_flag(b, j),
            forall|j: int| 0 <= j < 16 ==> #[trigger] d5@[j]@ == degree5_flag(b, e, j),
            forall|j: int| 0 <= j < 8 ==> #[trigger] d4@[j]@ == degree4_flag(b, e, j),
            no_change_1_flag@ == fsub(d7_stage_b(b, 0), degree7_flag(b, 0)),
            left_change_1_flag@ == fsub(d7_stage_b(b, 32), degree7_flag(b, 32)),
            f100@ == fmul(d7_stage_a(b, 0), b[6]),
            f1000@ == fmul(fmul(d7_stage_a(b, 0), b[6]), fnot(b[3])),
            f011@ == fadd(d7_stage_b(b, 48), d7_stage_b(b, 56)),
            mov2_flag@ == d7_stage_d(b, 10),
            mov3_flag@ == d7_stage_d(b, 12),
            mov4_flag@ == d7_stage_d(b, 16),
            mov5_flag@ == d7_stage_d(b, 18),
            mov6_flag@ == d7_stage_d(b, 20),
            mov7_flag@ == d7_stage_d(b, 22),
            mov8_flag@ == d7_stage_d(b, 26),
            swapwx_flag@ == d7_stage_d(b, 28),
            adv_popw_expacc@ == d7_stage_d(b, 14),
            ext2mul_flag@ == degree7_flag(b, 25),
            prefix_010@ == fmul(fmul(fnot(b[6]), b[5]), fnot(b[4])),
            prefix_011@ == fmul(fmul(fnot(b[6]), b[5]), b[4]),
            add3_madd_prefix@ == fmul(fmul(fmul(fmul(b[6], fnot(b[5])), fnot(b[4])), b[3]), b[2]),
            degree_5_flag@ == e[0],
            degree_4_flag@ == e[1],
            op4.bit@ == b[4],
            op3.not@ == fnot(b[3]),
            op2.bit@ == b[2],
        ensures
            r.computed_from(b, e, overflow_register@, stack_depth@, is_loop_end@),
    {
        let ghost is_loop = is_loop_end@;
        let shift_left_on_end = d4[4].mul(is_loop_end);

        // --- No shift composite flags ---
        let mut no_shift: Vec<Felt> = Vec::new();
        let ns0 = d7[0].add(d6[5]).add(d5[1]).add(d5[6]).add(d5[7]).add(d7[31]).add(d4[6]).add(
            d4[7],
        ).add(d4[3]).add(d4[4].mul(is_loop_end.not()));
        assert(ns0@ == no_shift_spec(b, e, is_loop, 0));
        no_shift.push(ns0);
        let ns1 = ns0.add(no_change_1_flag);
        assert(ns1@ == no_shift_spec(b, e, is_loop, 1));
        no_shift.push(ns1);
        let ns2 = ns1.add(d7[8]).add(f1000);
        assert(ns2@ == no_shift_spec(b, e, is_loop, 2));
        no_shift.push(ns2);
        let ns3 = ns2.add(mov2_flag);
        assert(ns3@ == no_shift_spec(b, e, is_loop, 3));
        no_shift.push(ns3);
        let ns4 = ns3.add(mov3_flag).add(adv_popw_expacc).add(swapwx_flag).add(ext2mul_flag).add(
            d4[0],
        );
        assert(ns4@ == no_shift_spec(b, e, is_loop, 4));
        no_shift.push(ns4);
        let ns5 = ns4.add(mov4_flag);
        assert(ns5@ == no_shift_spec(b, e, is_loop, 5));
        no_shift.push(ns5);
        let ns6 = ns5.add(mov5_flag);
        assert(ns6@ == no_shift_spec(b, e, is_loop, 6));
        no_shift.push(ns6);
        let ns7 = ns6.add(mov6_flag);
        assert(ns7@ == no_shift_spec(b, e, is_loop, 7));
        no_shift.push(ns7);
        let ns8 = ns7.add(mov7_flag).add(d7[24]).sub(d7[28]);
        assert(ns8@ == no_shift_spec(b, e, is_loop, 8));
        no_shift.push(ns8);
        let ns9 = ns8.add(mov8_flag);
        assert(ns9@ == no_shift_spec(b, e, is_loop, 9));
        no_shift.push(ns9);
        assert(ns9@ == no_shift_spec(b, e, is_loop, 10));
        no_shift.push(ns9);
        assert(ns9@ == no_shift_spec(b, e, is_loop, 11));
        no_shift.push(ns9);
        // SWAPW3; SWAPW2; HPERM
        let ns12 = ns9.sub(d7[29]).add(d7[28]).add(d5[0]);
        assert(ns12@ == no_shift_spec(b, e, is_loop, 12));
        no_shift.push(ns12);
        assert(ns12@ == no_shift_spec(b, e, is_loop, 13));
        no_shift.push(ns12);
        assert(ns12@ == no_shift_spec(b, e, is_loop, 14));
        no_shift.push(ns12);
        assert(ns12@ == no_shift_spec(b, e, is_loop, 15));
        no_shift.push(ns12);
        assert(forall|i: int| 0 <= i < 16 ==> #[trigger] no_shift@[i]@ == no_shift_spec(b, e, is_loop, i));

        // --- Left shift composite flags ---
        let movdnn_flag = d7[11].add(d7[13]).add(d7[17]).add(d7[19]).add(d7[21]).add(d7[23]).add(
            d7[27],
        );
        assert(movdnn_flag@ == movdnn_spec(b));
        let split_loop_flag = d5[4].add(d5[5]);
        let add3_madd_flag = d6[6].add(d6[7]);

        let mut left: Vec<Felt> = Vec::new();
        let l0 = Felt::zero();
        assert(l0@ == left_shift_spec(b, e, is_loop, 0));
        left.push(l0);
        let l1 = d7[32].add(movdnn_flag).add(d7[41]).add(d7[45]).add(d7[47]).add(d7[46]).add(
            split_loop_flag,
        ).add(shift_left_on_end).add(d5[8]).add(d5[12]);
        assert(l1@ == left_shift_spec(b, e, is_loop, 1));
        left.push(l1);
        assert(left@[0]@ == left_shift_spec(b, e, is_loop, 0));
        let l2 = l1.add(left_change_1_flag);
        assert(l2@ == left_shift_spec(b, e, is_loop, 2));
        left.push(l2);
        let l3 = l2.add(add3_madd_flag).add(d7[42]).sub(d7[11]);
        assert(l3@ == left_shift_spec(b, e, is_loop, 3));
        left.push(l3);
        let l4 = l3.sub(d7[13]);
        assert(l4@ == left_shift_spec(b, e, is_loop, 4));
        left.push(l4);
        let l5 = l4.add(d7[44]).sub(d7[17]);
        assert(l5@ == left_shift_spec(b, e, is_loop, 5));
        left.push(l5);
        let l6 = l5.sub(d7[19]);
        assert(l6@ == left_shift_spec(b, e, is_loop, 6));
        left.push(l6);
        let l7 = l6.sub(d7[21]);
        assert(l7@ == left_shift_spec(b, e, is_loop, 7));
        left.push(l7);
        let l8 = l7.sub(d7[23]);
        assert(l8@ == left_shift_spec(b, e, is_loop, 8));
        left.push(l8);
        let l9 = l8.add(d7[43]).sub(d7[27]);
        assert(l9@ == left_shift_spec(b, e, is_loop, 9));
        assert(l9@ == left_shift_spec(b, e, is_loop, 9));
        left.push(l9);
        assert(l9@ == left_shift_spec(b, e, is_loop, 10));
        left.push(l9);
        assert(l9@ == left_shift_spec(b, e, is_loop, 11));
        left.push(l9);
        assert(l9@ == left_shift_spec(b, e, is_loop, 12));
        left.push(l9);
        assert(l9@ == left_shift_spec(b, e, is_loop, 13));
        left.push(l9);
        assert(l9@ == left_shift_spec(b, e, is_loop, 14));
        left.push(l9);
        assert(l9@ == left_shift_spec(b, e, is_loop, 15));
        left.push(l9);
        assert(forall|i: int| 0 <= i < 16 ==> #[trigger] left@[i]@ == left_shift_spec(b, e, is_loop, i));

        // --- Right shift composite flags ---
        let movupn_flag = d7[10].add(d7[12]).add(d7[16]).add(d7[18]).add(d7[20]).add(d7[22]).add(
            d7[26],
        );
        assert(movupn_flag@ == movupn_spec(b));
        let mut right: Vec<Felt> = Vec::new();
        let r0 = f011.add(d5[11]).add(movupn_flag);
        assert(r0@ == right_shift_spec(b, e, 0));
        right.push(r0);
        let r1 = r0.add(d6[4]);
        assert(r1@ == right_shift_spec(b, e, 1));
        right.push(r1);
        let r2 = r1.sub(d7[10]);
        assert(r2@ == right_shift_spec(b, e, 2));
        right.push(r2);
        let r3 = r2.sub(d7[12]);
        assert(r3@ == right_shift_spec(b, e, 3));
        right.push(r3);
        let r4 = r3.sub(d7[16]);
        assert(r4@ == right_shift_spec(b, e, 4));
        right.push(r4);
        let r5 = r4.sub(d7[18]);
        assert(r5@ == right_shift_spec(b, e, 5));
        right.push(r5);
        let r6 = r5.sub(d7[20]);
        assert(r6@ == right_shift_spec(b, e, 6));
        right.push(r6);
        let r7 = r6.sub(d7[22]);
        assert(r7@ == right_shift_spec(b, e, 7));
        right.push(r7);
        let r8 = r7.sub(d7[26]);
        assert(r8@ == right_shift_spec(b, e, 8));
        assert(r8@ == right_shift_spec(b, e, 8));
        right.push(r8);
        assert(r8@ == right_shift_spec(b, e, 9));
        right.push(r8);
        assert(r8@ == right_shift_spec(b, e, 10));
        right.push(r8);
        assert(r8@ == right_shift_spec(b, e, 11));
        right.push(r8);
        assert(r8@ == right_shift_spec(b, e, 12));
        right.push(r8);
        assert(r8@ == right_shift_spec(b, e, 13));
        right.push(r8);
        assert(r8@ == right_shift_spec(b, e, 14));
        right.push(r8);
        assert(r8@ == right_shift_spec(b, e, 15));
        right.push(r8);
        assert(forall|i: int| 0 <= i < 16 ==> #[trigger] right@[i]@ == right_shift_spec(b, e, i));

        // --- Other composite flags ---
        let right_shift = prefix_011.add(d5[11]).add(d6[4]);
        let left_shift = prefix_010.add(add3_madd_prefix).add(split_loop_flag).add(d4[5]).add(
            shift_left_on_end,
        ).add(d5[8]);
        assert(left_shift@ == left_shift_total_spec(b, e, is_loop));
        let control_flow = degree_5_flag.mul(op3.not()).mul(op2.is()).add(
            degree_4_flag.mul(op4.is()),
        ).add(d5[8]).add(d5[12]).add(d4[2]).add(d4[3]);
        assert(control_flow@ == control_flow_spec(b, e));
        let overflow = stack_depth.sub(Felt::new(16)).mul(overflow_register);

        OpFlags {
            degree7_op_flags: d7,
            degree6_op_flags: d6,
            degree5_op_flags: d5,
            degree4_op_flags: d4,
            no_shift_flags: no_shift,
            left_shift_flags: left,
            right_shift_flags: right,
            left_shift,
            right_shift,
            control_flow,
            overflow,
            u32_rc_op: f100,
        }
    }
}

/// Maps the opcode of an operation to its index in its degree flag array.
pub fn get_op_index(opcode: u8) -> (r: usize)
    ensures
        opcode <= DEGREE_7_OPCODE_ENDS ==> r == opcode,
        DEGREE_7_OPCODE_ENDS < opcode <= DEGREE_6_OPCODE_ENDS ==> r == (opcode - DEGREE_6_OPCODE_STARTS) / 2,
        DEGREE_6_OPCODE_ENDS < opcode <= DEGREE_5_OPCODE_ENDS ==> r == opcode - DEGREE_5_OPCODE_STARTS,
        DEGREE_5_OPCODE_ENDS < opcode ==> r == (opcode - DEGREE_4_OPCODE_STARTS) / 4,
{
    let opcode = opcode as usize;
    if opcode <= DEGREE_7_OPCODE_ENDS {
        opcode
    } else if opcode <= DEGREE_6_OPCODE_ENDS {
        (opcode - DEGREE_6_OPCODE_STARTS) / 2
    } else if opcode <= DEGREE_5_OPCODE_ENDS {
        opcode - DEGREE_5_OPCODE_STARTS
    } else {
        (opcode - DEGREE_4_OPCODE_STARTS) / 4
    }
}

impl OpFlags {
    /// The flag arrays have their expected lengths.
    pub open spec fn wf(&self) -> bool {
        &&& self.degree7_op_flags@.len() == NUM_DEGREE_7_OPS
        &&& self.degree6_op_flags@.len() == NUM_DEGREE_6_OPS
        &&& self.degree5_op_flags@.len() == NUM_DEGREE_5_OPS
        &&& self.degree4_op_flags@.len() == NUM_DEGREE_4_OPS
        &&& self.no_shift_flags@.len() == NUM_STACK_IMPACT_FLAGS
        &&& self.left_shift_flags@.len() == NUM_STACK_IMPACT_FLAGS
        &&& self.right_shift_flags@.len() == NUM_STACK_IMPACT_FLAGS
    }

    /// Operation flag of NOOP operation.
    pub fn noop(&self) -> (r: Felt)
        requires
            self.wf(),
        ensures
            r == self.degree7_op_flags@[0],
    {
        self.degree7_op_flags[get_op_index(opcodes::NOOP)]
    }

    /// Operation flag of EQZ operation.
    pub fn eqz(&self) -> (r: Felt)
        requires
            self.wf(),
        ensures
            r == self.degree7_op_flags@[1],
    {
        self.degree7_op_flags[get_op_index(opcodes::EQZ)]
    }

    /// Operation flag of NEG operation.
    pub fn neg(&self) -> (r: Felt)
        requires
            self.wf(),
        ensures
            r == self.degree7_op_flags@[2],
    {
        self.degree7_op_flags[get_op_index(opcodes::NEG)]
    }

    /// Operation flag of INV operation.
    pub fn inv(&self) -> (r: Felt)
        requires
            self.wf(),
        ensures
            r == self.degree7_op_flags@[3],
    {
        self.degree7_op_flags[get_op_index(opcodes::INV)]
    }

    /// Operation flag of INCR operation.
    pub fn incr(&self) -> (r: Felt)
        requires
            self.wf(),
        ensures
            r == self.degree7_op_flags@[4],
    {
        self.degree7_op_flags[get_op_index(opcodes::INCR)]
    }

    /// Operation flag of NOT operation.
    pub fn not(&self) -> (r: Felt)
        requires
            self.wf(),
        ensures
            r == self.degree7_op_flags@[5],
    {
        self.degree7_op_flags[get_op_index(opcodes::NOT)]
    }

    /// Operation flag of MLOAD operation.
    pub fn mload(&self) -> (r: Felt)
        requires
            self.wf(),
        ensures
            r == self.degree7_op_flags@[7],
    {
        self.degree7_op_flags[get_op_index(opcodes::MLOAD)]
    }

    /// Operation flag of SWAP operation.
    pub fn swap(&self) -> (r: Felt)
        requires
            self.wf(),
        ensures
            r == self.degree7_op_flags@[8],
    {
        self.degree7_op_flags[get_op_index(opcodes::SWAP)]
    }

    /// Operation flag of CALLER operation.  CALLER overwrites the top 4 stack elements with the hash of the function that initiated the current SYSCALL.
    pub fn caller(&self) -> (r: Felt)
        requires
            self.wf(),
        ensures
            r == self.degree7_op_flags@[9],
    {
        self.degree7_op_flags[get_op_index(opcodes::CALLER)]
    }

    /// Operation flag of MOVUP2 operation.
    pub fn movup2(&self) -> (r: Felt)
        requires
            self.wf(),
        ensures
            r == self.degree7_op_flags@[10],
    {
        self.degree7_op_flags[get_op_index(opcodes::MOVUP2)]
    }

    /// Operation flag of MOVDN2 operation.
    pub fn movdn2(&self) -> (r: Felt)
        requires
            self.wf(),
        ensures
            r == self.degree7_op_flags@[11],
    {
        self.degree7_op_flags[get_op_index(opcodes::MOVDN2)]
    }

    /// Operation flag of MOVUP3 operation.
    pub fn movup3(&self) -> (r: Felt)
        requires
            self.wf(),
        ensures
            r == self.degree7_op_flags@[12],
    {
        self.degree7_op_flags[get_op_index(opcodes::MOVUP3)]
    }

    /// Operation flag of MOVDN3 operation.
    pub fn movdn3(&self) -> (r: Felt)
        requires
            self.wf(),
        ensures
            r == self.degree7_op_flags@[13],
    {
        self.degree7_op_flags[get_op_index(opcodes::MOVDN3)]
    }

    /// Operation flag of ADVPOPW operation.
    pub fn advpopw(&self) -> (r: Felt)
        requires
            self.wf(),
        ensures
            r == self.degree7_op_flags@[14],
    {
        self.degree7_op_flags[get_op_index(opcodes::ADVPOPW)]
    }

    /// Operation flag of EXPACC operation.
    pub fn expacc(&self) -> (r: Felt)
        requires
            self.wf(),
        ensures
            r == self.degree7_op_flags@[15],
    {
        self.degree7_op_flags[get_op_index(opcodes::EXPACC)]
    }

    /// Operation flag of MOVUP4 operation.
    pub fn movup4(&self) -> (r: Felt)
        requires
            self.wf(),
        ensures
            r == self.degree7_op_flags@[16],
    {
        self.degree7_op_flags[get_op_index(opcodes::MOVUP4)]
    }

    /// Operation flag of MOVDN4 operation.
    pub fn movdn4(&self) -> (r: Felt)
        requires
            self.wf(),
        ensures
            r == self.degree7_op_flags@[17],
    {
        self.degree7_op_flags[get_op_index(opcodes::MOVDN4)]
    }

    /// Operation flag of MOVUP5 operation.
    pub fn movup5(&self) -> (r: Felt)
        requires
            self.wf(),
        ensures
            r == self.degree7_op_flags@[18],
    {
        self.degree7_op_flags[get_op_index(opcodes::MOVUP5)]
    }

    /// Operation flag of MOVDN5 operation.
    pub fn movdn5(&self) -> (r: Felt)
        requires
            self.wf(),
        ensures
            r == self.degree7_op_flags@[19],
    {
        self.degree7_op_flags[get_op_index(opcodes::MOVDN5)]
    }

    /// Operation flag of MOVUP6 operation.
    pub fn movup6(&self) -> (r: Felt)
        requires
            self.wf(),
        ensures
            r == self.degree7_op_flags@[20],
    {
        self.degree7_op_flags[get_op_index(opcodes::MOVUP6)]
    }

    /// Operation flag of MOVDN6 operation.
    pub fn movdn6(&self) -> (r: Felt)
        requires
            self.wf(),
        ensures
            r == self.degree7_op_flags@[21],
    {
        self.degree7_op_flags[get_op_index(opcodes::MOVDN6)]
    }

    /// Operation flag of MOVUP7 operation.
    pub fn movup7(&self) -> (r: Felt)
        requires
            self.wf(),
        ensures
            r == self.degree7_op_flags@[22],
    {
        self.degree7_op_flags[get_op_index(opcodes::MOVUP7)]
    }

    /// Operation flag of MOVDN7 operation.
    pub fn movdn7(&self) -> (r: Felt)
        requires
            self.wf(),
        ensures
            r == self.degree7_op_flags@[23],
    {
        self.degree7_op_flags[get_op_index(opcodes::MOVDN7)]
    }

    /// Operation flag of SWAPW operation.
    pub fn swapw(&self) -> (r: Felt)
        requires
            self.wf(),
        ensures
            r == self.degree7_op_flags@[24],
    {
        self.degree7_op_flags[get_op_index(opcodes::SWAPW)]
    }

    /// Operation flag of MOVUP8 operation.
    pub fn movup8(&self) -> (r: Felt)
        requires
            self.wf(),
        ensures
            r == self.degree7_op_flags@[26],
    {
        self.degree7_op_flags[get_op_index(opcodes::MOVUP8)]
    }

    /// Operation flag of MOVDN8 operation.
    pub fn movdn8(&self) -> (r: Felt)
        requires
            self.wf(),
        ensures
            r == self.degree7_op_flags@[27],
    {
        self.degree7_op_flags[get_op_index(opcodes::MOVDN8)]
    }

    /// Operation flag of SWAPW2 operation.
    pub fn swapw2(&self) -> (r: Felt)
        requires
            self.wf(),
        ensures
            r == self.degree7_op_flags@[28],
    {
        self.degree7_op_flags[get_op_index(opcodes::SWAPW2)]
    }

    /// Operation flag of SWAPW3 operation.
    pub fn swapw3(&self) -> (r: Felt)
        requires
            self.wf(),
        ensures
            r == self.degree7_op_flags@[29],
    {
        self.degree7_op_flags[get_op_index(opcodes::SWAPW3)]
    }

    /// Operation flag of SWAPDW operation.
    pub fn swapdw(&self) -> (r: Felt)
        requires
            self.wf(),
        ensures
            r == self.degree7_op_flags@[30],
    {
        self.degree7_op_flags[get_op_index(opcodes::SWAPDW)]
    }

    /// Operation flag of EXT2MUL operation.
    pub fn ext2mul(&self) -> (r: Felt)
        requires
            self.wf(),
        ensures
            r == self.degree7_op_flags@[25],
    {
        self.degree7_op_flags[get_op_index(opcodes::EXT2MUL)]
    }

    /// Operation flag of ASSERT operation.
    pub fn assert_op(&self) -> (r: Felt)
        requires
            self.wf(),
        ensures
            r == self.degree7_op_flags@[32],
    {
        self.degree7_op_flags[get_op_index(opcodes::ASSERT)]
    }

    /// Operation flag of EQ operation.
    pub fn eq(&self) -> (r: Felt)
        requires
            self.wf(),
        ensures
            r == self.degree7_op_flags@[33],
    {
        self.degree7_op_flags[get_op_index(opcodes::EQ)]
    }

    /// Operation flag of ADD operation.
    pub fn add(&self) -> (r: Felt)
        requires
            self.wf(),
        ensures
            r == self.degree7_op_flags@[34],
    {
        self.degree7_op_flags[get_op_index(opcodes::ADD)]
    }

    /// Operation flag of MUL operation.
    pub fn mul(&self) -> (r: Felt)
        requires
            self.wf(),
        ensures
            r == self.degree7_op_flags@[35],
    {
        self.degree7_op_flags[get_op_index(opcodes::MUL)]
    }

    /// Operation flag of AND operation.
    pub fn and(&self) -> (r: Felt)
        requires
            self.wf(),
        ensures
            r == self.degree7_op_flags@[36],
    {
        self.degree7_op_flags[get_op_index(opcodes::AND)]
    }

    /// Operation flag of OR operation.
    pub fn or(&self) -> (r: Felt)
        requires
            self.wf(),
        ensures
            r == self.degree7_op_flags@[37],
    {
        self.degree7_op_flags[get_op_index(opcodes::OR)]
    }

    /// Operation flag of U32AND operation.
    pub fn u32and(&self) -> (r: Felt)
        requires
            self.wf(),
        ensures
            r == self.degree7_op_flags@[38],
    {
        self.degree7_op_flags[get_op_index(opcodes::U32AND)]
    }

    /// Operation flag of U32XOR operation.
    pub fn u32xor(&self) -> (r: Felt)
        requires
            self.wf(),
        ensures
            r == self.degree7_op_flags@[39],
    {
        self.degree7_op_flags[get_op_index(opcodes::U32XOR)]
    }

    /// Operation flag of DROP operation.
    pub fn drop(&self) -> (r: Felt)
        requires
            self.wf(),
        ensures
            r == self.degree7_op_flags@[41],
    {
        self.degree7_op_flags[get_op_index(opcodes::DROP)]
    }

    /// Operation flag of CSWAP operation.
    pub fn cswap(&self) -> (r: Felt)
        requires
            self.wf(),
        ensures
            r == self.degree7_op_flags@[42],
    {
        self.degree7_op_flags[get_op_index(opcodes::CSWAP)]
    }

    /// Operation flag of CSWAPW operation.
    pub fn cswapw(&self) -> (r: Felt)
        requires
            self.wf(),
        ensures
            r == self.degree7_op_flags@[43],
    {
        self.degree7_op_flags[get_op_index(opcodes::CSWAPW)]
    }

    /// Operation flag of MLOADW operation.
    pub fn mloadw(&self) -> (r: Felt)
        requires
            self.wf(),
        ensures
            r == self.degree7_op_flags@[44],
    {
        self.degree7_op_flags[get_op_index(opcodes::MLOADW)]
    }

    /// Operation flag of MSTORE operation.
    pub fn mstore(&self) -> (r: Felt)
        requires
            self.wf(),
        ensures
            r == self.degree7_op_flags@[45],
    {
        self.degree7_op_flags[get_op_index(opcodes::MSTORE)]
    }

    /// Operation flag of MSTOREW operation.
    pub fn mstorew(&self) -> (r: Felt)
        requires
            self.wf(),
        ensures
            r == self.degree7_op_flags@[46],
    {
        self.degree7_op_flags[get_op_index(opcodes::MSTOREW)]
    }

    /// Operation flag of PAD operation.
    pub fn pad(&self) -> (r: Felt)
        requires
            self.wf(),
        ensures
            r == self.degree7_op_flags@[48],
    {
        self.degree7_op_flags[get_op_index(opcodes::PAD)]
    }

    /// Operation flag of DUP operation.
    pub fn dup(&self) -> (r: Felt)
        requires
            self.wf(),
        ensures
            r == self.degree7_op_flags@[49],
    {
        self.degree7_op_flags[get_op_index(opcodes::DUP0)]
    }

    /// Operation flag of DUP1 operation.
    pub fn dup1(&self) -> (r: Felt)
        requires
            self.wf(),
        ensures
            r == self.degree7_op_flags@[50],
    {
        self.degree7_op_flags[get_op_index(opcodes::DUP1)]
    }

    /// Operation flag of DUP2 operation.
    pub fn dup2(&self) -> (r: Felt)
        requires
            self.wf(),
        ensures
            r == self.degree7_op_flags@[51],
    {
        self.degree7_op_flags[get_op_index(opcodes::DUP2)]
    }

    /// Operation flag of DUP3 operation.
    pub fn dup3(&self) -> (r: Felt)
        requires
            self.wf(),
        ensures
            r == self.degree7_op_flags@[52],
    {
        self.degree7_op_flags[get_op_index(opcodes::DUP3)]
    }

    /// Operation flag of DUP4 operation.
    pub fn dup4(&self) -> (r: Felt)
        requires
            self.wf(),
        ensures
            r == self.degree7_op_flags@[53],
    {
        self.degree7_op_flags[get_op_index(opcodes::DUP4)]
    }

    /// Operation flag of DUP5 operation.
    pub fn dup5(&self) -> (r: Felt)
        requires
            self.wf(),
        ensures
            r == self.degree7_op_flags@[54],
    {
        self.degree7_op_flags[get_op_index(opcodes::DUP5)]
    }

    /// Operation flag of DUP6 operation.
    pub fn dup6(&self) -> (r: Felt)
        requires
            self.wf(),
        ensures
            r == self.degree7_op_flags@[55],
    {
        self.degree7_op_flags[get_op_index(opcodes::DUP6)]
    }

    /// Operation flag of DUP7 operation.
    pub fn dup7(&self) -> (r: Felt)
        requires
            self.wf(),
        ensures
            r == self.degree7_op_flags@[56],
    {
        self.degree7_op_flags[get_op_index(opcodes::DUP7)]
    }

    /// Operation flag of DUP9 operation.
    pub fn dup9(&self) -> (r: Felt)
        requires
            self.wf(),
        ensures
            r == self.degree7_op_flags@[57],
    {
        self.degree7_op_flags[get_op_index(opcodes::DUP9)]
    }

    /// Operation flag of DUP11 operation.
    pub fn dup11(&self) -> (r: Felt)
        requires
            self.wf(),
        ensures
            r == self.degree7_op_flags@[58],
    {
        self.degree7_op_flags[get_op_index(opcodes::DUP11)]
    }

    /// Operation flag of DUP13 operation.
    pub fn dup13(&self) -> (r: Felt)
        requires
            self.wf(),
        ensures
            r == self.degree7_op_flags@[59],
    {
        self.degree7_op_flags[get_op_index(opcodes::DUP13)]
    }

    /// Operation flag of DUP15 operation.
    pub fn dup15(&self) -> (r: Felt)
        requires
            self.wf(),
        ensures
            r == self.degree7_op_flags@[60],
    {
        self.degree7_op_flags[get_op_index(opcodes::DUP15)]
    }

    /// Operation flag of ADVPOP operation.
    pub fn advpop(&self) -> (r: Felt)
        requires
            self.wf(),
        ensures
            r == self.degree7_op_flags@[61],
    {
        self.degree7_op_flags[get_op_index(opcodes::ADVPOP)]
    }

    /// Operation flag of SDEPTH operation.
    pub fn sdepth(&self) -> (r: Felt)
        requires
            self.wf(),
        ensures
            r == self.degree7_op_flags@[62],
    {
        self.degree7_op_flags[get_op_index(opcodes::SDEPTH)]
    }

    /// Operation flag of CLK operation.
    pub fn clk(&self) -> (r: Felt)
        requires
            self.wf(),
        ensures
            r == self.degree7_op_flags@[63],
    {
        self.degree7_op_flags[get_op_index(opcodes::CLK)]
    }

    /// Operation flag of U32ADD operation.
    pub fn u32add(&self) -> (r: Felt)
        requires
            self.wf(),
        ensures
            r == self.degree6_op_flags@[0],
    {
        self.degree6_op_flags[get_op_index(opcodes::U32ADD)]
    }

    /// Operation flag of U32SUB operation.
    pub fn u32sub(&self) -> (r: Felt)
        requires
            self.wf(),
        ensures
            r == self.degree6_op_flags@[1],
    {
        self.degree6_op_flags[get_op_index(opcodes::U32SUB)]
    }

    /// Operation flag of U32MUL operation.
    pub fn u32mul(&self) -> (r: Felt)
        requires
            self.wf(),
        ensures
            r == self.degree6_op_flags@[2],
    {
        self.degree6_op_flags[get_op_index(opcodes::U32MUL)]
    }

    /// Operation flag of U32DIV operation.
    pub fn u32div(&self) -> (r: Felt)
        requires
            self.wf(),
        ensures
            r == self.degree6_op_flags@[3],
    {
        self.degree6_op_flags[get_op_index(opcodes::U32DIV)]
    }

    /// Operation flag of U32SPLIT operation.
    pub fn u32split(&self) -> (r: Felt)
        requires
            self.wf(),
        ensures
            r == self.degree6_op_flags@[4],
    {
        self.degree6_op_flags[get_op_index(opcodes::U32SPLIT)]
    }

    /// Operation flag of U32ASSERT2 operation.
    pub fn u32assert2(&self) -> (r: Felt)
        requires
            self.wf(),
        ensures
            r == self.degree6_op_flags@[5],
    {
        self.degree6_op_flags[get_op_index(opcodes::U32ASSERT2)]
    }

    /// Operation flag of U32ADD3 operation.
    pub fn u32add3(&self) -> (r: Felt)
        requires
            self.wf(),
        ensures
            r == self.degree6_op_flags@[6],
    {
        self.degree6_op_flags[get_op_index(opcodes::U32ADD3)]
    }

    /// Operation flag of U32MADD operation.
    pub fn u32madd(&self) -> (r: Felt)
        requires
            self.wf(),
        ensures
            r == self.degree6_op_flags@[7],
    {
        self.degree6_op_flags[get_op_index(opcodes::U32MADD)]
    }

    /// Operation flag of HPERM operation.
    pub fn hperm(&self) -> (r: Felt)
        requires
            self.wf(),
        ensures
            r == self.degree5_op_flags@[0],
    {
        self.degree5_op_flags[get_op_index(opcodes::HPERM)]
    }

    /// Operation flag of MPVERIFY operation.
    pub fn mpverify(&self) -> (r: Felt)
        requires
            self.wf(),
        ensures
            r == self.degree5_op_flags@[1],
    {
        self.degree5_op_flags[get_op_index(opcodes::MPVERIFY)]
    }

    /// Operation flag of SPLIT operation.
    pub fn split(&self) -> (r: Felt)
        requires
            self.wf(),
        ensures
            r == self.degree5_op_flags@[4],
    {
        self.degree5_op_flags[get_op_index(opcodes::SPLIT)]
    }

    /// Operation flag of LOOP operation.
    pub fn loop_op(&self) -> (r: Felt)
        requires
            self.wf(),
        ensures
            r == self.degree5_op_flags@[5],
    {
        self.degree5_op_flags[get_op_index(opcodes::LOOP)]
    }

    /// Operation flag of SPAN operation.
    pub fn span(&self) -> (r: Felt)
        requires
            self.wf(),
        ensures
            r == self.degree5_op_flags@[6],
    {
        self.degree5_op_flags[get_op_index(opcodes::SPAN)]
    }

    /// Operation flag of JOIN operation.
    pub fn join(&self) -> (r: Felt)
        requires
            self.wf(),
        ensures
            r == self.degree5_op_flags@[7],
    {
        self.degree5_op_flags[get_op_index(opcodes::JOIN)]
    }

    /// Operation flag of PUSH operation.
    pub fn push(&self) -> (r: Felt)
        requires
            self.wf(),
        ensures
            r == self.degree5_op_flags@[11],
    {
        self.degree5_op_flags[get_op_index(opcodes::PUSH)]
    }

    /// Operation flag of DYN operation.
    pub fn dyn_op(&self) -> (r: Felt)
        requires
            self.wf(),
        ensures
            r == self.degree5_op_flags@[8],
    {
        self.degree5_op_flags[get_op_index(opcodes::DYN)]
    }

    /// Operation flag of DYNCALL operation.
    pub fn dyncall(&self) -> (r: Felt)
        requires
            self.wf(),
        ensures
            r == self.degree5_op_flags@[12],
    {
        self.degree5_op_flags[get_op_index(opcodes::DYNCALL)]
    }

    /// Operation flag of EVALCIRCUIT operation.
    pub fn evalcircuit(&self) -> (r: Felt)
        requires
            self.wf(),
        ensures
            r == self.degree5_op_flags@[13],
    {
        self.degree5_op_flags[get_op_index(opcodes::EVALCIRCUIT)]
    }

    /// Operation flag of LOG_PRECOMPILE operation.
    pub fn log_precompile(&self) -> (r: Felt)
        requires
            self.wf(),
        ensures
            r == self.degree5_op_flags@[14],
    {
        self.degree5_op_flags[get_op_index(opcodes::LOGPRECOMPILE)]
    }

    /// Operation flag of HORNERBASE operation.
    pub fn hornerbase(&self) -> (r: Felt)
        requires
            self.wf(),
        ensures
            r == self.degree5_op_flags@[9],
    {
        self.degree5_op_flags[get_op_index(opcodes::HORNERBASE)]
    }

    /// Operation flag of HORNEREXT operation.
    pub fn hornerext(&self) -> (r: Felt)
        requires
            self.wf(),
        ensures
            r == self.degree5_op_flags@[10],
    {
        self.degree5_op_flags[get_op_index(opcodes::HORNEREXT)]
    }

    /// Operation flag of MSTREAM operation.
    pub fn mstream(&self) -> (r: Felt)
        requires
            self.wf(),
        ensures
            r == self.degree5_op_flags@[3],
    {
        self.degree5_op_flags[get_op_index(opcodes::MSTREAM)]
    }

    /// Operation flag of PIPE operation.
    pub fn pipe(&self) -> (r: Felt)
        requires
            self.wf(),
        ensures
            r == self.degree5_op_flags@[2],
    {
        self.degree5_op_flags[get_op_index(opcodes::PIPE)]
    }

    /// Operation flag of MRUPDATE operation.
    pub fn mrupdate(&self) -> (r: Felt)
        requires
            self.wf(),
        ensures
            r == self.degree4_op_flags@[0],
    {
        self.degree4_op_flags[get_op_index(opcodes::MRUPDATE)]
    }

    /// Operation flag of CALL operation.
    pub fn call(&self) -> (r: Felt)
        requires
            self.wf(),
        ensures
            r == self.degree4_op_flags@[3],
    {
        self.degree4_op_flags[get_op_index(opcodes::CALL)]
    }

    /// Operation flag of SYSCALL operation.
    pub fn syscall(&self) -> (r: Felt)
        requires
            self.wf(),
        ensures
            r == self.degree4_op_flags@[2],
    {
        self.degree4_op_flags[get_op_index(opcodes::SYSCALL)]
    }

    /// Operation flag of END operation.
    pub fn end(&self) -> (r: Felt)
        requires
            self.wf(),
        ensures
            r == self.degree4_op_flags@[4],
    {
        self.degree4_op_flags[get_op_index(opcodes::END)]
    }

    /// Operation flag of REPEAT operation.
    pub fn repeat(&self) -> (r: Felt)
        requires
            self.wf(),
        ensures
            r == self.degree4_op_flags@[5],
    {
        self.degree4_op_flags[get_op_index(opcodes::REPEAT)]
    }

    /// Operation flag of RESPAN operation.
    pub fn respan(&self) -> (r: Felt)
        requires
            self.wf(),
        ensures
            r == self.degree4_op_flags@[6],
    {
        self.degree4_op_flags[get_op_index(opcodes::RESPAN)]
    }

    /// Operation flag of HALT operation.
    pub fn halt(&self) -> (r: Felt)
        requires
            self.wf(),
        ensures
            r == self.degree4_op_flags@[7],
    {
        self.degree4_op_flags[get_op_index(opcodes::HALT)]
    }

    /// Operation flag of CRYPTOSTREAM operation.
    pub fn cryptostream(&self) -> (r: Felt)
        requires
            self.wf(),
        ensures
            r == self.degree4_op_flags@[1],
    {
        self.degree4_op_flags[get_op_index(opcodes::CRYPTOSTREAM)]
    }

    /// Returns the flag for when the stack item at the specified depth remains unchanged.
    pub fn no_shift_at(&self, index: usize) -> (r: Felt)
        requires
            self.wf(),
            index < NUM_STACK_IMPACT_FLAGS,
        ensures
            r == self.no_shift_flags@[index as int],
    {
        self.no_shift_flags[index]
    }

    /// Returns the flag for when the stack item at the specified depth shifts left.
    /// Left shift is not defined on position 0, whose flag is zero.
    pub fn left_shift_at(&self, index: usize) -> (r: Felt)
        requires
            self.wf(),
            index < NUM_STACK_IMPACT_FLAGS,
        ensures
            r == self.left_shift_flags@[index as int],
    {
        self.left_shift_flags[index]
    }

    /// Returns the flag for when the stack item at the specified depth shifts right.
    pub fn right_shift_at(&self, index: usize) -> (r: Felt)
        requires
            self.wf(),
            index < NUM_STACK_IMPACT_FLAGS,
        ensures
            r == self.right_shift_flags@[index as int],
    {
        self.right_shift_flags[index]
    }

    /// Returns the flag when the stack operation shifts the stack to the right (degree 6).
    pub fn right_shift(&self) -> (r: Felt)
        ensures
            r == self.right_shift,
    {
        self.right_shift
    }

    /// Returns the flag when the stack operation shifts the stack to the left (degree 5).
    ///
    /// DYNCALL shifts the stack but is handled by the per-position `left_shift_at` flags only.
    pub fn left_shift(&self) -> (r: Felt)
        ensures
            r == self.left_shift,
    {
        self.left_shift
    }

    /// Returns the flag when the current operation is a control flow operation (degree 3).
    pub fn control_flow(&self) -> (r: Felt)
        ensures
            r == self.control_flow,
    {
        self.control_flow
    }

    /// Returns the flag indicating whether the overflow stack contains values (degree 2).
    pub fn overflow(&self) -> (r: Felt)
        ensures
            r == self.overflow,
    {
        self.overflow
    }

    /// Returns the flag when the current operation is a u32 operation requiring range checks.
    pub fn u32_rc_op(&self) -> (r: Felt)
        ensures
            r == self.u32_rc_op,
    {
        self.u32_rc_op
    }

    /// Returns the degree 7 operation flags.
    pub fn degree7_op_flags(&self) -> (r: &Vec<Felt>)
        ensures
            r@ == self.degree7_op_flags@,
    {
        &self.degree7_op_flags
    }

    /// Returns the degree 6 operation flags.
    pub fn degree6_op_flags(&self) -> (r: &Vec<Felt>)
        ensures
            r@ == self.degree6_op_flags@,
    {
        &self.degree6_op_flags
    }

    /// Returns the degree 5 operation flags.
    pub fn degree5_op_flags(&self) -> (r: &Vec<Felt>)
        ensures
            r@ == self.degree5_op_flags@,
    {
        &self.degree5_op_flags
    }

    /// Returns the degree 4 operation flags.
    pub fn degree4_op_flags(&self) -> (r: &Vec<Felt>)
        ensures
            r@ == self.degree4_op_flags@,
    {
        &self.degree4_op_flags
    }
}

// ONE-HOT LAW
// ================================================================================================

/// Bit `pow` (a power of two) of the opcode `k`, as a field value.
pub open spec fn opcode_bit(k: int, pow: int) -> int {
    (k / pow) % 2
}

/// The 7 op bit values of the opcode `k`, least significant first.
pub open spec fn opcode_bits(k: int) -> Seq<int> {
    seq![
        opcode_bit(k, 1),
        opcode_bit(k, 2),
        opcode_bit(k, 4),
        opcode_bit(k, 8),
        opcode_bit(k, 16),
        opcode_bit(k, 32),
        opcode_bit(k, 64),
    ]
}

/// The degree reduction columns of the opcode `k`: `b6 * (1 - b5) * b4` and `b6 * b5`.
pub open spec fn opcode_extra(k: int) -> Seq<int> {
    let b = opcode_bits(k);
    seq![fmul(fmul(b[6], fnot(b[5])), b[4]), fmul(b[6], b[5])]
}

proof fn bv_degree7(x: u8, y: u8)
    by (bit_vector)
    requires
        x < 128,
        y < 64,
    ensures
        (x % 2 == y % 2 && (x / 2) % 2 == (y / 2) % 2 && (x / 4) % 2 == (y / 4) % 2 && (x / 8) % 2
            == (y / 8) % 2 && (x / 16) % 2 == (y / 16) % 2 && (x / 32) % 2 == (y / 32) % 2 && (x
            / 64) % 2 == 0) == (x == y),
{
}

proof fn bv_degree6(x: u8, y: u8)
    by (bit_vector)
    requires
        x < 128,
        y < 8,
    ensures
        ((x / 2) % 2 == y % 2 && (x / 4) % 2 == (y / 2) % 2 && (x / 8) % 2 == (y / 4) % 2 && (x
            / 16) % 2 == 0 && (x / 32) % 2 == 0 && (x / 64) % 2 == 1) == (64 <= x < 80 && y == (x
            - 64) / 2),
{
}

proof fn bv_degree5(x: u8, y: u8)
    by (bit_vector)
    requires
        x < 128,
        y < 16,
    ensures
        (x % 2 == y % 2 && (x / 2) % 2 == (y / 2) % 2 && (x / 4) % 2 == (y / 4) % 2 && (x / 8) % 2
            == (y / 8) % 2 && (x / 16) % 2 == 1 && (x / 32) % 2 == 0 && (x / 64) % 2 == 1) == (80
            <= x < 96 && y == x - 80),
{
}

proof fn bv_degree4(x: u8, y: u8)
    by (bit_vector)
    requires
        x < 128,
        y < 8,
    ensures
        ((x / 4) % 2 == y % 2 && (x / 8) % 2 == (y / 2) % 2 && (x / 16) % 2 == (y / 4) % 2 && (x
            / 32) % 2 == 1 && (x / 64) % 2 == 1) == (96 <= x && y == (x - 96) / 4),
{
}

/// A literal of a 0/1 bit is 1 exactly when the bit has the required value.
pub proof fn lemma_lit(bit: int, on: bool)
    requires
        bit == 0 || bit == 1,
    ensures
        lit(bit, on) == (if (bit == 1) == on { 1int } else { 0int }),
{
    lemma_bool_ops(bit, bit);
}

/// The op bits of an opcode are 0 or 1.
proof fn lemma_opcode_bits_binary(k: int)
    requires
        0 <= k < 128,
    ensures
        forall|i: int| 0 <= i < 7 ==> (#[trigger] opcode_bits(k)[i] == 0 || opcode_bits(k)[i] == 1),
{
}

/// For op bits that encode the opcode `k`, with the degree reduction columns computed from them,
/// exactly one individual operation flag is 1: the one of the group and index of `k` (degree 7
/// for `k < 64`, degree 6 at `(k - 64) / 2` for `64 <= k < 80`, degree 5 at `k - 80` for
/// `80 <= k < 96`, degree 4 at `(k - 96) / 4` for `k >= 96`). All other flags are 0.
pub proof fn lemma_opcode_flags_one_hot(k: int)
    requires
        0 <= k < 128,
    ensures
        forall|j: int|
            0 <= j < 64 ==> #[trigger] degree7_flag(opcode_bits(k), j) == (if j == k {
                1int
            } else {
                0int
            }),
        forall|j: int|
            0 <= j < 8 ==> #[trigger] degree6_flag(opcode_bits(k), j) == (if 64 <= k < 80 && j == (k
                - 64) / 2 {
                1int
            } else {
                0int
            }),
        forall|j: int|
            0 <= j < 16 ==> #[trigger] degree5_flag(opcode_bits(k), opcode_extra(k), j) == (if 80
                <= k < 96 && j == k - 80 {
                1int
            } else {
                0int
            }),
        forall|j: int|
            0 <= j < 8 ==> #[trigger] degree4_flag(opcode_bits(k), opcode_extra(k), j) == (if 96
                <= k && j == (k - 96) / 4 {
                1int
            } else {
                0int
            }),
{
    let b = opcode_bits(k);
    let e = opcode_extra(k);
    lemma_opcode_bits_binary(k);
    assert forall|x: int, y: int| (x == 0 || x == 1) && (y == 0 || y == 1) implies #[trigger] fmul(
        x,
        y,
    ) == (if x == 1 && y == 1 { 1int } else { 0int }) by {
        lemma_bool_ops(x, y);
    }
    assert forall|x: int| x == 0 || x == 1 implies #[trigger] fnot(x) == 1 - x by {
        lemma_bool_ops(x, x);
    }
    assert forall|x: int, on: bool| x == 0 || x == 1 implies #[trigger] lit(x, on) == (if (x == 1)
        == on {
        1int
    } else {
        0int
    }) by {
        lemma_lit(x, on);
    }
    assert(b[0] == 0 || b[0] == 1);
    assert(b[1] == 0 || b[1] == 1);
    assert(b[2] == 0 || b[2] == 1);
    assert(b[3] == 0 || b[3] == 1);
    assert(b[4] == 0 || b[4] == 1);
    assert(b[5] == 0 || b[5] == 1);
    assert(b[6] == 0 || b[6] == 1);
    assert(e[0] == (if b[6] == 1 && b[5] == 0 && b[4] == 1 { 1int } else { 0int }));
    assert(e[1] == (if b[6] == 1 && b[5] == 1 { 1int } else { 0int }));
    let x = k as u8;
    assert forall|j: int| 0 <= j < 64 implies #[trigger] degree7_flag(b, j) == (if j == k {
        1int
    } else {
        0int
    }) by {
        bv_degree7(x, j as u8);
    }
    assert forall|j: int| 0 <= j < 8 implies #[trigger] degree6_flag(b, j) == (if 64 <= k < 80 && j
        == (k - 64) / 2 {
        1int
    } else {
        0int
    }) by {
        bv_degree6(x, j as u8);
    }
    assert forall|j: int| 0 <= j < 16 implies #[trigger] degree5_flag(b, e, j) == (if 80 <= k < 96
        && j == k - 80 {
        1int
    } else {
        0int
    }) by {
        bv_degree5(x, j as u8);
    }
    assert forall|j: int| 0 <= j < 8 implies #[trigger] degree4_flag(b, e, j) == (if 96 <= k && j
        == (k - 96) / 4 {
        1int
    } else {
        0int
    }) by {
        bv_degree4(x, j as u8);
    }
}

/// The one-hot law for the flags computed by [`OpFlags::new`] from a row whose op bits encode
/// the opcode `k`: the flag of `k` in its group is 1 and every other individual flag is 0.
pub proof fn lemma_op_flags_one_hot(flags: OpFlags, k: int, h0: int, depth: int, is_loop: int)
    requires
        0 <= k < 128,
        flags.computed_from(opcode_bits(k), opcode_extra(k), h0, depth, is_loop),
    ensures
        forall|j: int|
            0 <= j < 64 ==> #[trigger] flags.degree7_op_flags@[j]@ == (if j == k {
                1int
            } else {
                0int
            }),
        forall|j: int|
            0 <= j < 8 ==> #[trigger] flags.degree6_op_flags@[j]@ == (if 64 <= k < 80 && j == (k
                - 64) / 2 {
                1int
            } else {
                0int
            }),
        forall|j: int|
            0 <= j < 16 ==> #[trigger] flags.degree5_op_flags@[j]@ == (if 80 <= k < 96 && j == k
                - 80 {
                1int
            } else {
                0int
            }),
        forall|j: int|
            0 <= j < 8 ==> #[trigger] flags.degree4_op_flags@[j]@ == (if 96 <= k && j == (k - 96)
                / 4 {
                1int
            } else {
                0int
            }),
{
    lemma_opcode_flags_one_hot(k);
    assert forall|j: int| 0 <= j < 64 implies #[trigger] flags.degree7_op_flags@[j]@ == (if j == k {
        1int
    } else {
        0int
    }) by {
        assert(flags.degree7_op_flags@[j]@ == degree7_flag(opcode_bits(k), j));
    }
    assert forall|j: int| 0 <= j < 8 implies #[trigger] flags.degree6_op_flags@[j]@ == (if 64 <= k
        < 80 && j == (k - 64) / 2 {
        1int
    } else {
        0int
    }) by {
        assert(flags.degree6_op_flags@[j]@ == degree6_flag(opcode_bits(k), j));
    }
    assert forall|j: int| 0 <= j < 16 implies #[trigger] flags.degree5_op_flags@[j]@ == (if 80 <= k
        < 96 && j == k - 80 {
        1int
    } else {
        0int
    }) by {
        assert(flags.degree5_op_flags@[j]@ == degree5_flag(opcode_bits(k), opcode_extra(k), j));
    }
    assert forall|j: int| 0 <= j < 8 implies #[trigger] flags.degree4_op_flags@[j]@ == (if 96 <= k
        && j == (k - 96) / 4 {
        1int
    } else {
        0int
    }) by {
        assert(flags.degree4_op_flags@[j]@ == degree4_flag(opcode_bits(k), opcode_extra(k), j));
    }
}


/// An opcode that names an operation: every opcode below 64 and from 80 to 95, the even ones
/// from 64 to 79 and the multiples of 4 from 96 on.
pub open spec fn is_opcode(k: int) -> bool {
    ||| 0 <= k < 64
    ||| 64 <= k < 80 && k % 2 == 0
    ||| 80 <= k < 96
    ||| 96 <= k < 128 && k % 4 == 0
}

proof fn bv_prefix_ranges(x: u8)
    by (bit_vector)
    requires
        x < 128,
    ensures
        ((x / 64) % 2 == 0 && (x / 32) % 2 == 1 && (x / 16) % 2 == 1) == (48 <= x < 64),
        ((x / 64) % 2 == 1 && (x / 32) % 2 == 0 && (x / 16) % 2 == 1 && (x / 8) % 2 == 0 && (x / 4) % 2
            == 1) == (84 <= x < 88),
        ((x / 64) % 2 == 1 && (x / 32) % 2 == 1 && (x / 16) % 2 == 1) == (112 <= x < 128),
{
}

/// The aggregate right-shift flag of the opcode `k` is 1 exactly for the operations with
/// prefix `011` (opcodes 48 to 63), PUSH and U32SPLIT.
pub proof fn lemma_right_shift_total_opcodes(k: int)
    requires
        is_opcode(k),
    ensures
        right_shift_total_spec(opcode_bits(k), opcode_extra(k)) == (if 48 <= k < 64 || k == opcodes::PUSH
            || k == opcodes::U32SPLIT {
            1int
        } else {
            0int
        }),
{
    let b = opcode_bits(k);
    let e = opcode_extra(k);
    lemma_opcode_flags_one_hot(k);
    lemma_opcode_bits_binary(k);
    bv_prefix_ranges(k as u8);
    assert(b[4] == 0 || b[4] == 1);
    assert(b[5] == 0 || b[5] == 1);
    assert(b[6] == 0 || b[6] == 1);
    lemma_bool_ops(b[6], b[6]);
    lemma_bool_ops(fnot(b[6]), b[5]);
    lemma_bool_ops(fmul(fnot(b[6]), b[5]), b[4]);
    assert(degree5_flag(b, e, 11) == (if k == 91 { 1int } else { 0int }));
    assert(degree6_flag(b, 4) == (if k == 72 { 1int } else { 0int }));
    assert forall|x: int, y: int| 0 <= x <= 1 && 0 <= y <= 1 implies #[trigger] fadd(x, y) == x + y by {
        lemma_small_values(x, y);
    }
}

/// The control flow flag of the opcode `k` is 1 exactly for SPAN, JOIN, SPLIT, LOOP, END,
/// REPEAT, RESPAN, HALT, DYN, DYNCALL, SYSCALL and CALL.
pub proof fn lemma_control_flow_opcodes(k: int)
    requires
        is_opcode(k),
    ensures
        control_flow_spec(opcode_bits(k), opcode_extra(k)) == (if k == opcodes::SPAN || k == opcodes::JOIN
            || k == opcodes::SPLIT || k == opcodes::LOOP || k == opcodes::END || k == opcodes::REPEAT || k
            == opcodes::RESPAN || k == opcodes::HALT || k == opcodes::DYN || k == opcodes::DYNCALL || k
            == opcodes::SYSCALL || k == opcodes::CALL {
            1int
        } else {
            0int
        }),
{
    let b = opcode_bits(k);
    let e = opcode_extra(k);
    lemma_opcode_flags_one_hot(k);
    lemma_opcode_bits_binary(k);
    bv_prefix_ranges(k as u8);
    assert(b[2] == 0 || b[2] == 1);
    assert(b[3] == 0 || b[3] == 1);
    assert(b[4] == 0 || b[4] == 1);
    assert(b[5] == 0 || b[5] == 1);
    assert(b[6] == 0 || b[6] == 1);
    assert forall|x: int, y: int| (x == 0 || x == 1) && (y == 0 || y == 1) implies #[trigger] fmul(x, y) == (if x == 1
        && y == 1 {
        1int
    } else {
        0int
    }) by {
        lemma_bool_ops(x, y);
    }
    assert forall|x: int| x == 0 || x == 1 implies #[trigger] fnot(x) == 1 - x by {
        lemma_bool_ops(x, x);
    }
    assert forall|x: int, y: int| 0 <= x <= 1 && 0 <= y <= 1 implies #[trigger] fadd(x, y) == x + y by {
        lemma_small_values(x, y);
    }
    assert(e[0] == (if b[6] == 1 && b[5] == 0 && b[4] == 1 { 1int } else { 0int }));
    assert(e[1] == (if b[6] == 1 && b[5] == 1 { 1int } else { 0int }));
    assert(degree5_flag(b, e, 8) == (if k == 88 { 1int } else { 0int }));
    assert(degree5_flag(b, e, 12) == (if k == 92 { 1int } else { 0int }));
    assert(degree4_flag(b, e, 2) == (if k == 104 { 1int } else { 0int }));
    assert(degree4_flag(b, e, 3) == (if k == 108 { 1int } else { 0int }));
    let t0 = fmul(fmul(e[0], fnot(b[3])), b[2]);
    let t1 = fmul(e[1], b[4]);
    assert(t0 == (if 84 <= k < 88 { 1int } else { 0int }));
    assert(t1 == (if 112 <= k < 128 { 1int } else { 0int }));
}

proof fn bv_left_prefix_ranges(x: u8)
    by (bit_vector)
    requires
        x < 128,
    ensures
        ((x / 64) % 2 == 0 && (x / 32) % 2 == 1 && (x / 16) % 2 == 0) == (32 <= x < 48),
        ((x / 64) % 2 == 1 && (x / 32) % 2 == 0 && (x / 16) % 2 == 0 && (x / 8) % 2 == 1 && (x / 4) % 2
            == 1) == (76 <= x < 80),
{
}

/// The aggregate left-shift flag of the opcode `k` is 1 exactly for the operations with prefix
/// `010` (opcodes 32 to 47), U32ADD3, U32MADD, SPLIT, LOOP, DYN, REPEAT, and END when it closes a
/// loop; DYNCALL is not among them.
pub proof fn lemma_left_shift_total_opcodes(k: int, is_loop: int)
    requires
        is_opcode(k),
        is_loop == 0 || is_loop == 1,
    ensures
        left_shift_total_spec(opcode_bits(k), opcode_extra(k), is_loop) == (if 32 <= k < 48 || k == opcodes::U32ADD3
            || k == opcodes::U32MADD || k == opcodes::SPLIT || k == opcodes::LOOP || k == opcodes::DYN || k
            == opcodes::REPEAT || (k == opcodes::END && is_loop == 1) {
            1int
        } else {
            0int
        }),
{
    let b = opcode_bits(k);
    let e = opcode_extra(k);
    lemma_opcode_flags_one_hot(k);
    lemma_opcode_bits_binary(k);
    bv_left_prefix_ranges(k as u8);
    assert(b[2] == 0 || b[2] == 1);
    assert(b[3] == 0 || b[3] == 1);
    assert(b[4] == 0 || b[4] == 1);
    assert(b[5] == 0 || b[5] == 1);
    assert(b[6] == 0 || b[6] == 1);
    assert forall|x: int, y: int| (x == 0 || x == 1) && (y == 0 || y == 1) implies #[trigger] fmul(x, y) == (if x == 1
        && y == 1 {
        1int
    } else {
        0int
    }) by {
        lemma_bool_ops(x, y);
    }
    assert forall|x: int| x == 0 || x == 1 implies #[trigger] fnot(x) == 1 - x by {
        lemma_bool_ops(x, x);
    }
    assert forall|x: int, y: int| 0 <= x <= 1 && 0 <= y <= 1 implies #[trigger] fadd(x, y) == x + y by {
        lemma_small_values(x, y);
    }
    assert(degree5_flag(b, e, 4) == (if k == 84 { 1int } else { 0int }));
    assert(degree5_flag(b, e, 5) == (if k == 85 { 1int } else { 0int }));
    assert(degree5_flag(b, e, 8) == (if k == 88 { 1int } else { 0int }));
    assert(degree4_flag(b, e, 4) == (if k == 112 { 1int } else { 0int }));
    assert(degree4_flag(b, e, 5) == (if k == 116 { 1int } else { 0int }));
    let ta = fmul(fmul(fnot(b[6]), b[5]), fnot(b[4]));
    let tb = fmul(fmul(fmul(fmul(b[6], fnot(b[5])), fnot(b[4])), b[3]), b[2]);
    assert(ta == (if 32 <= k < 48 { 1int } else { 0int }));
    assert(tb == (if 76 <= k < 80 { 1int } else { 0int }));
}

} // verus!
