//! Goldilocks prime field `F_p` (p = 2^64 - 2^32 + 1) and its quadratic extension
//! `F_p[u] / (u^2 - 7)`.

use vstd::arithmetic::div_mod::*;
use vstd::prelude::*;

verus! {

/// The Goldilocks prime `2^64 - 2^32 + 1`.
pub const P: u64 = 18446744069414584321u64;

/// The non-residue `W` defining the quadratic extension `u^2 = W`.
pub const EXT_W: u64 = 7u64;

// SPEC-LEVEL FIELD ARITHMETIC
// ================================================================================================

/// Field addition on canonical representatives.
pub closed spec fn fadd(a: int, b: int) -> int {
    (a + b) % (P as int)
}

/// Field subtraction on canonical representatives.
pub closed spec fn fsub(a: int, b: int) -> int {
    (a - b) % (P as int)
}

/// Field multiplication on canonical representatives.
pub closed spec fn fmul(a: int, b: int) -> int {
    (a * b) % (P as int)
}

/// Field negation on canonical representatives.
pub closed spec fn fneg(a: int) -> int {
    (0 - a) % (P as int)
}

/// Boolean negation `1 - a` in the field.
pub open spec fn fnot(a: int) -> int {
    fsub(1, a)
}

/// `x^7` in the field, computed as `x^4 * x^2 * x`.
pub closed spec fn fpow7(x: int) -> int {
    let x2 = fmul(x, x);
    let x4 = fmul(x2, x2);
    fmul(fmul(x4, x2), x)
}

/// On the values 0 and 1, field multiplication and `1 - a` are the boolean AND and NOT.
pub proof fn lemma_bool_ops(a: int, b: int)
    requires
        a == 0 || a == 1,
        b == 0 || b == 1,
    ensures
        fmul(a, b) == (if a == 1 && b == 1 { 1int } else { 0int }),
        fnot(a) == 1 - a,
{
}

/// Adding 0 to, or multiplying by 1, a canonical value leaves it unchanged.
pub proof fn lemma_canonical(x: int)
    requires
        0 <= x < P,
    ensures
        fadd(0, x) == x,
        fadd(x, 0) == x,
        fmul(1, x) == x,
        fmul(x, 1) == x,
        fsub(x, 0) == x,
        fsub(x, x) == 0,
        fmul(x, 0) == 0,
        fmul(0, x) == 0,
{
}

/// Field sums are canonical.
pub broadcast proof fn lemma_fadd_range(a: int, b: int)
    ensures
        0 <= #[trigger] fadd(a, b) < P,
{
}

/// Field differences are canonical.
pub broadcast proof fn lemma_fsub_range(a: int, b: int)
    ensures
        0 <= #[trigger] fsub(a, b) < P,
{
}

/// Field products are canonical.
pub broadcast proof fn lemma_fmul_range(a: int, b: int)
    ensures
        0 <= #[trigger] fmul(a, b) < P,
{
}

/// Subtracting then adding back `b` returns `a`.
pub proof fn lemma_sub_add_cancel(a: int, b: int)
    requires
        0 <= a < P,
        0 <= b < P,
    ensures
        fadd(fsub(a, b), b) == a,
{
    let p = P as int;
    if a >= b {
        lemma_small_mod((a - b) as nat, P as nat);
        lemma_small_mod(a as nat, P as nat);
    } else {
        lemma_mod_sub_multiples_vanish(a - b + p, p);
        lemma_small_mod((a - b + p) as nat, P as nat);
        lemma_mod_sub_multiples_vanish(a + p, p);
        lemma_small_mod(a as nat, P as nat);
    }
}

/// Adding `b * (p - 1)` is subtracting `b`.
pub proof fn lemma_add_mul_minus_one(a: int, b: int)
    ensures
        fadd(a, fmul(b, P - 1)) == fsub(a, b),
{
    let p = P as int;
    assert(b * (p - 1) == p * b + (-b)) by (nonlinear_arith);
    lemma_mod_multiples_vanish(b, -b, p);
    lemma_add_mod_noop_right(a, b * (p - 1), p);
    lemma_add_mod_noop_right(a, -b, p);
}

/// `(p - 1)^2 = 1`.
pub proof fn lemma_minus_one_squared()
    ensures
        fmul(P - 1, P - 1) == 1,
{
    let p = P as int;
    assert((p - 1) * (p - 1) == p * (p - 2) + 1) by (nonlinear_arith);
    lemma_mod_multiples_vanish(p - 2, 1, p);
    lemma_small_mod(1, P as nat);
}

/// Canonical values whose difference is 0 are equal.
pub proof fn lemma_fsub_zero(a: int, b: int)
    requires
        0 <= a < P,
        0 <= b < P,
    ensures
        (fsub(a, b) == 0) == (a == b),
{
    let p = P as int;
    if a >= b {
        lemma_small_mod((a - b) as nat, P as nat);
    } else {
        lemma_mod_sub_multiples_vanish(a - b + p, p);
        lemma_small_mod((a - b + p) as nat, P as nat);
    }
}

/// Multiplying by 0 gives 0.
pub proof fn lemma_mul_zero(x: int)
    ensures
        fmul(x, 0) == 0,
        fmul(0, x) == 0,
{
}

/// Adding two reduced sums is reducing the sum.
pub proof fn lemma_fadd_of_mods(x: int, y: int)
    ensures
        fadd(x % (P as int), y % (P as int)) == (x + y) % (P as int),
        fadd(x, y) == (x + y) % (P as int),
{
    lemma_add_mod_noop(x, y, P as int);
}

/// The field operations are the integer operations reduced modulo `p`.
pub proof fn lemma_field_ops_mod(a: int, b: int)
    ensures
        fadd(a, b) == (a + b) % (P as int),
        fsub(a, b) == (a - b) % (P as int),
        fmul(a, b) == (a * b) % (P as int),
{
}

/// `(a - b) - k = 0` in the field exactly when `a = b + k`.
pub proof fn lemma_step_by(a: int, b: int, k: int)
    requires
        0 <= a < P,
        0 <= b < P,
        0 <= k < P,
    ensures
        (fsub(fsub(a, b), k) == 0) == (a == (b + k) % (P as int)),
{
    lemma_fsub_range(a, b);
    lemma_fsub_zero(fsub(a, b), k);
    lemma_sub_add_cancel(a, b);
    lemma_add_sub_cancel(k, b);
    lemma_field_ops_mod(k, b);
}

/// Field addition is associative.
pub proof fn lemma_fadd_assoc(a: int, b: int, c: int)
    ensures
        fadd(fadd(a, b), c) == fadd(a, fadd(b, c)),
{
    let p = P as int;
    lemma_add_mod_noop_right(c, a + b, p);
    lemma_add_mod_noop_right(a, b + c, p);
    assert((a + b) % p + c == c + (a + b) % p);
    assert(c + (a + b) == a + (b + c));
}

/// Adding the same value to two canonical values keeps them apart.
pub proof fn lemma_fadd_cancel(x: int, y: int, s: int)
    requires
        0 <= x < P,
        0 <= y < P,
        fadd(x, s) == fadd(y, s),
    ensures
        x == y,
{
    let p = P as int;
    lemma_add_mod_noop(x, s, p);
    lemma_add_mod_noop(y, s, p);
    lemma_small_mod(x as nat, p as nat);
    lemma_small_mod(y as nat, p as nat);
    let t = s % p;
    lemma_mod_bound(s, p);
    assert((x + t) % p == (y + t) % p);
    if x + t < p {
        lemma_small_mod((x + t) as nat, p as nat);
    } else {
        lemma_mod_sub_multiples_vanish(x + t, p);
        lemma_small_mod((x + t - p) as nat, p as nat);
    }
    if y + t < p {
        lemma_small_mod((y + t) as nat, p as nat);
    } else {
        lemma_mod_sub_multiples_vanish(y + t, p);
        lemma_small_mod((y + t - p) as nat, p as nat);
    }
}

/// Adding then subtracting `b` returns a canonical `a`.
pub proof fn lemma_add_sub_cancel(a: int, b: int)
    requires
        0 <= a < P,
        0 <= b < P,
    ensures
        fsub(fadd(a, b), b) == a,
{
    let p = P as int;
    if a + b < p {
        lemma_small_mod((a + b) as nat, p as nat);
        lemma_small_mod(a as nat, p as nat);
    } else {
        lemma_mod_sub_multiples_vanish(a + b, p);
        lemma_small_mod((a + b - p) as nat, p as nat);
        lemma_mod_sub_multiples_vanish(a, p);
        lemma_small_mod(a as nat, p as nat);
    }
}

/// Field multiplication distributes over addition.
pub proof fn lemma_fmul_distributes(a: int, b: int, c: int)
    ensures
        fmul(a, fadd(b, c)) == fadd(fmul(a, b), fmul(a, c)),
{
    let p = P as int;
    lemma_mul_mod_noop_right(a, b + c, p);
    assert(a * (b + c) == a * b + a * c) by (nonlinear_arith);
    lemma_add_mod_noop(a * b, a * c, p);
}

/// The field has no zero divisors: a product of canonical values is 0 exactly when a factor is.
pub proof fn lemma_fmul_zero_iff(a: int, b: int)
    requires
        0 <= a < P,
        0 <= b < P,
    ensures
        (fmul(a, b) == 0) == (a == 0 || b == 0),
{
    if fmul(a, b) == 0 {
        crate::prime::lemma_no_zero_divisors(a, b);
    }
    lemma_mul_zero(a);
    lemma_mul_zero(b);
}

/// `x * (x - 1)` vanishes exactly on the binary values.
pub proof fn lemma_binary_iff(x: int)
    requires
        0 <= x < P,
    ensures
        (fmul(x, fsub(x, 1)) == 0) == (x == 0 || x == 1),
{
    lemma_fsub_range(x, 1);
    lemma_fmul_zero_iff(x, fsub(x, 1));
    lemma_fsub_zero(x, 1);
}

/// Small values are their own canonical representatives.
pub proof fn lemma_small_values(a: int, b: int)
    requires
        0 <= a < 0x8000_0000,
        0 <= b < 0x8000_0000,
    ensures
        fadd(a, b) == a + b,
        a >= b ==> fsub(a, b) == a - b,
        fmul(a, b) == a * b,
{
    assert(0 <= a * b < 0x8000_0000 * 0x8000_0000) by (nonlinear_arith)
        requires
            0 <= a < 0x8000_0000,
            0 <= b < 0x8000_0000,
    ;
}

// BASE FIELD ELEMENT
// ================================================================================================

/// An element of the Goldilocks field. Its value is `v mod p`; every operation of this module
/// returns the canonical representative (`v < p`).
#[derive(Clone, Copy, Debug, PartialEq, Eq, Structural)]
pub struct Felt {
    v: u64,
}

impl View for Felt {
    type V = int;

    /// The field value of this element, in `[0, p)`.
    closed spec fn view(&self) -> int {
        (self.v as int) % (P as int)
    }
}

/// Every field element's value lies in `[0, p)`.
pub broadcast proof fn lemma_felt_range(a: Felt)
    ensures
        0 <= #[trigger] a@ < P,
{
    lemma_mod_bound(a.v as int, P as int);
}

impl Felt {
    /// Reduces a `u64` into the field.
    pub fn new(x: u64) -> (r: Felt)
        ensures
            r@ == x as int % (P as int),
    {
        let r = Felt { v: x % P };
        proof {
            lemma_mod_twice(x as int, P as int);
        }
        r
    }

    /// The additive identity.
    pub fn zero() -> (r: Felt)
        ensures
            r@ == 0,
    {
        Felt::new(0)
    }

    /// The multiplicative identity.
    pub fn one() -> (r: Felt)
        ensures
            r@ == 1,
    {
        Felt::new(1)
    }

    /// Returns the canonical representative of this element.
    pub fn as_canonical_u64(&self) -> (r: u64)
        ensures
            r as int == self@,
    {
        self.v % P
    }

    /// Field addition.
    pub fn add(self, rhs: Felt) -> (r: Felt)
        ensures
            r@ == fadd(self@, rhs@),
    {
        let s: u128 = (self.v as u128) + (rhs.v as u128);
        let r = Felt { v: (s % (P as u128)) as u64 };
        proof {
            lemma_mod_twice(s as int, P as int);
            lemma_add_mod_noop(self.v as int, rhs.v as int, P as int);
        }
        r
    }

    /// Field subtraction.
    pub fn sub(self, rhs: Felt) -> (r: Felt)
        ensures
            r@ == fsub(self@, rhs@),
    {
        let a: u128 = (self.v as u128) % (P as u128);
        let b: u128 = (rhs.v as u128) % (P as u128);
        let s: u128 = a + (P as u128) - b;
        let r = Felt { v: (s % (P as u128)) as u64 };
        proof {
            let pi = P as int;
            lemma_mod_twice(s as int, pi);
            lemma_mod_add_multiples_vanish(a - b, pi);
            lemma_sub_mod_noop(self.v as int, rhs.v as int, pi);
        }
        r
    }

    /// Field negation.
    pub fn neg(self) -> (r: Felt)
        ensures
            r@ == fneg(self@),
    {
        Felt::zero().sub(self)
    }

    /// Field multiplication.
    pub fn mul(self, rhs: Felt) -> (r: Felt)
        ensures
            r@ == fmul(self@, rhs@),
    {
        let a = self.v;
        let b = rhs.v;
        assert((a as u128) * (b as u128) <= 0xFFFF_FFFF_FFFF_FFFFu128 * 0xFFFF_FFFF_FFFF_FFFFu128)
            by (nonlinear_arith)
            requires
                a <= 0xFFFF_FFFF_FFFF_FFFFu64,
                b <= 0xFFFF_FFFF_FFFF_FFFFu64,
        ;
        let prod: u128 = (a as u128) * (b as u128);
        let r = Felt { v: (prod % (P as u128)) as u64 };
        proof {
            lemma_mod_twice(prod as int, P as int);
            lemma_mul_mod_noop(a as int, b as int, P as int);
        }
        r
    }

    /// `2 * self`.
    pub fn double(self) -> (r: Felt)
        ensures
            r@ == fadd(self@, self@),
    {
        self.add(self)
    }

    /// `self * self`.
    pub fn square(self) -> (r: Felt)
        ensures
            r@ == fmul(self@, self@),
    {
        self.mul(self)
    }

    /// `1 - self`: boolean negation for binary values.
    pub fn not(self) -> (r: Felt)
        ensures
            r@ == fnot(self@),
    {
        Felt::one().sub(self)
    }

    /// `self^7`.
    pub fn exp7(self) -> (r: Felt)
        ensures
            r@ == fpow7(self@),
    {
        let x2 = self.mul(self);
        let x4 = x2.mul(x2);
        x4.mul(x2).mul(self)
    }
}

// QUADRATIC EXTENSION
// ================================================================================================

/// Spec-level extension element `(c0, c1)` standing for `c0 + c1 * u`.
pub open spec fn qadd(a: (int, int), b: (int, int)) -> (int, int) {
    (fadd(a.0, b.0), fadd(a.1, b.1))
}

pub open spec fn qsub(a: (int, int), b: (int, int)) -> (int, int) {
    (fsub(a.0, b.0), fsub(a.1, b.1))
}

/// `(a0 + a1 u)(b0 + b1 u) = (a0 b0 + 7 a1 b1) + (a0 b1 + a1 b0) u`.
pub open spec fn qmul(a: (int, int), b: (int, int)) -> (int, int) {
    (
        fadd(fmul(a.0, b.0), fmul(EXT_W as int, fmul(a.1, b.1))),
        fadd(fmul(a.0, b.1), fmul(a.1, b.0)),
    )
}

/// Multiplication by a base field scalar.
pub open spec fn qscale(a: (int, int), s: int) -> (int, int) {
    (fmul(a.0, s), fmul(a.1, s))
}

/// Embedding of a base field value.
pub open spec fn qbase(s: int) -> (int, int) {
    (s, 0)
}

/// An element `c0 + c1 * u` of the quadratic extension.
#[derive(Clone, Copy, Debug, PartialEq, Eq, Structural)]
pub struct QuadFelt {
    pub c0: Felt,
    pub c1: Felt,
}

impl View for QuadFelt {
    type V = (int, int);

    open spec fn view(&self) -> (int, int) {
        (self.c0@, self.c1@)
    }
}

impl QuadFelt {
    /// Builds `c0 + c1 * u`.
    pub fn new(c0: Felt, c1: Felt) -> (r: QuadFelt)
        ensures
            r@ == (c0@, c1@),
    {
        QuadFelt { c0, c1 }
    }

    /// Embeds a base field element.
    pub fn from_base(s: Felt) -> (r: QuadFelt)
        ensures
            r@ == (s@, 0int),
    {
        QuadFelt { c0: s, c1: Felt::zero() }
    }

    pub fn zero() -> (r: QuadFelt)
        ensures
            r@ == (0int, 0int),
    {
        QuadFelt { c0: Felt::zero(), c1: Felt::zero() }
    }

    pub fn one() -> (r: QuadFelt)
        ensures
            r@ == (1int, 0int),
    {
        QuadFelt { c0: Felt::one(), c1: Felt::zero() }
    }

    pub fn add(self, rhs: QuadFelt) -> (r: QuadFelt)
        ensures
            r@ == qadd(self@, rhs@),
    {
        QuadFelt { c0: self.c0.add(rhs.c0), c1: self.c1.add(rhs.c1) }
    }

    pub fn sub(self, rhs: QuadFelt) -> (r: QuadFelt)
        ensures
            r@ == qsub(self@, rhs@),
    {
        QuadFelt { c0: self.c0.sub(rhs.c0), c1: self.c1.sub(rhs.c1) }
    }

    pub fn mul(self, rhs: QuadFelt) -> (r: QuadFelt)
        ensures
            r@ == qmul(self@, rhs@),
    {
        let w = Felt::new(EXT_W);
        proof {
            lemma_small_mod(EXT_W as nat, P as nat);
        }
        let c0 = self.c0.mul(rhs.c0).add(w.mul(self.c1.mul(rhs.c1)));
        let c1 = self.c0.mul(rhs.c1).add(self.c1.mul(rhs.c0));
        QuadFelt { c0, c1 }
    }

    /// Multiplication by a base field element.
    pub fn scale(self, s: Felt) -> (r: QuadFelt)
        ensures
            r@ == qscale(self@, s@),
    {
        QuadFelt { c0: self.c0.mul(s), c1: self.c1.mul(s) }
    }

    /// Adds a base field element.
    pub fn add_base(self, s: Felt) -> (r: QuadFelt)
        ensures
            r@ == qadd(self@, qbase(s@)),
    {
        proof {
            lemma_felt_range(self.c1);
            lemma_small_mod(self.c1@ as nat, P as nat);
        }
        QuadFelt { c0: self.c0.add(s), c1: self.c1 }
    }

    /// `self * self`.
    pub fn square(self) -> (r: QuadFelt)
        ensures
            r@ == qmul(self@, self@),
    {
        self.mul(self)
    }
}


/// Multiplying a canonical extension element by 1 leaves it unchanged.
pub proof fn lemma_qmul_one(x: (int, int))
    requires
        0 <= x.0 < P,
        0 <= x.1 < P,
    ensures
        qmul(x, (1, 0)) == x,
        qscale(x, 1) == x,
        qscale(x, 0) == (0int, 0int),
        qadd(x, (0, 0)) == x,
        qadd((0, 0), x) == x,
{
    lemma_canonical(x.0);
    lemma_canonical(x.1);
    lemma_canonical(0);
    lemma_mul_zero(EXT_W as int);
}

/// The difference of canonical extension elements is 0 exactly when they are equal.
pub proof fn lemma_qsub_zero(a: (int, int), b: (int, int))
    requires
        0 <= a.0 < P,
        0 <= a.1 < P,
        0 <= b.0 < P,
        0 <= b.1 < P,
    ensures
        (qsub(a, b) == (0int, 0int)) == (a == b),
{
    lemma_fsub_zero(a.0, b.0);
    lemma_fsub_zero(a.1, b.1);
}

} // verus!
