//! Small helpers shared by the constraint code.

use vstd::prelude::*;

use crate::field::{
    fadd, fmul, fnot, fsub, lemma_bool_ops, lemma_canonical, lemma_felt_range, lemma_small_values, Felt,
};

verus! {

broadcast use lemma_felt_range;

/// Boolean negation `1 - self`.
pub trait BoolNot: Sized {
    /// Returns `1 - self`.
    fn not(&self) -> Self;
}

impl BoolNot for Felt {
    fn not(&self) -> (r: Felt)
        ensures
            r@ == fnot(self@),
    {
        Felt::not(*self)
    }
}

/// The field value `sum(2^i * s[i])`, evaluated with Horner's rule from the last element.
pub open spec fn horner_bits_spec(s: Seq<int>) -> int
    decreases s.len(),
{
    if s.len() == 0 {
        0
    } else {
        fadd(
            fadd(horner_bits_spec(s.subrange(1, s.len() as int)), horner_bits_spec(s.subrange(1, s.len() as int))),
            s[0],
        )
    }
}

/// The values of a sequence of field elements.
pub open spec fn felt_values(s: Seq<Felt>) -> Seq<int> {
    s.map_values(|x: Felt| x@)
}

/// The integer `sum(2^i * s[i])`.
pub open spec fn bits_to_int(s: Seq<int>) -> int
    decreases s.len(),
{
    if s.len() == 0 {
        0
    } else {
        2 * bits_to_int(s.subrange(1, s.len() as int)) + s[0]
    }
}

/// Aggregates little-endian limbs into a value: `sum(2^i * limbs[i])`, evaluated as
/// `((limbs[N-1] * 2 + limbs[N-2]) * 2 + ...) * 2 + limbs[0]`.
pub fn horner_eval_bits(limbs: &[Felt]) -> (r: Felt)
    requires
        limbs@.len() >= 1,
    ensures
        r@ == horner_bits_spec(felt_values(limbs@)),
{
    let n = limbs.len();
    let mut acc = limbs[n - 1];
    let ghost vals = felt_values(limbs@);
    proof {
        let t = vals.subrange(n - 1, n as int);
        assert(t.subrange(1, 1) =~= Seq::<int>::empty());
        assert(t[0] == limbs@[n - 1]@);
        assert(fadd(0, 0) == 0 && fadd(0, t[0]) == t[0]) by {
            lemma_canonical(0);
            lemma_canonical(t[0]);
        }
        assert(vals.len() == n);
        assert(t.len() == 1);
        reveal_with_fuel(horner_bits_spec, 2);
        assert(horner_bits_spec(t) == t[0]);
    }
    let mut i = n - 1;
    while i > 0
        invariant
            0 <= i < n,
            n == limbs@.len(),
            vals == felt_values(limbs@),
            acc@ == horner_bits_spec(vals.subrange(i as int, n as int)),
        decreases i,
    {
        i = i - 1;
        assert(vals.subrange(i as int, n as int).subrange(1, n - i) =~= vals.subrange(
            i + 1,
            n as int,
        ));
        acc = acc.double().add(limbs[i]);
    }
    assert(vals.subrange(0, n as int) =~= vals);
    acc
}

/// Binary OR `a + b - a * b` of two values assumed to be 0 or 1.
pub fn binary_or(a: Felt, b: Felt) -> (r: Felt)
    ensures
        r@ == fsub(fadd(a@, b@), fmul(a@, b@)),
{
    a.add(b).sub(a.mul(b))
}

/// On bits, [`binary_or`] is the boolean OR.
pub proof fn lemma_binary_or_bits(a: int, b: int)
    requires
        a == 0 || a == 1,
        b == 0 || b == 1,
    ensures
        fsub(fadd(a, b), fmul(a, b)) == (if a == 1 || b == 1 { 1int } else { 0int }),
{
    lemma_bool_ops(a, b);
    lemma_small_values(a, b);
    lemma_small_values(a + b, a * b);
}

/// On at most 31 bits, the Horner aggregation is the integer value of the bits.
pub proof fn lemma_horner_bits_value(s: Seq<int>)
    requires
        s.len() <= 31,
        forall|i: int| 0 <= i < s.len() ==> (#[trigger] s[i] == 0 || s[i] == 1),
    ensures
        horner_bits_spec(s) == bits_to_int(s),
        0 <= bits_to_int(s) < vstd::arithmetic::power2::pow2(s.len()),
    decreases s.len(),
{
    if s.len() > 0 {
        let t = s.subrange(1, s.len() as int);
        lemma_horner_bits_value(t);
        vstd::arithmetic::power2::lemma_pow2_unfold(s.len());
        if s.len() < 31 {
            vstd::arithmetic::power2::lemma_pow2_strictly_increases((s.len() - 1) as nat, 30);
        }
        assert(vstd::arithmetic::power2::pow2(30) == 0x4000_0000) by {
            vstd::arithmetic::power2::lemma2_to64();
        }
        let bt = bits_to_int(t);
        assert(0 <= bt < 0x4000_0000);
        lemma_small_values(bt, bt);
        lemma_small_values(2 * bt, s[0]);
        assert(horner_bits_spec(s) == fadd(fadd(bt, bt), s[0]));
        assert(bits_to_int(s) == 2 * bt + s[0]);
    } else {
        vstd::arithmetic::power2::lemma2_to64();
    }
}

} // verus!
