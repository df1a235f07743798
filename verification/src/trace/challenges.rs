//! Random challenges used to encode bus messages.
//!
//! A message `[e_0, ..., e_{n-1}]` sent on bus `b` is encoded as
//! `bus_prefix[b] + sum(beta_powers[i] * e_i)`, where `beta_powers[i] = beta^i`. Distinct buses
//! use distinct additive bases, so their messages are kept apart.

use vstd::prelude::*;

use super::bus_types::NUM_BUS_TYPES;
use super::MAX_MESSAGE_WIDTH;
use crate::constraints::utils::felt_values;
use crate::field::{lemma_canonical, lemma_fadd_assoc, lemma_fadd_cancel, lemma_felt_range, qadd, qmul, qscale, Felt, QuadFelt, P};

verus! {

/// The challenges of the auxiliary trace.
pub struct Challenges {
    /// The randomness base `alpha`.
    pub alpha: QuadFelt,
    /// `beta^0, beta^1, ..., beta^(MAX_MESSAGE_WIDTH - 1)`.
    pub beta_powers: Vec<QuadFelt>,
    /// The additive base of each bus.
    pub bus_prefix: Vec<QuadFelt>,
}

/// `prefix + sum_{i < n} betas[i] * elems[i]`, summed from the first element.
pub open spec fn encode_spec(prefix: (int, int), betas: Seq<(int, int)>, elems: Seq<int>, n: int) -> (
    int,
    int,
)
    decreases n,
{
    if n <= 0 {
        prefix
    } else {
        qadd(encode_spec(prefix, betas, elems, n - 1), qscale(betas[n - 1], elems[n - 1]))
    }
}

/// `prefix + sum_{i < n} betas[layout[i]] * values[i]`: an encoding that uses only the
/// coefficient positions listed in `layout`.
pub open spec fn encode_sparse_spec(
    prefix: (int, int),
    betas: Seq<(int, int)>,
    layout: Seq<usize>,
    values: Seq<int>,
    n: int,
) -> (int, int)
    decreases n,
{
    if n <= 0 {
        prefix
    } else {
        qadd(
            encode_sparse_spec(prefix, betas, layout, values, n - 1),
            qscale(betas[layout[n - 1] as int], values[n - 1]),
        )
    }
}

/// `beta^i` in the extension field.
pub open spec fn qpow(beta: (int, int), i: nat) -> (int, int)
    decreases i,
{
    if i == 0 {
        (1, 0)
    } else {
        qmul(qpow(beta, (i - 1) as nat), beta)
    }
}

impl Challenges {
    /// The coefficient and prefix vectors have their full lengths.
    pub open spec fn wf(&self) -> bool {
        &&& self.beta_powers@.len() == MAX_MESSAGE_WIDTH
        &&& self.bus_prefix@.len() == NUM_BUS_TYPES
    }

    /// The coefficients `beta^i`.
    pub open spec fn betas(&self) -> Seq<(int, int)> {
        self.beta_powers@.map_values(|b: QuadFelt| b@)
    }

    /// The additive base of bus `bus`.
    pub open spec fn prefix(&self, bus: int) -> (int, int) {
        self.bus_prefix@[bus]@
    }

    /// The encoding of the message `elems` on bus `bus`.
    pub open spec fn message(&self, bus: int, elems: Seq<int>) -> (int, int) {
        encode_spec(self.prefix(bus), self.betas(), elems, elems.len() as int)
    }

    /// The encoding of `elems` with base `alpha`.
    pub open spec fn alpha_message(&self, elems: Seq<int>) -> (int, int) {
        encode_spec(self.alpha@, self.betas(), elems, elems.len() as int)
    }

    /// Challenges from `alpha`, `beta` and the bus prefixes; the coefficients are the powers of
    /// `beta`.
    pub fn new(alpha: QuadFelt, beta: QuadFelt, bus_prefix: Vec<QuadFelt>) -> (r: Challenges)
        requires
            bus_prefix@.len() == NUM_BUS_TYPES,
        ensures
            r.wf(),
            r.alpha == alpha,
            r.bus_prefix@ == bus_prefix@,
            forall|i: int| 0 <= i < MAX_MESSAGE_WIDTH ==> #[trigger] r.betas()[i] == qpow(beta@, i as nat),
    {
        let mut beta_powers: Vec<QuadFelt> = Vec::new();
        let mut cur = QuadFelt::one();
        let mut i: usize = 0;
        while i < MAX_MESSAGE_WIDTH
            invariant
                i <= MAX_MESSAGE_WIDTH,
                beta_powers@.len() == i,
                cur@ == qpow(beta@, i as nat),
                forall|j: int| 0 <= j < i ==> #[trigger] beta_powers@[j]@ == qpow(beta@, j as nat),
            decreases MAX_MESSAGE_WIDTH - i,
        {
            beta_powers.push(cur);
            cur = cur.mul(beta);
            i += 1;
        }
        Challenges { alpha, beta_powers, bus_prefix }
    }

    /// Encodes `elems` starting from `base`.
    fn encode_from(&self, base: QuadFelt, elems: &[Felt]) -> (r: QuadFelt)
        requires
            self.wf(),
            elems@.len() <= MAX_MESSAGE_WIDTH,
        ensures
            r@ == encode_spec(base@, self.betas(), felt_values(elems@), elems@.len() as int),
    {
        let ghost vals = felt_values(elems@);
        let mut acc = base;
        let mut i: usize = 0;
        while i < elems.len()
            invariant
                self.wf(),
                i <= elems@.len() <= MAX_MESSAGE_WIDTH,
                vals == felt_values(elems@),
                acc@ == encode_spec(base@, self.betas(), vals, i as int),
            decreases elems@.len() - i,
        {
            acc = acc.add(self.beta_powers[i].scale(elems[i]));
            i += 1;
        }
        acc
    }

    /// Encodes the message `elems` on bus `bus`: `bus_prefix[bus] + sum(beta^i * elems[i])`.
    pub fn encode(&self, bus: usize, elems: &[Felt]) -> (r: QuadFelt)
        requires
            self.wf(),
            bus < NUM_BUS_TYPES,
            elems@.len() <= MAX_MESSAGE_WIDTH,
        ensures
            r@ == self.message(bus as int, felt_values(elems@)),
    {
        self.encode_from(self.bus_prefix[bus], elems)
    }

    /// Encodes `elems` with the base `alpha`: `alpha + sum(beta^i * elems[i])`.
    pub fn encode_with_alpha(&self, elems: &[Felt]) -> (r: QuadFelt)
        requires
            self.wf(),
            elems@.len() <= MAX_MESSAGE_WIDTH,
        ensures
            r@ == self.alpha_message(felt_values(elems@)),
    {
        self.encode_from(self.alpha, elems)
    }

    /// Encodes `values` at the coefficient positions `layout`, starting from `base`.
    fn encode_sparse_from(&self, base: QuadFelt, layout: &[usize], values: &[Felt]) -> (r: QuadFelt)
        requires
            self.wf(),
            layout@.len() == values@.len(),
            forall|i: int| 0 <= i < layout@.len() ==> #[trigger] layout@[i] < MAX_MESSAGE_WIDTH,
        ensures
            r@ == encode_sparse_spec(base@, self.betas(), layout@, felt_values(values@), values@.len() as int),
    {
        let ghost vals = felt_values(values@);
        let mut acc = base;
        let mut i: usize = 0;
        while i < values.len()
            invariant
                self.wf(),
                i <= values@.len(),
                layout@.len() == values@.len(),
                forall|j: int| 0 <= j < layout@.len() ==> #[trigger] layout@[j] < MAX_MESSAGE_WIDTH,
                vals == felt_values(values@),
                acc@ == encode_sparse_spec(base@, self.betas(), layout@, vals, i as int),
            decreases values@.len() - i,
        {
            let pos = layout[i];
            acc = acc.add(self.beta_powers[pos].scale(values[i]));
            i += 1;
        }
        acc
    }

    /// Encodes `values` at the coefficient positions `layout` of bus `bus`:
    /// `bus_prefix[bus] + sum(beta^layout[i] * values[i])`.
    pub fn encode_sparse(&self, bus: usize, layout: &[usize], values: &[Felt]) -> (r: QuadFelt)
        requires
            self.wf(),
            bus < NUM_BUS_TYPES,
            layout@.len() == values@.len(),
            forall|i: int| 0 <= i < layout@.len() ==> #[trigger] layout@[i] < MAX_MESSAGE_WIDTH,
        ensures
            r@ == encode_sparse_spec(
                self.prefix(bus as int),
                self.betas(),
                layout@,
                felt_values(values@),
                values@.len() as int,
            ),
    {
        self.encode_sparse_from(self.bus_prefix[bus], layout, values)
    }

    /// Encodes `values` at the coefficient positions `layout` with the base `alpha`:
    /// `alpha + sum(beta^layout[i] * values[i])`.
    pub fn encode_sparse_with_alpha(&self, layout: &[usize], values: &[Felt]) -> (r: QuadFelt)
        requires
            self.wf(),
            layout@.len() == values@.len(),
            forall|i: int| 0 <= i < layout@.len() ==> #[trigger] layout@[i] < MAX_MESSAGE_WIDTH,
        ensures
            r@ == encode_sparse_spec(self.alpha@, self.betas(), layout@, felt_values(values@), values@.len() as int),
    {
        self.encode_sparse_from(self.alpha, layout, values)
    }
}


// LAWS
// ================================================================================================

/// An encoding from `prefix` is `prefix` plus the encoding from zero.
proof fn lemma_encode_from_prefix(prefix: (int, int), betas: Seq<(int, int)>, elems: Seq<int>, n: int)
    requires
        0 <= prefix.0 < P,
        0 <= prefix.1 < P,
    ensures
        encode_spec(prefix, betas, elems, n) == qadd(prefix, encode_spec((0, 0), betas, elems, n)),
    decreases n,
{
    if n <= 0 {
        lemma_canonical(prefix.0);
        lemma_canonical(prefix.1);
    } else {
        lemma_encode_from_prefix(prefix, betas, elems, n - 1);
        let rest = encode_spec((0, 0), betas, elems, n - 1);
        let term = qscale(betas[n - 1], elems[n - 1]);
        lemma_fadd_assoc(prefix.0, rest.0, term.0);
        lemma_fadd_assoc(prefix.1, rest.1, term.1);
    }
}

/// Messages on different buses are distinct: the same elements sent on two buses whose prefixes
/// differ encode to different values.
pub proof fn lemma_bus_domain_separation(ch: &Challenges, a: int, b: int, elems: Seq<int>)
    requires
        ch.wf(),
        0 <= a < NUM_BUS_TYPES,
        0 <= b < NUM_BUS_TYPES,
        ch.prefix(a) != ch.prefix(b),
    ensures
        ch.message(a, elems) != ch.message(b, elems),
{
    broadcast use lemma_felt_range;

    let n = elems.len() as int;
    let rest = encode_spec((0, 0), ch.betas(), elems, n);
    let pa = ch.prefix(a);
    let pb = ch.prefix(b);
    assert(pa == ch.bus_prefix@[a]@ && pb == ch.bus_prefix@[b]@);
    lemma_encode_from_prefix(pa, ch.betas(), elems, n);
    lemma_encode_from_prefix(pb, ch.betas(), elems, n);
    if ch.message(a, elems) == ch.message(b, elems) {
        lemma_fadd_cancel(pa.0, pb.0, rest.0);
        lemma_fadd_cancel(pa.1, pb.1, rest.1);
    }
}

/// The encoding reads only the first `n` elements.
proof fn lemma_encode_prefix_only(prefix: (int, int), betas: Seq<(int, int)>, a: Seq<int>, b: Seq<int>, n: int)
    requires
        n <= a.len(),
        n <= b.len(),
        forall|i: int| 0 <= i < n ==> a[i] == b[i],
    ensures
        encode_spec(prefix, betas, a, n) == encode_spec(prefix, betas, b, n),
    decreases n,
{
    if n > 0 {
        lemma_encode_prefix_only(prefix, betas, a, b, n - 1);
    }
}

/// Appending an element `e` to a message adds `beta^k * e`, `k` the message's former length.
pub proof fn lemma_message_append(ch: &Challenges, bus: int, elems: Seq<int>, e: int)
    ensures
        ch.message(bus, elems.push(e)) == qadd(ch.message(bus, elems), qscale(ch.betas()[elems.len() as int], e)),
{
    let n = elems.len() as int;
    let longer = elems.push(e);
    lemma_encode_prefix_only(ch.prefix(bus), ch.betas(), longer, elems, n);
}

/// With coefficients `beta^i`, a one-element message `[e]` encodes to `prefix + e`.
pub proof fn lemma_message_single(ch: &Challenges, beta: (int, int), bus: int, e: int)
    requires
        ch.wf(),
        forall|i: int| 0 <= i < MAX_MESSAGE_WIDTH ==> #[trigger] ch.betas()[i] == qpow(beta, i as nat),
        0 <= e < P,
    ensures
        ch.message(bus, seq![e]) == qadd(ch.prefix(bus), (e, 0int)),
{
    assert(ch.betas()[0] == qpow(beta, 0));
    assert(seq![e].len() == 1);
    assert(encode_spec(ch.prefix(bus), ch.betas(), seq![e], 0) == ch.prefix(bus));
    lemma_canonical(e);
    crate::field::lemma_mul_zero(e);
}

/// A sparse encoding whose layout lists the positions `0, 1, ..., n - 1` in order is the dense
/// encoding of the same values.
pub proof fn lemma_sparse_identity_layout(prefix: (int, int), betas: Seq<(int, int)>, layout: Seq<usize>, values: Seq<int>, n: int)
    requires
        n <= layout.len(),
        forall|i: int| 0 <= i < n ==> #[trigger] layout[i] == i,
    ensures
        encode_sparse_spec(prefix, betas, layout, values, n) == encode_spec(prefix, betas, values, n),
    decreases n,
{
    if n > 0 {
        lemma_sparse_identity_layout(prefix, betas, layout, values, n - 1);
        assert(layout[n - 1] == n - 1);
    }
}

} // verus!
