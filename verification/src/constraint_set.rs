//! Recording of asserted constraints.
//!
//! Constraint functions evaluate each constraint polynomial at a concrete pair of trace rows and
//! append the value to a [`ConstraintSet`], tagged with the rows on which the polynomial must
//! vanish.

use vstd::prelude::*;

use crate::field::{Felt, QuadFelt};

verus! {

/// The rows of the trace on which a constraint must vanish.
#[derive(Clone, Copy, Debug, PartialEq, Eq, Structural)]
pub enum RowDomain {
    /// Every row of the trace.
    EveryRow,
    /// Every row except the last (the constraint relates a row to its successor).
    Transition,
    /// The first row only.
    FirstRow,
    /// The last row only.
    LastRow,
}

/// Every constraint value of `cs` is 0.
pub open spec fn all_vanish(cs: Seq<(int, RowDomain)>) -> bool {
    forall|i: int| 0 <= i < cs.len() ==> (#[trigger] cs[i]).0 == 0
}

/// Two lists of constraints vanish together exactly when each vanishes.
pub proof fn lemma_all_vanish_concat(a: Seq<(int, RowDomain)>, b: Seq<(int, RowDomain)>)
    ensures
        all_vanish(a + b) == (all_vanish(a) && all_vanish(b)),
{
    if all_vanish(a) && all_vanish(b) {
        assert forall|i: int| 0 <= i < (a + b).len() implies (#[trigger] (a + b)[i]).0 == 0 by {
            if i < a.len() {
                assert((a + b)[i] == a[i]);
            } else {
                assert((a + b)[i] == b[i - a.len()]);
            }
        }
    }
    if all_vanish(a + b) {
        assert forall|i: int| 0 <= i < a.len() implies (#[trigger] a[i]).0 == 0 by {
            assert((a + b)[i] == a[i]);
        }
        assert forall|i: int| 0 <= i < b.len() implies (#[trigger] b[i]).0 == 0 by {
            assert((a + b)[a.len() + i] == b[i]);
        }
    }
}

/// A base field constraint value and its domain.
#[derive(Clone, Copy, Debug)]
pub struct BaseConstraint {
    pub value: Felt,
    pub domain: RowDomain,
}

/// An extension field constraint value and its domain.
#[derive(Clone, Copy, Debug)]
pub struct ExtConstraint {
    pub value: QuadFelt,
    pub domain: RowDomain,
}

/// Whether the domain applies to a row, given whether the row is the first or the last.
pub open spec fn domain_applies(domain: RowDomain, is_first: bool, is_last: bool) -> bool {
    match domain {
        RowDomain::EveryRow => true,
        RowDomain::Transition => !is_last,
        RowDomain::FirstRow => is_first,
        RowDomain::LastRow => is_last,
    }
}

/// Every base constraint of `s` vanishes on a row with the given position.
pub open spec fn base_satisfied(s: Seq<(int, RowDomain)>, is_first: bool, is_last: bool) -> bool {
    forall|i: int|
        0 <= i < s.len() && domain_applies(#[trigger] s[i].1, is_first, is_last) ==> s[i].0 == 0
}

/// A window of two consecutive rows of a trace, stored row-major in one vector.
pub struct OwnedWindow<T: Clone> {
    values: Vec<T>,
    width: usize,
}

impl<T: Clone> OwnedWindow<T> {
    /// A window over `values`, whose first `width` entries are the current row and whose
    /// remaining entries are the next row.
    pub fn new(values: Vec<T>, width: usize) -> (r: Self)
        requires
            width <= values@.len(),
        ensures
            r.wf(),
            r.current() == values@.subrange(0, width as int),
            r.next() == values@.subrange(width as int, values@.len() as int),
    {
        OwnedWindow { values, width }
    }

    /// The current row.
    pub closed spec fn current(&self) -> Seq<T> {
        self.values@.subrange(0, self.width as int)
    }

    /// The next row.
    pub closed spec fn next(&self) -> Seq<T> {
        self.values@.subrange(self.width as int, self.values@.len() as int)
    }

    /// The window is well formed: the current row lies within the stored values.
    pub closed spec fn wf(&self) -> bool {
        self.width <= self.values@.len()
    }

    /// Returns the current row.
    pub fn current_slice(&self) -> (r: &[T])
        requires
            self.wf(),
        ensures
            r@ == self.current(),
    {
        vstd::slice::slice_subrange(self.values.as_slice(), 0, self.width)
    }

    /// Returns the next row.
    pub fn next_slice(&self) -> (r: &[T])
        requires
            self.wf(),
        ensures
            r@ == self.next(),
    {
        vstd::slice::slice_subrange(self.values.as_slice(), self.width, self.values.len())
    }
}

/// Values that the constraints read besides the two main trace rows: the transition selector
/// of the row, the periodic column values and the auxiliary trace window.
pub struct EvalContext {
    /// 1 on every row but the last, 0 on the last row.
    pub is_transition: Felt,
    /// Values of the periodic columns at the row.
    pub periodic: Vec<Felt>,
    /// Current and next rows of the auxiliary trace.
    pub aux: OwnedWindow<QuadFelt>,
    /// The random challenges of the auxiliary trace (`alpha` first).
    pub randomness: Vec<QuadFelt>,
}

impl EvalContext {
    /// The auxiliary window holds two full rows of the auxiliary trace.
    pub open spec fn wf(&self) -> bool {
        &&& self.aux.wf()
        &&& self.aux.current().len() == crate::trace::AUX_TRACE_WIDTH
        &&& self.aux.next().len() == crate::trace::AUX_TRACE_WIDTH
    }

    /// Auxiliary column `i` on the current row.
    pub open spec fn aux_local(&self, i: int) -> (int, int) {
        self.aux.current()[i]@
    }

    /// Auxiliary column `i` on the next row.
    pub open spec fn aux_next(&self, i: int) -> (int, int) {
        self.aux.next()[i]@
    }
}

/// The tag of an extension constraint: its stable id and name, and its position among the
/// extension constraints.
#[derive(Clone, Copy, Debug)]
pub struct ConstraintTag {
    pub id: usize,
    pub name: &'static str,
    pub position: usize,
}

/// The constraints asserted so far, and the tags given to extension constraints.
pub struct ConstraintSet {
    pub base: Vec<BaseConstraint>,
    pub ext: Vec<ExtConstraint>,
    pub tags: Vec<ConstraintTag>,
}

impl ConstraintSet {
    /// The base constraints as (value, domain) pairs.
    pub open spec fn base_view(&self) -> Seq<(int, RowDomain)> {
        self.base@.map_values(|c: BaseConstraint| (c.value@, c.domain))
    }

    /// The extension constraints as (value, domain) pairs.
    pub open spec fn ext_view(&self) -> Seq<((int, int), RowDomain)> {
        self.ext@.map_values(|c: ExtConstraint| (c.value@, c.domain))
    }

    /// The tags as (id, name, position) triples.
    pub open spec fn tags_view(&self) -> Seq<(int, Seq<char>, int)> {
        self.tags@.map_values(|t: ConstraintTag| (t.id as int, t.name@, t.position as int))
    }

    /// An empty set of constraints.
    pub fn new() -> (r: ConstraintSet)
        ensures
            r.base_view() == Seq::<(int, RowDomain)>::empty(),
            r.ext_view() == Seq::<((int, int), RowDomain)>::empty(),
            r.tags_view() == Seq::<(int, Seq<char>, int)>::empty(),
    {
        let r = ConstraintSet { base: Vec::new(), ext: Vec::new(), tags: Vec::new() };
        assert(r.base_view() =~= Seq::<(int, RowDomain)>::empty());
        assert(r.ext_view() =~= Seq::<((int, int), RowDomain)>::empty());
        assert(r.tags_view() =~= Seq::<(int, Seq<char>, int)>::empty());
        r
    }

    /// Tags the next extension constraint with `id` and `name`.
    pub fn tag_next_ext(&mut self, id: usize, name: &'static str)
        ensures
            final(self).tags_view() == old(self).tags_view().push((id as int, name@, old(self).ext_view().len() as int)),
            final(self).base_view() == old(self).base_view(),
            final(self).ext_view() == old(self).ext_view(),
    {
        let position = self.ext.len();
        self.tags.push(ConstraintTag { id, name, position });
        assert(self.tags_view() =~= old(self).tags_view().push((id as int, name@, position as int)));
    }

    /// Asserts that `value` vanishes on the rows of `domain`.
    pub fn assert_zero(&mut self, value: Felt, domain: RowDomain)
        ensures
            final(self).base_view() == old(self).base_view().push((value@, domain)),
            final(self).ext_view() == old(self).ext_view(),
            final(self).tags_view() == old(self).tags_view(),
    {
        self.base.push(BaseConstraint { value, domain });
        assert(self.base_view() =~= old(self).base_view().push((value@, domain)));
        assert(self.ext_view() =~= old(self).ext_view());
        assert(self.tags_view() =~= old(self).tags_view());
    }

    /// Asserts that the extension field `value` vanishes on the rows of `domain`.
    pub fn assert_zero_ext(&mut self, value: QuadFelt, domain: RowDomain)
        ensures
            final(self).ext_view() == old(self).ext_view().push((value@, domain)),
            final(self).base_view() == old(self).base_view(),
            final(self).tags_view() == old(self).tags_view(),
    {
        self.ext.push(ExtConstraint { value, domain });
        assert(self.ext_view() =~= old(self).ext_view().push((value@, domain)));
        assert(self.base_view() =~= old(self).base_view());
        assert(self.tags_view() =~= old(self).tags_view());
    }

    /// Asserts that each of `values` vanishes on the rows of `domain`, in order.
    pub fn assert_zeros(&mut self, values: &Vec<Felt>, domain: RowDomain)
        ensures
            final(self).base_view() == old(self).base_view() + values@.map_values(
                |v: Felt| (v@, domain),
            ),
            final(self).ext_view() == old(self).ext_view(),
            final(self).tags_view() == old(self).tags_view(),
    {
        let mut i: usize = 0;
        while i < values.len()
            invariant
                0 <= i <= values@.len(),
                self.base_view() == old(self).base_view() + values@.subrange(0, i as int).map_values(
                    |v: Felt| (v@, domain),
                ),
                self.ext_view() == old(self).ext_view(),
                self.tags_view() == old(self).tags_view(),
            decreases values@.len() - i,
        {
            self.assert_zero(values[i], domain);
            assert(values@.subrange(0, i + 1) =~= values@.subrange(0, i as int).push(values@[i as int]));
            assert(values@.subrange(0, i + 1).map_values(|v: Felt| (v@, domain)) =~= values@.subrange(
                0,
                i as int,
            ).map_values(|v: Felt| (v@, domain)).push((values@[i as int]@, domain)));
            i += 1;
        }
        assert(values@.subrange(0, values@.len() as int) =~= values@);
    }

    /// Number of base field constraints.
    pub fn base_count(&self) -> (r: usize)
        ensures
            r == self.base_view().len(),
    {
        self.base.len()
    }

    /// Number of extension field constraints.
    pub fn ext_count(&self) -> (r: usize)
        ensures
            r == self.ext_view().len(),
    {
        self.ext.len()
    }
}

} // verus!
