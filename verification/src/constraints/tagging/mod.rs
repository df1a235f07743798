//! Constraint tagging: groups of constraints with stable numeric ids and names.

use vstd::prelude::*;

use crate::constraint_set::{ConstraintSet, RowDomain};
use crate::field::QuadFelt;

verus! {

/// Tag metadata of a constraint group: the id of its first constraint and the ordered names.
pub struct TagGroup {
    pub base: usize,
    pub names: Vec<&'static str>,
}

impl TagGroup {
    /// The id of the constraint at position `idx` of the group.
    pub open spec fn id(&self, idx: int) -> int {
        self.base + idx
    }
}

/// Asserts an extension field constraint on transition rows as the next constraint of `group`,
/// tagged with the id `group.base + idx` and the name `group.names[idx]`, and advances the
/// group's index.
pub fn tagged_assert_zero_ext(builder: &mut ConstraintSet, group: &TagGroup, idx: &mut usize, expr: QuadFelt)
    requires
        *old(idx) < group.names@.len(),
        group.base + *old(idx) <= usize::MAX,
    ensures
        final(builder).ext_view() == old(builder).ext_view().push((expr@, RowDomain::Transition)),
        final(builder).base_view() == old(builder).base_view(),
        final(builder).tags_view() == old(builder).tags_view().push(
            (group.id(*old(idx) as int), group.names@[*old(idx) as int]@, old(builder).ext_view().len() as int),
        ),
        *final(idx) == *old(idx) + 1,
{
    let n = group.names.len();
    let id = group.base + *idx;
    let name = group.names[*idx];
    builder.tag_next_ext(id, name);
    builder.assert_zero_ext(expr, RowDomain::Transition);
    *idx = *idx + 1;
    assert(*idx <= n);
}

} // verus!
