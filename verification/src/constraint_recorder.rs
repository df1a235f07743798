//! Constraint recorder: evaluates the constraints at a deterministic pseudo-random point and
//! records each asserted value as a fingerprint, together with the source location that
//! asserted it.
//!
//! Each fingerprint maps to the locations that produced it, so that moved constraints (same
//! fingerprint, other location), duplicated constraints (same fingerprint, several entries)
//! and reorderings (the maps are ordered by fingerprint) can all be told apart when two
//! recordings are compared.

use std::collections::BTreeMap;
use std::string::String;

use vstd::prelude::*;

use crate::constraint_set::OwnedWindow;
use crate::field::{Felt, QuadFelt, P};
use crate::text::{
    char_lines, chars_of, contains_exec, contains_text, decimal, first_line, hex16, joined, lemma_newline_each_append,
    lemma_newline_each_push, lines_of, newline_each, occurs_at_exec, push_char, push_chars, push_decimal, push_hex16,
    push_joined, push_str, starts_with_text, text_lines, trim_chars, trimmed,
};
use crate::trace::{AUX_TRACE_WIDTH, TRACE_WIDTH};

verus! {

// DETERMINISTIC RANDOM POINT GENERATION
// ================================================================================================

/// Domain of the main trace values.
pub const MAIN_DOMAIN: u64 = 0x4d41494e;
/// Domain of the auxiliary trace values.
pub const AUX_DOMAIN: u64 = 0x41555854;
/// Domain of the public values.
pub const PUB_DOMAIN: u64 = 0x50554256;
/// Domain of the periodic column values.
pub const PERIODIC_DOMAIN: u64 = 0x50455249;
/// Domain of the challenges.
pub const CHALLENGE_DOMAIN: u64 = 0x4348414c;
/// Domain of the row selectors.
pub const SELECTOR_DOMAIN: u64 = 0x53454c45;
/// Domain of the permutation values.
pub const PERM_VAL_DOMAIN: u64 = 0x5045524d;

/// The xorshift-multiply mix of `(domain, index)`.
pub open spec fn mix(domain: u64, index: u64) -> u64 {
    let h0 = domain.wrapping_mul(0x9e3779b97f4a7c15u64) ^ index.wrapping_mul(0x517cc1b727220a95u64);
    let h1 = (h0 ^ (h0 >> 30u64)).wrapping_mul(0xbf58476d1ce4e5b9u64);
    let h2 = (h1 ^ (h1 >> 27u64)).wrapping_mul(0x94d049bb133111ebu64);
    h2 ^ (h2 >> 31u64)
}

/// The pseudo-random field value of `(domain, index)`: the mix plus one (wrapping), reduced.
pub open spec fn deterministic_value(domain: u64, index: u64) -> int {
    mix(domain, index).wrapping_add(1) as int % (P as int)
}

/// The pseudo-random field element of `(domain, index)`.
pub fn deterministic_felt(domain: u64, index: u64) -> (r: Felt)
    ensures
        r@ == deterministic_value(domain, index),
{
    let mut h = domain.wrapping_mul(0x9e3779b97f4a7c15u64) ^ index.wrapping_mul(0x517cc1b727220a95u64);
    h = (h ^ (h >> 30u64)).wrapping_mul(0xbf58476d1ce4e5b9u64);
    h = (h ^ (h >> 27u64)).wrapping_mul(0x94d049bb133111ebu64);
    h = h ^ (h >> 31u64);
    Felt::new(h.wrapping_add(1))
}

/// The pseudo-random extension element of `(domain, index)`, from the base values at
/// `2 * index` and `2 * index + 1`.
pub fn deterministic_quad(domain: u64, index: u64) -> (r: QuadFelt)
    requires
        index < 0x8000_0000_0000_0000,
    ensures
        r@ == (deterministic_value(domain, (2 * index) as u64), deterministic_value(domain, (2 * index + 1) as u64)),
{
    let a = deterministic_felt(domain, index * 2);
    let b = deterministic_felt(domain, index * 2 + 1);
    QuadFelt::new(a, b)
}

/// `n` pseudo-random field elements of `domain`, at indexes `0..n`.
fn deterministic_felts(domain: u64, n: usize) -> (r: Vec<Felt>)
    ensures
        r@.len() == n,
        forall|i: int| 0 <= i < n ==> #[trigger] r@[i]@ == deterministic_value(domain, i as u64),
{
    let mut r: Vec<Felt> = Vec::new();
    let mut i: usize = 0;
    while i < n
        invariant
            i <= n,
            r@.len() == i,
            forall|j: int| 0 <= j < i ==> #[trigger] r@[j]@ == deterministic_value(domain, j as u64),
        decreases n - i,
    {
        r.push(deterministic_felt(domain, i as u64));
        i += 1;
    }
    r
}

/// `n` pseudo-random extension elements of `domain`, at indexes `0..n`.
fn deterministic_quads(domain: u64, n: usize) -> (r: Vec<QuadFelt>)
    requires
        n <= 0x8000_0000_0000_0000,
    ensures
        r@.len() == n,
        forall|i: int|
            0 <= i < n ==> #[trigger] r@[i]@ == (
                deterministic_value(domain, (2 * i) as u64),
                deterministic_value(domain, (2 * i + 1) as u64),
            ),
{
    let mut r: Vec<QuadFelt> = Vec::new();
    let mut i: usize = 0;
    while i < n
        invariant
            i <= n,
            n <= 0x8000_0000_0000_0000,
            r@.len() == i,
            forall|j: int|
                0 <= j < i ==> #[trigger] r@[j]@ == (
                    deterministic_value(domain, (2 * j) as u64),
                    deterministic_value(domain, (2 * j + 1) as u64),
                ),
        decreases n - i,
    {
        r.push(deterministic_quad(domain, i as u64));
        i += 1;
    }
    r
}

// EVALUATION POINT
// ================================================================================================

/// The pseudo-random point at which the constraints are evaluated.
pub struct EvalPoint {
    /// Main trace: 2 rows of `TRACE_WIDTH` values, row-major.
    pub main_values: Vec<Felt>,
    /// Auxiliary trace: 2 rows of `AUX_TRACE_WIDTH` values, row-major.
    pub aux_values: Vec<QuadFelt>,
    /// Public values.
    pub public_values: Vec<Felt>,
    /// One value per periodic column.
    pub periodic_values: Vec<Felt>,
    /// Permutation challenges.
    pub challenges: Vec<QuadFelt>,
    /// Permutation values, one per auxiliary column.
    pub perm_values: Vec<QuadFelt>,
    /// Value of the first-row selector.
    pub is_first_row: Felt,
    /// Value of the last-row selector.
    pub is_last_row: Felt,
    /// Value of the transition selector.
    pub is_transition: Felt,
}

/// `s` holds the `n` pseudo-random field elements of `domain`.
pub open spec fn felts_of(s: Seq<Felt>, domain: u64, n: int) -> bool {
    &&& s.len() == n
    &&& forall|i: int| 0 <= i < n ==> #[trigger] s[i]@ == deterministic_value(domain, i as u64)
}

/// `s` holds the `n` pseudo-random extension elements of `domain`.
pub open spec fn quads_of(s: Seq<QuadFelt>, domain: u64, n: int) -> bool {
    &&& s.len() == n
    &&& forall|i: int|
        0 <= i < n ==> #[trigger] s[i]@ == (
            deterministic_value(domain, (2 * i) as u64),
            deterministic_value(domain, (2 * i + 1) as u64),
        )
}

impl EvalPoint {
    /// The point generated for the given numbers of public values, periodic columns and
    /// challenges.
    pub open spec fn generated(&self, num_public_values: int, num_periodic_cols: int, num_challenges: int) -> bool {
        &&& felts_of(self.main_values@, MAIN_DOMAIN, 2 * TRACE_WIDTH)
        &&& quads_of(self.aux_values@, AUX_DOMAIN, 2 * AUX_TRACE_WIDTH)
        &&& felts_of(self.public_values@, PUB_DOMAIN, num_public_values)
        &&& felts_of(self.periodic_values@, PERIODIC_DOMAIN, num_periodic_cols)
        &&& quads_of(self.challenges@, CHALLENGE_DOMAIN, num_challenges)
        &&& quads_of(self.perm_values@, PERM_VAL_DOMAIN, AUX_TRACE_WIDTH as int)
        &&& self.is_first_row@ == deterministic_value(SELECTOR_DOMAIN, 0)
        &&& self.is_last_row@ == deterministic_value(SELECTOR_DOMAIN, 1)
        &&& self.is_transition@ == deterministic_value(SELECTOR_DOMAIN, 2)
    }

    /// Generates the point.
    pub fn new(num_public_values: usize, num_periodic_cols: usize, num_challenges: usize) -> (r: Self)
        requires
            num_challenges <= 0x8000_0000_0000_0000,
        ensures
            r.generated(num_public_values as int, num_periodic_cols as int, num_challenges as int),
    {
        EvalPoint {
            main_values: deterministic_felts(MAIN_DOMAIN, 2 * TRACE_WIDTH),
            aux_values: deterministic_quads(AUX_DOMAIN, 2 * AUX_TRACE_WIDTH),
            public_values: deterministic_felts(PUB_DOMAIN, num_public_values),
            periodic_values: deterministic_felts(PERIODIC_DOMAIN, num_periodic_cols),
            challenges: deterministic_quads(CHALLENGE_DOMAIN, num_challenges),
            perm_values: deterministic_quads(PERM_VAL_DOMAIN, AUX_TRACE_WIDTH),
            is_first_row: deterministic_felt(SELECTOR_DOMAIN, 0),
            is_last_row: deterministic_felt(SELECTOR_DOMAIN, 1),
            is_transition: deterministic_felt(SELECTOR_DOMAIN, 2),
        }
    }
}


// CONSTRAINT RECORDER
// ================================================================================================

/// One recorded constraint: the source location that asserted it.
#[derive(Debug, Clone)]
pub struct ConstraintRecord {
    /// Condensed backtrace of the assertion.
    pub location: String,
}

/// `sum(m[k].len())` over the keys `keys`, summed from the first.
pub open spec fn records_total<K>(m: Map<K, Vec<ConstraintRecord>>, keys: Seq<K>) -> nat
    decreases keys.len(),
{
    if keys.len() == 0 {
        0
    } else {
        records_total(m, keys.drop_last()) + m[keys.last()]@.len()
    }
}

/// `keys` lists the keys of `m`, each once.
pub open spec fn enumerates<K, V>(m: Map<K, V>, keys: Seq<K>) -> bool {
    keys.no_duplicates() && keys.to_set() == m.dom()
}

/// The total number of records of `m` fits in a `usize`, whatever the order of the keys.
pub open spec fn total_fits<K>(m: Map<K, Vec<ConstraintRecord>>) -> bool {
    forall|keys: Seq<K>| enumerates(m, keys) ==> records_total(m, keys) <= usize::MAX
}

/// The records of `m` under `key`, followed by `record`.
pub open spec fn appended<K>(m: Map<K, Vec<ConstraintRecord>>, key: K, record: ConstraintRecord) -> Seq<ConstraintRecord> {
    if m.contains_key(key) {
        m[key]@.push(record)
    } else {
        seq![record]
    }
}

/// `new` is `old` with `record` appended to the records under `key`.
pub open spec fn recorded<K>(
    old_m: Map<K, Vec<ConstraintRecord>>,
    new_m: Map<K, Vec<ConstraintRecord>>,
    key: K,
    record: ConstraintRecord,
) -> bool {
    &&& new_m.dom() == old_m.dom().insert(key)
    &&& new_m[key]@ == appended(old_m, key, record)
    &&& forall|k: K| k != key && #[trigger] old_m.contains_key(k) ==> new_m[k] == old_m[k]
}

/// Fingerprints are totally ordered, as the maps need.
proof fn lemma_fingerprints_ordered()
    ensures
        vstd::laws_cmp::obeys_cmp::<u64>(),
        vstd::laws_cmp::obeys_cmp::<(u64, u64)>(),
{
    broadcast use vstd::laws_cmp::group_laws_cmp;

}

/// A prefix of the keys counts no more records than all of them.
proof fn lemma_records_total_prefix<K>(m: Map<K, Vec<ConstraintRecord>>, keys: Seq<K>, i: int)
    requires
        0 <= i <= keys.len(),
    ensures
        records_total(m, keys.take(i)) <= records_total(m, keys),
    decreases keys.len(),
{
    if i < keys.len() {
        assert(keys.drop_last().take(i) =~= keys.take(i));
        lemma_records_total_prefix(m, keys.drop_last(), i);
    } else {
        assert(keys.take(i) =~= keys);
    }
}

/// Taking all of a sequence gives it back.
proof fn lemma_take_all<K>(keys: Seq<K>)
    ensures
        keys.take(keys.len() as int) == keys,
{
    assert(keys.take(keys.len() as int) =~= keys);
}

/// Counts the records of a map, visiting its keys in increasing order.
fn count_records<K: Ord>(m: &BTreeMap<K, Vec<ConstraintRecord>>) -> (r: usize)
    requires
        vstd::laws_cmp::obeys_cmp::<K>(),
        total_fits(m@),
    ensures
        exists|keys: Seq<K>| enumerates(m@, keys) && r == records_total(m@, keys),
{
    broadcast use vstd::std_specs::btree::group_btree_axioms;

    let values = m.values();
    let ghost keys = choose|keys: Seq<K>|
        {
            &&& vstd::std_specs::btree::increasing_seq(keys)
            &&& keys.to_set() == m@.dom()
            &&& keys.no_duplicates()
            &&& vstd::std_specs::iter::IteratorSpec::remaining(&values) == keys.map(|i: int, k: K| &m@[k])
        };
    let mut total: usize = 0;
    for v in iter: values
        invariant
            iter.seq() == keys.map(|i: int, k: K| &m@[k]),
            enumerates(m@, keys),
            total_fits(m@),
            total == records_total(m@, keys.take(iter.index())),
    {
        proof {
            let i = iter.index();
            assert(keys.take(i + 1).drop_last() =~= keys.take(i));
            lemma_records_total_prefix(m@, keys, i + 1);
        }
        total = total + v.len();
    }
    proof {
        lemma_take_all(keys);
    }
    total
}

/// Records every asserted constraint under its value at the evaluation point, with the source
/// location that asserted it.
pub struct ConstraintRecorder {
    /// The point at which the constraints are evaluated.
    pub eval_point: EvalPoint,
    /// Base field constraints: fingerprint to the records with that fingerprint.
    pub base_constraints: BTreeMap<u64, Vec<ConstraintRecord>>,
    /// Extension field constraints: fingerprint to the records with that fingerprint.
    pub ext_constraints: BTreeMap<(u64, u64), Vec<ConstraintRecord>>,
}

impl ConstraintRecorder {
    /// A recorder with no constraint, at the point generated for the given numbers of public
    /// values, periodic columns and challenges.
    pub fn new(num_public_values: usize, num_periodic_cols: usize, num_challenges: usize) -> (r: Self)
        requires
            num_challenges <= 0x8000_0000_0000_0000,
        ensures
            r.eval_point.generated(num_public_values as int, num_periodic_cols as int, num_challenges as int),
            r.base_constraints@ == Map::<u64, Vec<ConstraintRecord>>::empty(),
            r.ext_constraints@ == Map::<(u64, u64), Vec<ConstraintRecord>>::empty(),
    {
        ConstraintRecorder {
            eval_point: EvalPoint::new(num_public_values, num_periodic_cols, num_challenges),
            base_constraints: BTreeMap::new(),
            ext_constraints: BTreeMap::new(),
        }
    }

    /// Total number of base constraints, duplicates included.
    pub fn base_count(&self) -> (r: usize)
        requires
            total_fits(self.base_constraints@),
        ensures
            exists|keys: Seq<u64>| enumerates(self.base_constraints@, keys) && r == records_total(self.base_constraints@, keys),
    {
        proof {
            lemma_fingerprints_ordered();
        }
        count_records(&self.base_constraints)
    }

    /// Total number of extension constraints, duplicates included.
    pub fn ext_count(&self) -> (r: usize)
        requires
            total_fits(self.ext_constraints@),
        ensures
            exists|keys: Seq<(u64, u64)>| enumerates(self.ext_constraints@, keys) && r == records_total(self.ext_constraints@, keys),
    {
        proof {
            lemma_fingerprints_ordered();
        }
        count_records(&self.ext_constraints)
    }

    /// The main trace window: two rows of `TRACE_WIDTH` values.
    pub fn main(&self) -> (r: OwnedWindow<Felt>)
        requires
            self.eval_point.main_values@.len() == 2 * TRACE_WIDTH,
        ensures
            r.wf(),
            r.current() == self.eval_point.main_values@.subrange(0, TRACE_WIDTH as int),
            r.next() == self.eval_point.main_values@.subrange(TRACE_WIDTH as int, 2 * TRACE_WIDTH as int),
    {
        let values = self.eval_point.main_values.clone();
        assert(values@ =~= self.eval_point.main_values@);
        OwnedWindow::new(values, TRACE_WIDTH)
    }

    /// The first-row selector value.
    pub fn is_first_row(&self) -> (r: Felt)
        ensures
            r == self.eval_point.is_first_row,
    {
        self.eval_point.is_first_row
    }

    /// The last-row selector value.
    pub fn is_last_row(&self) -> (r: Felt)
        ensures
            r == self.eval_point.is_last_row,
    {
        self.eval_point.is_last_row
    }

    /// The transition selector value; only windows of two rows exist.
    pub fn is_transition_window(&self, size: usize) -> (r: Felt)
        requires
            size == 2,
        ensures
            r == self.eval_point.is_transition,
    {
        self.eval_point.is_transition
    }

    /// The public values.
    pub fn public_values(&self) -> (r: &[Felt])
        ensures
            r@ == self.eval_point.public_values@,
    {
        self.eval_point.public_values.as_slice()
    }

    /// The periodic column values.
    pub fn periodic_values(&self) -> (r: &[Felt])
        ensures
            r@ == self.eval_point.periodic_values@,
    {
        self.eval_point.periodic_values.as_slice()
    }

    /// The auxiliary trace window: two rows of `AUX_TRACE_WIDTH` values.
    pub fn permutation(&self) -> (r: OwnedWindow<QuadFelt>)
        requires
            self.eval_point.aux_values@.len() == 2 * AUX_TRACE_WIDTH,
        ensures
            r.wf(),
            r.current() == self.eval_point.aux_values@.subrange(0, AUX_TRACE_WIDTH as int),
            r.next() == self.eval_point.aux_values@.subrange(AUX_TRACE_WIDTH as int, 2 * AUX_TRACE_WIDTH as int),
    {
        let values = self.eval_point.aux_values.clone();
        assert(values@ =~= self.eval_point.aux_values@);
        OwnedWindow::new(values, AUX_TRACE_WIDTH)
    }

    /// The permutation challenges.
    pub fn permutation_randomness(&self) -> (r: &[QuadFelt])
        ensures
            r@ == self.eval_point.challenges@,
    {
        self.eval_point.challenges.as_slice()
    }

    /// The permutation values.
    pub fn permutation_values(&self) -> (r: &[QuadFelt])
        ensures
            r@ == self.eval_point.perm_values@,
    {
        self.eval_point.perm_values.as_slice()
    }

    /// Dumps the recorded constraints as lines: the counts of all and of distinct base and
    /// extension constraints, `---`, then one line per fingerprint in increasing order, base
    /// constraints first, with its number of records and the first line of its first location.
    pub fn dump(&self) -> (r: String)
        requires
            total_fits(self.base_constraints@),
            total_fits(self.ext_constraints@),
            groups_nonempty(self.base_constraints@),
            groups_nonempty(self.ext_constraints@),
        ensures
            exists|b1: Seq<u64>, e1: Seq<(u64, u64)>, b2: Seq<u64>, e2: Seq<(u64, u64)>|
                {
                    &&& enumerates(self.base_constraints@, b1)
                    &&& enumerates(self.ext_constraints@, e1)
                    &&& sorted_keys(self.base_constraints@, b2)
                    &&& sorted_keys(self.ext_constraints@, e2)
                    &&& r@ == header_text(
                        records_total(self.base_constraints@, b1),
                        records_total(self.ext_constraints@, e1),
                        self.base_constraints@.len(),
                        self.ext_constraints@.len(),
                    ) + newline_each(summary_lines(self.base_constraints@, b2) + summary_lines(self.ext_constraints@, e2))
                },
    {
        broadcast use vstd::std_specs::btree::group_btree_axioms;

        proof {
            lemma_fingerprints_ordered();
        }
        let base = &self.base_constraints;
        let ext = &self.ext_constraints;
        let base_count = self.base_count();
        let ghost b1 = choose|keys: Seq<u64>| enumerates(base@, keys) && base_count == records_total(base@, keys);
        let ext_count = self.ext_count();
        let ghost e1 = choose|keys: Seq<(u64, u64)>| enumerates(ext@, keys) && ext_count == records_total(ext@, keys);
        let mut out = String::new();
        push_str(&mut out, "# base_constraints: ");
        push_decimal(&mut out, base_count);
        push_str(&mut out, "\n# ext_constraints: ");
        push_decimal(&mut out, ext_count);
        push_str(&mut out, "\n# unique_base: ");
        push_decimal(&mut out, base.len());
        push_str(&mut out, "\n# unique_ext: ");
        push_decimal(&mut out, ext.len());
        push_str(&mut out, "\n---");
        let ghost header = out@;
        assert(header =~= header_text(records_total(base@, b1), records_total(ext@, e1), base@.len(), ext@.len()));
        push_summaries(&mut out, base);
        let ghost b2 = choose|keys: Seq<u64>| sorted_keys(base@, keys) && out@ == header + newline_each(summary_lines(base@, keys));
        let ghost mid = out@;
        push_summaries(&mut out, ext);
        let ghost e2 = choose|keys: Seq<(u64, u64)>| sorted_keys(ext@, keys) && out@ == mid + newline_each(summary_lines(ext@, keys));
        proof {
            lemma_newline_each_append(summary_lines(base@, b2), summary_lines(ext@, e2));
            assert(out@ =~= header + newline_each(summary_lines(base@, b2) + summary_lines(ext@, e2)));
        }
        out
    }

    /// Dumps the recorded constraints with their complete locations: the counts as in
    /// [`Self::dump`], then for each fingerprint in increasing order, base constraints first, a
    /// line with its number of records, the lines of each record's location (after `  [i]:` for
    /// all records but the first), indented, and an empty line.
    pub fn dump_full(&self) -> (r: String)
        requires
            total_fits(self.base_constraints@),
            total_fits(self.ext_constraints@),
        ensures
            exists|b1: Seq<u64>, e1: Seq<(u64, u64)>, b2: Seq<u64>, e2: Seq<(u64, u64)>|
                {
                    &&& enumerates(self.base_constraints@, b1)
                    &&& enumerates(self.ext_constraints@, e1)
                    &&& sorted_keys(self.base_constraints@, b2)
                    &&& sorted_keys(self.ext_constraints@, e2)
                    &&& r@ == header_text(
                        records_total(self.base_constraints@, b1),
                        records_total(self.ext_constraints@, e1),
                        self.base_constraints@.len(),
                        self.ext_constraints@.len(),
                    ) + newline_each(full_lines(self.base_constraints@, b2) + full_lines(self.ext_constraints@, e2))
                },
    {
        broadcast use vstd::std_specs::btree::group_btree_axioms;

        proof {
            lemma_fingerprints_ordered();
        }
        let base = &self.base_constraints;
        let ext = &self.ext_constraints;
        let base_count = self.base_count();
        let ghost b1 = choose|keys: Seq<u64>| enumerates(base@, keys) && base_count == records_total(base@, keys);
        let ext_count = self.ext_count();
        let ghost e1 = choose|keys: Seq<(u64, u64)>| enumerates(ext@, keys) && ext_count == records_total(ext@, keys);
        let mut out = String::new();
        push_str(&mut out, "# base_constraints: ");
        push_decimal(&mut out, base_count);
        push_str(&mut out, "\n# ext_constraints: ");
        push_decimal(&mut out, ext_count);
        push_str(&mut out, "\n# unique_base: ");
        push_decimal(&mut out, base.len());
        push_str(&mut out, "\n# unique_ext: ");
        push_decimal(&mut out, ext.len());
        push_str(&mut out, "\n---");
        let ghost header = out@;
        assert(header =~= header_text(records_total(base@, b1), records_total(ext@, e1), base@.len(), ext@.len()));
        push_full_groups(&mut out, base);
        let ghost b2 = choose|keys: Seq<u64>| sorted_keys(base@, keys) && out@ == header + newline_each(full_lines(base@, keys));
        let ghost mid = out@;
        push_full_groups(&mut out, ext);
        let ghost e2 = choose|keys: Seq<(u64, u64)>| sorted_keys(ext@, keys) && out@ == mid + newline_each(full_lines(ext@, keys));
        proof {
            lemma_newline_each_append(full_lines(base@, b2), full_lines(ext@, e2));
            assert(out@ =~= header + newline_each(full_lines(base@, b2) + full_lines(ext@, e2)));
        }
        out
    }

    /// The canonical value of a field element.
    fn felt_to_u64(f: Felt) -> (r: u64)
        ensures
            r as int == f@,
    {
        f.as_canonical_u64()
    }

    /// Records the base field constraint `x`, asserted at `location`, under its canonical value.
    pub fn assert_zero(&mut self, x: Felt, location: String)
        ensures
            recorded(old(self).base_constraints@, final(self).base_constraints@, x@ as u64, ConstraintRecord { location }),
            final(self).ext_constraints@ == old(self).ext_constraints@,
            final(self).eval_point == old(self).eval_point,
    {
        broadcast use vstd::std_specs::btree::group_btree_axioms;

        proof {
            lemma_fingerprints_ordered();
        }
        let fp = Self::felt_to_u64(x);
        let record = ConstraintRecord { location };
        let ghost old_map = self.base_constraints@;
        let mut records = match self.base_constraints.remove(&fp) {
            Some(v) => v,
            None => Vec::new(),
        };
        assert(records@.push(record) == appended(old_map, fp, record));
        records.push(record);
        self.base_constraints.insert(fp, records);
        assert(self.base_constraints@.dom() =~= old_map.dom().insert(fp));
    }

    /// Records the extension field constraint `x`, asserted at `location`, under the canonical
    /// values of its coefficients.
    pub fn assert_zero_ext(&mut self, x: QuadFelt, location: String)
        ensures
            recorded(old(self).ext_constraints@, final(self).ext_constraints@, (x@.0 as u64, x@.1 as u64), ConstraintRecord { location }),
            final(self).base_constraints@ == old(self).base_constraints@,
            final(self).eval_point == old(self).eval_point,
    {
        broadcast use vstd::std_specs::btree::group_btree_axioms;

        proof {
            lemma_fingerprints_ordered();
        }
        let fp = (Self::felt_to_u64(x.c0), Self::felt_to_u64(x.c1));
        let record = ConstraintRecord { location };
        let ghost old_map = self.ext_constraints@;
        let mut records = match self.ext_constraints.remove(&fp) {
            Some(v) => v,
            None => Vec::new(),
        };
        assert(records@.push(record) == appended(old_map, fp, record));
        records.push(record);
        self.ext_constraints.insert(fp, records);
        assert(self.ext_constraints@.dom() =~= old_map.dom().insert(fp));
    }
}


// REPORTS
// ================================================================================================

/// The text of a fingerprint in a report.
pub trait FingerprintText {
    /// The text of the fingerprint.
    spec fn text_spec(&self) -> Seq<char>;

    /// Builds the text of the fingerprint.
    fn text(&self) -> (r: String)
        ensures
            r@ == self.text_spec(),
    ;
}

impl FingerprintText for u64 {
    /// `base:` and the 16 hexadecimal digits of the fingerprint.
    open spec fn text_spec(&self) -> Seq<char> {
        "base:"@ + hex16(*self)
    }

    fn text(&self) -> (r: String) {
        let mut r = String::new();
        push_str(&mut r, "base:");
        push_hex16(&mut r, *self);
        r
    }
}

impl FingerprintText for (u64, u64) {
    /// `ext:`, the 16 hexadecimal digits of each coefficient's fingerprint, joined by `_`.
    open spec fn text_spec(&self) -> Seq<char> {
        "ext:"@ + hex16(self.0) + "_"@ + hex16(self.1)
    }

    fn text(&self) -> (r: String) {
        let mut r = String::new();
        push_str(&mut r, "ext:");
        push_hex16(&mut r, self.0);
        push_str(&mut r, "_");
        push_hex16(&mut r, self.1);
        r
    }
}

/// The first line of a location, or `<unknown>` for an empty location.
pub open spec fn location_summary(location: Seq<char>) -> Seq<char> {
    if location.len() == 0 {
        "<unknown>"@
    } else {
        first_line(location)
    }
}

/// The summary line of a fingerprint: its text, its number of records, and the first line of
/// its first record's location.
pub open spec fn summary_line(key: Seq<char>, records: Seq<ConstraintRecord>) -> Seq<char> {
    key + " x"@ + decimal(records.len()) + " "@ + location_summary(records[0].location@)
}

/// The counts at the head of a report, one per line, then `---`.
pub open spec fn header_text(base_count: nat, ext_count: nat, unique_base: nat, unique_ext: nat) -> Seq<char> {
    "# base_constraints: "@ + decimal(base_count) + "\n# ext_constraints: "@ + decimal(ext_count)
        + "\n# unique_base: "@ + decimal(unique_base) + "\n# unique_ext: "@ + decimal(unique_ext)
        + "\n---"@
}

/// `keys` lists the keys of `m` in increasing order.
pub open spec fn sorted_keys<K>(m: Map<K, Vec<ConstraintRecord>>, keys: Seq<K>) -> bool {
    enumerates(m, keys) && vstd::std_specs::btree::increasing_seq(keys)
}

/// Every fingerprint has at least one record.
pub open spec fn groups_nonempty<K>(m: Map<K, Vec<ConstraintRecord>>) -> bool {
    forall|k: K| #[trigger] m.contains_key(k) ==> m[k]@.len() > 0
}

/// The summary lines of `m`, in the order of `keys`.
pub open spec fn summary_lines<K: FingerprintText>(m: Map<K, Vec<ConstraintRecord>>, keys: Seq<K>) -> Seq<Seq<char>> {
    keys.map_values(|k: K| summary_line(k.text_spec(), m[k]@))
}

/// Appends the first line of `location`, or `<unknown>` if it is empty.
fn push_location_summary(out: &mut String, location: &String)
    ensures
        final(out)@ == old(out)@ + location_summary(location@),
{
    let s = location.as_str();
    if s.unicode_len() == 0 {
        push_str(out, "<unknown>");
    } else {
        let lines = lines_of(s);
        assert(text_lines(s@).len() > 0 && text_lines(s@)[0] == first_line(s@));
        assert(char_lines(lines@).len() == lines@.len());
        assert(char_lines(lines@)[0] == lines@[0]@);
        push_chars(out, &lines[0]);
    }
}

/// Appends a line feed and the summary line of `records` under `key`.
fn push_summary_line(out: &mut String, key: &String, records: &Vec<ConstraintRecord>)
    requires
        records@.len() > 0,
    ensures
        final(out)@ == old(out)@ + seq!['\n'] + summary_line(key@, records@),
{
    push_char(out, '\n');
    push_str(out, key.as_str());
    push_str(out, " x");
    push_decimal(out, records.len());
    push_str(out, " ");
    push_location_summary(out, &records[0].location);
    assert(final(out)@ =~= old(out)@ + seq!['\n'] + summary_line(key@, records@));
}


/// The keys of the pairs `m.iter()` yields list the keys of `m` in increasing order.
proof fn lemma_iter_keys_sorted<K>(m: &BTreeMap<K, Vec<ConstraintRecord>>, pairs: Seq<(&K, &Vec<ConstraintRecord>)>)
    requires
        pairs.no_duplicates(),
        vstd::std_specs::btree::increasing_seq(pairs.map_values(|kv: (&K, &Vec<ConstraintRecord>)| *kv.0)),
        forall|i: int| 0 <= i < pairs.len() ==> m@.contains_key(*pairs[i].0) && m@[*pairs[i].0] == *pairs[i].1,
        forall|k: K| #[trigger] m@.contains_key(k) ==> pairs.contains((&k, &m@[k])),
    ensures
        sorted_keys(m@, pairs.map_values(|kv: (&K, &Vec<ConstraintRecord>)| *kv.0)),
{
    let keys = pairs.map_values(|kv: (&K, &Vec<ConstraintRecord>)| *kv.0);
    assert forall|i: int, j: int| 0 <= i < keys.len() && 0 <= j < keys.len() && i != j implies keys[i] != keys[j] by {
        if keys[i] == keys[j] {
            assert(pairs[i] == pairs[j]);
        }
    }
    assert forall|k: K| keys.to_set().contains(k) <==> m@.dom().contains(k) by {
        if m@.contains_key(k) {
            let i = choose|i: int| 0 <= i < pairs.len() && pairs[i] == (&k, &m@[k]);
            assert(keys[i] == k);
        }
        if keys.to_set().contains(k) {
            let i = choose|i: int| 0 <= i < keys.len() && keys[i] == k;
            assert(m@.contains_key(*pairs[i].0));
        }
    }
    assert(keys.to_set() =~= m@.dom());
}

/// Appends the summary lines of `m`, each after a line feed, in increasing key order.
fn push_summaries<K: Ord + FingerprintText>(out: &mut String, m: &BTreeMap<K, Vec<ConstraintRecord>>)
    requires
        vstd::laws_cmp::obeys_cmp::<K>(),
        groups_nonempty(m@),
    ensures
        exists|keys: Seq<K>| sorted_keys(m@, keys) && final(out)@ == old(out)@ + newline_each(summary_lines(m@, keys)),
{
    broadcast use vstd::std_specs::btree::group_btree_axioms;

    let it = m.iter();
    let ghost pairs = vstd::std_specs::iter::IteratorSpec::remaining(&it);
    let ghost keys = pairs.map_values(|kv: (&K, &Vec<ConstraintRecord>)| *kv.0);
    proof {
        lemma_iter_keys_sorted(m, pairs);
        assert(summary_lines(m@, keys.take(0)) =~= Seq::<Seq<char>>::empty());
        assert(out@ + newline_each(Seq::<Seq<char>>::empty()) =~= out@);
    }
    for kv in iter: it
        invariant
            iter.seq() == pairs,
            keys == pairs.map_values(|kv: (&K, &Vec<ConstraintRecord>)| *kv.0),
            groups_nonempty(m@),
            forall|i: int| 0 <= i < pairs.len() ==> m@.contains_key(*pairs[i].0) && m@[*pairs[i].0] == *pairs[i].1,
            out@ == old(out)@ + newline_each(summary_lines(m@, keys.take(iter.index()))),
    {
        let ghost i = iter.index();
        let (k, records) = kv;
        let key = k.text();
        proof {
            assert(m@.contains_key(*k));
        }
        push_summary_line(out, &key, records);
        proof {
            let line = summary_line(key@, records@);
            assert(summary_lines(m@, keys.take(i + 1)) =~= summary_lines(m@, keys.take(i)).push(line));
            lemma_newline_each_push(summary_lines(m@, keys.take(i)), line);
        }
    }
    proof {
        lemma_take_all(keys);
    }
}


/// `line` indented by two spaces.
pub open spec fn indented(line: Seq<char>) -> Seq<char> {
    "  "@ + line
}

/// The lines of the `i`-th record of a fingerprint: `  [i]:` unless it is the first, then each
/// line of its location, indented.
pub open spec fn record_lines(i: int, record: ConstraintRecord) -> Seq<Seq<char>> {
    (if i > 0 {
        seq!["  ["@ + decimal(i as nat) + "]:"@]
    } else {
        Seq::<Seq<char>>::empty()
    }) + text_lines(record.location@).map_values(|l: Seq<char>| indented(l))
}

/// The lines of the first `n` records, from the first.
pub open spec fn records_lines(records: Seq<ConstraintRecord>, n: int) -> Seq<Seq<char>>
    decreases n,
{
    if n <= 0 {
        Seq::<Seq<char>>::empty()
    } else {
        records_lines(records, n - 1) + record_lines(n - 1, records[n - 1])
    }
}

/// The full lines of a fingerprint: its text and number of records, the lines of each record,
/// then an empty line.
pub open spec fn group_lines(key: Seq<char>, records: Seq<ConstraintRecord>) -> Seq<Seq<char>> {
    seq![key + " x"@ + decimal(records.len())] + records_lines(records, records.len() as int) + seq![Seq::<char>::empty()]
}

/// The full lines of the fingerprints of `m`, in the order of `keys`.
pub open spec fn full_lines<K: FingerprintText>(m: Map<K, Vec<ConstraintRecord>>, keys: Seq<K>) -> Seq<Seq<char>>
    decreases keys.len(),
{
    if keys.len() == 0 {
        Seq::<Seq<char>>::empty()
    } else {
        full_lines(m, keys.drop_last()) + group_lines(keys.last().text_spec(), m[keys.last()]@)
    }
}

/// Appends each line of `location`, indented, after a line feed.
fn push_location_lines(out: &mut String, location: &String)
    ensures
        final(out)@ == old(out)@ + newline_each(text_lines(location@).map_values(|l: Seq<char>| indented(l))),
{
    let lines = lines_of(location.as_str());
    let ghost all = text_lines(location@).map_values(|l: Seq<char>| indented(l));
    let mut j: usize = 0;
    assert(all.take(0) =~= Seq::<Seq<char>>::empty());
    assert(old(out)@ + newline_each(Seq::<Seq<char>>::empty()) =~= old(out)@);
    while j < lines.len()
        invariant
            j <= lines@.len(),
            char_lines(lines@) == text_lines(location@),
            all == text_lines(location@).map_values(|l: Seq<char>| indented(l)),
            out@ == old(out)@ + newline_each(all.take(j as int)),
        decreases lines@.len() - j,
    {
        let ghost before = out@;
        push_char(out, '\n');
        push_str(out, "  ");
        push_chars(out, &lines[j]);
        proof {
            assert(char_lines(lines@)[j as int] == lines@[j as int]@);
            assert(all.take(j + 1) =~= all.take(j as int).push(all[j as int]));
            lemma_newline_each_push(all.take(j as int), all[j as int]);
            assert(out@ =~= before + seq!['\n'] + all[j as int]);
        }
        j += 1;
    }
    assert(all.take(lines@.len() as int) =~= all);
}

/// Appends the full lines of a fingerprint, each after a line feed.
fn push_group(out: &mut String, key: &String, records: &Vec<ConstraintRecord>)
    ensures
        final(out)@ == old(out)@ + newline_each(group_lines(key@, records@)),
{
    let ghost first = key@ + " x"@ + decimal(records@.len());
    push_char(out, '\n');
    push_str(out, key.as_str());
    push_str(out, " x");
    push_decimal(out, records.len());
    proof {
        lemma_newline_each_push(Seq::<Seq<char>>::empty(), first);
        assert(Seq::<Seq<char>>::empty().push(first) =~= seq![first]);
        assert(out@ =~= old(out)@ + newline_each(seq![first]));
        assert(seq![first] + records_lines(records@, 0) =~= seq![first]);
    }
    let mut i: usize = 0;
    while i < records.len()
        invariant
            i <= records@.len(),
            first == key@ + " x"@ + decimal(records@.len()),
            out@ == old(out)@ + newline_each(seq![first] + records_lines(records@, i as int)),
        decreases records@.len() - i,
    {
        let ghost before = out@;
        let ghost marker = if i > 0 {
            seq!["  ["@ + decimal(i as nat) + "]:"@]
        } else {
            Seq::<Seq<char>>::empty()
        };
        if i > 0 {
            push_char(out, '\n');
            push_str(out, "  [");
            push_decimal(out, i);
            push_str(out, "]:");
            proof {
                lemma_newline_each_push(Seq::<Seq<char>>::empty(), marker[0]);
                assert(Seq::<Seq<char>>::empty().push(marker[0]) =~= marker);
            }
        }
        assert(out@ =~= before + newline_each(marker));
        push_location_lines(out, &records[i].location);
        proof {
            let loc = text_lines(records@[i as int].location@).map_values(|l: Seq<char>| indented(l));
            lemma_newline_each_append(marker, loc);
            assert(record_lines(i as int, records@[i as int]) == marker + loc);
            let prev = seq![first] + records_lines(records@, i as int);
            assert(seq![first] + records_lines(records@, i + 1) =~= prev + record_lines(i as int, records@[i as int]));
            lemma_newline_each_append(prev, record_lines(i as int, records@[i as int]));
        }
        i += 1;
    }
    let ghost body = seq![first] + records_lines(records@, records@.len() as int);
    push_char(out, '\n');
    proof {
        lemma_newline_each_push(body, Seq::<char>::empty());
        assert(body.push(Seq::<char>::empty()) =~= group_lines(key@, records@));
        assert(out@ =~= old(out)@ + newline_each(body) + seq!['\n'] + Seq::<char>::empty());
    }
}


/// Appends the full lines of the fingerprints of `m`, each after a line feed, in increasing key
/// order.
fn push_full_groups<K: Ord + FingerprintText>(out: &mut String, m: &BTreeMap<K, Vec<ConstraintRecord>>)
    requires
        vstd::laws_cmp::obeys_cmp::<K>(),
    ensures
        exists|keys: Seq<K>| sorted_keys(m@, keys) && final(out)@ == old(out)@ + newline_each(full_lines(m@, keys)),
{
    broadcast use vstd::std_specs::btree::group_btree_axioms;

    let it = m.iter();
    let ghost pairs = vstd::std_specs::iter::IteratorSpec::remaining(&it);
    let ghost keys = pairs.map_values(|kv: (&K, &Vec<ConstraintRecord>)| *kv.0);
    proof {
        lemma_iter_keys_sorted(m, pairs);
        assert(out@ + newline_each(Seq::<Seq<char>>::empty()) =~= out@);
    }
    for kv in iter: it
        invariant
            iter.seq() == pairs,
            keys == pairs.map_values(|kv: (&K, &Vec<ConstraintRecord>)| *kv.0),
            forall|i: int| 0 <= i < pairs.len() ==> m@.contains_key(*pairs[i].0) && m@[*pairs[i].0] == *pairs[i].1,
            out@ == old(out)@ + newline_each(full_lines(m@, keys.take(iter.index()))),
    {
        let ghost i = iter.index();
        let (k, records) = kv;
        let key = k.text();
        push_group(out, &key, records);
        proof {
            let group = group_lines(key@, records@);
            assert(keys.take(i + 1).drop_last() =~= keys.take(i));
            assert(full_lines(m@, keys.take(i + 1)) == full_lines(m@, keys.take(i)) + group);
            lemma_newline_each_append(full_lines(m@, keys.take(i)), group);
        }
    }
    proof {
        lemma_take_all(keys);
    }
}


// BACKTRACE FILTER
// ================================================================================================

/// A line of a backtrace that points into the constraint modules: it names
/// `miden_air::constraints`, `constraints::` or the `air::lib` entry point, or it is an `at`
/// line after such a line.
pub open spec fn relevant_line(t: Seq<char>, last_was_relevant: bool) -> bool {
    ||| contains_text(t, "miden_air::constraints"@)
    ||| contains_text(t, "constraints::"@)
    ||| contains_text(t, "air::lib"@)
    ||| (contains_text(t, "at "@) && last_was_relevant)
}

/// The lines kept by the backtrace filter, and whether the last line was kept as relevant:
/// relevant lines are kept, trimmed, except those of the recorder itself; an `at` line after a
/// kept line is kept, indented.
pub open spec fn filter_lines(lines: Seq<Seq<char>>) -> (Seq<Seq<char>>, bool)
    decreases lines.len(),
{
    if lines.len() == 0 {
        (Seq::<Seq<char>>::empty(), false)
    } else {
        let (kept, last) = filter_lines(lines.drop_last());
        let t = trimmed(lines.last());
        if relevant_line(t, last) && !contains_text(t, "constraint_recorder"@) && !contains_text(
            t,
            "FilteredAirBuilder"@,
        ) {
            (kept.push(t), true)
        } else if starts_with_text(t, "at "@) && last {
            (kept.push("  "@ + t), false)
        } else {
            (kept, false)
        }
    }
}

/// The filtered backtrace: the kept lines, or the first ten lines if none is kept, joined by
/// line feeds.
pub open spec fn filtered_backtrace(full: Seq<char>) -> Seq<char> {
    let lines = text_lines(full);
    let kept = filter_lines(lines).0;
    if kept.len() == 0 {
        joined(if lines.len() <= 10 { lines } else { lines.take(10) })
    } else {
        joined(kept)
    }
}

/// Filters the text of a backtrace down to the frames of the constraint modules.
pub fn filter_backtrace(full: &str) -> (r: String)
    ensures
        r@ == filtered_backtrace(full@),
{
    let lines = lines_of(full);
    let ghost all = char_lines(lines@);
    let full_path = chars_of("miden_air::constraints");
    let module_prefix = chars_of("constraints::");
    let entry_point = chars_of("air::lib");
    let at = chars_of("at ");
    let recorder = chars_of("constraint_recorder");
    let filtered_builder = chars_of("FilteredAirBuilder");
    let mut kept: Vec<Vec<char>> = Vec::new();
    let mut last_was_relevant = false;
    let mut i: usize = 0;
    assert(all.take(0) =~= Seq::<Seq<char>>::empty());
    assert(char_lines(kept@) =~= Seq::<Seq<char>>::empty());
    while i < lines.len()
        invariant
            i <= lines@.len(),
            all == char_lines(lines@),
            full_path@ == "miden_air::constraints"@,
            module_prefix@ == "constraints::"@,
            entry_point@ == "air::lib"@,
            at@ == "at "@,
            recorder@ == "constraint_recorder"@,
            filtered_builder@ == "FilteredAirBuilder"@,
            (char_lines(kept@), last_was_relevant) == filter_lines(all.take(i as int)),
        decreases lines@.len() - i,
    {
        let ghost before = char_lines(kept@);
        let t = trim_chars(&lines[i]);
        proof {
            assert(all.take(i + 1).drop_last() =~= all.take(i as int));
            assert(all.take(i + 1).last() == lines@[i as int]@);
        }
        let relevant = contains_exec(&t, &full_path) || contains_exec(&t, &module_prefix) || contains_exec(&t, &entry_point)
            || (contains_exec(&t, &at) && last_was_relevant);
        if relevant && !contains_exec(&t, &recorder) && !contains_exec(&t, &filtered_builder) {
            kept.push(t);
            last_was_relevant = true;
            assert(char_lines(kept@) =~= before.push(t@));
        } else if t.len() >= 3 && occurs_at_exec(&t, &at, 0) && last_was_relevant {
            let mut indented: Vec<char> = Vec::new();
            indented.push(' ');
            indented.push(' ');
            let mut k: usize = 0;
            while k < t.len()
                invariant
                    k <= t@.len(),
                    indented@ == seq![' ', ' '] + t@.take(k as int),
                decreases t@.len() - k,
            {
                indented.push(t[k]);
                assert(t@.take(k + 1) =~= t@.take(k as int).push(t@[k as int]));
                k += 1;
            }
            proof {
                reveal_strlit("  ");
                assert("  "@ =~= seq![' ', ' ']);
                assert(t@.take(t@.len() as int) =~= t@);
                assert(indented@ =~= "  "@ + t@);
            }
            kept.push(indented);
            last_was_relevant = false;
            assert(char_lines(kept@) =~= before.push("  "@ + t@));
        } else {
            proof {
                reveal_strlit("at ");
                if t@.len() < 3 {
                    assert(!starts_with_text(t@, "at "@));
                }
            }
            last_was_relevant = false;
        }
        i += 1;
    }
    proof {
        assert(all.take(lines@.len() as int) =~= all);
    }
    let mut out = String::new();
    if kept.len() == 0 {
        let n = if lines.len() <= 10 {
            lines.len()
        } else {
            10
        };
        push_joined(&mut out, &lines, n);
        proof {
            if lines@.len() <= 10 {
                assert(all.take(lines@.len() as int) =~= all);
            }
        }
    } else {
        push_joined(&mut out, &kept, kept.len());
        proof {
            assert(char_lines(kept@).take(kept@.len() as int) =~= char_lines(kept@));
        }
    }
    out
}

} // verus!
