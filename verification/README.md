# miden_air_verified

The algebraic constraints of the Miden VM execution trace, written in Verus and verified.

Each `enforce_*` function evaluates constraint polynomials over the Goldilocks field at a concrete
pair of trace rows and appends the values to a `ConstraintSet`, each tagged with the rows on which
it must vanish (every row, transitions, first or last row). Its contract states the exact
sequence of values it appends, as spec functions over the field values of the rows.

Layout:

- `src/field.rs`: the Goldilocks field and its quadratic extension, with spec-level arithmetic.
- `src/constraint_set.rs`: the constraint sink and the evaluation context (periodic values,
  auxiliary window, randomness).
- `src/trace/`: the trace layout, column views and bus message encoding (`Challenges`).
- `src/constraints/`: operation flags, decoder, stack, range checker, system, chiplets (hasher,
  bitwise, memory, ACE, kernel ROM) and the buses.
- `src/constraint_recorder.rs`, `src/text.rs`: a recorder that evaluates the constraints at a
  deterministic pseudo-random point, groups them by fingerprint and prints reports.
- `app/lib.rs`: adapters from the recorder to the AIR builder traits of `miden-crypto`.
- `tests/`: layout, bus label, constraint evaluation, chiplet and recorder tests.
