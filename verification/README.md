# keyforge_model

The domain model of a keyboard layout optimiser: physical keyboards and their
geometry, layouts, key codes and their registry, corpora, scoring weights and
rubrics, search parameters, and the small parsers around them (QMK key actions,
key constraints, safe relative paths, KLE rows).

- `src/` is the library, verified with Verus. Every public function states its
  result in its contract; the `lemma_*` proof functions state the laws that
  relate several operations (swapping twice, reading back what was set, path
  normalisation being idempotent, lookups in a registry, and so on).
  Numbers that are floats in the interchange formats are fixed point here:
  scores in millionths, weights and positions in thousandths; single-precision
  values that are only carried (key sizes, rotations, baked costs) are kept as
  their bit patterns.
- `tests/` exercises the library on concrete values.
- `app/` holds what works with floats or with outside traits: conversions
  between floats and the fixed-point types, JSON records, corpus sources and
  the project configuration, the cost model as it is read from disk, metric
  sets, biometric profiles and the asset loader interface.
