# stem_slot

Slot definitions for electric motors.

- `src/` is the verified library (Verus). `coil_layout` holds the
  `CoilLayout` enum (number of layers, vertical order of the layers, use of
  the slot opening) with the laws of the vertical order; `leakage_layers`
  holds the layer bookkeeping of the slot leakage coefficients (which layer's
  area is integrated for a pair of layers, and which pair of layers an entry of
  the leakage coefficient matrix belongs to).
- `app/` holds the slot geometries (rectangular, open trapezoid and
  semi-trapezoid slots), the `Slot` trait with its leakage and current
  displacement calculations. These compute on floating-point lengths and are
  ordinary Rust built on the library.
- `tests/` runs the library on concrete values.
