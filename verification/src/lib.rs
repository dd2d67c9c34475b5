//! Slot definitions for electric motors: the coil / winding layer layouts
//! inside a slot and the layer bookkeeping that the leakage calculations of
//! a slot rely on.

pub mod coil_layout;
pub mod leakage_layers;
