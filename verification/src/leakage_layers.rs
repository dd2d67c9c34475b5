//! Layer bookkeeping for the slot leakage coefficients: which layer's area
//! enters the leakage integral of a pair of layers, and which pair of layers
//! an entry of the leakage coefficient matrix belongs to.

use crate::coil_layout::{
    CoilLayout, QUADRUPLE_LAYER_BOTTOM_LEFT, QUADRUPLE_LAYER_BOTTOM_RIGHT, QUADRUPLE_LAYER_TOP_LEFT,
    QUADRUPLE_LAYER_TOP_RIGHT,
};
use std::cmp::Ordering;
use vstd::prelude::*;

verus! {

/// Calls `cart_lin::lin_to_cart_unchecked` for two dimensions.
///
/// The crate converts a linear index into a row-major cartesian index by
/// repeated division: the last index is `index % dim_size[1]`, the first one
/// `(index / dim_size[1]) % dim_size[0]`. A zero dimension would divide by
/// zero, hence both dimensions must be positive.
#[verifier::external_body]
fn lin_to_cart_2d(index: usize, dim_size: [usize; 2]) -> (cart: [usize; 2])
    requires
        dim_size@[0] > 0,
        dim_size@[1] > 0,
    ensures
        cart@[1] == index % dim_size@[1],
        cart@[0] == (index / dim_size@[1]) % dim_size@[0],
{
    cart_lin::lin_to_cart_unchecked(index, &dim_size)
}

impl CoilLayout {
    /// The layer whose area distribution enters the leakage integral of
    /// `linked_layer` excited by `excitation_layer`: the excitation layer if it
    /// lies above the linked layer, otherwise the linked layer.
    pub open spec fn integrated_layer(self, linked_layer: u16, excitation_layer: u16) -> u16 {
        if self.vertical_position(linked_layer) < self.vertical_position(excitation_layer) {
            excitation_layer
        } else {
            linked_layer
        }
    }
}

/// Returns the layer whose contour and bounds are integrated when computing
/// the mutual inductance leakage coefficient of `linked_layer` excited by
/// `excitation_layer`.
///
/// If both layers lie at the same height or the linked layer lies above the
/// excitation layer, this is the linked layer; otherwise it is the excitation
/// layer. Both layers must be smaller than [`CoilLayout::layers`].
pub fn integration_layer(coil_layout: &CoilLayout, linked_layer: u16, excitation_layer: u16) -> (layer: u16)
    requires
        linked_layer < coil_layout.layer_count(),
        excitation_layer < coil_layout.layer_count(),
    ensures
        layer == coil_layout.integrated_layer(linked_layer, excitation_layer),
        layer < coil_layout.layer_count(),
        coil_layout.vertical_order(linked_layer, excitation_layer) == Ordering::Less ==> layer
            == excitation_layer,
        coil_layout.vertical_order(linked_layer, excitation_layer) != Ordering::Less ==> layer
            == linked_layer,
{
    match coil_layout.ordering_vertical(linked_layer, excitation_layer) {
        Ordering::Equal => linked_layer,
        Ordering::Greater => linked_layer,
        Ordering::Less => excitation_layer,
    }
}

/// For the entry with the (column-major) linear index `lin_idx` of the square
/// leakage coefficient matrix of `coil_layout`, returns
/// `[excitation_layer, linked_layer]`: the column of the entry is the
/// excitation layer, its row the linked layer.
pub fn matrix_entry_layers(coil_layout: &CoilLayout, lin_idx: usize) -> (layers: [usize; 2])
    requires
        lin_idx < coil_layout.layer_count() * coil_layout.layer_count(),
    ensures
        layers@[0] == (lin_idx as int) / (coil_layout.layer_count() as int),
        layers@[1] == (lin_idx as int) % (coil_layout.layer_count() as int),
        layers@[0] < coil_layout.layer_count(),
        layers@[1] < coil_layout.layer_count(),
        lin_idx == layers@[0] * coil_layout.layer_count() + layers@[1],
{
    let dimension = coil_layout.layers() as usize;
    let ghost n: int = dimension as int;
    let ghost i: int = lin_idx as int;
    assert(n > 0) by (nonlinear_arith)
        requires
            0 <= i < n * n,
            n >= 0,
    ;
    assert(i / n < n && i == (i / n) * n + i % n) by (nonlinear_arith)
        requires
            0 <= i < n * n,
            n > 0,
    ;
    assert((i / n) % n == i / n) by (nonlinear_arith)
        requires
            0 <= i / n < n,
    ;
    lin_to_cart_2d(lin_idx, [dimension, dimension])
}

/// The integrated layer is one of the two layers and lies at the greater of
/// their two heights; a layer paired with itself integrates itself.
pub proof fn lemma_integrated_layer_is_upper_of_pair(coil_layout: CoilLayout, linked_layer: u16, excitation_layer: u16)
    ensures
        coil_layout.integrated_layer(linked_layer, excitation_layer) == linked_layer
            || coil_layout.integrated_layer(linked_layer, excitation_layer) == excitation_layer,
        coil_layout.vertical_position(coil_layout.integrated_layer(linked_layer, excitation_layer))
            >= coil_layout.vertical_position(linked_layer),
        coil_layout.vertical_position(coil_layout.integrated_layer(linked_layer, excitation_layer))
            >= coil_layout.vertical_position(excitation_layer),
        coil_layout.integrated_layer(linked_layer, linked_layer) == linked_layer,
{
}

/// For two layers at different heights, the leakage integral of the linked
/// layer excited by the other one uses the same layer as the integral with the
/// roles swapped, and in both the pair is not level: the two mutual
/// coefficients are computed from the same data.
pub proof fn lemma_integrated_layer_symmetric(coil_layout: CoilLayout, first_layer: u16, second_layer: u16)
    requires
        coil_layout.vertical_order(first_layer, second_layer) != Ordering::Equal,
    ensures
        coil_layout.integrated_layer(first_layer, second_layer) == coil_layout.integrated_layer(
            second_layer,
            first_layer,
        ),
        coil_layout.vertical_order(second_layer, first_layer) != Ordering::Equal,
{
}

/// Every combination of an excitation layer and a linked layer is the entry
/// of exactly one linear index of the leakage coefficient matrix: the index
/// `excitation_layer * layers + linked_layer` lies inside the matrix and maps
/// back to that pair.
pub proof fn lemma_matrix_entry_covers_pair(coil_layout: CoilLayout, excitation_layer: int, linked_layer: int)
    requires
        0 <= excitation_layer < coil_layout.layer_count(),
        0 <= linked_layer < coil_layout.layer_count(),
    ensures
        0 <= excitation_layer * coil_layout.layer_count() + linked_layer < coil_layout.layer_count()
            * coil_layout.layer_count(),
        (excitation_layer * coil_layout.layer_count() + linked_layer) / (
        coil_layout.layer_count() as int) == excitation_layer,
        (excitation_layer * coil_layout.layer_count() + linked_layer) % (
        coil_layout.layer_count() as int) == linked_layer,
{
    let n: int = coil_layout.layer_count() as int;
    let i: int = excitation_layer * n + linked_layer;
    assert(0 <= i < n * n) by (nonlinear_arith)
        requires
            0 <= excitation_layer < n,
            0 <= linked_layer < n,
            i == excitation_layer * n + linked_layer,
    ;
    vstd::arithmetic::div_mod::lemma_fundamental_div_mod_converse(i, n, excitation_layer, linked_layer);
}

/// For two layers at the same height the linked layer is integrated; for a
/// linked layer below the excitation layer the excitation layer is, and for a
/// linked layer above it the linked layer is.
pub proof fn lemma_integrated_layer_by_order(coil_layout: CoilLayout, linked_layer: u16, excitation_layer: u16)
    ensures
        coil_layout.vertical_order(linked_layer, excitation_layer) == Ordering::Equal
            ==> coil_layout.integrated_layer(linked_layer, excitation_layer) == linked_layer,
        coil_layout.vertical_order(linked_layer, excitation_layer) == Ordering::Greater
            ==> coil_layout.integrated_layer(linked_layer, excitation_layer) == linked_layer,
        coil_layout.vertical_order(linked_layer, excitation_layer) == Ordering::Less
            ==> coil_layout.integrated_layer(linked_layer, excitation_layer) == excitation_layer,
        coil_layout.vertical_position(linked_layer) == coil_layout.vertical_position(
            excitation_layer,
        ) ==> coil_layout.integrated_layer(linked_layer, excitation_layer) == linked_layer,
{
}

/// In the quadruple layout the two layers of a tier are level, so each of them
/// integrates itself when paired with the other as linked layer.
pub proof fn lemma_quadruple_level_pairs_integrate_linked(linked_layer: u16, excitation_layer: u16)
    requires
        (linked_layer == QUADRUPLE_LAYER_TOP_LEFT && excitation_layer == QUADRUPLE_LAYER_TOP_RIGHT)
            || (linked_layer == QUADRUPLE_LAYER_TOP_RIGHT && excitation_layer
            == QUADRUPLE_LAYER_TOP_LEFT) || (linked_layer == QUADRUPLE_LAYER_BOTTOM_LEFT
            && excitation_layer == QUADRUPLE_LAYER_BOTTOM_RIGHT) || (linked_layer
            == QUADRUPLE_LAYER_BOTTOM_RIGHT && excitation_layer == QUADRUPLE_LAYER_BOTTOM_LEFT),
    ensures
        CoilLayout::Quadruple.vertical_order(linked_layer, excitation_layer) == Ordering::Equal,
        CoilLayout::Quadruple.integrated_layer(linked_layer, excitation_layer) == linked_layer,
{
}

} // verus!
