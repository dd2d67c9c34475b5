//! The [`CoilLayout`] enum, which defines how the individual coils / winding
//! layers are positioned within a slot.

use std::cmp::Ordering;
use vstd::prelude::*;

verus! {

/// Index of the layer in the slot bottom, left side quadrant of a quadruple
/// layer winding.
pub const QUADRUPLE_LAYER_BOTTOM_LEFT: u16 = 0;

/// Index of the layer in the slot top, left side quadrant of a quadruple layer
/// winding.
pub const QUADRUPLE_LAYER_TOP_LEFT: u16 = 1;

/// Index of the layer in the slot top, right side quadrant of a quadruple layer
/// winding.
pub const QUADRUPLE_LAYER_TOP_RIGHT: u16 = 2;

/// Index of the layer in the slot bottom, right side quadrant of a quadruple
/// layer winding.
pub const QUADRUPLE_LAYER_BOTTOM_RIGHT: u16 = 3;

/// The position of the individual coils / winding layers within a slot.
///
/// In a double-layer distributed winding, the two coils in a slot are placed
/// on top of each other ([`CoilLayout::DoubleVertical`]); a double-layer
/// tooth-coil winding places them next to each other
/// ([`CoilLayout::DoubleHorizontal`]).
#[derive(Clone, Copy, Debug)]
pub enum CoilLayout {
    /// Single-layer winding. The single layer fills the entire winding area of
    /// the slot (but not the slot opening).
    Single,
    /// Single-layer winding (usually a casted squirrel cage) which fills the
    /// slot completely, including the slot opening.
    SingleFilled,
    /// Double-layer winding: layer 0 at the slot bottom, layer 1 at the slot
    /// top.
    DoubleVertical,
    /// Double-layer winding: layer 0 on the left side of the slot, layer 1 on
    /// the right side.
    DoubleHorizontal,
    /// Quadruple-layer winding: the coils at the two slot sides are split in
    /// the middle again. The layers are placed clockwise, starting on the left
    /// side of the slot bottom.
    Quadruple,
    /// A winding with the given number of layers, stacked on top of each other
    /// starting with layer 0 at the slot bottom.
    MultiVertical(u16),
}

/// Three-way comparison of two integer positions.
pub open spec fn position_order(a: int, b: int) -> Ordering {
    if a < b {
        Ordering::Less
    } else if a > b {
        Ordering::Greater
    } else {
        Ordering::Equal
    }
}

impl CoilLayout {
    /// The number of layers of the layout.
    pub open spec fn layer_count(self) -> nat {
        match self {
            CoilLayout::Single => 1,
            CoilLayout::SingleFilled => 1,
            CoilLayout::DoubleVertical => 2,
            CoilLayout::DoubleHorizontal => 2,
            CoilLayout::Quadruple => 4,
            CoilLayout::MultiVertical(n) => n as nat,
        }
    }

    /// The vertical tier of `layer`, counted from the slot bottom: layers in
    /// the same tier lie side by side, a higher tier lies closer to the air
    /// gap.
    pub open spec fn vertical_position(self, layer: u16) -> int {
        match self {
            CoilLayout::Single => 0,
            CoilLayout::SingleFilled => 0,
            CoilLayout::DoubleHorizontal => 0,
            CoilLayout::DoubleVertical => layer as int,
            CoilLayout::MultiVertical(_) => layer as int,
            CoilLayout::Quadruple => if layer == QUADRUPLE_LAYER_BOTTOM_LEFT
                || layer == QUADRUPLE_LAYER_BOTTOM_RIGHT {
                0
            } else {
                1
            },
        }
    }

    /// The vertical position of `first_layer` relative to `second_layer`.
    pub open spec fn vertical_order(self, first_layer: u16, second_layer: u16) -> Ordering {
        position_order(self.vertical_position(first_layer), self.vertical_position(second_layer))
    }

    /// Returns the number of layers of `self`.
    pub fn layers(&self) -> (n: u16)
        ensures
            n == self.layer_count(),
            self is MultiVertical ==> n == self->MultiVertical_0,
            (self is Single || self is SingleFilled) ==> n == 1,
            (self is DoubleVertical || self is DoubleHorizontal) ==> n == 2,
            self is Quadruple ==> n == 4,
    {
        match self {
            CoilLayout::Single => 1,
            CoilLayout::SingleFilled => 1,
            CoilLayout::DoubleVertical => 2,
            CoilLayout::DoubleHorizontal => 2,
            CoilLayout::Quadruple => 4,
            CoilLayout::MultiVertical(val) => *val,
        }
    }

    /// Returns the vertical position of `first_layer` relative to
    /// `second_layer` (as seen from the slot bottom): `Less` if the first
    /// layer lies closer to the slot bottom, `Equal` if both lie at the same
    /// height.
    ///
    /// Both layers must be smaller than [`CoilLayout::layers`].
    pub fn ordering_vertical(&self, first_layer: u16, second_layer: u16) -> (o: Ordering)
        requires
            first_layer < self.layer_count(),
            second_layer < self.layer_count(),
        ensures
            o == self.vertical_order(first_layer, second_layer),
            (self is DoubleVertical || self is MultiVertical) ==> ((o == Ordering::Less) == (
            first_layer < second_layer) && (o == Ordering::Equal) == (first_layer == second_layer)
                && (o == Ordering::Greater) == (first_layer > second_layer)),
            (self is Single || self is SingleFilled || self is DoubleHorizontal) ==> o
                == Ordering::Equal,
    {
        match self {
            CoilLayout::Single => Ordering::Equal,
            CoilLayout::SingleFilled => Ordering::Equal,
            CoilLayout::DoubleVertical => first_layer.cmp(&second_layer),
            CoilLayout::DoubleHorizontal => Ordering::Equal,
            CoilLayout::Quadruple => {
                if first_layer == second_layer {
                    return Ordering::Equal;
                }
                if first_layer == QUADRUPLE_LAYER_BOTTOM_LEFT || first_layer
                    == QUADRUPLE_LAYER_BOTTOM_RIGHT {
                    if second_layer == QUADRUPLE_LAYER_BOTTOM_LEFT || second_layer
                        == QUADRUPLE_LAYER_BOTTOM_RIGHT {
                        Ordering::Equal
                    } else {
                        Ordering::Less
                    }
                } else {
                    if second_layer == QUADRUPLE_LAYER_BOTTOM_LEFT || second_layer
                        == QUADRUPLE_LAYER_BOTTOM_RIGHT {
                        Ordering::Greater
                    } else {
                        Ordering::Equal
                    }
                }
            },
            CoilLayout::MultiVertical(_) => first_layer.cmp(&second_layer),
        }
    }

    /// Returns true if this layout uses the slot opening as space for
    /// conductors.
    pub fn includes_slot_opening(&self) -> (b: bool)
        ensures
            b <==> self is SingleFilled,
    {
        match self {
            CoilLayout::SingleFilled => true,
            _ => false,
        }
    }
}

/// Every layer lies at the same height as itself.
pub proof fn lemma_vertical_order_reflexive(coil_layout: CoilLayout, layer: u16)
    requires
        layer < coil_layout.layer_count(),
    ensures
        coil_layout.vertical_order(layer, layer) == Ordering::Equal,
{
}

/// Swapping the two layers reverses their vertical order: the first layer is
/// below the second exactly when the second is above the first, and they are
/// at the same height in either order.
pub proof fn lemma_vertical_order_antisymmetric(coil_layout: CoilLayout, first_layer: u16, second_layer: u16)
    requires
        first_layer < coil_layout.layer_count(),
        second_layer < coil_layout.layer_count(),
    ensures
        coil_layout.vertical_order(first_layer, second_layer) == Ordering::Less
            <==> coil_layout.vertical_order(second_layer, first_layer) == Ordering::Greater,
        coil_layout.vertical_order(first_layer, second_layer) == Ordering::Equal
            <==> coil_layout.vertical_order(second_layer, first_layer) == Ordering::Equal,
{
}

/// The vertical order of the layers is transitive: a layer not above a second
/// one, which is not above a third one, is not above the third one; it is
/// strictly below it if one of the two steps is strict.
pub proof fn lemma_vertical_order_transitive(coil_layout: CoilLayout, a: u16, b: u16, c: u16)
    requires
        a < coil_layout.layer_count(),
        b < coil_layout.layer_count(),
        c < coil_layout.layer_count(),
        coil_layout.vertical_order(a, b) != Ordering::Greater,
        coil_layout.vertical_order(b, c) != Ordering::Greater,
    ensures
        coil_layout.vertical_order(a, c) != Ordering::Greater,
        (coil_layout.vertical_order(a, b) == Ordering::Less || coil_layout.vertical_order(b, c)
            == Ordering::Less) ==> coil_layout.vertical_order(a, c) == Ordering::Less,
{
}

/// In the single-layer layouts and in the horizontal double layer layout all
/// layers lie at the same height.
pub proof fn lemma_side_by_side_layers_are_level(coil_layout: CoilLayout, first_layer: u16, second_layer: u16)
    requires
        coil_layout is Single || coil_layout is SingleFilled || coil_layout is DoubleHorizontal,
        first_layer < coil_layout.layer_count(),
        second_layer < coil_layout.layer_count(),
    ensures
        coil_layout.vertical_order(first_layer, second_layer) == Ordering::Equal,
{
}

/// In the stacked layouts (vertical double layer and multi-layer) the layers
/// are ordered by their index: layer 0 at the slot bottom, every following
/// layer above the previous one.
pub proof fn lemma_stacked_layers_follow_index(coil_layout: CoilLayout, first_layer: u16, second_layer: u16)
    requires
        coil_layout is DoubleVertical || coil_layout is MultiVertical,
        first_layer < coil_layout.layer_count(),
        second_layer < coil_layout.layer_count(),
    ensures
        coil_layout.vertical_order(first_layer, second_layer) == Ordering::Less <==> first_layer
            < second_layer,
        coil_layout.vertical_order(first_layer, second_layer) == Ordering::Equal <==> first_layer
            == second_layer,
        coil_layout.vertical_order(first_layer, second_layer) == Ordering::Greater <==> first_layer
            > second_layer,
{
}

/// In the quadruple layout layers 0 and 3 lie at the same height, as do layers
/// 1 and 2, and both 0 and 3 lie below 1 and 2.
pub proof fn lemma_quadruple_tiers(bottom_layer: u16, top_layer: u16)
    requires
        bottom_layer == QUADRUPLE_LAYER_BOTTOM_LEFT || bottom_layer == QUADRUPLE_LAYER_BOTTOM_RIGHT,
        top_layer == QUADRUPLE_LAYER_TOP_LEFT || top_layer == QUADRUPLE_LAYER_TOP_RIGHT,
    ensures
        CoilLayout::Quadruple.vertical_order(bottom_layer, top_layer) == Ordering::Less,
        CoilLayout::Quadruple.vertical_order(top_layer, bottom_layer) == Ordering::Greater,
        CoilLayout::Quadruple.vertical_order(
            QUADRUPLE_LAYER_BOTTOM_LEFT,
            QUADRUPLE_LAYER_BOTTOM_RIGHT,
        ) == Ordering::Equal,
        CoilLayout::Quadruple.vertical_order(QUADRUPLE_LAYER_TOP_LEFT, QUADRUPLE_LAYER_TOP_RIGHT)
            == Ordering::Equal,
{
}

/// The number of layers of each layout: one for the single-layer layouts, two
/// for the double layer layouts, four for the quadruple layout and exactly the
/// given number `n` for a multi-layer layout with `n` layers.
pub proof fn lemma_layer_count_of_each_layout(n: u16)
    ensures
        CoilLayout::Single.layer_count() == 1,
        CoilLayout::SingleFilled.layer_count() == 1,
        CoilLayout::DoubleVertical.layer_count() == 2,
        CoilLayout::DoubleHorizontal.layer_count() == 2,
        CoilLayout::Quadruple.layer_count() == 4,
        CoilLayout::MultiVertical(n).layer_count() == n,
{
}

/// In a multi-layer layout with `n` layers, every pair of layers below `n` is
/// a valid pair, and the layers are stacked by index: layer `a` lies below
/// layer `b` exactly when `a < b`, level with it exactly when `a == b`.
pub proof fn lemma_multi_vertical_layers_stacked(n: u16, a: u16, b: u16)
    requires
        a < n,
        b < n,
    ensures
        a < CoilLayout::MultiVertical(n).layer_count(),
        b < CoilLayout::MultiVertical(n).layer_count(),
        (CoilLayout::MultiVertical(n).vertical_order(a, b) == Ordering::Less) == (a < b),
        (CoilLayout::MultiVertical(n).vertical_order(a, b) == Ordering::Equal) == (a == b),
        (CoilLayout::MultiVertical(n).vertical_order(a, b) == Ordering::Greater) == (a > b),
{
}

} // verus!
