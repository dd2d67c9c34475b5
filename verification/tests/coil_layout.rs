use std::cmp::Ordering;
use stem_slot::coil_layout::{
    CoilLayout, QUADRUPLE_LAYER_BOTTOM_LEFT, QUADRUPLE_LAYER_BOTTOM_RIGHT, QUADRUPLE_LAYER_TOP_LEFT,
    QUADRUPLE_LAYER_TOP_RIGHT,
};

#[test]
fn test_layers() {
    assert_eq!(CoilLayout::Single.layers(), 1);
    assert_eq!(CoilLayout::SingleFilled.layers(), 1);
    assert_eq!(CoilLayout::DoubleVertical.layers(), 2);
    assert_eq!(CoilLayout::DoubleHorizontal.layers(), 2);
    assert_eq!(CoilLayout::Quadruple.layers(), 4);
    assert_eq!(CoilLayout::MultiVertical(5).layers(), 5);
    assert_eq!(CoilLayout::MultiVertical(0).layers(), 0);
}

#[test]
fn test_ordering_vertical_double_vertical() {
    let coil_layout = CoilLayout::DoubleVertical;
    assert_eq!(Ordering::Less, coil_layout.ordering_vertical(0, 1));
    assert_eq!(Ordering::Greater, coil_layout.ordering_vertical(1, 0));
    assert_eq!(Ordering::Equal, coil_layout.ordering_vertical(0, 0));
    assert_eq!(Ordering::Equal, coil_layout.ordering_vertical(1, 1));
}

#[test]
fn test_ordering_vertical_double_horizontal() {
    let coil_layout = CoilLayout::DoubleHorizontal;
    assert_eq!(Ordering::Equal, coil_layout.ordering_vertical(0, 1));
    assert_eq!(Ordering::Equal, coil_layout.ordering_vertical(1, 0));
}

#[test]
fn test_ordering_vertical_single() {
    assert_eq!(Ordering::Equal, CoilLayout::Single.ordering_vertical(0, 0));
    assert_eq!(Ordering::Equal, CoilLayout::SingleFilled.ordering_vertical(0, 0));
}

#[test]
fn test_ordering_vertical_quadruple() {
    let coil_layout = CoilLayout::Quadruple;
    assert_eq!(Ordering::Equal, coil_layout.ordering_vertical(0, 3));
    assert_eq!(Ordering::Less, coil_layout.ordering_vertical(0, 1));
    assert_eq!(Ordering::Greater, coil_layout.ordering_vertical(2, 3));
    assert_eq!(Ordering::Equal, coil_layout.ordering_vertical(1, 2));
    assert_eq!(Ordering::Equal, coil_layout.ordering_vertical(2, 2));
    assert_eq!(Ordering::Less, coil_layout.ordering_vertical(3, 2));
    assert_eq!(
        Ordering::Greater,
        coil_layout.ordering_vertical(QUADRUPLE_LAYER_TOP_LEFT, QUADRUPLE_LAYER_BOTTOM_LEFT)
    );
    assert_eq!(
        Ordering::Equal,
        coil_layout.ordering_vertical(QUADRUPLE_LAYER_TOP_RIGHT, QUADRUPLE_LAYER_TOP_LEFT)
    );
    assert_eq!(
        Ordering::Equal,
        coil_layout.ordering_vertical(QUADRUPLE_LAYER_BOTTOM_RIGHT, QUADRUPLE_LAYER_BOTTOM_LEFT)
    );
}

#[test]
fn test_ordering_vertical_multi_vertical() {
    let coil_layout = CoilLayout::MultiVertical(3);
    assert_eq!(Ordering::Less, coil_layout.ordering_vertical(0, 1));
    assert_eq!(Ordering::Less, coil_layout.ordering_vertical(0, 2));
    assert_eq!(Ordering::Greater, coil_layout.ordering_vertical(2, 1));
    assert_eq!(Ordering::Equal, coil_layout.ordering_vertical(1, 1));
}

#[test]
fn test_ordering_vertical_antisymmetric_on_all_pairs() {
    let layouts = [
        CoilLayout::Single,
        CoilLayout::SingleFilled,
        CoilLayout::DoubleVertical,
        CoilLayout::DoubleHorizontal,
        CoilLayout::Quadruple,
        CoilLayout::MultiVertical(4),
    ];
    for layout in layouts.iter() {
        for a in 0..layout.layers() {
            assert_eq!(layout.ordering_vertical(a, a), Ordering::Equal);
            for b in 0..layout.layers() {
                assert_eq!(
                    layout.ordering_vertical(a, b),
                    layout.ordering_vertical(b, a).reverse()
                );
            }
        }
    }
}

#[test]
fn test_includes_slot_opening() {
    assert!(CoilLayout::SingleFilled.includes_slot_opening());
    assert!(!CoilLayout::Single.includes_slot_opening());
    assert!(!CoilLayout::DoubleHorizontal.includes_slot_opening());
    assert!(!CoilLayout::DoubleVertical.includes_slot_opening());
    assert!(!CoilLayout::Quadruple.includes_slot_opening());
    assert!(!CoilLayout::MultiVertical(5).includes_slot_opening());
}

#[test]
fn test_ordering_vertical_transitive_on_all_triples() {
    let layouts = [
        CoilLayout::DoubleVertical,
        CoilLayout::DoubleHorizontal,
        CoilLayout::Quadruple,
        CoilLayout::MultiVertical(4),
    ];
    for layout in layouts.iter() {
        let n = layout.layers();
        for a in 0..n {
            for b in 0..n {
                for c in 0..n {
                    let ab = layout.ordering_vertical(a, b);
                    let bc = layout.ordering_vertical(b, c);
                    let ac = layout.ordering_vertical(a, c);
                    if ab != Ordering::Greater && bc != Ordering::Greater {
                        assert_ne!(ac, Ordering::Greater);
                        if ab == Ordering::Less || bc == Ordering::Less {
                            assert_eq!(ac, Ordering::Less);
                        }
                    }
                }
            }
        }
    }
}
