use spur::overlay::{
    coordinates_for_initial_overlay, drag_reposition, Coordinate2D, Dimension2D, InitialPosition,
    PointerPosition, COMMAND_NAME, DRAG_JITTER_LIMIT,
};

fn hd_setup() -> (Dimension2D<u16>, Dimension2D<u16>, Coordinate2D<u16>) {
    (
        Dimension2D::new(1920, 1080),
        Dimension2D::new(400, 300),
        Coordinate2D::new(15, 15),
    )
}

#[test]
fn initial_overlay_bottom_right_is_inset_from_the_corner() {
    let (screen, window, padding) = hd_setup();
    let c = coordinates_for_initial_overlay(
        &screen,
        &window,
        &padding,
        InitialPosition::BottomRight,
    );
    assert_eq!((c.x, c.y), (1505, 765));
}

#[test]
fn initial_overlay_other_corners_follow_the_edge_formula() {
    let (screen, window, padding) = hd_setup();
    let tl = coordinates_for_initial_overlay(&screen, &window, &padding, InitialPosition::TopLeft);
    assert_eq!((tl.x, tl.y), (1935, 1095));
    let tr = coordinates_for_initial_overlay(&screen, &window, &padding, InitialPosition::TopRight);
    assert_eq!((tr.x, tr.y), (1505, 1095));
    let bl = coordinates_for_initial_overlay(
        &screen,
        &window,
        &padding,
        InitialPosition::BottomLeft,
    );
    assert_eq!((bl.x, bl.y), (1935, 765));
}

#[test]
fn initial_position_defaults_to_bottom_right() {
    assert_eq!(InitialPosition::default(), InitialPosition::BottomRight);
}

#[test]
fn plausible_drag_moves_the_window_by_the_delta() {
    // Pointer at (100, 100) on the root, (50, 50) within the window: the
    // window's origin is (50, 50).  A motion event at offset (40, 45) means
    // a delta of (10, 5), which is under the jitter limit on both axes.
    let pointer = PointerPosition { root_x: 100, root_y: 100, win_x: 50, win_y: 50 };
    let moved = drag_reposition(&pointer, 40, 45);
    match moved {
        Some(c) => assert_eq!((c.x, c.y), (40, 45)),
        None => panic!("a plausible drag must reposition the window"),
    }
}

#[test]
fn implausible_drag_is_rejected() {
    // The same pointer with an event at offset (-40, 50): a delta of (90, 0)
    // breaks the jitter limit on the x axis, so no reposition is issued.
    let pointer = PointerPosition { root_x: 100, root_y: 100, win_x: 50, win_y: 50 };
    assert!(drag_reposition(&pointer, -40, 50).is_none());
}

#[test]
fn drag_limit_is_a_strict_bound() {
    let pointer = PointerPosition { root_x: 0, root_y: 0, win_x: 0, win_y: 0 };
    assert!(drag_reposition(&pointer, (DRAG_JITTER_LIMIT - 1) as i16, 0).is_some());
    assert!(drag_reposition(&pointer, DRAG_JITTER_LIMIT as i16, 0).is_none());
}

#[test]
fn overlay_is_shown_by_default() {
    assert!(spur::overlay::default());
    assert_eq!(COMMAND_NAME, "overlay");
}

#[test]
fn dimension_and_coordinate_constructors_store_their_fields() {
    let d = Dimension2D::new(800u16, 600u16);
    assert_eq!((d.width, d.height), (800, 600));
    let c = Coordinate2D::new(-3i16, 7i16);
    assert_eq!((c.x, c.y), (-3, 7));
}
