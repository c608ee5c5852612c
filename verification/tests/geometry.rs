use phi::data::{DeviceRect, MaybeAlive, Rectangle};

#[test]
fn contains_is_reflexive() {
    let r = Rectangle { x: -3, y: 7, w: 10, h: 20 };
    assert!(r.contains(r));
    let degenerate = Rectangle { x: 5, y: 5, w: 0, h: 0 };
    assert!(degenerate.contains(degenerate));
}

#[test]
fn overlaps_self_iff_positive_area() {
    let solid = Rectangle { x: 1, y: 2, w: 3, h: 4 };
    assert!(solid.overlaps(solid));
    let flat = Rectangle { x: 1, y: 2, w: 3, h: 0 };
    assert!(!flat.overlaps(flat));
    let thin = Rectangle { x: 1, y: 2, w: 0, h: 4 };
    assert!(!thin.overlaps(thin));
}

#[test]
fn overlaps_is_symmetric() {
    let a = Rectangle { x: 0, y: 0, w: 10, h: 10 };
    let b = Rectangle { x: 5, y: 5, w: 10, h: 10 };
    let c = Rectangle { x: 50, y: 50, w: 10, h: 10 };
    assert_eq!(a.overlaps(b), b.overlaps(a));
    assert!(a.overlaps(b));
    assert_eq!(a.overlaps(c), c.overlaps(a));
    assert!(!a.overlaps(c));
}

#[test]
fn touching_edges_do_not_overlap() {
    let a = Rectangle { x: 0, y: 0, w: 10, h: 10 };
    let touching = Rectangle { x: 10, y: 0, w: 10, h: 10 };
    assert!(!a.overlaps(touching));
    assert!(!touching.overlaps(a));
}

#[test]
fn move_inside_fitting_child_is_contained() {
    let parent = Rectangle { x: 0, y: 0, w: 100, h: 100 };
    let child = Rectangle { x: -20, y: 130, w: 30, h: 40 };
    let moved = child.move_inside(parent).unwrap();
    assert_eq!(moved.w, 30);
    assert_eq!(moved.h, 40);
    assert!(parent.contains(moved));
    assert_eq!(moved.x, 0);
    assert_eq!(moved.y, 60);
}

#[test]
fn move_inside_interior_child_is_unchanged() {
    let parent = Rectangle { x: 0, y: 0, w: 100, h: 100 };
    let child = Rectangle { x: 10, y: 10, w: 30, h: 40 };
    let moved = child.move_inside(parent).unwrap();
    assert_eq!(moved, child);
}

#[test]
fn move_inside_oversized_child_is_rejected() {
    let parent = Rectangle { x: 0, y: 0, w: 100, h: 100 };
    let wide = Rectangle { x: 0, y: 0, w: 101, h: 10 };
    let tall = Rectangle { x: 0, y: 0, w: 10, h: 101 };
    assert!(wide.move_inside(parent).is_none());
    assert!(tall.move_inside(parent).is_none());
}

#[test]
fn move_inside_flush_right_edge_takes_snap_branch() {
    // The max-edge test uses `>=`: a child exactly flush with the
    // parent's right edge is snapped so the max edges coincide, which
    // lands it back on its own position.
    let parent = Rectangle { x: 0, y: 0, w: 100, h: 100 };
    let flush = Rectangle { x: 90, y: 10, w: 10, h: 10 };
    let moved = flush.move_inside(parent).unwrap();
    assert_eq!(moved.x, parent.x + parent.w - flush.w);
    assert_eq!(moved.x, 90);
    assert_eq!(moved.y, 10);
}

#[test]
fn with_size_sits_at_origin() {
    let r = Rectangle::with_size(64, 48);
    assert_eq!(r, Rectangle { x: 0, y: 0, w: 64, h: 48 });
}

#[test]
fn center_and_center_at_agree() {
    let r = Rectangle { x: 10, y: 20, w: 30, h: 40 };
    assert_eq!(r.center(), (25, 40));
    let moved = r.center_at((100, 200));
    assert_eq!(moved, Rectangle { x: 85, y: 180, w: 30, h: 40 });
    assert_eq!(moved.center(), (100, 200));
}

#[test]
fn to_sdl_converts_to_device_types() {
    let r = Rectangle { x: -5, y: 9, w: 30, h: 40 };
    assert_eq!(r.to_sdl(), Some(DeviceRect { x: -5, y: 9, w: 30, h: 40 }));
}

#[test]
fn maybe_alive_keeps_living_values() {
    let alive = MaybeAlive { alive: true, value: 42u32 };
    assert_eq!(alive.as_option(), Some(42));
}

#[test]
fn maybe_alive_drops_dead_values() {
    let dead = MaybeAlive { alive: false, value: 42u32 };
    assert_eq!(dead.as_option(), None);
}
