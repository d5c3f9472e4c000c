use xim::view::{chunks_indices, range_to_marker, Viewport};

#[test]
fn test_chunks_indices() {
    assert_eq!(chunks_indices(0, 16, 5), vec![(0, 4), (5, 9), (10, 14), (15, 16)]);
    assert_eq!(chunks_indices(0, 6, 2), vec![(0, 1), (2, 3), (4, 5), (6, 6)]);
    assert_eq!(chunks_indices(0, 3, 1), vec![(0, 0), (1, 1), (2, 2), (3, 3)]);
    assert_eq!(chunks_indices(0, 10, 3), vec![(0, 2), (3, 5), (6, 8), (9, 10)]);
    assert_eq!(chunks_indices(0, 11, 3), vec![(0, 2), (3, 5), (6, 8), (9, 11)]);
    assert_eq!(chunks_indices(10, 11, 3), vec![(10, 11)]);
    assert_eq!(chunks_indices(10, 15, 7), vec![(10, 15)]);
    assert_eq!(chunks_indices(13, 19, 6), vec![(13, 18), (19, 19)]);
}

#[test]
fn test_range_to_marker() {
    assert_eq!(range_to_marker(0, 16), vec![(0, 0, 15), (1, 0, 0)]);
    assert_eq!(range_to_marker(8, 18), vec![(0, 8, 15), (1, 0, 2)]);
}

#[test]
fn range_to_marker_normalizes_order() {
    assert_eq!(range_to_marker(18, 8), vec![(0, 8, 15), (1, 0, 2)]);
    assert_eq!(range_to_marker(3, 3), vec![(0, 3, 3)]);
}

#[test]
fn viewport_scrolls_only_when_needed() {
    let mut vp = Viewport::new();
    assert_eq!(vp.scroll_start, 0);
    assert_eq!(vp.height, 13);

    // index on a visible row: no scroll
    vp.scroll_to(5 * 16);
    assert_eq!(vp.scroll_start, 0);

    // index below the window: scroll so its row is the last visible one
    vp.scroll_to(20 * 16);
    assert_eq!(vp.scroll_start, (20 - 12) * 16);

    // index above the window: its row becomes the first visible one
    vp.scroll_to(3 * 16 + 7);
    assert_eq!(vp.scroll_start, 3 * 16);
}

#[test]
fn viewport_resize_keeps_a_row() {
    let mut vp = Viewport::new();
    vp.resize(40);
    assert_eq!(vp.height, 37);
    vp.resize(0);
    assert_eq!(vp.height, 1);
}
