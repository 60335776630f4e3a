use wm_scrolling::{compute_scroll_offset, on_screen_x, window_virtual_offset};

#[test]
fn test_window_virtual_offset() {
    assert_eq!(window_virtual_offset(&[], 20), 0);
    assert_eq!(window_virtual_offset(&[960], 20), 980);
    assert_eq!(window_virtual_offset(&[960, 960], 20), 1960);
}

#[test]
fn test_on_screen_x() {
    assert_eq!(on_screen_x(0, 0, 0), 0);
    assert_eq!(on_screen_x(0, 980, 980), 0);
    assert_eq!(on_screen_x(100, 0, 0), 100);
    assert_eq!(on_screen_x(100, 960, 480), 580);
}

#[test]
fn test_compute_scroll_offset_no_change() {
    // Window is fully visible.
    assert_eq!(compute_scroll_offset(0, 1920, 100, 960), 0);
}

#[test]
fn test_compute_scroll_offset_scroll_right() {
    // Second window (virtual x=980, width=960) is 20px off the right edge.
    assert_eq!(compute_scroll_offset(0, 1920, 980, 960), 20);
}

#[test]
fn test_compute_scroll_offset_scroll_left() {
    // After scrolling right, focusing the first window scrolls back.
    assert_eq!(compute_scroll_offset(500, 1920, 200, 960), 200);
}

#[test]
fn test_compute_scroll_offset_clamp_to_zero() {
    // Never returns a negative offset.
    assert_eq!(compute_scroll_offset(100, 1920, 0, 960), 0);
}

#[test]
fn doc_example_compute_scroll_offset_off_right_edge() {
    assert_eq!(compute_scroll_offset(0, 1920, 1000, 960), 40);
}

#[test]
fn window_virtual_offset_with_gapless_and_negative_gap() {
    assert_eq!(window_virtual_offset(&[100, 200, 300], 0), 600);
    assert_eq!(window_virtual_offset(&[100, 200], -10), 280);
}

#[test]
fn virtual_offsets_place_windows_side_by_side() {
    let widths = [960, 480, 1920, 300];
    let gap = 10;
    for i in 0..widths.len() {
        let start_i = window_virtual_offset(&widths[..i], gap);
        let next = window_virtual_offset(&widths[..i + 1], gap);
        assert_eq!(next, start_i + widths[i] + gap);
        for j in (i + 1)..=widths.len() {
            assert!(start_i + widths[i] + gap <= window_virtual_offset(&widths[..j], gap));
        }
    }
}

#[test]
fn appending_window_keeps_existing_offsets() {
    let before = [960, 960];
    let after = [960, 960, 480];
    for i in 0..=before.len() {
        assert_eq!(
            window_virtual_offset(&before[..i], 20),
            window_virtual_offset(&after[..i], 20)
        );
    }
}

#[test]
fn scrolled_window_is_fully_visible() {
    let viewport = 1920;
    for &(current, x, w) in &[(0, 980, 960), (500, 200, 960), (0, 2940, 1920), (3000, 0, 10)] {
        let offset = compute_scroll_offset(current, viewport, x, w);
        assert!(offset >= 0);
        assert!(offset <= x);
        assert!(x + w <= offset + viewport);
        let screen = on_screen_x(100, x, offset);
        assert!(100 <= screen && screen + w <= 100 + viewport);
    }
}

#[test]
fn visible_window_keeps_offset_and_update_is_idempotent() {
    assert_eq!(compute_scroll_offset(300, 1920, 400, 960), 300);
    let first = compute_scroll_offset(0, 1920, 2000, 960);
    assert_eq!(first, 1040);
    assert_eq!(compute_scroll_offset(first, 1920, 2000, 960), first);
}

#[test]
fn scroll_offset_moves_no_further_than_needed() {
    // Any offset in [1040, 2000] shows the window; the nearest to 0 is chosen.
    assert_eq!(compute_scroll_offset(0, 1920, 2000, 960), 1040);
    // Any offset in [0, 100] shows the window; the nearest to 5000 is chosen.
    assert_eq!(compute_scroll_offset(5000, 1920, 100, 960), 100);
}

#[test]
fn negative_current_offset_clamps_to_zero() {
    assert_eq!(compute_scroll_offset(-50, 1920, 0, 960), 0);
}

#[test]
fn window_wider_than_viewport_overhanging_both_edges_is_right_aligned() {
    assert_eq!(compute_scroll_offset(500, 1000, 400, 2000), 1400);
}

#[test]
fn window_wider_than_viewport_off_the_right_edge_is_right_aligned() {
    assert_eq!(compute_scroll_offset(0, 1000, 400, 2000), 1400);
    // Fully inside the window's span but not showing its right edge.
    assert_eq!(compute_scroll_offset(100, 1000, 0, 2000), 1000);
}
