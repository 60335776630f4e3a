use wm_scrolling::{
    scrolling_set_maximized, scrolling_toggle_maximized, set_layout_mode,
    toggle_workspace_layout_mode, update_scroll_offset, update_scroll_offset_fits, LayoutMode,
    ScrollingResize, TilingDirection, TilingSize, WorkspaceLayout,
};

fn workspace(mode: LayoutMode, offset: i32, direction: TilingDirection) -> WorkspaceLayout {
    WorkspaceLayout {
        layout_mode: mode,
        scroll_offset: offset,
        tiling_direction: direction,
    }
}

const HALF: TilingSize = TilingSize { numerator: 1, denominator: 2 };
const FULL: TilingSize = TilingSize { numerator: 1, denominator: 1 };

#[test]
fn set_same_layout_mode_is_noop() {
    let mut ws = workspace(LayoutMode::Scrolling, 300, TilingDirection::Horizontal);
    assert_eq!(set_layout_mode(&mut ws, LayoutMode::Scrolling, 3), None);
    assert_eq!(ws, workspace(LayoutMode::Scrolling, 300, TilingDirection::Horizontal));
}

#[test]
fn switch_to_scrolling_sets_half_sizes_and_horizontal() {
    let mut ws = workspace(LayoutMode::Tiling, 0, TilingDirection::Vertical);
    let sizes = set_layout_mode(&mut ws, LayoutMode::Scrolling, 3);
    assert_eq!(sizes, Some(vec![HALF; 3]));
    assert_eq!(ws, workspace(LayoutMode::Scrolling, 0, TilingDirection::Horizontal));
}

#[test]
fn switch_to_tiling_resets_offset_and_shares_space() {
    let mut ws = workspace(LayoutMode::Scrolling, 1040, TilingDirection::Horizontal);
    let sizes = set_layout_mode(&mut ws, LayoutMode::Tiling, 4);
    assert_eq!(sizes, Some(vec![TilingSize { numerator: 1, denominator: 4 }; 4]));
    assert_eq!(ws, workspace(LayoutMode::Tiling, 0, TilingDirection::Horizontal));
    // Setting it again changes nothing.
    assert_eq!(set_layout_mode(&mut ws, LayoutMode::Tiling, 4), None);
}

#[test]
fn switch_to_tiling_keeps_vertical_direction_and_empty_sizes() {
    let mut ws = workspace(LayoutMode::Scrolling, 5, TilingDirection::Vertical);
    assert_eq!(set_layout_mode(&mut ws, LayoutMode::Tiling, 0), Some(vec![]));
    assert_eq!(ws, workspace(LayoutMode::Tiling, 0, TilingDirection::Vertical));
}

#[test]
fn toggle_workspace_twice_restores_mode() {
    let mut ws = workspace(LayoutMode::Tiling, 0, TilingDirection::Vertical);
    assert_eq!(toggle_workspace_layout_mode(&mut ws, 2), Some(vec![HALF; 2]));
    assert_eq!(ws, workspace(LayoutMode::Scrolling, 0, TilingDirection::Horizontal));
    ws.scroll_offset = 700;
    assert_eq!(
        toggle_workspace_layout_mode(&mut ws, 2),
        Some(vec![TilingSize { numerator: 1, denominator: 2 }; 2])
    );
    assert_eq!(ws, workspace(LayoutMode::Tiling, 0, TilingDirection::Horizontal));
}

#[test]
fn update_scroll_offset_scrolls_to_focused_window() {
    let mut ws = workspace(LayoutMode::Scrolling, 0, TilingDirection::Horizontal);
    let widths = [960, 960, 960];
    update_scroll_offset(&mut ws, 1920, 20, &widths, 2);
    // Third window starts at 1960 and ends at 2920.
    assert_eq!(ws.scroll_offset, 1000);
    update_scroll_offset(&mut ws, 1920, 20, &widths, 0);
    assert_eq!(ws.scroll_offset, 0);
    update_scroll_offset(&mut ws, 1920, 20, &widths, 1);
    assert_eq!(ws.scroll_offset, 20);
}

#[test]
fn update_scroll_offset_ignores_tiling_empty_and_out_of_range() {
    let mut tiling = workspace(LayoutMode::Tiling, 123, TilingDirection::Horizontal);
    update_scroll_offset(&mut tiling, 1920, 20, &[960, 960, 960], 2);
    assert_eq!(tiling.scroll_offset, 123);

    let mut empty = workspace(LayoutMode::Scrolling, 77, TilingDirection::Horizontal);
    update_scroll_offset(&mut empty, 1920, 20, &[], 0);
    assert_eq!(empty.scroll_offset, 77);

    let mut out = workspace(LayoutMode::Scrolling, 55, TilingDirection::Horizontal);
    update_scroll_offset(&mut out, 1920, 20, &[960], 1);
    assert_eq!(out.scroll_offset, 55);
}

#[test]
fn update_scroll_offset_fits_detects_overflow() {
    let ws = workspace(LayoutMode::Scrolling, 0, TilingDirection::Horizontal);
    assert!(update_scroll_offset_fits(&ws, 1920, 20, &[960, 960], 1));
    assert!(!update_scroll_offset_fits(&ws, 1920, 20, &[i32::MAX, 960], 1));
    assert!(!update_scroll_offset_fits(&ws, 1920, 20, &[0, i32::MAX], 1));
    let scrolled = workspace(LayoutMode::Scrolling, 10, TilingDirection::Horizontal);
    assert!(!update_scroll_offset_fits(&scrolled, i32::MAX, 0, &[20, 10], 1));
    // Left of the viewport too, the right-edge sums are formed first.
    assert!(!update_scroll_offset_fits(&scrolled, i32::MAX, 0, &[0, 10], 1));
    assert!(update_scroll_offset_fits(&scrolled, 1920, 0, &[0, 10], 1));
    let tiling = workspace(LayoutMode::Tiling, 0, TilingDirection::Horizontal);
    assert!(update_scroll_offset_fits(&tiling, 1920, 20, &[i32::MAX, 960], 1));
}

#[test]
fn scrolling_maximize_decisions() {
    assert_eq!(
        scrolling_set_maximized(2),
        ScrollingResize { window_size: FULL, scroll_to_index: 2 }
    );
    assert_eq!(
        scrolling_toggle_maximized(true, 1),
        ScrollingResize { window_size: HALF, scroll_to_index: 1 }
    );
    assert_eq!(
        scrolling_toggle_maximized(false, 1),
        ScrollingResize { window_size: FULL, scroll_to_index: 1 }
    );
}

#[test]
fn maximized_window_is_scrolled_into_view() {
    // Widths after the second window was maximized to the full 1920px.
    let mut ws = workspace(LayoutMode::Scrolling, 0, TilingDirection::Horizontal);
    let resize = scrolling_set_maximized(1);
    update_scroll_offset(&mut ws, 1920, 20, &[960, 1920, 960], resize.scroll_to_index);
    assert_eq!(ws.scroll_offset, 980);
}
