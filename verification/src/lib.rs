use vstd::prelude::*;

pub mod layout;
pub mod layout_mode;
pub mod layout_mode_transitions;
pub mod position;
pub mod workspace;

pub use layout::{compute_scroll_offset, on_screen_x, window_virtual_offset};
pub use layout_mode::{LayoutMode, LayoutModeParseError};
pub use layout_mode_transitions::{
    default_tiling_size, effective_layout_mode, full_tiling_size, tiling_sizes_for_scrolling,
    tiling_sizes_for_tiling, toggle_layout_mode, TilingSize,
};
pub use position::{available_extent, parent_scroll_state, resizable_rect, Rect};
pub use workspace::{
    scrolling_set_maximized, scrolling_toggle_maximized, set_layout_mode,
    toggle_workspace_layout_mode, update_scroll_offset, update_scroll_offset_fits,
    ScrollingResize, TilingDirection, WorkspaceLayout,
};

verus! {

} // verus!
