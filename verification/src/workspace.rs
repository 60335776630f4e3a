use vstd::prelude::*;

use crate::layout::{
    compute_scroll_offset, fits_i32, lemma_scroll_offset_minimal, lemma_scrolled_window_fully_visible,
    lemma_virtual_offset_step, lemma_visible_window_keeps_offset,
    scroll_offset_fits, scroll_offset_for, virtual_offset, virtual_offset_fits,
    window_virtual_offset,
};
use crate::layout_mode::LayoutMode;
use crate::layout_mode_transitions::{
    full_tiling_size, default_tiling_size, spec_default_tiling_size, spec_full_tiling_size,
    lemma_tiling_shares_fill_space, numerator_sum, spec_tiling_sizes_for_scrolling,
    spec_tiling_sizes_for_tiling, spec_toggle_layout_mode,
    tiling_sizes_for_scrolling, tiling_sizes_for_tiling, toggle_layout_mode, TilingSize,
};

verus! {

/// Direction in which the children of a container are tiled.
#[derive(Clone, Copy, Debug, PartialEq, Eq, Structural)]
pub enum TilingDirection {
    Horizontal,
    Vertical,
}

/// The layout state of a workspace that the layout commands read and write.
#[derive(Clone, Copy, Debug, PartialEq, Eq, Structural)]
pub struct WorkspaceLayout {
    pub layout_mode: LayoutMode,
    /// Horizontal scroll offset of the viewport in logical pixels.
    pub scroll_offset: i32,
    pub tiling_direction: TilingDirection,
}

/// A scrolling workspace always tiles horizontally.
pub open spec fn scrolling_is_horizontal(workspace: WorkspaceLayout) -> bool {
    workspace.layout_mode == LayoutMode::Scrolling ==> workspace.tiling_direction
        == TilingDirection::Horizontal
}

/// The sizes that the tiling children of a workspace switched to `mode`
/// receive.
pub open spec fn spec_tiling_sizes_for(mode: LayoutMode, tiling_child_count: nat) -> Seq<
    TilingSize,
> {
    match mode {
        LayoutMode::Scrolling => spec_tiling_sizes_for_scrolling(tiling_child_count),
        LayoutMode::Tiling => spec_tiling_sizes_for_tiling(tiling_child_count),
    }
}

/// The workspace as it is once switched to `mode` from another mode.
pub open spec fn spec_switched_layout(workspace: WorkspaceLayout, mode: LayoutMode) -> WorkspaceLayout {
    WorkspaceLayout {
        layout_mode: mode,
        scroll_offset: 0,
        tiling_direction: if mode == LayoutMode::Scrolling {
            TilingDirection::Horizontal
        } else {
            workspace.tiling_direction
        },
    }
}

/// The workspace after `set_layout_mode` with `mode`: unchanged if it
/// already has `mode`, else switched to it.
pub open spec fn spec_after_set_layout_mode(workspace: WorkspaceLayout, mode: LayoutMode) -> WorkspaceLayout {
    if workspace.layout_mode == mode {
        workspace
    } else {
        spec_switched_layout(workspace, mode)
    }
}

/// Switches a workspace to the given layout mode.
///
/// If the workspace already has `mode`, nothing changes and the result is
/// `None`. Otherwise the mode is set, the scroll offset is reset to 0, a
/// switch to scrolling makes the workspace tile horizontally, and the result
/// holds the new sizes of its `tiling_child_count` tiling children, in
/// order: the default size (50 %) each when switching to scrolling, equal
/// shares of the space when switching to tiling. A `Some` result also means
/// that the layout change is to be announced and the tiling children
/// redrawn.
pub fn set_layout_mode(workspace: &mut WorkspaceLayout, mode: LayoutMode, tiling_child_count: usize) -> (sizes:
    Option<Vec<TilingSize>>)
    ensures
        *final(workspace) == spec_after_set_layout_mode(*old(workspace), mode),
        old(workspace).layout_mode == mode ==> sizes is None,
        old(workspace).layout_mode != mode ==> (sizes matches Some(s) && s@
            == spec_tiling_sizes_for(mode, tiling_child_count as nat)),
        // Every tiling child gets a size, in order: half the viewport each in
        // scrolling mode, an equal share 1/n each of n children in tiling mode.
        old(workspace).layout_mode != mode ==> (sizes matches Some(s) && s@.len()
            == tiling_child_count && forall|i: int|
            0 <= i < tiling_child_count ==> #[trigger] s@[i] == if mode == LayoutMode::Scrolling {
                TilingSize { numerator: 1, denominator: 2 }
            } else {
                TilingSize { numerator: 1, denominator: tiling_child_count }
            }),
{
    if workspace.layout_mode == mode {
        return None;
    }
    workspace.layout_mode = mode;
    workspace.scroll_offset = 0;
    if mode == LayoutMode::Scrolling {
        workspace.tiling_direction = TilingDirection::Horizontal;
    }
    let sizes = match mode {
        LayoutMode::Scrolling => tiling_sizes_for_scrolling(tiling_child_count),
        LayoutMode::Tiling => tiling_sizes_for_tiling(tiling_child_count),
    };
    Some(sizes)
}

/// Toggles the layout mode of a workspace between tiling and scrolling; the
/// same as `set_layout_mode` with the other mode, so it always changes the
/// workspace and returns the new sizes of its tiling children.
pub fn toggle_workspace_layout_mode(workspace: &mut WorkspaceLayout, tiling_child_count: usize) -> (sizes:
    Option<Vec<TilingSize>>)
    ensures
        sizes matches Some(s) && s@ == spec_tiling_sizes_for(
            spec_toggle_layout_mode(old(workspace).layout_mode),
            tiling_child_count as nat,
        ),
        *final(workspace) == spec_switched_layout(
            *old(workspace),
            spec_toggle_layout_mode(old(workspace).layout_mode),
        ),
{
    let new_mode = toggle_layout_mode(workspace.layout_mode);
    set_layout_mode(workspace, new_mode, tiling_child_count)
}

/// The sizes that a mode switch hands out: `n` of them, each one half in
/// scrolling mode; in tiling mode each the share `1 / n`, so that for `n > 0`
/// the numerators add up to the common denominator and the shares fill the
/// whole space.
pub proof fn lemma_mode_switch_sizes(mode: LayoutMode, tiling_child_count: nat)
    requires
        tiling_child_count <= usize::MAX,
    ensures
        spec_tiling_sizes_for(mode, tiling_child_count).len() == tiling_child_count,
        mode == LayoutMode::Scrolling ==> forall|i: int|
            0 <= i < tiling_child_count ==> #[trigger] spec_tiling_sizes_for(
                mode,
                tiling_child_count,
            )[i] == (TilingSize { numerator: 1, denominator: 2 }),
        mode == LayoutMode::Tiling ==> forall|i: int|
            0 <= i < tiling_child_count ==> #[trigger] spec_tiling_sizes_for(
                mode,
                tiling_child_count,
            )[i] == (TilingSize { numerator: 1, denominator: tiling_child_count as usize }),
        mode == LayoutMode::Tiling && tiling_child_count > 0 ==> numerator_sum(
            spec_tiling_sizes_for(mode, tiling_child_count),
        ) == tiling_child_count,
{
    if mode == LayoutMode::Tiling && tiling_child_count > 0 {
        lemma_tiling_shares_fill_space(tiling_child_count);
    }
}

/// Setting the same layout mode twice does nothing the second time: the
/// second `set_layout_mode` finds the mode in place, returns `None` and
/// leaves the workspace as the first one left it.
pub proof fn lemma_set_layout_mode_idempotent(workspace: WorkspaceLayout, mode: LayoutMode)
    ensures
        spec_after_set_layout_mode(workspace, mode).layout_mode == mode,
        spec_after_set_layout_mode(spec_after_set_layout_mode(workspace, mode), mode)
            == spec_after_set_layout_mode(workspace, mode),
{
}

/// Switching layout modes keeps every scrolling workspace tiling
/// horizontally, and toggling twice brings back the mode it started from with the
/// viewport at the start of the canvas.
pub proof fn lemma_layout_switch_laws(workspace: WorkspaceLayout, mode: LayoutMode)
    ensures
        scrolling_is_horizontal(workspace) ==> scrolling_is_horizontal(
            spec_after_set_layout_mode(workspace, mode),
        ),
        ({
            let once = spec_switched_layout(
                workspace,
                spec_toggle_layout_mode(workspace.layout_mode),
            );
            let twice = spec_switched_layout(once, spec_toggle_layout_mode(once.layout_mode));
            &&& twice.layout_mode == workspace.layout_mode
            &&& twice.scroll_offset == 0
        }),
{
}

/// Whether `update_scroll_offset` on these inputs recomputes the offset:
/// the workspace scrolls, and the focused index names one of its tiling
/// children.
pub open spec fn scroll_update_applies(
    workspace: WorkspaceLayout,
    child_widths: Seq<i32>,
    focused_window_index: int,
) -> bool {
    &&& workspace.layout_mode == LayoutMode::Scrolling
    &&& 0 < child_widths.len()
    &&& 0 <= focused_window_index < child_widths.len()
}

/// The arithmetic of the scroll update stays within `i32`.
pub open spec fn scroll_update_fits(
    scroll_offset: int,
    viewport_width: int,
    inner_gap_px: int,
    child_widths: Seq<i32>,
    focused_window_index: int,
) -> bool {
    let prev = child_widths.take(focused_window_index);
    &&& virtual_offset_fits(prev, inner_gap_px)
    &&& scroll_offset_fits(
        scroll_offset,
        viewport_width,
        virtual_offset(prev, inner_gap_px),
        child_widths[focused_window_index] as int,
    )
}

/// The scroll offset that the update gives the workspace.
pub open spec fn spec_updated_scroll_offset(
    workspace: WorkspaceLayout,
    viewport_width: int,
    inner_gap_px: int,
    child_widths: Seq<i32>,
    focused_window_index: int,
) -> int {
    if scroll_update_applies(workspace, child_widths, focused_window_index) {
        scroll_offset_for(
            workspace.scroll_offset as int,
            viewport_width,
            virtual_offset(child_widths.take(focused_window_index), inner_gap_px),
            child_widths[focused_window_index] as int,
        )
    } else {
        workspace.scroll_offset as int
    }
}

/// Updates the horizontal scroll offset of a scrolling workspace so that
/// the tiling child at `focused_window_index` is fully visible in the
/// viewport.
///
/// `child_widths` holds the pixel width of each tiling child of the
/// workspace in order, `viewport_width` the width of the workspace and
/// `inner_gap_px` the horizontal gap between windows. A workspace that does
/// not scroll, that has no tiling children, or whose focused index is out of
/// range is left as it is.
pub fn update_scroll_offset(
    workspace: &mut WorkspaceLayout,
    viewport_width: i32,
    inner_gap_px: i32,
    child_widths: &[i32],
    focused_window_index: usize,
)
    requires
        scroll_update_applies(*old(workspace), child_widths@, focused_window_index as int)
            ==> scroll_update_fits(
            old(workspace).scroll_offset as int,
            viewport_width as int,
            inner_gap_px as int,
            child_widths@,
            focused_window_index as int,
        ),
    ensures
        final(workspace).scroll_offset == spec_updated_scroll_offset(
            *old(workspace),
            viewport_width as int,
            inner_gap_px as int,
            child_widths@,
            focused_window_index as int,
        ),
        final(workspace).layout_mode == old(workspace).layout_mode,
        final(workspace).tiling_direction == old(workspace).tiling_direction,
        // A focused window that is already fully visible leaves the offset as it is.
        scroll_update_applies(*old(workspace), child_widths@, focused_window_index as int) && ({
            let x = virtual_offset(child_widths@.take(focused_window_index as int), inner_gap_px as int);
            &&& 0 <= old(workspace).scroll_offset <= x
            &&& x + child_widths@[focused_window_index as int] <= old(workspace).scroll_offset
                + viewport_width
        }) ==> final(workspace).scroll_offset == old(workspace).scroll_offset,
        // The focused window ends up fully inside the viewport.
        scroll_update_applies(*old(workspace), child_widths@, focused_window_index as int)
            && inner_gap_px >= 0 && (forall|k: int|
            0 <= k <= focused_window_index ==> child_widths@[k] >= 0)
            && child_widths@[focused_window_index as int] <= viewport_width ==> {
            let x = virtual_offset(child_widths@.take(focused_window_index as int), inner_gap_px as int);
            &&& 0 <= final(workspace).scroll_offset <= x
            &&& x + child_widths@[focused_window_index as int] <= final(workspace).scroll_offset
                + viewport_width
        },
{
    if workspace.layout_mode != LayoutMode::Scrolling {
        return;
    }
    if child_widths.len() == 0 {
        return;
    }
    if focused_window_index >= child_widths.len() {
        return;
    }
    let prev_widths = slice_prefix(child_widths, focused_window_index);
    let virtual_x = window_virtual_offset(prev_widths.as_slice(), inner_gap_px);
    let win_width = child_widths[focused_window_index];
    let new_offset = compute_scroll_offset(
        workspace.scroll_offset,
        viewport_width,
        virtual_x,
        win_width,
    );
    proof {
        let widths = child_widths@;
        let i = focused_window_index as int;
        if inner_gap_px >= 0 && (forall|k: int| 0 <= k <= i ==> widths[k] >= 0) {
            let prev = widths.take(i);
            assert forall|k: int| 0 <= k < prev.len() implies prev[k] >= 0 by {
                assert(prev[k] == widths[k]);
            }
            lemma_virtual_offset_nonnegative(prev, inner_gap_px as int);
        }
        if 0 <= workspace.scroll_offset <= virtual_x && virtual_x + win_width
            <= workspace.scroll_offset + viewport_width {
            lemma_visible_window_keeps_offset(
                workspace.scroll_offset as int,
                viewport_width as int,
                virtual_x as int,
                win_width as int,
            );
        }
        if inner_gap_px >= 0 && (forall|k: int| 0 <= k <= i ==> widths[k] >= 0)
            && widths[i] <= viewport_width {
            lemma_scrolled_window_fully_visible(
                workspace.scroll_offset as int,
                viewport_width as int,
                virtual_x as int,
                win_width as int,
            );
        }
    }
    workspace.scroll_offset = new_offset;
}

/// Whenever some non-negative scroll offset `other` shows the whole focused
/// window of a scrolling workspace, the offset that the update stores shows
/// it too, and of all such offsets it lies nearest the current one: the
/// viewport moves no further than it must.
pub proof fn lemma_updated_scroll_offset_nearest_visible(
    workspace: WorkspaceLayout,
    viewport_width: int,
    inner_gap_px: int,
    child_widths: Seq<i32>,
    focused_window_index: int,
    other: int,
)
    requires
        scroll_update_applies(workspace, child_widths, focused_window_index),
        ({
            let x = virtual_offset(child_widths.take(focused_window_index), inner_gap_px);
            &&& 0 <= other <= x
            &&& x + child_widths[focused_window_index] <= other + viewport_width
        }),
    ensures
        ({
            let x = virtual_offset(child_widths.take(focused_window_index), inner_gap_px);
            let w = child_widths[focused_window_index] as int;
            let current = workspace.scroll_offset as int;
            let offset = spec_updated_scroll_offset(
                workspace,
                viewport_width,
                inner_gap_px,
                child_widths,
                focused_window_index,
            );
            &&& 0 <= offset <= x
            &&& x + w <= offset + viewport_width
            &&& (if offset <= current {
                current - offset
            } else {
                offset - current
            }) <= (if other <= current {
                current - other
            } else {
                other - current
            })
        }),
{
    let x = virtual_offset(child_widths.take(focused_window_index), inner_gap_px);
    let w = child_widths[focused_window_index] as int;
    lemma_scrolled_window_fully_visible(workspace.scroll_offset as int, viewport_width, x, w);
    lemma_scroll_offset_minimal(workspace.scroll_offset as int, viewport_width, x, w, other);
}

/// A focused window that already lies fully inside the viewport
/// `[scroll_offset, scroll_offset + viewport_width]` of a scrolling
/// workspace leaves its scroll offset unchanged; and a workspace that does
/// not scroll, or whose focused index names no tiling child, keeps its
/// offset whatever the widths.
pub proof fn lemma_update_keeps_offset(
    workspace: WorkspaceLayout,
    viewport_width: int,
    inner_gap_px: int,
    child_widths: Seq<i32>,
    focused_window_index: int,
)
    ensures
        !scroll_update_applies(workspace, child_widths, focused_window_index)
            ==> spec_updated_scroll_offset(
            workspace,
            viewport_width,
            inner_gap_px,
            child_widths,
            focused_window_index,
        ) == workspace.scroll_offset,
        scroll_update_applies(workspace, child_widths, focused_window_index) && ({
            let x = virtual_offset(child_widths.take(focused_window_index), inner_gap_px);
            &&& 0 <= workspace.scroll_offset <= x
            &&& x + child_widths[focused_window_index] <= workspace.scroll_offset
                + viewport_width
        }) ==> spec_updated_scroll_offset(
            workspace,
            viewport_width,
            inner_gap_px,
            child_widths,
            focused_window_index,
        ) == workspace.scroll_offset,
{
    if scroll_update_applies(workspace, child_widths, focused_window_index) {
        let x = virtual_offset(child_widths.take(focused_window_index), inner_gap_px);
        let w = child_widths[focused_window_index] as int;
        if 0 <= workspace.scroll_offset <= x && x + w <= workspace.scroll_offset + viewport_width {
            lemma_visible_window_keeps_offset(workspace.scroll_offset as int, viewport_width, x, w);
        }
    }
}

/// The first `n` elements of a slice, copied into a vector.
fn slice_prefix(s: &[i32], n: usize) -> (prefix: Vec<i32>)
    requires
        n <= s@.len(),
    ensures
        prefix@ == s@.take(n as int),
{
    let mut prefix: Vec<i32> = Vec::new();
    let mut i: usize = 0;
    while i < n
        invariant
            i <= n,
            n <= s@.len(),
            prefix@ == s@.take(i as int),
        decreases n - i,
    {
        prefix.push(s[i]);
        i = i + 1;
        proof {
            assert(prefix@ =~= s@.take(i as int));
        }
    }
    prefix
}

/// With non-negative widths and gap, every window starts at a non-negative
/// virtual offset.
pub proof fn lemma_virtual_offset_nonnegative(widths: Seq<i32>, inner_gap_px: int)
    requires
        inner_gap_px >= 0,
        forall|k: int| 0 <= k < widths.len() ==> widths[k] >= 0,
    ensures
        virtual_offset(widths, inner_gap_px) >= 0,
    decreases widths.len(),
{
    if widths.len() > 0 {
        let rest = widths.drop_last();
        assert forall|k: int| 0 <= k < rest.len() implies rest[k] >= 0 by {
            assert(rest[k] == widths[k]);
        }
        lemma_virtual_offset_nonnegative(rest, inner_gap_px);
    }
}

/// Whether the scroll update on these inputs stays within `i32`, so that
/// `update_scroll_offset` may be called with them.
pub fn update_scroll_offset_fits(
    workspace: &WorkspaceLayout,
    viewport_width: i32,
    inner_gap_px: i32,
    child_widths: &[i32],
    focused_window_index: usize,
) -> (fits: bool)
    ensures
        fits == (scroll_update_applies(*workspace, child_widths@, focused_window_index as int)
            ==> scroll_update_fits(
            workspace.scroll_offset as int,
            viewport_width as int,
            inner_gap_px as int,
            child_widths@,
            focused_window_index as int,
        )),
{
    if workspace.layout_mode != LayoutMode::Scrolling || child_widths.len() == 0
        || focused_window_index >= child_widths.len() {
        return true;
    }
    let ghost widths = child_widths@;
    let ghost gap = inner_gap_px as int;
    let ghost prev = widths.take(focused_window_index as int);
    let mut acc: i64 = 0;
    let mut i: usize = 0;
    while i < focused_window_index
        invariant
            widths == child_widths@,
            scroll_update_applies(*workspace, widths, focused_window_index as int),
            prev == widths.take(focused_window_index as int),
            gap == inner_gap_px as int,
            i <= focused_window_index,
            acc == virtual_offset(prev.take(i as int), gap),
            fits_i32(acc as int),
            forall|k: int|
                0 <= k < i ==> {
                    &&& fits_i32(#[trigger] virtual_offset(prev.take(k), gap) + prev[k])
                    &&& fits_i32(virtual_offset(prev.take(k), gap) + prev[k] + gap)
                },
        decreases focused_window_index - i,
    {
        proof {
            lemma_virtual_offset_step(prev, gap, i as int);
            assert(prev.take(i as int + 1).take(i as int) =~= prev.take(i as int));
            assert(prev[i as int] == widths[i as int]);
        }
        let with_width = acc + child_widths[i] as i64;
        if with_width < i32::MIN as i64 || with_width > i32::MAX as i64 {
            proof {
                assert(!fits_i32(virtual_offset(prev.take(i as int), gap) + prev[i as int]));
                assert(!virtual_offset_fits(prev, gap));
            }
            return false;
        }
        let with_gap = with_width + inner_gap_px as i64;
        if with_gap < i32::MIN as i64 || with_gap > i32::MAX as i64 {
            proof {
                assert(!fits_i32(virtual_offset(prev.take(i as int), gap) + prev[i as int] + gap));
                assert(!virtual_offset_fits(prev, gap));
            }
            return false;
        }
        proof {
            assert(prev.take(i as int + 1).drop_last() =~= prev.take(i as int));
        }
        acc = with_gap;
        i = i + 1;
    }
    proof {
        assert(prev.take(focused_window_index as int) =~= prev);
        assert(virtual_offset_fits(prev, gap));
    }
    let x = acc;
    let w = child_widths[focused_window_index] as i64;
    let current = workspace.scroll_offset as i64;
    let viewport = viewport_width as i64;
    if x + w < i32::MIN as i64 || x + w > i32::MAX as i64 {
        return false;
    }
    if current + viewport < i32::MIN as i64 || current + viewport > i32::MAX as i64 {
        return false;
    }
    if x + w > current + viewport {
        let right = x + w - viewport;
        if right < i32::MIN as i64 || right > i32::MAX as i64 {
            return false;
        }
    }
    true
}

/// The steps of a size change of a window in a scrolling workspace: give
/// the window `window_size`, then update the workspace's scroll offset for
/// the tiling child at `scroll_to_index`, then redraw the workspace's tiling
/// children.
#[derive(Clone, Copy, Debug, PartialEq, Eq, Structural)]
pub struct ScrollingResize {
    pub window_size: TilingSize,
    pub scroll_to_index: usize,
}

/// Maximizes the window at `window_index` within its scrolling workspace
/// by expanding its tiling size to the full viewport width. The window stays
/// a tiling window in the flat scrolling list, so left/right navigation keeps
/// working.
pub fn scrolling_set_maximized(window_index: usize) -> (resize: ScrollingResize)
    ensures
        resize == (ScrollingResize { window_size: spec_full_tiling_size(), scroll_to_index: window_index }),
{
    ScrollingResize { window_size: full_tiling_size(), scroll_to_index: window_index }
}

/// Toggles the window at `window_index` between maximized (full viewport
/// width) and the default scrolling size: a maximized window returns to the
/// default size, any other one is maximized.
pub fn scrolling_toggle_maximized(window_is_maximized: bool, window_index: usize) -> (resize:
    ScrollingResize)
    ensures
        resize.window_size == if window_is_maximized {
            spec_default_tiling_size()
        } else {
            spec_full_tiling_size()
        },
        resize.scroll_to_index == window_index,
{
    let new_size = if window_is_maximized {
        default_tiling_size()
    } else {
        full_tiling_size()
    };
    ScrollingResize { window_size: new_size, scroll_to_index: window_index }
}

/// Toggling the maximized state twice brings a window back to where it
/// started: a maximized window becomes default-sized and then maximized
/// again, a default-sized one becomes maximized and then default-sized.
pub proof fn lemma_toggle_maximized_twice(window_is_maximized: bool)
    ensures
        ({
            let first = if window_is_maximized {
                spec_default_tiling_size()
            } else {
                spec_full_tiling_size()
            };
            let second = if first == spec_full_tiling_size() {
                spec_default_tiling_size()
            } else {
                spec_full_tiling_size()
            };
            &&& (first == spec_full_tiling_size()) == !window_is_maximized
            &&& second == if window_is_maximized {
                spec_full_tiling_size()
            } else {
                spec_default_tiling_size()
            }
        }),
{
}

} // verus!
