use vstd::prelude::*;

use crate::layout::{
    fits_i32, lemma_virtual_offset_step, lemma_virtual_offsets_side_by_side, screen_x,
    virtual_offset,
};
use crate::layout_mode::LayoutMode;
use crate::workspace::{TilingDirection, WorkspaceLayout};

verus! {

/// A rectangle on screen: its top-left corner and its size in pixels.
#[derive(Clone, Copy, Debug, PartialEq, Eq, Structural)]
pub struct Rect {
    pub x: i32,
    pub y: i32,
    pub width: i32,
    pub height: i32,
}

/// The scroll offset that a container's parent imposes on it, and whether
/// the parent is a scrolling workspace: only a workspace in scrolling mode
/// scrolls its children.
pub open spec fn spec_parent_scroll_state(parent_workspace: Option<WorkspaceLayout>) -> (i32, bool) {
    match parent_workspace {
        Some(ws) => if ws.layout_mode == LayoutMode::Scrolling {
            (ws.scroll_offset, true)
        } else {
            (0, false)
        },
        None => (0, false),
    }
}

/// Detects whether a container's parent is a scrolling workspace, given the
/// parent's layout state if the parent is a workspace. Returns the scroll
/// offset to apply to the container (0 unless the parent scrolls) and
/// whether the parent is scrolling.
pub fn parent_scroll_state(parent_workspace: Option<WorkspaceLayout>) -> (state: (i32, bool))
    ensures
        state == spec_parent_scroll_state(parent_workspace),
{
    let scroll_offset = match parent_workspace {
        Some(ws) => if ws.layout_mode == LayoutMode::Scrolling {
            ws.scroll_offset
        } else {
            0
        },
        None => 0,
    };
    let parent_scrolls = match parent_workspace {
        Some(ws) => ws.layout_mode == LayoutMode::Scrolling,
        None => false,
    };
    let is_scrolling = scroll_offset != 0 || parent_scrolls;
    (scroll_offset, is_scrolling)
}

/// Only a workspace in scrolling mode scrolls its children: the offset
/// applied to a container is its parent workspace's scroll offset when that
/// workspace scrolls and zero otherwise, and the container counts as
/// scrolling exactly when its parent is a scrolling workspace, whatever
/// offset it has.
pub proof fn lemma_parent_scroll_state_laws(parent_workspace: Option<WorkspaceLayout>)
    ensures
        ({
            let (offset, is_scrolling) = spec_parent_scroll_state(parent_workspace);
            &&& is_scrolling == (parent_workspace matches Some(ws) && ws.layout_mode
                == LayoutMode::Scrolling)
            &&& is_scrolling ==> offset == parent_workspace->0.scroll_offset
            &&& !is_scrolling ==> offset == 0
        }),
{
}

/// The gap between siblings along the parent's tiling direction, picked
/// from the `(horizontal, vertical)` inner gaps.
pub open spec fn spec_gap_along(direction: TilingDirection, inner_gaps: (i32, i32)) -> i32 {
    match direction {
        TilingDirection::Vertical => inner_gaps.1,
        TilingDirection::Horizontal => inner_gaps.0,
    }
}

/// The space along the parent's tiling direction that tiling siblings share
/// in tiling mode: the parent's extent less one gap per sibling.
pub open spec fn spec_available_extent(
    parent_rect: Rect,
    direction: TilingDirection,
    inner_gaps: (i32, i32),
    sibling_count: i32,
) -> int {
    let extent = match direction {
        TilingDirection::Vertical => parent_rect.height,
        TilingDirection::Horizontal => parent_rect.width,
    };
    extent - spec_gap_along(direction, inner_gaps) * sibling_count
}

/// Each further sibling takes one more gap, along the tiling direction,
/// off the space the siblings share; with no siblings the whole extent of
/// the parent along that direction is available.
pub proof fn lemma_available_extent_per_sibling(
    parent_rect: Rect,
    direction: TilingDirection,
    inner_gaps: (i32, i32),
    sibling_count: i32,
)
    requires
        sibling_count < i32::MAX,
    ensures
        spec_available_extent(parent_rect, direction, inner_gaps, 0) == match direction {
            TilingDirection::Vertical => parent_rect.height,
            TilingDirection::Horizontal => parent_rect.width,
        },
        spec_available_extent(parent_rect, direction, inner_gaps, (sibling_count + 1) as i32)
            == spec_available_extent(parent_rect, direction, inner_gaps, sibling_count)
            - match direction {
            TilingDirection::Vertical => inner_gaps.1,
            TilingDirection::Horizontal => inner_gaps.0,
        },
{
    let gap = spec_gap_along(direction, inner_gaps) as int;
    assert(gap * (sibling_count + 1) == gap * sibling_count + gap) by (nonlinear_arith);
}

/// Computes the space along the parent's tiling direction left for a
/// container and its `sibling_count` tiling siblings once the gaps between
/// them are taken off; the container's own extent is its tiling size's
/// share of it. `None` where that arithmetic leaves the `i32` range.
pub fn available_extent(
    parent_rect: Rect,
    direction: TilingDirection,
    inner_gaps: (i32, i32),
    sibling_count: i32,
) -> (extent: Option<i32>)
    ensures
        extent is Some <==> (fits_i32(spec_gap_along(direction, inner_gaps) * sibling_count)
            && fits_i32(spec_available_extent(parent_rect, direction, inner_gaps, sibling_count))),
        extent matches Some(e) ==> e == spec_available_extent(
            parent_rect,
            direction,
            inner_gaps,
            sibling_count,
        ),
{
    let gap = match direction {
        TilingDirection::Vertical => inner_gaps.1,
        TilingDirection::Horizontal => inner_gaps.0,
    };
    let extent = match direction {
        TilingDirection::Vertical => parent_rect.height,
        TilingDirection::Horizontal => parent_rect.width,
    };
    match gap.checked_mul(sibling_count) {
        Some(gaps) => extent.checked_sub(gaps),
        None => None,
    }
}

/// The rectangle of a resizable tiling container.
pub open spec fn spec_resizable_rect(
    parent_rect: Rect,
    direction: TilingDirection,
    inner_gaps: (i32, i32),
    scroll_offset: i32,
    main_extent: i32,
    prev_sibling: Option<Rect>,
) -> (int, int, int, int) {
    let gap = spec_gap_along(direction, inner_gaps);
    let (width, height) = match direction {
        TilingDirection::Vertical => (parent_rect.width as int, main_extent as int),
        TilingDirection::Horizontal => (main_extent as int, parent_rect.height as int),
    };
    let (x, y) = match prev_sibling {
        None => (parent_rect.x - scroll_offset, parent_rect.y as int),
        Some(sibling) => match direction {
            TilingDirection::Vertical => (
                parent_rect.x as int,
                sibling.y + sibling.height + gap,
            ),
            TilingDirection::Horizontal => (
                sibling.x + sibling.width + gap,
                parent_rect.y as int,
            ),
        },
    };
    (x, y, width, height)
}

/// Whether a rectangle has the given position and size.
pub open spec fn rect_is(rect: Rect, dims: (int, int, int, int)) -> bool {
    &&& rect.x == dims.0
    &&& rect.y == dims.1
    &&& rect.width == dims.2
    &&& rect.height == dims.3
}

/// The arithmetic of `resizable_rect` stays within `i32`.
pub open spec fn resizable_rect_fits(
    parent_rect: Rect,
    direction: TilingDirection,
    inner_gaps: (i32, i32),
    scroll_offset: i32,
    prev_sibling: Option<Rect>,
) -> bool {
    let gap = spec_gap_along(direction, inner_gaps);
    match prev_sibling {
        None => fits_i32(parent_rect.x - scroll_offset),
        Some(sibling) => match direction {
            TilingDirection::Vertical => fits_i32(sibling.y + sibling.height) && fits_i32(
                sibling.y + sibling.height + gap,
            ),
            TilingDirection::Horizontal => fits_i32(sibling.x + sibling.width) && fits_i32(
                sibling.x + sibling.width + gap,
            ),
        },
    }
}

/// Computes the rectangle of a resizable tiling container (a split
/// container or a tiling window) within its parent.
///
/// `main_extent` is the container's size along the parent's tiling
/// direction; across it, the container takes the parent's full extent. The
/// first tiling child starts at the parent's corner, shifted left by the
/// parent's `scroll_offset`; any later child follows its previous tiling
/// sibling `prev_sibling` after one inner gap along the tiling direction.
/// `None` where that arithmetic leaves the `i32` range.
pub fn resizable_rect(
    parent_rect: Rect,
    direction: TilingDirection,
    inner_gaps: (i32, i32),
    scroll_offset: i32,
    main_extent: i32,
    prev_sibling: Option<Rect>,
) -> (rect: Option<Rect>)
    ensures
        rect is Some <==> resizable_rect_fits(
            parent_rect,
            direction,
            inner_gaps,
            scroll_offset,
            prev_sibling,
        ),
        rect matches Some(r) ==> rect_is(
            r,
            spec_resizable_rect(
                parent_rect,
                direction,
                inner_gaps,
                scroll_offset,
                main_extent,
                prev_sibling,
            ),
        ),
{
    let inner_gap = match direction {
        TilingDirection::Vertical => inner_gaps.1,
        TilingDirection::Horizontal => inner_gaps.0,
    };
    let (width, height) = match direction {
        TilingDirection::Vertical => (parent_rect.width, main_extent),
        TilingDirection::Horizontal => (main_extent, parent_rect.height),
    };
    match prev_sibling {
        None => match parent_rect.x.checked_sub(scroll_offset) {
            Some(x) => Some(Rect { x, y: parent_rect.y, width, height }),
            None => None,
        },
        Some(sibling) => match direction {
            TilingDirection::Vertical => match sibling.y.checked_add(sibling.height) {
                Some(bottom) => match bottom.checked_add(inner_gap) {
                    Some(y) => Some(Rect { x: parent_rect.x, y, width, height }),
                    None => None,
                },
                None => None,
            },
            TilingDirection::Horizontal => match sibling.x.checked_add(sibling.width) {
                Some(right) => match right.checked_add(inner_gap) {
                    Some(x) => Some(Rect { x, y: parent_rect.y, width, height }),
                    None => None,
                },
                None => None,
            },
        },
    }
}

/// The widths of a sequence of rectangles.
pub open spec fn rect_widths(rects: Seq<Rect>) -> Seq<i32> {
    rects.map_values(|r: Rect| r.width)
}

/// In a horizontally tiled, scrolled parent, the rectangles that
/// `resizable_rect` lays out one after the other sit exactly where the
/// virtual canvas puts them: the `k`-th child's x-coordinate is the on-screen
/// position of the virtual offset that the widths of the children before it
/// give.
pub proof fn lemma_scrolled_rects_follow_canvas(
    parent_rect: Rect,
    inner_gaps: (i32, i32),
    scroll_offset: i32,
    rects: Seq<Rect>,
)
    requires
        rects.len() > 0 ==> rect_is(
            rects[0],
            spec_resizable_rect(
                parent_rect,
                TilingDirection::Horizontal,
                inner_gaps,
                scroll_offset,
                rects[0].width,
                None,
            ),
        ),
        forall|k: int|
            0 <= k < rects.len() - 1 ==> rect_is(
                #[trigger] rects[k + 1],
                spec_resizable_rect(
                    parent_rect,
                    TilingDirection::Horizontal,
                    inner_gaps,
                    scroll_offset,
                    rects[k + 1].width,
                    Some(rects[k]),
                ),
            ),
    ensures
        forall|k: int|
            0 <= k < rects.len() ==> (#[trigger] rects[k]).x == screen_x(
                parent_rect.x as int,
                virtual_offset(rect_widths(rects).take(k), inner_gaps.0 as int),
                scroll_offset as int,
            ),
{
    assert forall|k: int| 0 <= k < rects.len() implies (#[trigger] rects[k]).x == screen_x(
        parent_rect.x as int,
        virtual_offset(rect_widths(rects).take(k), inner_gaps.0 as int),
        scroll_offset as int,
    ) by {
        lemma_scrolled_rect_x(parent_rect, inner_gaps, scroll_offset, rects, k);
    }
}

proof fn lemma_scrolled_rect_x(
    parent_rect: Rect,
    inner_gaps: (i32, i32),
    scroll_offset: i32,
    rects: Seq<Rect>,
    k: int,
)
    requires
        0 <= k < rects.len(),
        rect_is(
            rects[0],
            spec_resizable_rect(
                parent_rect,
                TilingDirection::Horizontal,
                inner_gaps,
                scroll_offset,
                rects[0].width,
                None,
            ),
        ),
        forall|j: int|
            0 <= j < rects.len() - 1 ==> rect_is(
                #[trigger] rects[j + 1],
                spec_resizable_rect(
                    parent_rect,
                    TilingDirection::Horizontal,
                    inner_gaps,
                    scroll_offset,
                    rects[j + 1].width,
                    Some(rects[j]),
                ),
            ),
    ensures
        rects[k].x == screen_x(
            parent_rect.x as int,
            virtual_offset(rect_widths(rects).take(k), inner_gaps.0 as int),
            scroll_offset as int,
        ),
    decreases k,
{
    let widths = rect_widths(rects);
    if k == 0 {
        assert(widths.take(0) =~= Seq::<i32>::empty());
    } else {
        lemma_scrolled_rect_x(parent_rect, inner_gaps, scroll_offset, rects, k - 1);
        lemma_virtual_offset_step(widths, inner_gaps.0 as int, k - 1);
        assert(rect_is(
            rects[(k - 1) + 1],
            spec_resizable_rect(
                parent_rect,
                TilingDirection::Horizontal,
                inner_gaps,
                scroll_offset,
                rects[(k - 1) + 1].width,
                Some(rects[k - 1]),
            ),
        ));
    }
}

/// The heights of a sequence of rectangles.
pub open spec fn rect_heights(rects: Seq<Rect>) -> Seq<i32> {
    rects.map_values(|r: Rect| r.height)
}

/// Whether `rects` are the children of a vertically tiled parent as
/// `resizable_rect` lays them out one after the other, each with its own
/// height.
pub open spec fn vertical_stack(
    parent_rect: Rect,
    inner_gaps: (i32, i32),
    scroll_offset: i32,
    rects: Seq<Rect>,
) -> bool {
    &&& rects.len() > 0 ==> rect_is(
        rects[0],
        spec_resizable_rect(
            parent_rect,
            TilingDirection::Vertical,
            inner_gaps,
            scroll_offset,
            rects[0].height,
            None,
        ),
    )
    &&& forall|k: int|
        0 <= k < rects.len() - 1 ==> rect_is(
            #[trigger] rects[k + 1],
            spec_resizable_rect(
                parent_rect,
                TilingDirection::Vertical,
                inner_gaps,
                scroll_offset,
                rects[k + 1].height,
                Some(rects[k]),
            ),
        )
}

/// In a vertically tiled parent, the children that `resizable_rect` lays
/// out one after the other form a stack: each spans the parent's width, the
/// first starts at the parent's top, and every later one starts one vertical
/// gap below the bottom edge of the one before it, so the `k`-th child's top
/// is the parent's top plus the heights of the children above it and one gap
/// per child. With non-negative heights and gap, stacked children never
/// overlap: any later child starts at or below an earlier child's bottom
/// edge plus the gap.
pub proof fn lemma_stacked_rects_follow_heights(
    parent_rect: Rect,
    inner_gaps: (i32, i32),
    scroll_offset: i32,
    rects: Seq<Rect>,
)
    requires
        vertical_stack(parent_rect, inner_gaps, scroll_offset, rects),
    ensures
        forall|k: int|
            0 <= k < rects.len() ==> {
                &&& (#[trigger] rects[k]).y == parent_rect.y + virtual_offset(
                    rect_heights(rects).take(k),
                    inner_gaps.1 as int,
                )
                &&& rects[k].width == parent_rect.width
                &&& k > 0 ==> rects[k].x == parent_rect.x
            },
        forall|k: int|
            0 <= k < rects.len() - 1 ==> (#[trigger] rects[k + 1]).y == rects[k].y
                + rects[k].height + inner_gaps.1,
        inner_gaps.1 >= 0 && (forall|k: int| 0 <= k < rects.len() ==> rects[k].height >= 0)
            ==> forall|i: int, j: int|
            0 <= i < j < rects.len() ==> #[trigger] rects[i].y + rects[i].height + inner_gaps.1
                <= #[trigger] rects[j].y,
{
    let heights = rect_heights(rects);
    let gap = inner_gaps.1 as int;
    assert forall|k: int| 0 <= k < rects.len() implies {
        &&& (#[trigger] rects[k]).y == parent_rect.y + virtual_offset(heights.take(k), gap)
        &&& rects[k].width == parent_rect.width
        &&& k > 0 ==> rects[k].x == parent_rect.x
    } by {
        lemma_stacked_rect_y(parent_rect, inner_gaps, scroll_offset, rects, k);
        if k > 0 {
            assert(rect_is(
                rects[(k - 1) + 1],
                spec_resizable_rect(
                    parent_rect,
                    TilingDirection::Vertical,
                    inner_gaps,
                    scroll_offset,
                    rects[(k - 1) + 1].height,
                    Some(rects[k - 1]),
                ),
            ));
        }
    }
    assert forall|k: int| 0 <= k < rects.len() - 1 implies (#[trigger] rects[k + 1]).y
        == rects[k].y + rects[k].height + inner_gaps.1 by {
        assert(rect_is(
            rects[k + 1],
            spec_resizable_rect(
                parent_rect,
                TilingDirection::Vertical,
                inner_gaps,
                scroll_offset,
                rects[k + 1].height,
                Some(rects[k]),
            ),
        ));
    }
    if inner_gaps.1 >= 0 && (forall|k: int| 0 <= k < rects.len() ==> rects[k].height >= 0) {
        assert forall|i: int, j: int| 0 <= i < j < rects.len() implies #[trigger] rects[i].y
            + rects[i].height + inner_gaps.1 <= #[trigger] rects[j].y by {
            assert forall|k: int| 0 <= k < heights.len() implies heights[k] >= 0 by {
                assert(heights[k] == rects[k].height);
            }
            lemma_stacked_rect_y(parent_rect, inner_gaps, scroll_offset, rects, i);
            lemma_stacked_rect_y(parent_rect, inner_gaps, scroll_offset, rects, j);
            lemma_virtual_offsets_side_by_side(heights, gap, i, j);
        }
    }
}

proof fn lemma_stacked_rect_y(
    parent_rect: Rect,
    inner_gaps: (i32, i32),
    scroll_offset: i32,
    rects: Seq<Rect>,
    k: int,
)
    requires
        0 <= k < rects.len(),
        vertical_stack(parent_rect, inner_gaps, scroll_offset, rects),
    ensures
        rects[k].y == parent_rect.y + virtual_offset(rect_heights(rects).take(k), inner_gaps.1 as int),
        rects[k].width == parent_rect.width,
    decreases k,
{
    let heights = rect_heights(rects);
    if k == 0 {
        assert(heights.take(0) =~= Seq::<i32>::empty());
    } else {
        lemma_stacked_rect_y(parent_rect, inner_gaps, scroll_offset, rects, k - 1);
        lemma_virtual_offset_step(heights, inner_gaps.1 as int, k - 1);
        assert(rect_is(
            rects[(k - 1) + 1],
            spec_resizable_rect(
                parent_rect,
                TilingDirection::Vertical,
                inner_gaps,
                scroll_offset,
                rects[(k - 1) + 1].height,
                Some(rects[k - 1]),
            ),
        ));
    }
}

} // verus!
