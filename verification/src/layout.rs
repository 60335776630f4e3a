use vstd::prelude::*;

verus! {

/// Whether an integer is representable as an `i32`.
pub open spec fn fits_i32(v: int) -> bool {
    i32::MIN <= v <= i32::MAX
}

/// Distance from the left edge of the virtual canvas to the window that
/// follows the windows whose widths are `prev_widths`: every preceding
/// window contributes its width plus one inner gap.
pub open spec fn virtual_offset(prev_widths: Seq<i32>, inner_gap_px: int) -> int
    decreases prev_widths.len(),
{
    if prev_widths.len() == 0 {
        0
    } else {
        virtual_offset(prev_widths.drop_last(), inner_gap_px) + prev_widths.last() as int
            + inner_gap_px
    }
}

/// Every running sum that the left-to-right accumulation of the virtual
/// offset goes through fits in an `i32`.
pub open spec fn virtual_offset_fits(prev_widths: Seq<i32>, inner_gap_px: int) -> bool {
    forall|k: int|
        0 <= k < prev_widths.len() ==> {
            &&& fits_i32(#[trigger] virtual_offset(prev_widths.take(k), inner_gap_px)
                + prev_widths[k])
            &&& fits_i32(virtual_offset(prev_widths.take(k), inner_gap_px) + prev_widths[k]
                + inner_gap_px)
        }
}

/// Computes the virtual canvas offset (distance in pixels from the left
/// edge of the virtual canvas) for a window given the pixel widths of the
/// direct siblings preceding it and the gap between adjacent windows.
pub fn window_virtual_offset(prev_widths_px: &[i32], inner_gap_px: i32) -> (offset: i32)
    requires
        virtual_offset_fits(prev_widths_px@, inner_gap_px as int),
    ensures
        offset == virtual_offset(prev_widths_px@, inner_gap_px as int),
{
    let ghost widths = prev_widths_px@;
    let mut acc: i32 = 0;
    let mut i: usize = 0;
    while i < prev_widths_px.len()
        invariant
            widths == prev_widths_px@,
            i <= widths.len(),
            acc == virtual_offset(widths.take(i as int), inner_gap_px as int),
            virtual_offset_fits(widths, inner_gap_px as int),
        decreases widths.len() - i,
    {
        proof {
            assert(widths.take(i as int + 1).drop_last() =~= widths.take(i as int));
            assert(fits_i32(virtual_offset(widths.take(i as int), inner_gap_px as int)
                + widths[i as int]));
        }
        acc = acc + prev_widths_px[i] + inner_gap_px;
        i = i + 1;
    }
    proof {
        assert(widths.take(widths.len() as int) =~= widths);
    }
    acc
}

/// On-screen x-coordinate of a window at `virtual_offset` on the canvas of
/// a workspace whose visible area starts at `workspace_x` and that is
/// scrolled by `scroll_offset`.
pub open spec fn screen_x(workspace_x: int, virtual_offset: int, scroll_offset: int) -> int {
    workspace_x + virtual_offset - scroll_offset
}

/// Computes the on-screen x-coordinate for a scrolling window by applying
/// the workspace scroll offset to the window's virtual canvas position.
pub fn on_screen_x(workspace_x: i32, virtual_offset: i32, scroll_offset: i32) -> (x: i32)
    requires
        fits_i32(workspace_x + virtual_offset),
        fits_i32(workspace_x + virtual_offset - scroll_offset),
    ensures
        x == screen_x(workspace_x as int, virtual_offset as int, scroll_offset as int),
{
    workspace_x + virtual_offset - scroll_offset
}

/// The scroll offset that keeps a window occupying
/// `[window_virtual_x, window_virtual_x + window_width]` visible in a
/// viewport `[current, current + viewport_width]`, never below zero. A
/// window past the right edge is aligned to it; otherwise a window past the
/// left edge is aligned to that. A window wider than the viewport that
/// overhangs both edges is thus right-aligned.
pub open spec fn scroll_offset_for(
    current_scroll_offset: int,
    viewport_width: int,
    window_virtual_x: int,
    window_width: int,
) -> int {
    let new_offset = if window_virtual_x + window_width > current_scroll_offset + viewport_width {
        window_virtual_x + window_width - viewport_width
    } else if window_virtual_x < current_scroll_offset {
        window_virtual_x
    } else {
        current_scroll_offset
    };
    if new_offset < 0 {
        0
    } else {
        new_offset
    }
}

/// The sums that `compute_scroll_offset` forms on its way fit in an `i32`.
pub open spec fn scroll_offset_fits(
    current_scroll_offset: int,
    viewport_width: int,
    window_virtual_x: int,
    window_width: int,
) -> bool {
    &&& fits_i32(window_virtual_x + window_width)
    &&& fits_i32(current_scroll_offset + viewport_width)
    &&& (window_virtual_x + window_width > current_scroll_offset + viewport_width ==> fits_i32(
        window_virtual_x + window_width - viewport_width,
    ))
}

/// Computes the new scroll offset needed to keep a given window fully
/// visible inside the viewport. The viewport extends from
/// `current_scroll_offset` to `current_scroll_offset + viewport_width`;
/// the window occupies `[window_virtual_x, window_virtual_x + window_width]`
/// on the virtual canvas. A window off the right edge scrolls the viewport
/// right until its right edge shows; otherwise a window off the left edge
/// scrolls it left until its left edge shows. The result is never negative.
pub fn compute_scroll_offset(
    current_scroll_offset: i32,
    viewport_width: i32,
    window_virtual_x: i32,
    window_width: i32,
) -> (offset: i32)
    requires
        scroll_offset_fits(
            current_scroll_offset as int,
            viewport_width as int,
            window_virtual_x as int,
            window_width as int,
        ),
    ensures
        offset == scroll_offset_for(
            current_scroll_offset as int,
            viewport_width as int,
            window_virtual_x as int,
            window_width as int,
        ),
        offset >= 0,
{
    let new_offset = if window_virtual_x + window_width > current_scroll_offset + viewport_width {
        window_virtual_x + window_width - viewport_width
    } else if window_virtual_x < current_scroll_offset {
        window_virtual_x
    } else {
        current_scroll_offset
    };
    if new_offset < 0 {
        0
    } else {
        new_offset
    }
}

/// The first window starts at the left edge of the virtual canvas, and each
/// later one at the sum of the widths of the windows before it plus one gap
/// per window.
pub proof fn lemma_virtual_offset_is_sum(prev_widths: Seq<i32>, inner_gap_px: int)
    ensures
        virtual_offset(Seq::<i32>::empty(), inner_gap_px) == 0,
        virtual_offset(prev_widths, inner_gap_px) == width_sum(prev_widths) + prev_widths.len()
            * inner_gap_px,
    decreases prev_widths.len(),
{
    if prev_widths.len() > 0 {
        lemma_virtual_offset_is_sum(prev_widths.drop_last(), inner_gap_px);
        assert((prev_widths.len() - 1) * inner_gap_px + inner_gap_px == prev_widths.len()
            * inner_gap_px) by (nonlinear_arith);
    }
}

/// The sum of a sequence of widths.
pub open spec fn width_sum(widths: Seq<i32>) -> int
    decreases widths.len(),
{
    if widths.len() == 0 {
        0
    } else {
        width_sum(widths.drop_last()) + widths.last()
    }
}

/// The virtual offset of the window after window `i` is window `i`'s own
/// offset plus its width and one inner gap.
pub proof fn lemma_virtual_offset_step(prev_widths: Seq<i32>, inner_gap_px: int, i: int)
    requires
        0 <= i < prev_widths.len(),
    ensures
        virtual_offset(prev_widths.take(i + 1), inner_gap_px) == virtual_offset(
            prev_widths.take(i),
            inner_gap_px,
        ) + prev_widths[i] + inner_gap_px,
{
    assert(prev_widths.take(i + 1).drop_last() =~= prev_widths.take(i));
}

/// With non-negative widths and gap, windows lie side by side on the
/// virtual canvas: a window `j` after window `i` starts no earlier than the
/// right edge of window `i` plus one gap, so no two windows overlap.
pub proof fn lemma_virtual_offsets_side_by_side(
    widths: Seq<i32>,
    inner_gap_px: int,
    i: int,
    j: int,
)
    requires
        0 <= i < j <= widths.len(),
        inner_gap_px >= 0,
        forall|k: int| 0 <= k < widths.len() ==> widths[k] >= 0,
    ensures
        virtual_offset(widths.take(i), inner_gap_px) + widths[i] + inner_gap_px
            <= virtual_offset(widths.take(j), inner_gap_px),
    decreases j - i,
{
    lemma_virtual_offset_step(widths, inner_gap_px, i);
    if j > i + 1 {
        lemma_virtual_offsets_side_by_side(widths, inner_gap_px, i, j - 1);
        lemma_virtual_offset_step(widths, inner_gap_px, j - 1);
    }
}

/// Adding a window at the end of the canvas leaves the virtual offset of
/// every existing window unchanged: existing windows are neither moved
/// nor resized.
pub proof fn lemma_appending_keeps_offsets(widths: Seq<i32>, new_width: i32, inner_gap_px: int, i: int)
    requires
        0 <= i <= widths.len(),
    ensures
        virtual_offset(widths.push(new_width).take(i), inner_gap_px) == virtual_offset(
            widths.take(i),
            inner_gap_px,
        ),
{
    assert(widths.push(new_width).take(i) =~= widths.take(i));
}

/// The offset computed for a window that is no wider than the viewport and
/// lies on the canvas makes the whole window visible:
/// `offset <= x` and `x + width <= offset + viewport_width`.
pub proof fn lemma_scrolled_window_fully_visible(
    current_scroll_offset: int,
    viewport_width: int,
    window_virtual_x: int,
    window_width: int,
)
    requires
        0 <= window_virtual_x,
        window_width <= viewport_width,
    ensures
        ({
            let offset = scroll_offset_for(
                current_scroll_offset,
                viewport_width,
                window_virtual_x,
                window_width,
            );
            &&& 0 <= offset <= window_virtual_x
            &&& window_virtual_x + window_width <= offset + viewport_width
        }),
{
}

/// A window that is already fully visible in a viewport with a non-negative
/// offset does not scroll the viewport.
pub proof fn lemma_visible_window_keeps_offset(
    current_scroll_offset: int,
    viewport_width: int,
    window_virtual_x: int,
    window_width: int,
)
    requires
        0 <= current_scroll_offset <= window_virtual_x,
        window_virtual_x + window_width <= current_scroll_offset + viewport_width,
    ensures
        scroll_offset_for(current_scroll_offset, viewport_width, window_virtual_x, window_width)
            == current_scroll_offset,
{
}

/// Scrolling to the same window a second time changes nothing, for a window
/// that lies on the canvas and is no wider than the viewport.
pub proof fn lemma_scroll_offset_idempotent(
    current_scroll_offset: int,
    viewport_width: int,
    window_virtual_x: int,
    window_width: int,
)
    requires
        0 <= window_virtual_x,
        0 <= window_width <= viewport_width,
    ensures
        ({
            let offset = scroll_offset_for(
                current_scroll_offset,
                viewport_width,
                window_virtual_x,
                window_width,
            );
            scroll_offset_for(offset, viewport_width, window_virtual_x, window_width) == offset
        }),
{
}

/// Among all non-negative offsets that show the whole window, the computed
/// one is nearest to the current offset: the viewport scrolls no further
/// than it has to.
pub proof fn lemma_scroll_offset_minimal(
    current_scroll_offset: int,
    viewport_width: int,
    window_virtual_x: int,
    window_width: int,
    other_offset: int,
)
    requires
        0 <= other_offset <= window_virtual_x,
        window_virtual_x + window_width <= other_offset + viewport_width,
    ensures
        ({
            let offset = scroll_offset_for(
                current_scroll_offset,
                viewport_width,
                window_virtual_x,
                window_width,
            );
            &&& offset <= current_scroll_offset ==> current_scroll_offset - offset
                <= if other_offset <= current_scroll_offset {
                current_scroll_offset - other_offset
            } else {
                other_offset - current_scroll_offset
            }
            &&& offset > current_scroll_offset ==> offset - current_scroll_offset
                <= if other_offset <= current_scroll_offset {
                current_scroll_offset - other_offset
            } else {
                other_offset - current_scroll_offset
            }
        }),
{
}

/// After scrolling to a window, its on-screen position lies wholly inside
/// the workspace's visible area `[workspace_x, workspace_x + viewport_width]`.
pub proof fn lemma_scrolled_window_on_screen(
    workspace_x: int,
    current_scroll_offset: int,
    viewport_width: int,
    window_virtual_x: int,
    window_width: int,
)
    requires
        0 <= window_virtual_x,
        0 <= window_width <= viewport_width,
    ensures
        ({
            let offset = scroll_offset_for(
                current_scroll_offset,
                viewport_width,
                window_virtual_x,
                window_width,
            );
            let x = screen_x(workspace_x, window_virtual_x, offset);
            &&& workspace_x <= x
            &&& x + window_width <= workspace_x + viewport_width
        }),
{
}

} // verus!
