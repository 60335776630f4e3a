use vstd::prelude::*;

use crate::layout_mode::LayoutMode;

verus! {

/// A tiling size: the fraction `numerator / denominator` of the available
/// space (of the viewport width, in scrolling mode) that a window takes.
#[derive(Clone, Copy, Debug, PartialEq, Eq, Structural)]
pub struct TilingSize {
    pub numerator: usize,
    pub denominator: usize,
}

/// The size, one half of the viewport width, that every window gets in a
/// scrolling workspace.
pub open spec fn spec_default_tiling_size() -> TilingSize {
    TilingSize { numerator: 1, denominator: 2 }
}

/// The size of a window that fills the whole viewport width.
pub open spec fn spec_full_tiling_size() -> TilingSize {
    TilingSize { numerator: 1, denominator: 1 }
}

/// Default tiling size (as a fraction of the viewport width) assigned to
/// each new window created in a scrolling workspace.
pub fn default_tiling_size() -> (size: TilingSize)
    ensures
        size == spec_default_tiling_size(),
{
    TilingSize { numerator: 1, denominator: 2 }
}

/// Tiling size of a window that spans the full viewport width.
pub fn full_tiling_size() -> (size: TilingSize)
    ensures
        size == spec_full_tiling_size(),
{
    TilingSize { numerator: 1, denominator: 1 }
}

/// The layout mode a workspace uses: its own override where it has one,
/// else the global default.
pub open spec fn spec_effective_layout_mode(
    workspace_layout: Option<LayoutMode>,
    default_layout: LayoutMode,
) -> LayoutMode {
    match workspace_layout {
        Some(mode) => mode,
        None => default_layout,
    }
}

/// Determines the effective layout mode for a workspace, combining the
/// workspace-level override with the global default.
pub fn effective_layout_mode(workspace_layout: Option<LayoutMode>, default_layout: LayoutMode) -> (mode:
    LayoutMode)
    ensures
        mode == spec_effective_layout_mode(workspace_layout, default_layout),
        workspace_layout matches Some(m) ==> mode == m,
        workspace_layout is None ==> mode == default_layout,
{
    match workspace_layout {
        Some(mode) => mode,
        None => default_layout,
    }
}

/// A workspace's own layout mode, where it has one, takes precedence over
/// the global default whatever that default is; without one the default
/// applies.
pub proof fn lemma_effective_layout_mode_precedence(override_mode: LayoutMode, default_layout: LayoutMode)
    ensures
        spec_effective_layout_mode(Some(override_mode), default_layout) == override_mode,
        spec_effective_layout_mode(None, default_layout) == default_layout,
{
}

/// The other layout mode.
pub open spec fn spec_toggle_layout_mode(current: LayoutMode) -> LayoutMode {
    match current {
        LayoutMode::Tiling => LayoutMode::Scrolling,
        LayoutMode::Scrolling => LayoutMode::Tiling,
    }
}

/// Toggles between tiling and scrolling layout modes.
pub fn toggle_layout_mode(current: LayoutMode) -> (mode: LayoutMode)
    ensures
        mode == spec_toggle_layout_mode(current),
{
    match current {
        LayoutMode::Tiling => LayoutMode::Scrolling,
        LayoutMode::Scrolling => LayoutMode::Tiling,
    }
}

/// Toggling always yields the other mode, and toggling twice restores the
/// mode one started from.
pub proof fn lemma_toggle_layout_mode_involution(mode: LayoutMode)
    ensures
        spec_toggle_layout_mode(mode) != mode,
        spec_toggle_layout_mode(spec_toggle_layout_mode(mode)) == mode,
{
}

/// The sizes assigned to `window_count` windows in scrolling mode: each
/// gets the default size.
pub open spec fn spec_tiling_sizes_for_scrolling(window_count: nat) -> Seq<TilingSize> {
    Seq::new(window_count, |i: int| spec_default_tiling_size())
}

/// The sizes assigned to `window_count` windows in tiling mode: each gets
/// an equal share `1 / window_count` of the space.
pub open spec fn spec_tiling_sizes_for_tiling(window_count: nat) -> Seq<TilingSize> {
    Seq::new(window_count, |i: int| TilingSize { numerator: 1, denominator: window_count as usize })
}

/// Computes the new tiling sizes to assign to each window when switching
/// to scrolling mode: every window gets the default size regardless of its
/// previous tiling size.
pub fn tiling_sizes_for_scrolling(window_count: usize) -> (sizes: Vec<TilingSize>)
    ensures
        sizes@ == spec_tiling_sizes_for_scrolling(window_count as nat),
        sizes@.len() == window_count,
        forall|i: int|
            0 <= i < window_count ==> #[trigger] sizes@[i] == (TilingSize {
                numerator: 1,
                denominator: 2,
            }),
{
    let mut sizes: Vec<TilingSize> = Vec::new();
    let mut i: usize = 0;
    while i < window_count
        invariant
            i <= window_count,
            sizes@ == spec_tiling_sizes_for_scrolling(i as nat),
        decreases window_count - i,
    {
        sizes.push(default_tiling_size());
        i = i + 1;
        proof {
            assert(sizes@ =~= spec_tiling_sizes_for_scrolling(i as nat));
        }
    }
    sizes
}

/// Computes the new tiling sizes to assign to each window when switching
/// to tiling mode: every window gets an equal share of the available space
/// (`1 / window_count`, which is the whole space for a single window); no
/// window at all gives no sizes.
pub fn tiling_sizes_for_tiling(window_count: usize) -> (sizes: Vec<TilingSize>)
    ensures
        sizes@ == spec_tiling_sizes_for_tiling(window_count as nat),
        sizes@.len() == window_count,
        forall|i: int|
            0 <= i < window_count ==> #[trigger] sizes@[i] == (TilingSize {
                numerator: 1,
                denominator: window_count,
            }),
{
    let mut sizes: Vec<TilingSize> = Vec::new();
    if window_count == 0 {
        proof {
            assert(sizes@ =~= spec_tiling_sizes_for_tiling(0));
        }
        return sizes;
    }
    let share = TilingSize { numerator: 1, denominator: window_count };
    let mut i: usize = 0;
    while i < window_count
        invariant
            i <= window_count,
            share == (TilingSize { numerator: 1, denominator: window_count }),
            sizes@ == Seq::new(i as nat, |k: int| share),
        decreases window_count - i,
    {
        sizes.push(share);
        i = i + 1;
        proof {
            assert(sizes@ =~= Seq::new(i as nat, |k: int| share));
        }
    }
    proof {
        assert(sizes@ =~= spec_tiling_sizes_for_tiling(window_count as nat));
    }
    sizes
}

/// Switching to scrolling gives each of the `n` windows exactly one half of
/// the viewport width, for every `n`, one window included.
pub proof fn lemma_scrolling_sizes_are_halves(window_count: nat)
    ensures
        spec_tiling_sizes_for_scrolling(window_count).len() == window_count,
        forall|i: int|
            0 <= i < window_count ==> #[trigger] spec_tiling_sizes_for_scrolling(window_count)[i]
                == (TilingSize { numerator: 1, denominator: 2 }),
{
}

/// The sum of the numerators of a sequence of tiling sizes.
pub open spec fn numerator_sum(sizes: Seq<TilingSize>) -> int
    decreases sizes.len(),
{
    if sizes.len() == 0 {
        0
    } else {
        numerator_sum(sizes.drop_last()) + sizes.last().numerator
    }
}

/// In tiling mode the equal shares of `n > 0` windows have one common
/// denominator `n`, and their numerators add up to it: the shares together
/// fill exactly the whole space.
pub proof fn lemma_tiling_shares_fill_space(window_count: nat)
    requires
        0 < window_count <= usize::MAX,
    ensures
        forall|i: int|
            0 <= i < window_count ==> (#[trigger] spec_tiling_sizes_for_tiling(
                window_count,
            )[i]).denominator == window_count,
        numerator_sum(spec_tiling_sizes_for_tiling(window_count)) == window_count,
{
    lemma_numerator_sum_of_units(spec_tiling_sizes_for_tiling(window_count));
}

/// A sequence of sizes that all have numerator one has the sequence's
/// length as its numerator sum.
proof fn lemma_numerator_sum_of_units(sizes: Seq<TilingSize>)
    requires
        forall|i: int| 0 <= i < sizes.len() ==> (#[trigger] sizes[i]).numerator == 1,
    ensures
        numerator_sum(sizes) == sizes.len(),
    decreases sizes.len(),
{
    if sizes.len() > 0 {
        let rest = sizes.drop_last();
        assert forall|i: int| 0 <= i < rest.len() implies (#[trigger] rest[i]).numerator == 1 by {
            assert(rest[i] == sizes[i]);
        }
        lemma_numerator_sum_of_units(rest);
    }
}

} // verus!
