# wm_scrolling

The scrolling layout of a tiling window manager, verified with Verus.

In scrolling mode a workspace is an infinite horizontal canvas: windows sit
side by side, each a fraction of the viewport width, and the viewport scrolls
to keep the focused window visible.

- `src/layout_mode.rs`: the `LayoutMode` enum and its parsing from
  configuration names.
- `src/layout.rs`: virtual canvas offsets, on-screen positions and the
  scroll offset that keeps a window visible, with their laws.
- `src/layout_mode_transitions.rs`: effective and toggled layout modes, and
  the tiling sizes given to windows on a mode switch, held as exact fractions.
- `src/workspace.rs`: the workspace layout commands (switching modes,
  updating the scroll offset, maximizing a window) as functions from the
  workspace's layout state to its next state and the steps to perform.
- `src/position.rs`: the rectangle of a resizable tiling container within
  its parent, and its agreement with the virtual canvas.
- `app/`: what stays outside the verified library: the serde/clap form of
  `LayoutMode`, floating-point window widths and tiling sizes, the command
  handlers over workspace handles, and the `PositionGetters` trait.
