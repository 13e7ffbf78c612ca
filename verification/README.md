# mullion

The verified core of a split-pane workspace toolkit: stable pane, activity,
category and workspace identities; the pane-command catalog with its ids,
names, groups and descriptions; the actions that dispatch commands and the
keymaps (direct and tmux-style prefixed) that bind key sequences to them;
activity catalogs with identity validation and per-pane projections;
command-palette entries; activity-bar expansion and hover-intent state;
docking payloads and the five-zone rule; the activity-instance cache and
factory registry, generic over the host's instance and factory types; accessibility metadata; and
window-level overlay stacks with atomic mutation batches.

Layout:

- `src/` — the library, written in Verus. Every function carries a contract,
  and the cross-function properties (rebinding, action round trips, catalog
  validation, projection pruning, paint order, hover tokens, expansion) are
  stated and proved as public proof functions.
- `tests/` — executable tests of the library.
- `app/` — host-side adapters the verifier does not see: floating-point
  docking and overlay geometry, live settings backed by host callbacks and
  shared locks, target-dependent capabilities, and serde-compatible copies of
  the configuration types.

Not part of this crate: the pane tree and pane model (split, close, swap,
rotate, balance, layouts, zoom and focus) and the workspace collection, whose
sources were not available; and the GPUI view, styles, theme palettes, icons
and activity views, which render through GPUI.
