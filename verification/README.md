# rift_drag

The drag and input logic of a tiling window manager, verified with Verus.

- `src/` decides: where a drop goes (`hit_test`), what a drag session is and how
  it ends (`drag`, `drag_manager`), what an input event or a request to the
  event tap means (`event_tap`, `modifier_drag`, `keys`, `hotkeys`,
  `shared_hotkeys`), and how the reactor answers to windows and releases
  (`window_events`, `frame_events`, `drag_events`). What holds across functions
  stands in `drag_laws`, `hit_test_laws`, `measure_laws`, `event_tap_laws` and
  `reactor_laws`.
- `app/` measures in floating point and talks to the system: it hands the
  library edges, shares and distances as values and carries out the effects
  that come back.
- `tests/` runs the library on concrete values.

Coordinates are IEEE 754 binary64 bit patterns (`scalar`): the library compares
them, `app/` computes with them. `exact` gives finite coordinates their exact
value, over which the laws on distances, zones and edges are stated.
