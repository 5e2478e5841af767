# phystty

A terminal physics sandbox. The library in `src/` is verified with Verus:

- `layout`: the minimum terminal size and the field size in cells;
- `text`: character helpers (repetition, prefixes, decimal notation);
- `frame`: the text of a frame (borders, HUD, field with balls, help line)
  and what to show on a terminal of a given size;
- `controls`: key bindings and the pause/quit state machine;
- `scene`: the lane of each newly spawned ball.

`app/` holds the terminal program: the `f32` physics, the fixed-timestep
loop and all terminal I/O through crossterm.
