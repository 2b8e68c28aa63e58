# cwinui

Terminal windowing and UI library: layout arithmetic, styled text, cell
buffers, widgets, and the terminal command stream that a frame is shown
with. The library in `src/` is verified with Verus; every public function
states its effect in its contract.

## Layout

- `src/util.rs`: small arithmetic helpers (`min`, `max`, row-major offsets).
- `src/layout.rs`: positions, dimensions, size ranges, proportions, areas,
  alignment; laws on ranges, fitting, overlaps, splits and alignment.
- `src/style.rs`, `src/owned/`, `src/text.rs`: text attributes, colors,
  styles, styled characters and strings.
- `src/render.rs`: the `Render` interface, modelled as a screen of cells,
  with its drawing helpers and the `Draw` trait; laws on clipping and
  reading back what was written.
- `src/buffer.rs`: the cell buffer that implements `Render`.
- `src/backend/`: terminal commands (`console`), flushing a frame
  (`frame`, with the law that a flush prints the buffer row by row), and the
  fixed-size and terminal-sized backends (`terminal`).
- `src/widget/`: bars, borders, frames, fillers, backdrops, layout wrappers,
  text, splits, flex containers, the wireframe, input lines, prompts,
  canvases, menus and windows.
- `src/misc.rs`: slicing text by character positions.
- `app/`: the termion side: writing commands to the terminal, reading
  events, the screen driver, flex growth (computed in floating point),
  themed menus and shared window bodies.
- `tests/`: tests of the library on concrete values.
