# dock_launcher

A dock for X11 window managers: one small icon window per installed
application (per freedesktop desktop entry), which starts the application
when clicked.

- `src/` is the verified library (Verus). It holds the dock's decisions:
  which directories and files to read (`scan`), the index of entries by
  name (`index`), which entries are shown and how their `Exec` lines expand
  (`entry`), the launcher of each entry (`plan`), decoding and fitting
  raster icons (`raster`, through the image crate), icon pixels and the X
  image made of them (`pixels`, `ximage`), and the answer to a click and
  the arguments of the started program (`launch`). `text` and `order` hold
  the string splitting and ordering they share.
- `app/main.rs` is the program around it: the X connection and windows,
  file and directory reading, desktop file parsing, icon theme lookup, SVG
  rendering (its scale is computed in floating point), and starting
  processes.
- `tests/` run the library against concrete values.
