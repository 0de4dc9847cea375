# graf

A terminal viewer for the graph of markdown notes joined by `[[wikilinks]]`.

- `src/` is the verified library: reading notes (titles, tags, links, which
  files and notes count), the configuration (option names, defaults,
  environment overrides, range checks), themes and color overrides, the
  status line and window title, the placement of overlays, the colors and
  labels of the drawing, and what keys and mouse events do. Each public
  function states its result in its contract; the `lemma_*` proof functions
  state the properties that hold across calls.
- `tests/` runs the library on concrete values.
- `app/` is the program around it: the terminal, the event loop, reading
  files and the configuration file, the force simulation and the drawing on
  a floating-point canvas.
