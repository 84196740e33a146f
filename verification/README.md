# constellation

The verified core of the Constellation engine, a relativistic physics
simulation engine and viewer. The library holds the integer bookkeeping of
the engine's painter, renderer and user interface, each function with a
Verus contract:

- `utils`: rounding up to an alignment.
- `shape`: 8-bit RGBA colors.
- `painter`: palette ids and errors, the bind group registry, palette sizes,
  buffer sizing and staging for GPU uploads.
- `render`: image ids and the image registry of the render context.
- `ui_frame`: laying out the draw lists of a user interface frame in shared
  vertex and index buffers.
- `bloom`: sizes, mip chains, pass counts and dispatch schedules of the bloom
  compute pass.
- `camera`: when a render target or window surface is resized.
- `star`: star resolutions, their meshes and per-star uniform slots.
- `input`: mouse buttons, typed text, keyboard shortcuts and cursors.
- `state`: the application's states, menus and dialogs.
- `text`: decimal formatting and printable characters.
- `native`: handles of the native solver library.

`app/` is the command line front end: argument parsing and the calls into
the native solver library.
