# tiny_cursor

A smooth-cursor overlay for Windows: a spring-animated cursor drawn in a
click-through topmost window, with a tray menu, automatic light/dark tone and
fail-safe restoration of the system cursors.

- `src/` is the verified library (Verus): cursor states, the system-cursor
  hiding protocol, tray settings, menu and commands, input decoding and
  cursor-shape detection, overlay window behaviour, render-loop decisions and
  the premultiplied ARGB canvas compositor. Laws about these are stated and
  proved as public proof functions beside the code they speak of.
- `app/` is the Windows program around it: Win32 and GPU calls, the
  floating-point spring physics, sprite sampling and colour morphing, and the
  render loops, which take every decision from the library. It expects the
  sprite and icon data in `app/assets.rs`.
- `tests/` exercises the library on concrete values.
