# mocha

The verified core of a Windows tray application that keeps the machine awake
and the screen saver away.

- `src/helper.rs`: NUL-terminated UTF-16 strings (`ToWide`) and fixed-size
  wide buffers (`WideString::to_array`).
- `src/ui/mod.rs`: sorting window messages into kinds (`WM::crack`).
- `src/ui/main_frame.rs`: the tray window's state and its answer to each
  message as an `Effect` (toggling "keep awake" and "prohibit screen saver",
  the context menu, the idle key press, the tray icon's data).
- `src/win32.rs`: the Windows SDK numbers the decisions use.
- `app/`: the program that registers the window, runs the message loop and
  carries out each `Effect` through the `windows` crate.
