# wayland_application_switcher

The verified core of `was`, a command-line window switcher for KDE Plasma
and GNOME on Wayland.

- `src/` is the library, verified with Verus: query matching for the GNOME
  backend (tokenisation, case-insensitive substring search), window records
  of both backends, window-id parsing, backend selection, how a list of
  matches resolves (directly, through a picker, or by reporting), the
  picker's key handling and rows, the notification decision, and the error
  messages of time-bounded D-Bus calls.
- `app/` is the `was` binary: argument parsing, the D-Bus calls, JSON
  reading of the GNOME extension's reply, the worker thread that bounds a
  call in time, and the terminal picker UI.
- `tests/` exercises the library on concrete values.
