# glimpse_shell

The logic of a desktop panel shell for Wayland compositors, written in Verus
and proved against its contracts: what each applet shows (battery, audio,
brightness, network, Bluetooth, media players, clipboard, keyboard layout,
clock and calendar, notifications, workspace pager, command and exec
applets), how the exec applets' line protocol is framed and supervised, how
the notification popups surface, and how panels follow the monitors.

- `src/` is the verified library. Each applet has its module; `text`,
  `sorting` and `row_sync` hold the shared pieces. Laws that span several
  functions are public proof functions named `law_*`.
- `tests/` runs the library on concrete values.
- `app/` is a text-mode host for one exec applet: it reads the applet's
  settings from TOML and runs the child under the library's supervisor. It
  also holds the readings computed in floating point, and the clock's reads
  of the machine's time and time zone, which it hands to the library.

Calendar arithmetic, clock formatting, RFC 3339 parsing, case mapping and
lossy UTF-8 decoding are delegated to `chrono` and `std` through a handful of trusted wrappers, each documented
where it is declared.
