# sdmap

A verified library for mapping Steam Deck controller events to a virtual
keyboard and a virtual trackpad, with the daemon around it.

- `src/` is the library, verified with Verus: event codes (`codes`), plain
  event and axis values (`event`), the virtual keyboard layout and the hat
  position arithmetic (`layout`), the daemon's state and per-batch decisions
  (`sdmapd`), the first, simpler mapping (`grimoire`), and properties that
  span several functions (`laws`).
- `app/` opens the controller and the virtual devices with `evdev`, converts
  events to and from the library's values, and runs the event loop.
- `tests/` runs the library on concrete events and checks the event codes
  against `evdev`'s.
