# tablet_map

Maps a Wacom Intuos5 tablet onto the desktop: the pad's express keys click,
its touch ring and the pen (while its barrel button is held) scroll through
`ydotool`, and a service unit can be installed for the user's systemd.

- `src/` is the verified library: the decisions taken on each input event
  (pad keys and ring, pen button and height, stylus buttons, touch surface),
  the batching of scroll amounts, the tablet monitor, device-name matching and
  the unit file text, each with its contract and the laws they keep.
- `app/` is the program: it reads the devices, keeps time, does the
  floating-point weighing of speeds and deflections, runs `ydotool` and
  `systemctl`, and hands the library plain events.
- `tests/` runs the library on concrete events.
