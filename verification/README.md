# ddcstuff

Brightness control for DDC/CI monitors and sysfs backlights: a daemon
(`ddcd`) that keeps the connected monitors and answers brightness commands on
a Unix socket, and a client (`ddcctl`) with Waybar output.

- `src/` is the verified library: the protocol types and their framing on the
  socket, the daemon's monitor set and the steps of its operations (device
  reads and writes are performed by the caller between steps), backlight
  selection, DDC/CI monitor identity, fades, request dispatch, the rescan
  policy, the hotplug debouncer, the choice of the socket path, and the
  client's argument handling and output.
- `tests/` exercises the library on concrete values.
- `app/` holds the programs: sockets, I2C and sysfs access, udev, async
  tasks, JSON and TOML, and command-line parsing. The binary runs as
  `ddcctl` when invoked under that name, as the daemon otherwise.
