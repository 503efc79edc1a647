# nitroctl

Monitoring and control for Acer Nitro laptops (Nitro ANV15-41 and generic
Linux machines): sensor readings from `hwmon`, `/proc` and `power_supply`,
power profiles through `power-profiles-daemon` or the ACPI
`platform_profile` node, the `acer-wmi-battery` charge limit and calibration
flags, and CPU package power from `powercap`.

## Layout

- `src/` — the library, verified with Verus. Every hardware access goes
  through the `SysfsReader` / `CommandRunner` / `PowerProfilesBackend` /
  `PowerProfileProvider` seams, whose calls are accounted for by relations
  on the seam (which path was read, what was written, what the backend
  answered), so each contract says which path a function reads or writes,
  with what, and how it turns the answer into its result (a seam keeps no
  history, so no contract says that nothing else was written). Times are
  plain nanosecond counts: the CPU package power is measured over exactly
  the time since the previous sample. The parsers,
  state mappings, the validation `set_profile` makes on the backend's own
  listing before it writes, the evidence `diagnose` prints under each
  metric (the file or command read, and what it gave, redacted), the
  dashboard's picker decisions, and the text the CLI and dashboard print are
  specified over mathematical models (`Seq<char>` for text) and proved.
  `src/laws.rs` states the properties that span operations (`set_profile`
  succeeds only on a validated name, a failed connection's error is kept,
  a fresh provider's first CPU sample and first power poll are `Unknown`,
  over a file that holds what was written, a write is read back, rates need two
  samples and a power poll measures over the time since the previous
  sample, the names listed are the names of the details listed, redaction
  is idempotent and keeps plain text).
- `app/` — the `nitroctl` command line: argument parsing, the real
  filesystem and subprocess seams, the D-Bus client, and the readings that
  are fractional quantities (°C, %, MHz, W), which are computed in `f64`.
- `tests/` — scenario tests against in-memory seams.
