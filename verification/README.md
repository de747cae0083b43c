# ipscan

Scan configuration and the Nushell adapter of the `ipscan` ARP scanner, as a
Verus-verified library.

- `src/` is the library. `scan_options` holds the options of one scan;
  `plugin` decides which arguments reach the backend, which backend
  executable runs, and how the `ipscan` command presents itself; `output`
  turns the backend's exit and output into a Nu value or a failure; `json`
  converts JSON parsed by `serde_json` into Nu values; `value` and `error`
  hold those values and failures; `text` holds the trimming, comparison and
  decimal rendering they rest on.
- `app/` is the `nu_plugin_ipscan` executable: it registers the command with
  Nushell, reads the environment and the file system, runs the backend
  process, and converts the library's values into `nu_protocol` values.
- `tests/` runs the library on concrete inputs.
