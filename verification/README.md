# Tari Universe mining, verified

The mining settings of Tari Universe and its adapter for TARI.Miner, as a library whose behaviour
is stated in contracts and proved with Verus.

- `src/` is the library.
  - `config_mining`, `modes` and `device_settings` hold the mining settings, how they change and
    how they are migrated. `config_mining/model.rs` states them as mathematical values.
  - `tariminer` and `miner` pick a backend, read the devices that `nvidia-smi` lists and put
    together how TARI.Miner is started.
  - `speed` and `monitor` read the speed that TARI.Miner reports and judge its health.
  - `text` and `name_table` are the tools that the others use.
  - `platform` and `speed` hold what is believed of the standard library and of `regex`.
- `tests/` runs the library.
- `app/` is what surrounds it: files, processes, clocks, locks and events.

Public proof functions whose names start with `law_` state what holds of several operations
together.
