# leopardwm

The placement engine and the tray model of a tiling window manager for Windows,
written and proved in Verus.

- `src/` decides. A placement pass (`apply`, with its model in `pass`), parking
  a window (`park`) and nudging stubborn windows (`nudge`) are state machines:
  `pending` says what to ask of the window system, `answer` takes the outcome.
  The rest are functions on plain values: who keeps a window hidden (`cloak`,
  `sync`), frame insets and their caches (`geometry`, `insets`), minimum sizes
  (`sizing`), and what the tray shows (`icon`, `default_icon`, `tooltip`,
  `tray_menu`, `tray_manager`).
- Laws, the proof functions whose names begin with `law_`, state what holds of
  the engine as a whole. Those of a pass are in `pass_laws` and `accounts`,
  those of minimum-size detection in `sizing_laws`; the others stand beside what they
  speak of.
- `tests/` runs the library, the state machines against a simulated desktop.
- `app/` performs the requests on a live desktop and shows the tray icon.

Trusted without proof are the decoding of PNG files by the `png` crate
(`default_icon`) and of UTF-16 by the standard library (`class_name`).
