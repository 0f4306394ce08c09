# forzalife

A Linux companion for Forza Horizon 6. It listens to the game's Data Out UDP
telemetry, keeps a per-car fuel, odometer and oil simulation, and draws a
transparent HUD inside gamescope. While a car has run out of fuel it grabs the
keyboard and the controller and pulse-limits the throttle (keyboard `W`, the
right trigger) in free roam, forwarding every other input unchanged.

## Layout

- `src/` is the verified library, with its contracts and proofs:
  - `telemetry`: decoding of the 324-byte Data Out packet, the interval between
    two samples, and the refuel sample tracker.
  - `menu` and `controls`: the overlay menu, its pages and rows, the odometer
    and fuel entry forms, the HUD mode and the navigation target, driven one
    key press at a time.
  - `keys`: the X11 key bindings of the menu controls and the held-key filter.
  - `input_proxy`: the throttle limits and the per-event decisions of the
    keyboard and controller proxies.
  - `malfunctions`: when the fuel-starvation restriction switches on and off.
  - `driving`, `vehicle`, `locations`, `text`: gear labels and readouts, engine
    and age profiles, world-map rows and names, field splitting and decimals.
- `app/` is the program: UDP and device I/O, the threads, the float-based life
  simulation, and the egui/wgpu rendering on a wlr-layer-shell surface.
- `tests/` runs the library on concrete values.

Assets (fonts, icons, `cardata.csv`, `world_map.csv`) are read at run time from
the directory named by `FORZALIFE_ASSETS`, else from `assets/` beside the
executable.
