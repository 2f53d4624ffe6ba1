# skoffroad

The gameplay rules of the S&K Offroad sandbox as a Verus-verified library,
with the input/output and floating-point edges in a thin companion crate.

## Layout

- `src/` — the verified library:
  - `xp.rs` — score totals, event awards, thousands formatting, XP popups
  - `career.rs`, `daily.rs`, `challenges.rs` — the objective ladder, the
    daily challenge and the timed challenges
  - `drift.rs`, `demolition.rs` — the drift meter and the crate-smashing mode
  - `modes.rs`, `overlays.rs` — assists, differential locks, drive and camera
    modes, accessibility menu, bloom, changelog and credits panels
  - `recovery.rs`, `codec.rs` — the buddy-recovery protocol and its bincode
    wire format
  - `logo.rs` — the procedural sponsor-logo rasteriser
  - `json.rs`, `manifest.rs`, `config.rs`, `ads.rs`, `glb.rs` — reading the
    asset manifest, the settings file, ad results and the command line
  - `world.rs`, `rng.rs` — canyon scenery state, race-path laps, flame-puff
    and decal caps, compass labels, deterministic generators
  - `text.rs` — string helpers over std
- `tests/` — tests of the library on concrete values.
- `app/` — files, clock, argv, serde decoding, and the `f32` conversions.
