# fps_paintball_wildwest

Game rules of a Wild West paintball first-person shooter, verified with Verus.

* `src/weapon.rs` – weapon kinds, inventory and the firing state machine
  (cocking, lever action, breaking open, reloading, dry fire), with its laws.
* `src/ballistics.rs` – the seeded pellet-spread stream, paintball fate, trail cap.
* `src/ai.rs` – bot state machine, walking goals, spawn roster.
* `src/player.rs` – input axes, movement mode, slide, jump and pose decisions.
* `src/hud.rs`, `src/text.rs` – HUD lines, decimal output, `u32` parsing, padding.
* `src/screenshot.rs` – command line and per-frame logic of the screenshot helper.
* `app/` – the game program on the Bevy engine: rendering, input, physics in
  seconds and metres (floating point), calling the library for every decision.
