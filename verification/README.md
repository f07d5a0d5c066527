# rm_simulator

The rules of a RoboMaster match simulator, written in Verus and proved.

`src/` is the library. It holds no floating point, no clock, no socket and no
engine: real numbers are binary64 patterns that are compared and carried,
times are nanoseconds on the field's own clock, and whatever another engine
has to do is asked for step by step.

- `rune`, `outpost`, `base`, `projectile`, `target`, `zones`: the structures
  on the field and what a strike does to them.
- `game`: the boundary to the gameplay engine.
- `referee`: the match itself. `model` says what every input means, `machine`,
  `command` and `desk` carry it out, `laws` and `stamps` hold what follows.
- `field`: layout, detection, scoring, stepping and whole steps (`run`).
- `simulation`: host time, shots and commands.
- `input`, `view`: pilot input and remote poses.
- `wire`: input batches, fragments, baselines, messages and the two ends of a
  connection. `compress` is the only module that rests on an outside crate:
  `miniz_oxide` deflates and inflates, and its doc comments say what is
  believed of it.

`tests/` runs the library on concrete values, with small stand-ins for the
engines. `app/` is ordinary Rust around it: geometry and motion in floating
point, the loops that drive an engine and a physics world, and the JSON forms.
