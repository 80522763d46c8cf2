# Stealthy Usage Monitor

A small native desktop widget that shows how much of each AI provider's quota is
used and when it resets, with the rules behind it verified by Verus.

The library under `src/` makes every decision; the program under `app/` owns the
windows, timers, threads and files. The two meet in plain values: the program
reports messages, poll outcomes and measured rectangles, and carries out the
effects and drawing operations it gets back.

| Modules | What they decide |
| --- | --- |
| `measure`, `text`, `color` | exact readings of binary floating-point numbers, texts, colour packing |
| `models`, `readout`, `calendar` | usage data, how it reads, civil dates and the weekly blocks |
| `appearance`, `settings` | themes, palettes, widget size; loading and migrating preferences |
| `geometry` | DPI scaling, widget size, taskbar and desktop placement |
| `state`, `effects`, `polling`, `updates`, `window`, `startup`, `timing` | the monitor as a state machine |
| `draw`, `led`, `gauges`, `widget`, `render` | what the widget draws |
| `menu`, `tray`, `studio`, `studio_view` | the context menu, tray icons and the Appearance Studio |

Contracts speak of models: states with character sequences for texts, drawings as
sequences of operations, floating-point numbers as exact multiples of their
smallest step. Properties that span functions are the `law_` proof functions.

Floating-point animation and colour blending stay in `app/`; the library keeps
blends symbolic and takes pixel counts as whole numbers. `app/adapters.rs` is
where usage services are linked in.
