# minui

The logic of a minimal launcher for retro handhelds and of its libretro
frontend, written in Verus: the functions in `src/` carry contracts that Verus
proves, but for the few that only hand a request on to the device.

- `src/common`: the shared layer — input edge detection and repeat,
  power management and sleep decisions, paths and names, audio
  resampling and queueing, the RGB565 frame buffer, and the `Platform`
  trait that each device implements.
- `src/clock`: the date/time editor — field editing, wrap-around
  checking, the text it shows and where it underlines the edited field.
- `src/minarch`: the in-game frontend — configuration files and option
  lists, button mappings and shortcuts, the main and option menus, save
  slots and discs, frame layout and cropping, the fast-forward limiter,
  rumble debouncing, HDMI detection, the environment-command table of a
  libretro core, and zip extraction (inflating through `flate2`).
- `tests/`: tests of the library on concrete values.
- `app/`: the program around the library — files, the core library
  loaded with `libloading`, the C callbacks, process-wide state and the
  frame loops. A device crate supplies the `Platform` implementation and
  the drawing.

Laws that span several functions are stated as public proof functions
named `lemma_*` next to the functions they relate.
