# football_scoreboard

A scoreboard for amateur football matches: a console window controls the
match, a second window shows it on a projector or LED screen.

The rules of the scoreboard form a Verus-verified library under `src/`:

- `state` — the match state and its wall-clock timer: kick-off, pause,
  resume, setting the match time, reset, the 45/90 minute automatic pause,
  the score rules, the main control button, settings and assets.
- `laws` — properties of the timer proved over the functions' models
  (pausing freezes the clock, pause + resume loses no time, the automatic
  pause pins the clock at 45:00 / 90:00 and fires once, full time is final,
  and so on).
- `clock` — the current Unix time, and the `MM:SS` clock face.
- `display` — the phase, status and clock colour shown on both screens.
- `input` — reading the time-control and score fields.
- `jersey` — the jersey palette and the nearest colour's name.
- `layout` — the movable big-screen elements and their selection rules.
- `console` — the hidden debug controls, unlocked by five clicks, and the
  two-press confirmation of a reset.
- `assets` — names and types of uploaded images.

`app/` is the egui/eframe program around it: windows, painting, fonts,
images, file dialogs, and the JSON files under `data/`.
