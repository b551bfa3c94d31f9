//! Match clock, score and display rules of an amateur football scoreboard.
//!
//! The library holds the logic of the scoreboard: the wall-clock based match
//! timer with its pause/resume bookkeeping and 45/90 minute auto pause, the
//! score rules, the phase and status shown on screen, the clock text, the
//! jersey palette, and the selection rules of the big-screen layout editor.
//! Windows, painting, files and JSON live in the application around it.

pub mod state;
pub mod laws;
pub mod clock;
pub mod display;
pub mod jersey;
pub mod layout;
pub mod console;
pub mod input;
pub mod assets;
pub mod images;
