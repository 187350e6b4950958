//! Control logic of an infrared-remote digit annunciator: a bounded volume
//! dial with mute memory, a table of ten spoken-digit clips, and the step
//! function that turns a button press into a command for the audio player.

pub mod clips;
pub mod control;
pub mod dial;
pub mod laws;
pub mod volume;
