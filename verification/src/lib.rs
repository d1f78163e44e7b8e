//! Verified core of the Whispering dictation tray app: platform tables,
//! settings resolution, transcript naming, tray menu layout and the
//! recording / transcription state machine.

pub mod audio;
pub mod menu;
pub mod paths;
pub mod permissions;
pub mod platform;
pub mod session;
pub mod settings;
pub mod sounds;
pub mod status;
pub mod text;
pub mod transcripts;
