//! Decision logic of a VR media demo: which processing stages each video
//! source needs, how a player reacts to pipeline events, what the control
//! panel asks for, and how log text is folded into a log window.

pub mod log_lines;
pub mod media;
pub mod panel;
pub mod playback;
pub mod video1;
pub mod video2;
