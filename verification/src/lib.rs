//! Hardware-independent logic of a voice chat companion for children.
//!
//! The device layer performs the I/O and hands the results to these
//! functions, which decide what to show, say and store; where the logic reads
//! or writes the SD card, it does so through the traits in `ports`.

pub mod state;
pub mod screen;
pub mod turn_detector;
pub mod greeting;
pub mod face;
pub mod layout;
pub mod gesture;
pub mod text;
pub mod module_status;
pub mod config;
pub mod settings_layout;
pub mod audio;
pub mod ports;
pub mod logbook;
pub mod json;
pub mod guardrail;
pub mod realtime;
pub mod search;
pub mod memory;
pub mod render;
pub mod runtime;
pub mod main_loop;
pub mod network;
