//! Renarrator plays a sound when a word is typed.
//!
//! This library makes its decisions: which sound of a trigger is chosen, what is
//! played, stopped and opened, which configuration is accepted and how it is saved,
//! and what is unpacked of a driver pack. Devices, files, windows and threads are
//! left to the application around it.
pub mod audio_engine;
pub mod config;
pub mod desktop;
pub mod devices;
pub mod draws;
pub mod hand_edits;
pub mod mic_buffer;
pub mod paths;
pub mod storage;
pub mod text;
pub mod trigger_engine;
pub mod validation;
pub mod virtual_mic_setup;
pub mod volume;
pub mod weighted;
pub mod wide;
