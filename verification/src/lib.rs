//! A terminal music player: the playback engine and the state behind the
//! screens that drive it.
pub mod cli;
pub mod playback;
pub mod playback_loop;
pub mod queue;
pub mod settings;
pub mod ui;
