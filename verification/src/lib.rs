//! The core of a local music player: the track list with its shuffle order,
//! the player's state machine, and the rules that connect the control side
//! with the audio side. Everything here is plain data and pure decisions;
//! decoding, audio output and sockets are the caller's business.

pub mod atomic_control_status;
pub mod client;
pub mod controls;
pub mod dbus;
pub mod decoder;
pub mod errors;
pub mod event_bus;
pub mod file_url;
pub mod laws;
pub mod order;
pub mod output;
pub mod player;
pub mod player_model;
pub mod requests;
mod rng;
pub mod socket;
pub mod source_queue;
pub mod tags;
pub mod time;
pub mod track_cache;
pub mod track_list;
pub mod track_order;
pub mod types;
pub mod volume;
