//! Playlist and playback bookkeeping for a soundfont-comparing MIDI player.

pub mod conversions;
pub mod media;
pub mod midi_inspector;
pub mod paths;
pub mod player;
pub mod playlist;
pub mod preset_mapper;
pub mod smf;
pub mod text;
pub mod update_flags;
pub mod workspace;
