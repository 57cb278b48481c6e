//! A hardware MIDI step sequencer core: a pool of note-indexed step
//! sequences advanced by a shared clock, a decoder for the MIDI wire
//! protocol, and a gateway that turns note commands into outbound bytes.

pub mod midi_msg;
pub mod out_port;
pub mod sequence;
pub mod sequence_player;
pub mod config_file;
