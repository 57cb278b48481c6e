//! Output gateway: the command layer between the sequencing engine and
//! the MIDI transport.
//!
//! The engine records what it wants played as [`OutCmd`] values; each one
//! composes into a fixed 3-byte MIDI channel message. The transport that
//! carries the bytes is outside this library: a caller drains the command
//! list, turns each command into bytes with [`note_on`], [`note_off`] or
//! [`OutCmd::to_bytes`], and writes them to the connection the command's
//! `port` selects. A command whose port does not resolve to a connection
//! is silently dropped there; that policy never reaches the engine.

use vstd::prelude::*;
use crate::midi_msg::MidiEvent;
use crate::midi_msg::parse_spec;

verus! {

/// Status byte of a note-on message on channel 0.
pub const NOTE_ON_STATUS: u8 = 0x90;

/// Status byte of a note-off message on channel 0.
pub const NOTE_OFF_STATUS: u8 = 0x80;

/// One outbound note command: note-on when `note_on` is set, else
/// note-off, on MIDI channel `channel`, addressed to the output
/// connection at index `port` of the caller's connection list.
#[derive(Debug, Copy, Clone, PartialEq, Eq, Structural)]
pub struct OutCmd {
    pub note_on: bool,
    pub port: usize,
    pub channel: u8,
    pub note: u8,
    pub velocity: u8,
}

/// The 3-byte wire form of a note message: status nibble or-ed with the
/// channel, then note number, then velocity.
pub open spec fn note_msg(on: bool, channel: u8, nn: u8, vel: u8) -> Seq<u8> {
    seq![(if on { NOTE_ON_STATUS } else { NOTE_OFF_STATUS }) | channel, nn, vel]
}

impl OutCmd {
    /// The wire form of this command.
    pub open spec fn bytes(self) -> Seq<u8> {
        note_msg(self.note_on, self.channel, self.note, self.velocity)
    }

    /// Composes the raw 3-byte MIDI message of this command.
    pub fn to_bytes(&self) -> (msg: Vec<u8>)
        ensures
            msg@ == self.bytes(),
    {
        let status: u8 = if self.note_on { NOTE_ON_STATUS } else { NOTE_OFF_STATUS };
        let mut msg: Vec<u8> = Vec::new();
        msg.push(status | self.channel);
        msg.push(self.note);
        msg.push(self.velocity);
        proof {
            assert(msg@ =~= self.bytes());
        }
        msg
    }
}

/// Composes the raw note-on message for the given channel, note and
/// velocity.
pub fn note_on(channel: u8, nn: u8, vel: u8) -> (msg: Vec<u8>)
    ensures
        msg@ == note_msg(true, channel, nn, vel),
{
    let cmd = OutCmd { note_on: true, port: 0, channel, note: nn, velocity: vel };
    cmd.to_bytes()
}

/// Composes the raw note-off message for the given channel, note and
/// velocity.
pub fn note_off(channel: u8, nn: u8, vel: u8) -> (msg: Vec<u8>)
    ensures
        msg@ == note_msg(false, channel, nn, vel),
{
    let cmd = OutCmd { note_on: false, port: 0, channel, note: nn, velocity: vel };
    cmd.to_bytes()
}

/// The gateway agrees with the protocol decoder: for a channel in range,
/// decoding the bytes of a command gives back exactly the note event the
/// command describes.
pub proof fn lemma_gateway_decodes(cmd: OutCmd)
    requires
        cmd.channel <= 15,
    ensures
        cmd.note_on ==> parse_spec(cmd.bytes()) == MidiEvent::NoteOn(cmd.channel, cmd.note, cmd.velocity),
        !cmd.note_on ==> parse_spec(cmd.bytes()) == MidiEvent::NoteOff(cmd.channel, cmd.note, cmd.velocity),
{
    let c = cmd.channel;
    assert(c <= 15 ==> (0x90u8 | c) & 0x0F == c && 0x90 <= (0x90u8 | c) && (0x90u8 | c) <= 0x9F)
        by (bit_vector);
    assert(c <= 15 ==> (0x80u8 | c) & 0x0F == c && 0x80 <= (0x80u8 | c) && (0x80u8 | c) <= 0x8F)
        by (bit_vector);
}

} // verus!
