//! The player: owner of the fixed pool of sequences, one per MIDI note
//! number.
//!
//! It advances the shared clock, synchronizes sequence starts to a
//! common subdivision, and routes note-on/off triggers to the sequence
//! the note selects. Every outbound note is recorded as an [`OutCmd`] in
//! the command list handed to each call; the caller forwards those to
//! the output connection each command's `port` selects, dropping the
//! ones whose port does not resolve. The player's well-formedness
//! invariant carries the two pool-wide guarantees: every sequence keeps
//! its playback position inside its active region, and no sequence
//! records a sounding note while its playback is off.

use vstd::prelude::*;
use crate::midi_msg::MidiEvent;
use crate::midi_msg::MidiMessage;
use crate::out_port::OutCmd;
use crate::sequence::PlayState;
use crate::sequence::Sequence;

verus! {

/// What one decoded MIDI message asks of the player: trigger the
/// sequence a note selects, release it, or nothing.
#[derive(Debug, Copy, Clone, PartialEq, Eq, Structural)]
pub enum PlayerAction {
    Trigger(u8),
    Release(u8),
    Nothing,
}

/// The action a decoded message classifies to. A note-on with velocity
/// zero is semantically a note-off on the wire, and every consumer must
/// treat it so: it classifies as a release, never as a trigger.
pub open spec fn classify_spec(m: MidiEvent) -> PlayerAction {
    match m {
        MidiEvent::NoteOn(c, nn, vel) => if vel == 0 {
            PlayerAction::Release(nn)
        } else {
            PlayerAction::Trigger(nn)
        },
        MidiEvent::NoteOff(c, nn, vel) => PlayerAction::Release(nn),
        _ => PlayerAction::Nothing,
    }
}

/// Classifies one decoded message into the player action it asks for.
pub fn classify(m: &MidiMessage) -> (a: PlayerAction)
    ensures
        a == classify_spec(m@),
{
    match m {
        MidiMessage::NoteOn(_c, nn, 0) => PlayerAction::Release(*nn),
        MidiMessage::NoteOn(_c, nn, _vel) => PlayerAction::Trigger(*nn),
        MidiMessage::NoteOff(_c, nn, _vel) => PlayerAction::Release(*nn),
        _ => PlayerAction::Nothing,
    }
}

/// Number of sequences in the pool: one per MIDI note number.
pub const POOL_SIZE: usize = 128;

/// The sequence pool and the global clock bookkeeping that aligns new
/// sequence starts.
pub struct Player {
    /// Global ticks counted since the last sync boundary.
    pub tick_accum: usize,
    /// Global subdivision: every this many ticks is a sync boundary.
    pub ticks_per_step: usize,
    /// The pool, indexed by the MIDI note number that triggers each
    /// sequence.
    pub midi_map: Vec<Sequence>,
}

/// A sequence's state after one global tick: a playing sequence counts
/// the pulse, a starting one begins playing at a sync boundary, a blank
/// or off one is untouched.
pub open spec fn seq_ticked(s: Sequence, hit: bool) -> Sequence {
    if s.length == 0 {
        s
    } else if s.state is Playing {
        s.tick_post()
    } else if s.state is Starting && hit {
        Sequence { state: PlayState::Playing, ..s.start_post() }
    } else {
        s
    }
}

/// The commands a sequence emits during one global tick.
pub open spec fn seq_ticked_cmds(s: Sequence, hit: bool) -> Seq<OutCmd> {
    if s.length == 0 {
        seq![]
    } else if s.state is Playing {
        s.tick_cmds()
    } else if s.state is Starting && hit {
        s.start_cmds()
    } else {
        seq![]
    }
}

/// The commands the first `k` sequences of the pool emit during one
/// global tick, in pool order.
pub open spec fn pool_ticked_cmds(m: Seq<Sequence>, hit: bool, k: int) -> Seq<OutCmd>
    decreases k,
{
    if k <= 0 {
        seq![]
    } else {
        pool_ticked_cmds(m, hit, k - 1) + seq_ticked_cmds(m[k - 1], hit)
    }
}

/// A sequence's state after a note-on trigger: in hold mode the trigger
/// toggles between off and starting, stopping at once when leaving any
/// running state; otherwise it only arms an off sequence.
pub open spec fn note_on_post(s: Sequence) -> Sequence {
    if s.state is Off {
        Sequence { state: PlayState::Starting, ..s }
    } else if s.hold {
        Sequence { state: PlayState::Off, ..s.stop_post() }
    } else {
        s
    }
}

/// The commands a note-on trigger emits: only a hold-mode sequence
/// knocked out of a running state owes a note-off.
pub open spec fn note_on_cmds(s: Sequence) -> Seq<OutCmd> {
    if s.hold && !(s.state is Off) {
        s.stop_cmds()
    } else {
        seq![]
    }
}

/// A sequence's state after a note-off trigger: a hold-mode sequence
/// ignores the release; any other is stopped and turned off.
pub open spec fn note_off_post(s: Sequence) -> Sequence {
    if s.hold {
        s
    } else {
        Sequence { state: PlayState::Off, ..s.stop_post() }
    }
}

/// The commands a note-off trigger emits.
pub open spec fn note_off_cmds(s: Sequence) -> Seq<OutCmd> {
    if s.hold {
        seq![]
    } else {
        s.stop_cmds()
    }
}

/// The two pool-wide invariants survive every transition the player
/// performs on a sequence: the playback position stays inside the
/// active region with the length inside capacity, and a sounding note
/// is only ever recorded while playback is not off.
pub proof fn lemma_transitions_keep_invariants(s: Sequence, hit: bool)
    requires
        s.wf(),
        s.pos_in_range(),
        s.sounding_ok(),
    ensures
        seq_ticked(s, hit).wf(),
        seq_ticked(s, hit).pos_in_range(),
        seq_ticked(s, hit).sounding_ok(),
        note_on_post(s).wf(),
        note_on_post(s).pos_in_range(),
        note_on_post(s).sounding_ok(),
        note_off_post(s).wf(),
        note_off_post(s).pos_in_range(),
        note_off_post(s).sounding_ok(),
{
}

impl Player {
    /// Pool-wide well-formedness: a full pool, the global clock inside
    /// its subdivision, and every sequence well-formed with its position
    /// in range and its sounding note only while running.
    pub open spec fn wf(self) -> bool {
        &&& self.midi_map@.len() == POOL_SIZE
        &&& self.tick_accum < self.ticks_per_step
        &&& forall|j: int| 0 <= j < POOL_SIZE ==> (#[trigger] self.midi_map@[j]).wf()
        &&& forall|j: int| 0 <= j < POOL_SIZE ==> (#[trigger] self.midi_map@[j]).pos_in_range()
        &&& forall|j: int| 0 <= j < POOL_SIZE ==> (#[trigger] self.midi_map@[j]).sounding_ok()
    }

    /// A fresh player: a pool of blank sequences and a sync subdivision
    /// of six ticks.
    pub fn blank() -> (p: Player)
        ensures
            p.wf(),
            p.tick_accum == 0,
            p.ticks_per_step == 6,
            forall|j: int| 0 <= j < POOL_SIZE ==> (#[trigger] p.midi_map@[j]).fresh(),
    {
        let mut pool: Vec<Sequence> = Vec::new();
        let mut i: usize = 0;
        while i < POOL_SIZE
            invariant
                i <= POOL_SIZE,
                pool@.len() == i,
                forall|j: int| 0 <= j < i ==> (#[trigger] pool@[j]).fresh(),
            decreases POOL_SIZE - i,
        {
            pool.push(Sequence::blank());
            i = i + 1;
        }
        Player { tick_accum: 0, ticks_per_step: 6, midi_map: pool }
    }

    /// One global clock pulse. Reports whether this tick is a sync
    /// boundary, advances every playing sequence by one pulse, and
    /// starts every armed sequence when the boundary is hit.
    #[verifier::loop_isolation(false)]
    pub fn tick(&mut self, out: &mut Vec<OutCmd>) -> (hit: bool)
        requires
            old(self).wf(),
        ensures
            final(self).wf(),
            hit == (old(self).tick_accum + 1 == old(self).ticks_per_step),
            final(self).ticks_per_step == old(self).ticks_per_step,
            final(self).tick_accum == if hit { 0int } else { old(self).tick_accum + 1 },
            final(self).midi_map@.len() == POOL_SIZE,
            forall|j: int| 0 <= j < POOL_SIZE ==> final(self).midi_map@[j] == seq_ticked(
                old(self).midi_map@[j],
                hit,
            ),
            final(out)@ == old(out)@ + pool_ticked_cmds(old(self).midi_map@, hit, POOL_SIZE as int),
    {
        self.tick_accum = self.tick_accum + 1;

        let hit: bool = if self.tick_accum == self.ticks_per_step {
            self.tick_accum = 0;
            true
        } else {
            false
        };

        let mut i: usize = 0;
        while i < POOL_SIZE
            invariant
                i <= POOL_SIZE,
                self.midi_map@.len() == POOL_SIZE,
                self.tick_accum == if hit { 0int } else { old(self).tick_accum + 1 },
                self.ticks_per_step == old(self).ticks_per_step,
                forall|j: int| i <= j < POOL_SIZE ==> self.midi_map@[j] == old(self).midi_map@[j],
                forall|j: int| 0 <= j < i ==> self.midi_map@[j] == seq_ticked(
                    old(self).midi_map@[j],
                    hit,
                ),
                out@ == old(out)@ + pool_ticked_cmds(old(self).midi_map@, hit, i as int),
            decreases POOL_SIZE - i,
        {
            let ghost prev_out = out@;
            let s = &mut self.midi_map[i];
            if s.length > 0 {
                match s.state {
                    PlayState::Playing => {
                        s.tick(out);
                    },
                    PlayState::Starting => {
                        if hit {
                            s.start(out);
                            s.state = PlayState::Playing;
                        }
                    },
                    PlayState::Off => {},
                }
            }
            proof {
                assert(self.midi_map@[i as int] == seq_ticked(old(self).midi_map@[i as int], hit));
                assert(out@ =~= prev_out + seq_ticked_cmds(old(self).midi_map@[i as int], hit));
                assert(pool_ticked_cmds(old(self).midi_map@, hit, i + 1) == pool_ticked_cmds(
                    old(self).midi_map@,
                    hit,
                    i as int,
                ) + seq_ticked_cmds(old(self).midi_map@[i as int], hit));
                assert(out@ =~= old(out)@ + pool_ticked_cmds(old(self).midi_map@, hit, i + 1));
            }
            i = i + 1;
        }
        hit
    }

    /// Routes a note-on trigger to the sequence the note selects: arms
    /// an off sequence; in hold mode, knocks a running one back off and
    /// stops it at once.
    pub fn note_on(&mut self, nn: usize, out: &mut Vec<OutCmd>)
        requires
            old(self).wf(),
            nn < POOL_SIZE,
        ensures
            final(self).wf(),
            final(self).tick_accum == old(self).tick_accum,
            final(self).ticks_per_step == old(self).ticks_per_step,
            final(self).midi_map@ == old(self).midi_map@.update(
                nn as int,
                note_on_post(old(self).midi_map@[nn as int]),
            ),
            final(out)@ == old(out)@ + note_on_cmds(old(self).midi_map@[nn as int]),
    {
        let s = &mut self.midi_map[nn];
        if s.hold {
            match s.state {
                PlayState::Off => {
                    s.state = PlayState::Starting;
                    proof {
                        assert(out@ =~= old(out)@ + note_on_cmds(old(self).midi_map@[nn as int]));
                    }
                },
                _ => {
                    s.state = PlayState::Off;
                    s.stop(out);
                },
            }
        } else {
            match s.state {
                PlayState::Off => {
                    s.state = PlayState::Starting;
                },
                _ => {},
            }
            proof {
                assert(out@ =~= old(out)@ + note_on_cmds(old(self).midi_map@[nn as int]));
            }
        }
        proof {
            assert(self.midi_map@[nn as int] =~= note_on_post(old(self).midi_map@[nn as int]));
            assert(self.midi_map@ =~= old(self).midi_map@.update(
                nn as int,
                note_on_post(old(self).midi_map@[nn as int]),
            ));
        }
    }

    /// Routes a note-off trigger to the sequence the note selects: a
    /// hold-mode sequence ignores the release, any other is turned off
    /// and stopped.
    pub fn note_off(&mut self, nn: usize, out: &mut Vec<OutCmd>)
        requires
            old(self).wf(),
            nn < POOL_SIZE,
        ensures
            final(self).wf(),
            final(self).tick_accum == old(self).tick_accum,
            final(self).ticks_per_step == old(self).ticks_per_step,
            final(self).midi_map@ == old(self).midi_map@.update(
                nn as int,
                note_off_post(old(self).midi_map@[nn as int]),
            ),
            final(out)@ == old(out)@ + note_off_cmds(old(self).midi_map@[nn as int]),
    {
        let s = &mut self.midi_map[nn];
        if !s.hold {
            s.state = PlayState::Off;
            s.stop(out);
        } else {
            proof {
                assert(out@ =~= old(out)@ + note_off_cmds(old(self).midi_map@[nn as int]));
            }
        }
        proof {
            assert(self.midi_map@[nn as int] =~= note_off_post(old(self).midi_map@[nn as int]));
            assert(self.midi_map@ =~= old(self).midi_map@.update(
                nn as int,
                note_off_post(old(self).midi_map@[nn as int]),
            ));
        }
    }
}

} // verus!
