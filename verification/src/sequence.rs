//! A single step sequence: step storage, edit cursor, playback position,
//! tick divisor and note-on bookkeeping.
//!
//! Playback methods record the notes they emit as [`OutCmd`] values in a
//! command list handed in by the caller; the caller forwards those to the
//! output gateway. The spec functions `tick_post` / `tick_cmds`,
//! `start_post` / `start_cmds` and `stop_post` / `stop_cmds` state each
//! transition in full, so a caller knows the exact new state and the
//! exact commands appended.
//!
//! A step marked `hold` that carries a note retriggers it and releases it
//! again on the same tick (a zero-length blip), and a note sounding
//! before such a step keeps sounding while its bookkeeping is dropped.
//! That behaviour is a deliberate choice of this engine, stated exactly
//! in `arrive_cmds` and `arrive_note` rather than reworked into a
//! conventional tie.

use vstd::prelude::*;
use crate::out_port::OutCmd;

verus! {

/// Playback state of one sequence. `Starting` defers the first step to
/// the next synchronized clock boundary so that sequences triggered in
/// the same instant begin in lock-step.
#[derive(Debug, Copy, Clone, PartialEq, Eq, Structural)]
pub enum PlayState {
    Off,
    Starting,
    Playing,
}

/// What a step does when reached: silence, or note-on with a velocity.
#[derive(Debug, Copy, Clone, PartialEq, Eq, Structural)]
pub enum Trigger {
    Off,
    On(u8, u8),
}

/// One slot in a sequence's pattern.
#[derive(Debug, Copy, Clone, PartialEq, Eq, Structural)]
pub struct Step {
    pub trig: Trigger,
    pub hold: bool,
}

/// Fixed capacity of every sequence's step storage.
pub const SEQ_MAX: usize = 64;

/// Upper bound of a sequence's clock divisor.
pub const TICKS_PER_STEP_MAX: usize = 192;

/// One step sequence with its playback and edit state.
#[verifier::ext_equal]
pub struct Sequence {
    /// The note currently held on, kept so its matching note-off can be
    /// emitted later; at most one at a time.
    pub note_on: Option<u8>,
    /// Step storage; always exactly `SEQ_MAX` entries.
    pub steps: Vec<Step>,
    /// Active step count; `0` means the sequence is blank.
    pub length: usize,
    /// Clock divisor: how many ticks make one step.
    pub ticks_per_step: usize,
    /// Ticks counted since the last step advance.
    pub tick_accum: usize,
    /// Current playback index.
    pub position: usize,
    /// MIDI channel of every note this sequence emits.
    pub channel: u8,
    /// Playback state.
    pub state: PlayState,
    /// Latch behaviour: a trigger note toggles playback instead of
    /// gating it.
    pub hold: bool,
    /// Index into the owner's output-connection list.
    pub port: usize,
    /// Index used by the editing UI.
    pub edit_step: usize,
}

impl Sequence {
    /// Structural well-formedness: full step storage and every bounded
    /// field inside its range.
    pub open spec fn wf(self) -> bool {
        &&& self.steps@.len() == SEQ_MAX
        &&& self.length <= SEQ_MAX
        &&& self.edit_step < SEQ_MAX
        &&& self.position < SEQ_MAX
        &&& 1 <= self.ticks_per_step <= TICKS_PER_STEP_MAX
        &&& self.tick_accum <= TICKS_PER_STEP_MAX
        &&& self.channel <= 15
    }

    /// The playback position is inside the active region whenever the
    /// sequence is not blank.
    pub open spec fn pos_in_range(self) -> bool {
        self.length > 0 ==> self.position < self.length
    }

    /// A note is recorded as sounding only while playback is not off.
    pub open spec fn sounding_ok(self) -> bool {
        self.note_on is Some ==> !(self.state is Off)
    }

    /// The note-on command this sequence emits for a note and velocity.
    pub open spec fn on_cmd(self, nn: u8, vel: u8) -> OutCmd {
        OutCmd { note_on: true, port: self.port, channel: self.channel, note: nn, velocity: vel }
    }

    /// The note-off command this sequence emits for a note.
    pub open spec fn off_cmd(self, nn: u8) -> OutCmd {
        OutCmd { note_on: false, port: self.port, channel: self.channel, note: nn, velocity: 127 }
    }

    /// The note-off owed to the currently sounding note, if any.
    pub open spec fn pending_off_cmds(self) -> Seq<OutCmd> {
        match self.note_on {
            Some(nn) => seq![self.off_cmd(nn)],
            None => seq![],
        }
    }

    /// Commands emitted on arriving at step `s`: a plain step first
    /// releases the sounding note and then triggers its own; a hold step
    /// with a note triggers it and releases it again at once.
    pub open spec fn arrive_cmds(self, s: Step) -> Seq<OutCmd> {
        if s.hold {
            match s.trig {
                Trigger::On(nn, vel) => seq![self.on_cmd(nn, vel), self.off_cmd(nn)],
                Trigger::Off => seq![],
            }
        } else {
            self.pending_off_cmds() + (match s.trig {
                Trigger::On(nn, vel) => seq![self.on_cmd(nn, vel)],
                Trigger::Off => seq![],
            })
        }
    }

    /// The note recorded as sounding after arriving at step `s`.
    pub open spec fn arrive_note(self, s: Step) -> Option<u8> {
        if s.hold {
            match s.trig {
                Trigger::On(nn, vel) => None,
                Trigger::Off => self.note_on,
            }
        } else {
            match s.trig {
                Trigger::On(nn, vel) => Some(nn),
                Trigger::Off => None,
            }
        }
    }

    /// Whether the next tick rolls the accumulator over and advances the
    /// position.
    pub open spec fn advances(self) -> bool {
        self.tick_accum + 1 >= self.ticks_per_step
    }

    /// The playback index after an advance.
    pub open spec fn next_position(self) -> int
        recommends
            self.length > 0,
    {
        (self.position + 1) % (self.length as int)
    }

    /// The sequence state after one call of [`Sequence::tick`].
    pub open spec fn tick_post(self) -> Sequence
        recommends
            self.length > 0,
            self.steps@.len() == SEQ_MAX,
    {
        if !self.advances() {
            Sequence { tick_accum: (self.tick_accum + 1) as usize, ..self }
        } else {
            let s = self.steps@[self.next_position()];
            Sequence {
                tick_accum: 0,
                position: self.next_position() as usize,
                note_on: self.arrive_note(s),
                ..self
            }
        }
    }

    /// The commands one call of [`Sequence::tick`] appends.
    pub open spec fn tick_cmds(self) -> Seq<OutCmd>
        recommends
            self.length > 0,
            self.steps@.len() == SEQ_MAX,
    {
        if !self.advances() {
            seq![]
        } else {
            self.arrive_cmds(self.steps@[self.next_position()])
        }
    }

    /// The sequence state after one call of [`Sequence::start`].
    pub open spec fn start_post(self) -> Sequence
        recommends
            self.steps@.len() == SEQ_MAX,
    {
        Sequence {
            position: 0,
            tick_accum: 0,
            note_on: (match self.steps@[0].trig {
                Trigger::On(nn, vel) => Some(nn),
                Trigger::Off => self.note_on,
            }),
            ..self
        }
    }

    /// The commands one call of [`Sequence::start`] appends.
    pub open spec fn start_cmds(self) -> Seq<OutCmd>
        recommends
            self.steps@.len() == SEQ_MAX,
    {
        match self.steps@[0].trig {
            Trigger::On(nn, vel) => seq![self.on_cmd(nn, vel)],
            Trigger::Off => seq![],
        }
    }

    /// The sequence state after one call of [`Sequence::stop`].
    pub open spec fn stop_post(self) -> Sequence {
        Sequence { position: 0, tick_accum: 0, note_on: None, ..self }
    }

    /// The commands one call of [`Sequence::stop`] appends.
    pub open spec fn stop_cmds(self) -> Seq<OutCmd> {
        self.pending_off_cmds()
    }

    /// Writes a note trigger with full velocity into the given step slot,
    /// clamped to the last slot if out of range.
    pub fn step_on(&mut self, step: usize, nn: u8)
        requires
            old(self).wf(),
        ensures
            final(self).steps@ == old(self).steps@.update(
                if step < SEQ_MAX { step as int } else { SEQ_MAX - 1 },
                (Step {
                    trig: Trigger::On(nn, 127),
                    hold: old(self).steps@[if step < SEQ_MAX { step as int } else { SEQ_MAX - 1 }].hold,
                }),
            ),
            agrees_except_steps(*old(self), *final(self)),
            final(self).wf(),
    {
        let idx = if step < SEQ_MAX { step } else { SEQ_MAX - 1 };
        let st = &mut self.steps[idx];
        st.trig = Trigger::On(nn, 127);
    }

    /// Clears the trigger of the given step slot, clamped to the last
    /// slot if out of range.
    pub fn step_off(&mut self, step: usize)
        requires
            old(self).wf(),
        ensures
            final(self).steps@ == old(self).steps@.update(
                if step < SEQ_MAX { step as int } else { SEQ_MAX - 1 },
                (Step {
                    trig: Trigger::Off,
                    hold: old(self).steps@[if step < SEQ_MAX { step as int } else { SEQ_MAX - 1 }].hold,
                }),
            ),
            agrees_except_steps(*old(self), *final(self)),
            final(self).wf(),
    {
        let idx = if step < SEQ_MAX { step } else { SEQ_MAX - 1 };
        let st = &mut self.steps[idx];
        st.trig = Trigger::Off;
    }

    /// A sequence exactly as [`Sequence::blank`] makes it: well-formed,
    /// unconfigured, silent and at rest.
    pub open spec fn fresh(self) -> bool {
        &&& self.wf()
        &&& self.pos_in_range()
        &&& self.sounding_ok()
        &&& self.length == 0
        &&& self.ticks_per_step == 6
        &&& self.tick_accum == 0
        &&& self.position == 0
        &&& self.note_on is None
        &&& self.state is Off
        &&& !self.hold
        &&& self.port == 0
        &&& self.channel == 0
        &&& self.edit_step == 0
        &&& forall|j: int| 0 <= j < SEQ_MAX ==> self.steps@[j] == (Step {
            trig: Trigger::Off,
            hold: false,
        })
    }

    /// A fresh, unconfigured sequence: no steps active, divisor 6,
    /// everything else at rest.
    pub fn blank() -> (s: Sequence)
        ensures
            s.fresh(),
            s.wf(),
            s.pos_in_range(),
            s.sounding_ok(),
            s.length == 0,
            s.ticks_per_step == 6,
            s.tick_accum == 0,
            s.position == 0,
            s.note_on is None,
            s.state is Off,
            !s.hold,
            s.port == 0,
            s.channel == 0,
            s.edit_step == 0,
            s.steps@.len() == SEQ_MAX,
            forall|j: int| 0 <= j < SEQ_MAX ==> s.steps@[j] == (Step { trig: Trigger::Off, hold: false }),
    {
        let mut steps: Vec<Step> = Vec::new();
        let mut i: usize = 0;
        while i < SEQ_MAX
            invariant
                i <= SEQ_MAX,
                steps@.len() == i,
                forall|j: int| 0 <= j < i ==> steps@[j] == (Step { trig: Trigger::Off, hold: false }),
            decreases SEQ_MAX - i,
        {
            steps.push(Step { trig: Trigger::Off, hold: false });
            i = i + 1;
        }
        Sequence {
            steps,
            length: 0,
            ticks_per_step: 6,
            tick_accum: 0,
            position: 0,
            note_on: None,
            state: PlayState::Off,
            hold: false,
            port: 0,
            channel: 0,
            edit_step: 0,
        }
    }

    /// A sequence with no active steps is blank: it holds no pattern and
    /// the player skips it.
    pub fn is_blank(&self) -> (b: bool)
        ensures
            b == (self.length == 0),
    {
        self.length == 0
    }

    /// Emits the note-off owed to the sounding note, if any, and clears
    /// the bookkeeping.
    fn turn_off_playing_note(&mut self, out: &mut Vec<OutCmd>)
        ensures
            *final(self) == (Sequence { note_on: None, ..*old(self) }),
            final(out)@ == old(out)@ + old(self).pending_off_cmds(),
    {
        match self.note_on {
            Some(nn) => {
                out.push(OutCmd {
                    note_on: false,
                    port: self.port,
                    channel: self.channel,
                    note: nn,
                    velocity: 127,
                });
                self.note_on = None;
                proof {
                    assert(*self =~= (Sequence { note_on: None, ..*old(self) }));
                    assert(out@ =~= old(out)@ + old(self).pending_off_cmds());
                }
            },
            None => {
                proof {
                    assert(*self =~= (Sequence { note_on: None, ..*old(self) }));
                    assert(out@ =~= old(out)@ + old(self).pending_off_cmds());
                }
            },
        }
    }

    /// Emits the note of the step under the playback position, if it has
    /// one, records it as sounding, and reports whether it did.
    fn note_trigger(&mut self, out: &mut Vec<OutCmd>) -> (hit: bool)
        requires
            old(self).position < old(self).steps@.len(),
        ensures
            hit == (old(self).steps@[old(self).position as int].trig is On),
            hit ==> *final(self) == (Sequence {
                note_on: Some(old(self).steps@[old(self).position as int].trig->0),
                ..*old(self)
            }),
            !hit ==> *final(self) == *old(self),
            final(out)@ == old(out)@ + (match old(self).steps@[old(self).position as int].trig {
                Trigger::On(nn, vel) => seq![old(self).on_cmd(nn, vel)],
                Trigger::Off => seq![],
            }),
    {
        let st = self.steps[self.position];
        match st.trig {
            Trigger::On(nn, vel) => {
                out.push(OutCmd {
                    note_on: true,
                    port: self.port,
                    channel: self.channel,
                    note: nn,
                    velocity: vel,
                });
                self.note_on = Some(nn);
                proof {
                    assert(*self =~= (Sequence {
                        note_on: Some(old(self).steps@[old(self).position as int].trig->0),
                        ..*old(self)
                    }));
                    assert(out@ =~= old(out)@ + seq![old(self).on_cmd(nn, vel)]);
                }
                true
            },
            Trigger::Off => {
                proof {
                    assert(out@ =~= old(out)@ + Seq::<OutCmd>::empty());
                }
                false
            },
        }
    }

    /// One clock pulse while playing: counts the pulse against the
    /// divisor and, when it rolls over, advances the position by one
    /// modulo the length and plays the step arrived at.
    pub fn tick(&mut self, out: &mut Vec<OutCmd>)
        requires
            old(self).wf(),
            old(self).pos_in_range(),
            old(self).length > 0,
            old(self).state is Playing,
        ensures
            *final(self) == old(self).tick_post(),
            final(out)@ == old(out)@ + old(self).tick_cmds(),
            final(self).wf(),
            final(self).pos_in_range(),
            final(self).sounding_ok(),
    {
        self.tick_accum = self.tick_accum + 1;

        if self.tick_accum < self.ticks_per_step {
            proof {
                assert(*self =~= old(self).tick_post());
                assert(out@ =~= old(out)@ + old(self).tick_cmds());
            }
            return;
        }

        self.position = (self.position + 1) % self.length;
        self.tick_accum = 0;

        let hold = self.steps[self.position].hold;

        if hold {
            if self.note_trigger(out) {
                self.turn_off_playing_note(out);
            }
        } else {
            self.turn_off_playing_note(out);
            self.note_trigger(out);
        }
        proof {
            assert(*self =~= old(self).tick_post());
            assert(out@ =~= old(out)@ + old(self).tick_cmds());
        }
    }

    /// Rewinds to step zero and, if that step carries a note, plays it at
    /// once and records it as sounding.
    pub fn start(&mut self, out: &mut Vec<OutCmd>)
        requires
            old(self).wf(),
            !(old(self).state is Off),
        ensures
            *final(self) == old(self).start_post(),
            final(out)@ == old(out)@ + old(self).start_cmds(),
            final(self).wf(),
            final(self).pos_in_range(),
            final(self).sounding_ok(),
    {
        self.position = 0;
        self.tick_accum = 0;

        let st = self.steps[0];
        match st.trig {
            Trigger::On(nn, vel) => {
                out.push(OutCmd {
                    note_on: true,
                    port: self.port,
                    channel: self.channel,
                    note: nn,
                    velocity: vel,
                });
                self.note_on = Some(nn);
            },
            Trigger::Off => {},
        }
        proof {
            assert(*self =~= old(self).start_post());
            assert(out@ =~= old(out)@ + old(self).start_cmds());
        }
    }

    /// Rewinds to step zero and, if a note is sounding, emits its
    /// note-off and clears it. Stopping an already silent sequence emits
    /// nothing.
    pub fn stop(&mut self, out: &mut Vec<OutCmd>)
        requires
            old(self).wf(),
        ensures
            *final(self) == old(self).stop_post(),
            final(out)@ == old(out)@ + old(self).stop_cmds(),
            final(self).wf(),
            final(self).pos_in_range(),
            final(self).sounding_ok(),
    {
        self.position = 0;
        self.tick_accum = 0;
        self.turn_off_playing_note(out);
        proof {
            assert(*self =~= old(self).stop_post());
        }
    }

    /// Moves the edit cursor one step left, saturating at step zero.
    pub fn edit_step_down(&mut self)
        requires
            old(self).wf(),
        ensures
            *final(self) == (Sequence {
                edit_step: if old(self).edit_step == 0 { 0 } else { (old(self).edit_step - 1) as usize },
                ..*old(self)
            }),
            final(self).wf(),
    {
        self.edit_step = if self.edit_step == 0 { 0 } else { self.edit_step - 1 };
    }

    /// Moves the edit cursor one step right, saturating at the last
    /// active step.
    pub fn edit_step_up(&mut self)
        requires
            old(self).wf(),
        ensures
            *final(self) == (Sequence {
                edit_step: if old(self).edit_step + 1 < old(self).length {
                    (old(self).edit_step + 1) as usize
                } else {
                    old(self).edit_step
                },
                ..*old(self)
            }),
            final(self).wf(),
    {
        if self.edit_step + 1 < self.length {
            self.edit_step = self.edit_step + 1;
        }
    }

    /// Moves the edit cursor one step left, wrapping from step zero to
    /// the last active step.
    pub fn edit_step_down_wrap(&mut self)
        requires
            old(self).wf(),
        ensures
            *final(self) == (Sequence {
                edit_step: if old(self).edit_step == 0 {
                    if old(self).length > 0 { (old(self).length - 1) as usize } else { 0 }
                } else {
                    (old(self).edit_step - 1) as usize
                },
                ..*old(self)
            }),
            final(self).wf(),
    {
        if self.edit_step == 0 {
            if self.length > 0 {
                self.edit_step = self.length - 1;
            }
        } else {
            self.edit_step = self.edit_step - 1;
        }
    }

    /// Moves the edit cursor one step right, wrapping from the last
    /// active step to step zero. A blank sequence is left untouched.
    pub fn edit_step_up_wrap(&mut self)
        requires
            old(self).wf(),
        ensures
            *final(self) == (Sequence {
                edit_step: if old(self).length == 0 {
                    old(self).edit_step
                } else if old(self).edit_step + 1 >= old(self).length {
                    0
                } else {
                    (old(self).edit_step + 1) as usize
                },
                ..*old(self)
            }),
            final(self).wf(),
    {
        if self.length == 0 {
            return;
        }
        self.edit_step = if self.edit_step + 1 >= self.length { 0 } else { self.edit_step + 1 };
    }

    /// Writes a note trigger into the step under the edit cursor.
    pub fn set_step_note(&mut self, nn: u8, vel: u8)
        requires
            old(self).wf(),
        ensures
            final(self).steps@ == old(self).steps@.update(
                old(self).edit_step as int,
                (Step {
                    trig: Trigger::On(nn, vel),
                    hold: old(self).steps@[old(self).edit_step as int].hold,
                }),
            ),
            agrees_except_steps(*old(self), *final(self)),
            final(self).wf(),
    {
        let i = self.edit_step;
        let st = &mut self.steps[i];
        st.trig = Trigger::On(nn, vel);
    }

    /// Clears the trigger of the step under the edit cursor.
    pub fn set_step_off(&mut self)
        requires
            old(self).wf(),
        ensures
            final(self).steps@ == old(self).steps@.update(
                old(self).edit_step as int,
                (Step {
                    trig: Trigger::Off,
                    hold: old(self).steps@[old(self).edit_step as int].hold,
                }),
            ),
            agrees_except_steps(*old(self), *final(self)),
            final(self).wf(),
    {
        let i = self.edit_step;
        let st = &mut self.steps[i];
        st.trig = Trigger::Off;
    }

    /// Flips the hold flag of the step under the edit cursor.
    pub fn toggle_step_hold(&mut self)
        requires
            old(self).wf(),
        ensures
            final(self).steps@ == old(self).steps@.update(
                old(self).edit_step as int,
                (Step {
                    trig: old(self).steps@[old(self).edit_step as int].trig,
                    hold: !old(self).steps@[old(self).edit_step as int].hold,
                }),
            ),
            agrees_except_steps(*old(self), *final(self)),
            final(self).wf(),
    {
        let i = self.edit_step;
        let st = &mut self.steps[i];
        st.hold = !st.hold;
    }

    /// Shrinks the active length by one step, saturating at zero. The
    /// playback position and edit cursor are not revalidated here; that
    /// is the caller's duty when the length shrinks past them.
    pub fn drop_step(&mut self)
        requires
            old(self).wf(),
        ensures
            *final(self) == (Sequence {
                length: if old(self).length == 0 { 0 } else { (old(self).length - 1) as usize },
                ..*old(self)
            }),
            final(self).wf(),
    {
        self.length = if self.length == 0 { 0 } else { self.length - 1 };
    }

    /// Pulls the playback position and the edit cursor back inside the
    /// active region after the length shrank past them; on a blank
    /// sequence both return to step zero. [`Sequence::drop_step`]
    /// leaves that maintenance to its caller; this method performs it.
    pub fn clamp_cursors(&mut self)
        requires
            old(self).wf(),
        ensures
            *final(self) == (Sequence {
                position: if old(self).length == 0 {
                    0
                } else if old(self).position >= old(self).length {
                    (old(self).length - 1) as usize
                } else {
                    old(self).position
                },
                edit_step: if old(self).length == 0 {
                    0
                } else if old(self).edit_step >= old(self).length {
                    (old(self).length - 1) as usize
                } else {
                    old(self).edit_step
                },
                ..*old(self)
            }),
            final(self).wf(),
            final(self).pos_in_range(),
    {
        if self.length == 0 {
            self.position = 0;
            self.edit_step = 0;
        } else {
            if self.position >= self.length {
                self.position = self.length - 1;
            }
            if self.edit_step >= self.length {
                self.edit_step = self.length - 1;
            }
        }
    }

    /// Grows the active length by one step, saturating at the fixed
    /// capacity.
    pub fn add_step(&mut self)
        requires
            old(self).wf(),
        ensures
            *final(self) == (Sequence {
                length: if old(self).length == SEQ_MAX { SEQ_MAX as usize } else { (old(self).length + 1) as usize },
                ..*old(self)
            }),
            final(self).wf(),
    {
        self.length = if self.length == SEQ_MAX { SEQ_MAX } else { self.length + 1 };
    }

    /// Moves the edit cursor one bar forward if that stays inside the
    /// active region, else leaves it.
    pub fn bar_up(&mut self, bar_size: usize)
        requires
            old(self).wf(),
        ensures
            *final(self) == (Sequence {
                edit_step: if old(self).edit_step + bar_size < old(self).length {
                    (old(self).edit_step + bar_size) as usize
                } else {
                    old(self).edit_step
                },
                ..*old(self)
            }),
            final(self).wf(),
    {
        if bar_size < self.length && self.edit_step + bar_size < self.length {
            self.edit_step = self.edit_step + bar_size;
        }
    }

    /// Moves the edit cursor one bar back if it is at least one bar in,
    /// else leaves it.
    pub fn bar_down(&mut self, bar_size: usize)
        requires
            old(self).wf(),
        ensures
            *final(self) == (Sequence {
                edit_step: if old(self).edit_step >= bar_size {
                    (old(self).edit_step - bar_size) as usize
                } else {
                    old(self).edit_step
                },
                ..*old(self)
            }),
            final(self).wf(),
    {
        if self.edit_step >= bar_size {
            self.edit_step = self.edit_step - bar_size;
        }
    }

    /// Raises the clock divisor by one, saturating at its upper bound.
    pub fn up_tick_rate(&mut self)
        requires
            old(self).wf(),
        ensures
            *final(self) == (Sequence {
                ticks_per_step: if old(self).ticks_per_step < TICKS_PER_STEP_MAX {
                    (old(self).ticks_per_step + 1) as usize
                } else {
                    old(self).ticks_per_step
                },
                ..*old(self)
            }),
            final(self).wf(),
    {
        if self.ticks_per_step < TICKS_PER_STEP_MAX {
            self.ticks_per_step = self.ticks_per_step + 1;
        }
    }

    /// Lowers the clock divisor by one, saturating at one.
    pub fn down_tick_rate(&mut self)
        requires
            old(self).wf(),
        ensures
            *final(self) == (Sequence {
                ticks_per_step: if old(self).ticks_per_step > 1 {
                    (old(self).ticks_per_step - 1) as usize
                } else {
                    old(self).ticks_per_step
                },
                ..*old(self)
            }),
            final(self).wf(),
    {
        if self.ticks_per_step > 1 {
            self.ticks_per_step = self.ticks_per_step - 1;
        }
    }

    /// Raises the MIDI channel by one, saturating at fifteen.
    pub fn up_channel(&mut self)
        requires
            old(self).wf(),
        ensures
            *final(self) == (Sequence {
                channel: if old(self).channel < 0x0F { (old(self).channel + 1) as u8 } else { old(self).channel },
                ..*old(self)
            }),
            final(self).wf(),
    {
        if self.channel < 0x0F {
            self.channel = self.channel + 1;
        }
    }

    /// Lowers the MIDI channel by one, saturating at zero.
    pub fn down_channel(&mut self)
        requires
            old(self).wf(),
        ensures
            *final(self) == (Sequence {
                channel: if old(self).channel > 0 { (old(self).channel - 1) as u8 } else { old(self).channel },
                ..*old(self)
            }),
            final(self).wf(),
    {
        if self.channel > 0 {
            self.channel = self.channel - 1;
        }
    }

    /// Raises the output-port index by one, saturating at the given
    /// highest valid index.
    pub fn up_port(&mut self, max_port: usize)
        requires
            old(self).wf(),
        ensures
            *final(self) == (Sequence {
                port: if old(self).port < max_port { (old(self).port + 1) as usize } else { old(self).port },
                ..*old(self)
            }),
            final(self).wf(),
    {
        if self.port < max_port {
            self.port = self.port + 1;
        }
    }

    /// Lowers the output-port index by one, saturating at zero.
    pub fn down_port(&mut self)
        requires
            old(self).wf(),
        ensures
            *final(self) == (Sequence {
                port: if old(self).port > 0 { (old(self).port - 1) as usize } else { old(self).port },
                ..*old(self)
            }),
            final(self).wf(),
    {
        if self.port > 0 {
            self.port = self.port - 1;
        }
    }
}

/// Both sequences agree on every field except the step storage.
pub open spec fn agrees_except_steps(a: Sequence, b: Sequence) -> bool {
    &&& a.note_on == b.note_on
    &&& a.length == b.length
    &&& a.ticks_per_step == b.ticks_per_step
    &&& a.tick_accum == b.tick_accum
    &&& a.position == b.position
    &&& a.channel == b.channel
    &&& a.state == b.state
    &&& a.hold == b.hold
    &&& a.port == b.port
    &&& a.edit_step == b.edit_step
}

/// One tick keeps the position invariant on its own: whenever the
/// pattern is non-empty, the position stays inside it and the length is
/// untouched, and a positive divisor keeps the accumulator below it.
/// Nothing beyond the invariant's own premises is needed.
pub proof fn lemma_tick_keeps_position(s: Sequence)
    requires
        s.length > 0,
        s.position < s.length,
        s.ticks_per_step >= 1,
    ensures
        s.tick_post().length == s.length,
        s.tick_post().position < s.tick_post().length,
        s.tick_post().tick_accum < s.tick_post().ticks_per_step,
{
}

/// Stopping is idempotent: a second `stop` right after a first one finds
/// no sounding note, so it emits no second note-off and leaves the
/// sequence exactly as the first left it.
pub proof fn lemma_stop_idempotent(s: Sequence)
    ensures
        s.stop_post().stop_cmds() =~= Seq::<OutCmd>::empty(),
        s.stop_post().stop_post() =~= s.stop_post(),
{
}

} // verus!
