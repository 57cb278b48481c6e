//! Decoder for the MIDI 1.0 wire protocol.
//!
//! [`parse`] maps a raw byte buffer to one typed message. It is total:
//! malformed or unrecognized input decodes to [`MidiMessage::Unknown`],
//! never to a panic. [`encode`] builds the canonical byte sequence of a
//! message, and [`lemma_parse_encode`] proves that decoding it gives the
//! message back.

use vstd::prelude::*;

verus! {

/// Mathematical model of a decoded MIDI message; the view of
/// [`MidiMessage`]. A system-exclusive payload is a byte sequence.
pub enum MidiEvent {
    NoteOff(u8, u8, u8),
    NoteOn(u8, u8, u8),
    PolyPressure(u8, u8, u8),
    ControlChange(u8, u8, u8),
    PitchBend(u8, u8, u8),
    AfterTouch(u8, u8),
    ProgramChange(u8, u8),
    AllSoundOff(u8),
    ResetControllers(u8, u8),
    LocalControl(u8, bool),
    AllNotesOff(u8),
    OmniModeOff(u8),
    OmniModeOn(u8),
    MonoModeOn(u8, u8),
    PolyModeOn(u8),
    MTCframe(u8, u8),
    SongPosition(u8, u8),
    SongSelect(u8),
    TuneRequest,
    Tick,
    Start,
    Continue,
    Stop,
    ActiveSense,
    Reset,
    SysEx(Seq<u8>),
    Unknown,
}

/// A decoded MIDI message, as produced by [`parse`].
///
/// Channel messages carry the channel as their first field; `Unknown`
/// stands for empty or unrecognized input.
#[derive(Debug, PartialEq, Eq)]
pub enum MidiMessage {
    NoteOff(u8, u8, u8),
    NoteOn(u8, u8, u8),
    PolyPressure(u8, u8, u8),
    ControlChange(u8, u8, u8),
    PitchBend(u8, u8, u8),
    AfterTouch(u8, u8),
    ProgramChange(u8, u8),
    AllSoundOff(u8),
    ResetControllers(u8, u8),
    LocalControl(u8, bool),
    AllNotesOff(u8),
    OmniModeOff(u8),
    OmniModeOn(u8),
    MonoModeOn(u8, u8),
    PolyModeOn(u8),
    MTCframe(u8, u8),
    SongPosition(u8, u8),
    SongSelect(u8),
    TuneRequest,
    Tick,
    Start,
    Continue,
    Stop,
    ActiveSense,
    Reset,
    SysEx(Vec<u8>),
    Unknown,
}

impl View for MidiMessage {
    type V = MidiEvent;

    open spec fn view(&self) -> MidiEvent {
        match self {
            MidiMessage::NoteOff(c, n, v) => MidiEvent::NoteOff(*c, *n, *v),
            MidiMessage::NoteOn(c, n, v) => MidiEvent::NoteOn(*c, *n, *v),
            MidiMessage::PolyPressure(c, n, v) => MidiEvent::PolyPressure(*c, *n, *v),
            MidiMessage::ControlChange(c, d1, d2) => MidiEvent::ControlChange(*c, *d1, *d2),
            MidiMessage::PitchBend(c, d1, d2) => MidiEvent::PitchBend(*c, *d1, *d2),
            MidiMessage::AfterTouch(c, p) => MidiEvent::AfterTouch(*c, *p),
            MidiMessage::ProgramChange(c, p) => MidiEvent::ProgramChange(*c, *p),
            MidiMessage::AllSoundOff(c) => MidiEvent::AllSoundOff(*c),
            MidiMessage::ResetControllers(c, d2) => MidiEvent::ResetControllers(*c, *d2),
            MidiMessage::LocalControl(c, on) => MidiEvent::LocalControl(*c, *on),
            MidiMessage::AllNotesOff(c) => MidiEvent::AllNotesOff(*c),
            MidiMessage::OmniModeOff(c) => MidiEvent::OmniModeOff(*c),
            MidiMessage::OmniModeOn(c) => MidiEvent::OmniModeOn(*c),
            MidiMessage::MonoModeOn(c, d2) => MidiEvent::MonoModeOn(*c, *d2),
            MidiMessage::PolyModeOn(c) => MidiEvent::PolyModeOn(*c),
            MidiMessage::MTCframe(t, v) => MidiEvent::MTCframe(*t, *v),
            MidiMessage::SongPosition(a, b) => MidiEvent::SongPosition(*a, *b),
            MidiMessage::SongSelect(s) => MidiEvent::SongSelect(*s),
            MidiMessage::TuneRequest => MidiEvent::TuneRequest,
            MidiMessage::Tick => MidiEvent::Tick,
            MidiMessage::Start => MidiEvent::Start,
            MidiMessage::Continue => MidiEvent::Continue,
            MidiMessage::Stop => MidiEvent::Stop,
            MidiMessage::ActiveSense => MidiEvent::ActiveSense,
            MidiMessage::Reset => MidiEvent::Reset,
            MidiMessage::SysEx(p) => MidiEvent::SysEx(p@),
            MidiMessage::Unknown => MidiEvent::Unknown,
        }
    }
}

/// What a control-change data byte pair decodes to: controllers 0-119
/// are generic, 120-127 are the reserved channel-mode messages, and a
/// controller number with its high bit set is no controller at all —
/// it decodes to `Unknown`.
pub open spec fn parse_cc_spec(status: u8, data1: u8, data2: u8) -> MidiEvent {
    let channel = status & 0x0F;
    if data1 <= 119 {
        MidiEvent::ControlChange(channel, data1, data2)
    } else if data1 == 120 {
        MidiEvent::AllSoundOff(channel)
    } else if data1 == 121 {
        MidiEvent::ResetControllers(channel, data2)
    } else if data1 == 122 {
        MidiEvent::LocalControl(channel, data2 == 127)
    } else if data1 == 123 {
        MidiEvent::AllNotesOff(channel)
    } else if data1 == 124 {
        MidiEvent::OmniModeOff(channel)
    } else if data1 == 125 {
        MidiEvent::OmniModeOn(channel)
    } else if data1 == 126 {
        MidiEvent::MonoModeOn(channel, data2)
    } else if data1 == 127 {
        MidiEvent::PolyModeOn(channel)
    } else {
        MidiEvent::Unknown
    }
}

/// What a raw byte buffer decodes to. The status byte is classified by
/// its high nibble; a buffer too short for its message class, or one with
/// an unrecognized status byte, decodes to `Unknown`.
pub open spec fn parse_spec(s: Seq<u8>) -> MidiEvent {
    if s.len() == 0 {
        MidiEvent::Unknown
    } else {
        let st = s[0];
        if 0x80 <= st <= 0x8F {
            if s.len() >= 3 { MidiEvent::NoteOff(st & 0x0F, s[1], s[2]) } else { MidiEvent::Unknown }
        } else if 0x90 <= st <= 0x9F {
            if s.len() >= 3 { MidiEvent::NoteOn(st & 0x0F, s[1], s[2]) } else { MidiEvent::Unknown }
        } else if 0xA0 <= st <= 0xAF {
            if s.len() >= 3 { MidiEvent::PolyPressure(st & 0x0F, s[1], s[2]) } else { MidiEvent::Unknown }
        } else if 0xB0 <= st <= 0xBF {
            if s.len() >= 3 { parse_cc_spec(st, s[1], s[2]) } else { MidiEvent::Unknown }
        } else if 0xC0 <= st <= 0xCF {
            if s.len() >= 2 { MidiEvent::ProgramChange(st & 0x0F, s[1]) } else { MidiEvent::Unknown }
        } else if 0xD0 <= st <= 0xDF {
            if s.len() >= 2 { MidiEvent::AfterTouch(st & 0x0F, s[1]) } else { MidiEvent::Unknown }
        } else if 0xE0 <= st <= 0xEF {
            if s.len() >= 3 { MidiEvent::PitchBend(st & 0x0F, s[1], s[2]) } else { MidiEvent::Unknown }
        } else if st == 0xF0 {
            MidiEvent::SysEx(if s.len() >= 2 { s.subrange(1, s.len() - 1) } else { Seq::empty() })
        } else if st == 0xF1 {
            if s.len() >= 2 { MidiEvent::MTCframe((s[1] & 0x70) >> 4, s[1] & 0x0F) } else { MidiEvent::Unknown }
        } else if st == 0xF2 {
            if s.len() >= 3 { MidiEvent::SongPosition(s[1], s[2]) } else { MidiEvent::Unknown }
        } else if st == 0xF3 {
            if s.len() >= 2 { MidiEvent::SongSelect(s[1]) } else { MidiEvent::Unknown }
        } else if st == 0xF6 {
            MidiEvent::TuneRequest
        } else if st == 0xF8 {
            MidiEvent::Tick
        } else if st == 0xFA {
            MidiEvent::Start
        } else if st == 0xFB {
            MidiEvent::Continue
        } else if st == 0xFC {
            MidiEvent::Stop
        } else if st == 0xFE {
            MidiEvent::ActiveSense
        } else if st == 0xFF {
            MidiEvent::Reset
        } else {
            MidiEvent::Unknown
        }
    }
}

/// Decodes one control-change message already split into its bytes.
pub fn parse_cc(status: u8, data1: u8, data2: u8) -> (r: MidiMessage)
    ensures
        r@ == parse_cc_spec(status, data1, data2),
{
    let channel = status & 0x0F;
    if data1 <= 119 {
        MidiMessage::ControlChange(channel, data1, data2)
    } else if data1 == 120 {
        MidiMessage::AllSoundOff(channel)
    } else if data1 == 121 {
        MidiMessage::ResetControllers(channel, data2)
    } else if data1 == 122 {
        MidiMessage::LocalControl(channel, data2 == 127)
    } else if data1 == 123 {
        MidiMessage::AllNotesOff(channel)
    } else if data1 == 124 {
        MidiMessage::OmniModeOff(channel)
    } else if data1 == 125 {
        MidiMessage::OmniModeOn(channel)
    } else if data1 == 126 {
        MidiMessage::MonoModeOn(channel, data2)
    } else if data1 == 127 {
        MidiMessage::PolyModeOn(channel)
    } else {
        MidiMessage::Unknown
    }
}

/// Decodes a raw byte buffer into one typed MIDI message. Total over
/// arbitrary input: too-short or unrecognized buffers give `Unknown`.
pub fn parse(message: &[u8]) -> (r: MidiMessage)
    ensures
        r@ == parse_spec(message@),
{
    let n = message.len();
    if n == 0 {
        return MidiMessage::Unknown;
    }
    let st = message[0];
    if 0x80 <= st && st <= 0x8F {
        if n >= 3 { MidiMessage::NoteOff(st & 0x0F, message[1], message[2]) } else { MidiMessage::Unknown }
    } else if 0x90 <= st && st <= 0x9F {
        if n >= 3 { MidiMessage::NoteOn(st & 0x0F, message[1], message[2]) } else { MidiMessage::Unknown }
    } else if 0xA0 <= st && st <= 0xAF {
        if n >= 3 { MidiMessage::PolyPressure(st & 0x0F, message[1], message[2]) } else { MidiMessage::Unknown }
    } else if 0xB0 <= st && st <= 0xBF {
        if n >= 3 { parse_cc(st, message[1], message[2]) } else { MidiMessage::Unknown }
    } else if 0xC0 <= st && st <= 0xCF {
        if n >= 2 { MidiMessage::ProgramChange(st & 0x0F, message[1]) } else { MidiMessage::Unknown }
    } else if 0xD0 <= st && st <= 0xDF {
        if n >= 2 { MidiMessage::AfterTouch(st & 0x0F, message[1]) } else { MidiMessage::Unknown }
    } else if 0xE0 <= st && st <= 0xEF {
        if n >= 3 { MidiMessage::PitchBend(st & 0x0F, message[1], message[2]) } else { MidiMessage::Unknown }
    } else if st == 0xF0 {
        let mut payload: Vec<u8> = Vec::new();
        let mut j: usize = 1;
        while j + 1 < n
            invariant
                1 <= j,
                n == message@.len(),
                n >= 2 ==> j <= n - 1,
                n < 2 ==> j == 1,
                payload@ == message@.subrange(1, j as int),
            decreases n - j,
        {
            payload.push(message[j]);
            proof {
                assert(message@.subrange(1, j + 1) =~= message@.subrange(1, j as int).push(
                    message@[j as int],
                ));
            }
            j = j + 1;
        }
        proof {
            if n >= 2 {
                assert(payload@ == message@.subrange(1, n - 1));
            } else {
                assert(payload@ =~= Seq::<u8>::empty());
            }
        }
        MidiMessage::SysEx(payload)
    } else if st == 0xF1 {
        if n >= 2 { MidiMessage::MTCframe((message[1] & 0x70) >> 4, message[1] & 0x0F) } else { MidiMessage::Unknown }
    } else if st == 0xF2 {
        if n >= 3 { MidiMessage::SongPosition(message[1], message[2]) } else { MidiMessage::Unknown }
    } else if st == 0xF3 {
        if n >= 2 { MidiMessage::SongSelect(message[1]) } else { MidiMessage::Unknown }
    } else if st == 0xF6 {
        MidiMessage::TuneRequest
    } else if st == 0xF8 {
        MidiMessage::Tick
    } else if st == 0xFA {
        MidiMessage::Start
    } else if st == 0xFB {
        MidiMessage::Continue
    } else if st == 0xFC {
        MidiMessage::Stop
    } else if st == 0xFE {
        MidiMessage::ActiveSense
    } else if st == 0xFF {
        MidiMessage::Reset
    } else {
        MidiMessage::Unknown
    }
}

/// Whether an event has a canonical byte encoding: every channel within
/// four bits, a generic controller number for a control change, a
/// quarter-frame type and value within their bit ranges. `Unknown` has
/// none.
pub open spec fn canonical(m: MidiEvent) -> bool {
    match m {
        MidiEvent::NoteOff(c, n, v) => c <= 15,
        MidiEvent::NoteOn(c, n, v) => c <= 15,
        MidiEvent::PolyPressure(c, n, v) => c <= 15,
        MidiEvent::ControlChange(c, d1, d2) => c <= 15 && d1 <= 119,
        MidiEvent::PitchBend(c, d1, d2) => c <= 15,
        MidiEvent::AfterTouch(c, p) => c <= 15,
        MidiEvent::ProgramChange(c, p) => c <= 15,
        MidiEvent::AllSoundOff(c) => c <= 15,
        MidiEvent::ResetControllers(c, d2) => c <= 15,
        MidiEvent::LocalControl(c, on) => c <= 15,
        MidiEvent::AllNotesOff(c) => c <= 15,
        MidiEvent::OmniModeOff(c) => c <= 15,
        MidiEvent::OmniModeOn(c) => c <= 15,
        MidiEvent::MonoModeOn(c, d2) => c <= 15,
        MidiEvent::PolyModeOn(c) => c <= 15,
        MidiEvent::MTCframe(t, v) => t <= 7 && v <= 15,
        MidiEvent::SongPosition(a, b) => true,
        MidiEvent::SongSelect(s) => true,
        MidiEvent::TuneRequest => true,
        MidiEvent::Tick => true,
        MidiEvent::Start => true,
        MidiEvent::Continue => true,
        MidiEvent::Stop => true,
        MidiEvent::ActiveSense => true,
        MidiEvent::Reset => true,
        MidiEvent::SysEx(p) => true,
        MidiEvent::Unknown => false,
    }
}

/// The canonical byte encoding of an event. Meaningful only for
/// [`canonical`] events; a reserved controller message encodes through
/// its controller number, a system-exclusive payload is framed by the
/// leading and trailing marker bytes.
pub open spec fn encode_spec(m: MidiEvent) -> Seq<u8> {
    match m {
        MidiEvent::NoteOff(c, n, v) => seq![0x80u8 | c, n, v],
        MidiEvent::NoteOn(c, n, v) => seq![0x90u8 | c, n, v],
        MidiEvent::PolyPressure(c, n, v) => seq![0xA0u8 | c, n, v],
        MidiEvent::ControlChange(c, d1, d2) => seq![0xB0u8 | c, d1, d2],
        MidiEvent::PitchBend(c, d1, d2) => seq![0xE0u8 | c, d1, d2],
        MidiEvent::AfterTouch(c, p) => seq![0xD0u8 | c, p],
        MidiEvent::ProgramChange(c, p) => seq![0xC0u8 | c, p],
        MidiEvent::AllSoundOff(c) => seq![0xB0u8 | c, 120u8, 0u8],
        MidiEvent::ResetControllers(c, d2) => seq![0xB0u8 | c, 121u8, d2],
        MidiEvent::LocalControl(c, on) => seq![0xB0u8 | c, 122u8, if on { 127u8 } else { 0u8 }],
        MidiEvent::AllNotesOff(c) => seq![0xB0u8 | c, 123u8, 0u8],
        MidiEvent::OmniModeOff(c) => seq![0xB0u8 | c, 124u8, 0u8],
        MidiEvent::OmniModeOn(c) => seq![0xB0u8 | c, 125u8, 0u8],
        MidiEvent::MonoModeOn(c, d2) => seq![0xB0u8 | c, 126u8, d2],
        MidiEvent::PolyModeOn(c) => seq![0xB0u8 | c, 127u8, 0u8],
        MidiEvent::MTCframe(t, v) => seq![0xF1u8, (t << 4u8) | v],
        MidiEvent::SongPosition(a, b) => seq![0xF2u8, a, b],
        MidiEvent::SongSelect(s) => seq![0xF3u8, s],
        MidiEvent::TuneRequest => seq![0xF6u8],
        MidiEvent::Tick => seq![0xF8u8],
        MidiEvent::Start => seq![0xFAu8],
        MidiEvent::Continue => seq![0xFBu8],
        MidiEvent::Stop => seq![0xFCu8],
        MidiEvent::ActiveSense => seq![0xFEu8],
        MidiEvent::Reset => seq![0xFFu8],
        MidiEvent::SysEx(p) => seq![0xF0u8] + p + seq![0xF7u8],
        MidiEvent::Unknown => seq![],
    }
}

/// Builds the canonical byte sequence of a message.
pub fn encode(m: &MidiMessage) -> (r: Vec<u8>)
    requires
        canonical(m@),
    ensures
        r@ == encode_spec(m@),
{
    let r: Vec<u8> = match m {
        MidiMessage::NoteOff(c, n, v) => vec![0x80u8 | *c, *n, *v],
        MidiMessage::NoteOn(c, n, v) => vec![0x90u8 | *c, *n, *v],
        MidiMessage::PolyPressure(c, n, v) => vec![0xA0u8 | *c, *n, *v],
        MidiMessage::ControlChange(c, d1, d2) => vec![0xB0u8 | *c, *d1, *d2],
        MidiMessage::PitchBend(c, d1, d2) => vec![0xE0u8 | *c, *d1, *d2],
        MidiMessage::AfterTouch(c, p) => vec![0xD0u8 | *c, *p],
        MidiMessage::ProgramChange(c, p) => vec![0xC0u8 | *c, *p],
        MidiMessage::AllSoundOff(c) => vec![0xB0u8 | *c, 120u8, 0u8],
        MidiMessage::ResetControllers(c, d2) => vec![0xB0u8 | *c, 121u8, *d2],
        MidiMessage::LocalControl(c, on) => vec![
            0xB0u8 | *c,
            122u8,
            if *on { 127u8 } else { 0u8 },
        ],
        MidiMessage::AllNotesOff(c) => vec![0xB0u8 | *c, 123u8, 0u8],
        MidiMessage::OmniModeOff(c) => vec![0xB0u8 | *c, 124u8, 0u8],
        MidiMessage::OmniModeOn(c) => vec![0xB0u8 | *c, 125u8, 0u8],
        MidiMessage::MonoModeOn(c, d2) => vec![0xB0u8 | *c, 126u8, *d2],
        MidiMessage::PolyModeOn(c) => vec![0xB0u8 | *c, 127u8, 0u8],
        MidiMessage::MTCframe(t, v) => vec![0xF1u8, (*t << 4u8) | *v],
        MidiMessage::SongPosition(a, b) => vec![0xF2u8, *a, *b],
        MidiMessage::SongSelect(s) => vec![0xF3u8, *s],
        MidiMessage::TuneRequest => vec![0xF6u8],
        MidiMessage::Tick => vec![0xF8u8],
        MidiMessage::Start => vec![0xFAu8],
        MidiMessage::Continue => vec![0xFBu8],
        MidiMessage::Stop => vec![0xFCu8],
        MidiMessage::ActiveSense => vec![0xFEu8],
        MidiMessage::Reset => vec![0xFFu8],
        MidiMessage::SysEx(p) => {
            let mut framed: Vec<u8> = Vec::new();
            framed.push(0xF0);
            let mut j: usize = 0;
            while j < p.len()
                invariant
                    j <= p@.len(),
                    framed@ == seq![0xF0u8] + p@.subrange(0, j as int),
                decreases p@.len() - j,
            {
                framed.push(p[j]);
                proof {
                    assert(p@.subrange(0, j + 1) =~= p@.subrange(0, j as int).push(p@[j as int]));
                    assert(framed@ =~= seq![0xF0u8] + p@.subrange(0, j + 1));
                }
                j = j + 1;
            }
            framed.push(0xF7);
            proof {
                assert(p@.subrange(0, p@.len() as int) =~= p@);
                assert(framed@ =~= seq![0xF0u8] + p@ + seq![0xF7u8]);
            }
            framed
        },
        MidiMessage::Unknown => Vec::new(),
    };
    proof {
        assert(r@ =~= encode_spec(m@));
    }
    r
}

/// Decoding is left inverse to encoding: for every event with a
/// canonical encoding, building its byte sequence and decoding that
/// yields the event back.
pub proof fn lemma_parse_encode(m: MidiEvent)
    requires
        canonical(m),
    ensures
        parse_spec(encode_spec(m)) == m,
{
    match m {
        MidiEvent::NoteOff(c, n, v) => {
            assert(c <= 15 ==> ((0x80u8 | c) & 0x0F == c && 0x80 <= (0x80u8 | c) && (0x80u8 | c)
                <= 0x8F)) by (bit_vector);
        },
        MidiEvent::NoteOn(c, n, v) => {
            assert(c <= 15 ==> ((0x90u8 | c) & 0x0F == c && 0x90 <= (0x90u8 | c) && (0x90u8 | c)
                <= 0x9F)) by (bit_vector);
        },
        MidiEvent::PolyPressure(c, n, v) => {
            assert(c <= 15 ==> ((0xA0u8 | c) & 0x0F == c && 0xA0 <= (0xA0u8 | c) && (0xA0u8 | c)
                <= 0xAF)) by (bit_vector);
        },
        MidiEvent::PitchBend(c, d1, d2) => {
            assert(c <= 15 ==> ((0xE0u8 | c) & 0x0F == c && 0xE0 <= (0xE0u8 | c) && (0xE0u8 | c)
                <= 0xEF)) by (bit_vector);
        },
        MidiEvent::AfterTouch(c, p) => {
            assert(c <= 15 ==> ((0xD0u8 | c) & 0x0F == c && 0xD0 <= (0xD0u8 | c) && (0xD0u8 | c)
                <= 0xDF)) by (bit_vector);
        },
        MidiEvent::ProgramChange(c, p) => {
            assert(c <= 15 ==> ((0xC0u8 | c) & 0x0F == c && 0xC0 <= (0xC0u8 | c) && (0xC0u8 | c)
                <= 0xCF)) by (bit_vector);
        },
        MidiEvent::MTCframe(t, v) => {
            assert(t <= 7 && v <= 15 ==> ((((t << 4u8) | v) & 0x70) >> 4u8 == t && ((t << 4u8) | v)
                & 0x0F == v)) by (bit_vector);
        },
        MidiEvent::SysEx(p) => {
            let s = encode_spec(m);
            assert(s[0] == 0xF0);
            assert(s.len() == p.len() + 2);
            assert(s.subrange(1, s.len() - 1) =~= p);
        },
        MidiEvent::ControlChange(c, d1, d2) => {
            lemma_cc_status(c);
        },
        MidiEvent::AllSoundOff(c) => {
            lemma_cc_status(c);
        },
        MidiEvent::ResetControllers(c, d2) => {
            lemma_cc_status(c);
        },
        MidiEvent::LocalControl(c, on) => {
            lemma_cc_status(c);
        },
        MidiEvent::AllNotesOff(c) => {
            lemma_cc_status(c);
        },
        MidiEvent::OmniModeOff(c) => {
            lemma_cc_status(c);
        },
        MidiEvent::OmniModeOn(c) => {
            lemma_cc_status(c);
        },
        MidiEvent::MonoModeOn(c, d2) => {
            lemma_cc_status(c);
        },
        MidiEvent::PolyModeOn(c) => {
            lemma_cc_status(c);
        },
        _ => {},
    }
}

/// The status byte of a control change on channel `c` keeps the channel
/// in its low nibble and stays inside the control-change range.
proof fn lemma_cc_status(c: u8)
    requires
        c <= 15,
    ensures
        (0xB0u8 | c) & 0x0F == c,
        0xB0 <= (0xB0u8 | c) <= 0xBF,
{
    assert(c <= 15 ==> ((0xB0u8 | c) & 0x0F == c && 0xB0 <= (0xB0u8 | c) && (0xB0u8 | c) <= 0xBF))
        by (bit_vector);
}

} // verus!
