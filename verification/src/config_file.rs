//! Startup configuration: validation and application of per-sequence
//! settings, and reading a player back out into configuration values.
//!
//! Loading and saving the on-disk form is the surrounding program's
//! business; this module takes plain configuration values, checks every
//! field range, and either applies the whole configuration or rejects it
//! with an error naming the offending sequence index and field, leaving
//! the player untouched. A configuration is never partially applied.

use vstd::prelude::*;
use vstd::string::StringExecFns;
use crate::sequence::SEQ_MAX;
use crate::sequence::Sequence;
use crate::sequence::Step;
use crate::sequence::TICKS_PER_STEP_MAX;
use crate::sequence::Trigger;
use crate::sequence_player::POOL_SIZE;
use crate::sequence_player::Player;

verus! {

/// A note trigger in a configuration: note number and velocity.
#[derive(Debug, Copy, Clone, PartialEq, Eq, Structural)]
pub struct NoteConfig {
    pub nn: u8,
    pub vel: u8,
}

/// One step in a configuration: an optional note and the hold flag.
#[derive(Debug, Copy, Clone)]
pub struct StepConfig {
    pub note: Option<NoteConfig>,
    pub hold: bool,
}

/// Settings of one sequence: which pool slot it fills, its channel,
/// clock divisor, optional output port, steps and latch mode.
#[derive(Debug)]
pub struct SeqConfig {
    pub midi_map: usize,
    pub channel: u8,
    pub tick_rate: usize,
    pub port: Option<usize>,
    pub steps: Vec<StepConfig>,
    pub hold: bool,
}

/// One MIDI input to listen on, and whether it is the clock source.
#[derive(Debug, Copy, Clone, PartialEq, Eq, Structural)]
pub struct MidiInConfig {
    pub port_num: usize,
    pub ticks: bool,
}

/// A whole configuration: inputs, output ports and sequence settings.
#[derive(Debug)]
pub struct Config {
    pub in_ports: Vec<MidiInConfig>,
    pub out_ports: Vec<usize>,
    pub seqs: Vec<SeqConfig>,
}

/// A configuration error; its text names the offending sequence index
/// and field.
#[derive(Debug)]
pub struct ConfError {
    details: String,
}

impl View for ConfError {
    type V = Seq<char>;

    closed spec fn view(&self) -> Seq<char> {
        self.details@
    }
}

impl ConfError {
    /// Wraps a message as a configuration error.
    pub fn new(msg: String) -> (e: ConfError)
        ensures
            e@ == msg@,
    {
        ConfError { details: msg }
    }

    /// The error's message.
    pub fn message(&self) -> (m: &str)
        ensures
            m@ == self@,
    {
        self.details.as_str()
    }
}

/// The decimal digit `d` as a character.
pub open spec fn digit_char(d: int) -> char {
    if d == 0 {
        '0'
    } else if d == 1 {
        '1'
    } else if d == 2 {
        '2'
    } else if d == 3 {
        '3'
    } else if d == 4 {
        '4'
    } else if d == 5 {
        '5'
    } else if d == 6 {
        '6'
    } else if d == 7 {
        '7'
    } else if d == 8 {
        '8'
    } else {
        '9'
    }
}

/// The decimal rendering of `n`, most significant digit first.
pub open spec fn dec_chars(n: int) -> Seq<char>
    recommends
        n >= 0,
    decreases n,
{
    if n < 10 {
        seq![digit_char(n)]
    } else {
        dec_chars(n / 10) + seq![digit_char(n % 10)]
    }
}

/// The single-character string of one decimal digit.
fn digit_str(d: usize) -> (s: &'static str)
    requires
        d < 10,
    ensures
        s@ == seq![digit_char(d as int)],
{
    let s: &'static str = match d {
        0 => "0",
        1 => "1",
        2 => "2",
        3 => "3",
        4 => "4",
        5 => "5",
        6 => "6",
        7 => "7",
        8 => "8",
        _ => "9",
    };
    proof {
        reveal_strlit("0");
        reveal_strlit("1");
        reveal_strlit("2");
        reveal_strlit("3");
        reveal_strlit("4");
        reveal_strlit("5");
        reveal_strlit("6");
        reveal_strlit("7");
        reveal_strlit("8");
        reveal_strlit("9");
        assert(s@ =~= seq![digit_char(d as int)]);
    }
    s
}

/// Renders `n` in decimal.
pub fn usize_to_string(n: usize) -> (s: String)
    ensures
        s@ == dec_chars(n as int),
    decreases n,
{
    if n < 10 {
        digit_str(n).to_owned()
    } else {
        let mut s = usize_to_string(n / 10);
        s.append(digit_str(n % 10));
        s
    }
}

/// The message suffix of the first field of `e` that is out of range,
/// if any: checked in the order slot index, channel, step count, tick
/// rate.
pub open spec fn entry_field_error(e: SeqConfig) -> Option<Seq<char>> {
    if e.midi_map >= POOL_SIZE {
        Some(" has out of range midi_map"@)
    } else if e.channel > 15 {
        Some(" has out of range channel"@)
    } else if e.steps@.len() > SEQ_MAX {
        Some(" has too long a sequence"@)
    } else if e.tick_rate < 1 || e.tick_rate > TICKS_PER_STEP_MAX {
        Some(" has out of range tick_rate"@)
    } else {
        None
    }
}

/// Every field of `e` is inside its range.
pub open spec fn entry_valid(e: SeqConfig) -> bool {
    entry_field_error(e) is None
}

/// The full message of a configuration error: the sequence index and
/// the offending field.
pub open spec fn conf_error_msg(i: int, suffix: Seq<char>) -> Seq<char> {
    "sequence "@ + dec_chars(i) + suffix
}

/// The step a step configuration stands for.
pub open spec fn step_of_config(sc: StepConfig) -> Step {
    Step {
        trig: (match sc.note {
            Some(nc) => Trigger::On(nc.nn, nc.vel),
            None => Trigger::Off,
        }),
        hold: sc.hold,
    }
}

/// The step configuration that records a step.
pub open spec fn config_of_step(st: Step) -> StepConfig {
    StepConfig {
        note: (match st.trig {
            Trigger::On(nn, vel) => Some(NoteConfig { nn, vel }),
            Trigger::Off => None,
        }),
        hold: st.hold,
    }
}

/// Step storage after writing a configured pattern over it: the
/// configured prefix, then the old remainder.
pub open spec fn steps_applied(orig: Seq<Step>, conf_steps: Seq<StepConfig>) -> Seq<Step> {
    Seq::new(
        orig.len(),
        |j: int| if j < conf_steps.len() { step_of_config(conf_steps[j]) } else { orig[j] },
    )
}

/// `post` is `pre` with the settings of `e` written over its static
/// fields; playback and edit state are untouched, and the port only
/// changes when the entry names one.
pub open spec fn seq_configured(pre: Sequence, post: Sequence, e: SeqConfig) -> bool {
    &&& post.steps@ == steps_applied(pre.steps@, e.steps@)
    &&& post.length == e.steps@.len()
    &&& post.channel == e.channel
    &&& post.ticks_per_step == e.tick_rate
    &&& post.hold == e.hold
    &&& post.port == (match e.port {
        Some(p) => p,
        None => pre.port,
    })
    &&& post.note_on == pre.note_on
    &&& post.tick_accum == pre.tick_accum
    &&& post.position == pre.position
    &&& post.state == pre.state
    &&& post.edit_step == pre.edit_step
}

/// Entry `i` is the only one of `es` aimed at its pool slot.
pub open spec fn sole_entry_for_slot(es: Seq<SeqConfig>, i: int) -> bool {
    &&& 0 <= i < es.len()
    &&& forall|j: int| 0 <= j < es.len() && j != i ==> es[j].midi_map != es[i].midi_map
}

/// Entry `i` is the last one of `es` aimed at its pool slot.
pub open spec fn last_entry_for_slot(es: Seq<SeqConfig>, i: int) -> bool {
    &&& 0 <= i < es.len()
    &&& forall|j: int| i < j < es.len() ==> es[j].midi_map != es[i].midi_map
}

/// The fields of `s` that an entry decides outright, whatever was in
/// the slot before it: the active length and every active step, the
/// channel, the divisor, the latch flag, and the port when the entry
/// names one.
pub open spec fn entry_decides(e: SeqConfig, s: Sequence) -> bool {
    &&& s.length == e.steps@.len()
    &&& s.channel == e.channel
    &&& s.ticks_per_step == e.tick_rate
    &&& s.hold == e.hold
    &&& (match e.port {
        Some(p) => s.port == p,
        None => true,
    })
    &&& forall|m: int| 0 <= m < e.steps@.len() ==> #[trigger] s.steps@[m] == step_of_config(
        e.steps@[m],
    )
}

/// Writes one valid entry over its sequence.
fn set_seq(entry: &SeqConfig, s: &mut Sequence)
    requires
        entry_valid(*entry),
        old(s).wf(),
    ensures
        seq_configured(*old(s), *final(s), *entry),
        final(s).wf(),
{
    s.channel = entry.channel;
    s.ticks_per_step = entry.tick_rate;
    s.length = entry.steps.len();
    s.hold = entry.hold;

    let mut j: usize = 0;
    while j < entry.steps.len()
        invariant
            j <= entry.steps@.len(),
            entry.steps@.len() <= SEQ_MAX,
            s.steps@.len() == SEQ_MAX,
            forall|m: int| 0 <= m < j ==> s.steps@[m] == step_of_config(entry.steps@[m]),
            forall|m: int| j <= m < SEQ_MAX ==> s.steps@[m] == old(s).steps@[m],
            s.length == entry.steps@.len(),
            s.channel == entry.channel,
            s.ticks_per_step == entry.tick_rate,
            s.hold == entry.hold,
            s.port == old(s).port,
            s.note_on == old(s).note_on,
            s.tick_accum == old(s).tick_accum,
            s.position == old(s).position,
            s.state == old(s).state,
            s.edit_step == old(s).edit_step,
        decreases entry.steps@.len() - j,
    {
        let sc = entry.steps[j];
        let new_step = Step {
            trig: (match sc.note {
                Some(nc) => Trigger::On(nc.nn, nc.vel),
                None => Trigger::Off,
            }),
            hold: sc.hold,
        };
        let st = &mut s.steps[j];
        *st = new_step;
        j = j + 1;
    }

    match entry.port {
        Some(p) => {
            s.port = p;
        },
        None => {},
    }
    proof {
        assert(s.steps@ =~= steps_applied(old(s).steps@, entry.steps@));
    }
}

/// Builds the error for entry `i` with the given message suffix.
fn make_err(i: usize, suffix: &str) -> (e: ConfError)
    ensures
        e@ == conf_error_msg(i as int, suffix@),
{
    let mut msg = "sequence ".to_owned();
    let num = usize_to_string(i);
    msg.append(num.as_str());
    msg.append(suffix);
    ConfError::new(msg)
}

/// Applies a configuration to the player's pool: every entry is range
/// checked first, and only if all pass is anything written, so a bad
/// configuration leaves the player exactly as it was. The error names
/// the first offending entry and its first offending field.
#[verifier::loop_isolation(false)]
pub fn apply_config(player: &mut Player, conf: &Config) -> (r: Result<(), ConfError>)
    requires
        old(player).wf(),
        forall|k: int| 0 <= k < POOL_SIZE ==> (#[trigger] old(player).midi_map@[k]).position == 0,
    ensures
        final(player).wf(),
        r is Ok <==> (forall|i: int| 0 <= i < conf.seqs@.len() ==> entry_valid(
            #[trigger] conf.seqs@[i],
        )),
        r matches Err(e) ==> *final(player) == *old(player) && exists|i: int|
            {
                &&& 0 <= i < conf.seqs@.len()
                &&& !entry_valid(#[trigger] conf.seqs@[i])
                &&& (forall|j: int| 0 <= j < i ==> entry_valid(#[trigger] conf.seqs@[j]))
                &&& e@ == conf_error_msg(i, entry_field_error(conf.seqs@[i])->0)
            },
        r is Ok ==> {
            &&& final(player).tick_accum == old(player).tick_accum
            &&& final(player).ticks_per_step == old(player).ticks_per_step
            &&& final(player).midi_map@.len() == POOL_SIZE
            &&& (forall|k: int|
                0 <= k < POOL_SIZE && (forall|i: int|
                    0 <= i < conf.seqs@.len() ==> (#[trigger] conf.seqs@[i]).midi_map != k)
                    ==> final(player).midi_map@[k] == #[trigger] old(player).midi_map@[k])
            &&& (forall|i: int|
                #[trigger] sole_entry_for_slot(conf.seqs@, i) ==> seq_configured(
                    old(player).midi_map@[conf.seqs@[i].midi_map as int],
                    final(player).midi_map@[conf.seqs@[i].midi_map as int],
                    conf.seqs@[i],
                ))
            &&& (forall|i: int|
                #[trigger] last_entry_for_slot(conf.seqs@, i) ==> entry_decides(
                    conf.seqs@[i],
                    final(player).midi_map@[conf.seqs@[i].midi_map as int],
                ))
        },
{
    let n = conf.seqs.len();

    let mut i: usize = 0;
    while i < n
        invariant
            n == conf.seqs@.len(),
            i <= n,
            forall|j: int| 0 <= j < i ==> entry_valid(#[trigger] conf.seqs@[j]),
            *player == *old(player),
        decreases n - i,
    {
        let e = &conf.seqs[i];
        if e.midi_map >= POOL_SIZE {
            return Err(make_err(i, " has out of range midi_map"));
        }
        if e.channel > 15 {
            return Err(make_err(i, " has out of range channel"));
        }
        if e.steps.len() > SEQ_MAX {
            return Err(make_err(i, " has too long a sequence"));
        }
        if e.tick_rate < 1 || e.tick_rate > TICKS_PER_STEP_MAX {
            return Err(make_err(i, " has out of range tick_rate"));
        }
        i = i + 1;
    }

    let mut i: usize = 0;
    while i < n
        invariant
            n == conf.seqs@.len(),
            i <= n,
            forall|j: int| 0 <= j < n ==> entry_valid(#[trigger] conf.seqs@[j]),
            player.midi_map@.len() == POOL_SIZE,
            player.tick_accum == old(player).tick_accum,
            player.ticks_per_step == old(player).ticks_per_step,
            old(player).tick_accum < old(player).ticks_per_step,
            forall|k: int|
                0 <= k < POOL_SIZE ==> (#[trigger] player.midi_map@[k]).wf()
                    && player.midi_map@[k].position == 0 && player.midi_map@[k].sounding_ok(),
            forall|k: int|
                0 <= k < POOL_SIZE && (forall|j: int|
                    0 <= j < i ==> (#[trigger] conf.seqs@[j]).midi_map != k)
                    ==> player.midi_map@[k] == #[trigger] old(player).midi_map@[k],
            forall|j: int|
                0 <= j < i && (forall|j2: int|
                    0 <= j2 < i && j2 != j ==> conf.seqs@[j2].midi_map != (
                    #[trigger] conf.seqs@[j]).midi_map) ==> seq_configured(
                    old(player).midi_map@[conf.seqs@[j].midi_map as int],
                    player.midi_map@[conf.seqs@[j].midi_map as int],
                    conf.seqs@[j],
                ),
            forall|j: int|
                0 <= j < i && (forall|j2: int|
                    j < j2 < i ==> conf.seqs@[j2].midi_map != (#[trigger] conf.seqs@[j]).midi_map)
                    ==> entry_decides(
                    conf.seqs@[j],
                    player.midi_map@[conf.seqs@[j].midi_map as int],
                ),
        decreases n - i,
    {
        let e = &conf.seqs[i];
        let slot = e.midi_map;
        let s = &mut player.midi_map[slot];
        set_seq(e, s);
        i = i + 1;
    }
    Ok(())
}

/// `e` records slot `k` of a pool exactly as [`seq_to_config`] writes
/// it: the slot index, the static fields, and the active steps.
pub open spec fn entry_records(e: SeqConfig, k: int, s: Sequence) -> bool {
    &&& e.midi_map == k
    &&& e.channel == s.channel
    &&& e.tick_rate == s.ticks_per_step
    &&& e.port == Some(s.port)
    &&& e.hold == s.hold
    &&& e.steps@.len() == s.length
    &&& forall|j: int| 0 <= j < s.length ==> #[trigger] e.steps@[j] == config_of_step(s.steps@[j])
}

/// Reads one sequence back out as a configuration entry for slot `i`.
pub fn seq_to_config(i: usize, s: &Sequence) -> (e: SeqConfig)
    requires
        s.wf(),
    ensures
        entry_records(e, i as int, *s),
{
    let mut steps: Vec<StepConfig> = Vec::new();
    let mut j: usize = 0;
    while j < s.length
        invariant
            s.wf(),
            j <= s.length,
            steps@.len() == j,
            forall|m: int| 0 <= m < j ==> #[trigger] steps@[m] == config_of_step(s.steps@[m]),
        decreases s.length - j,
    {
        let st = s.steps[j];
        let note = match st.trig {
            Trigger::On(nn, vel) => Some(NoteConfig { nn, vel }),
            Trigger::Off => None,
        };
        steps.push(StepConfig { note, hold: st.hold });
        j = j + 1;
    }
    SeqConfig {
        midi_map: i,
        channel: s.channel,
        tick_rate: s.ticks_per_step,
        port: Some(s.port),
        steps,
        hold: s.hold,
    }
}

/// Reads the player back out as a configuration: the given input and
/// output port lists, and one entry per non-blank sequence, in slot
/// order.
#[verifier::loop_isolation(false)]
pub fn to_config(player: &Player, out_ports: Vec<usize>, in_ports: Vec<MidiInConfig>) -> (c:
    Config)
    requires
        player.wf(),
    ensures
        c.in_ports == in_ports,
        c.out_ports == out_ports,
        forall|j: int|
            0 <= j < c.seqs@.len() ==> {
                let e = #[trigger] c.seqs@[j];
                &&& 0 <= e.midi_map < POOL_SIZE
                &&& player.midi_map@[e.midi_map as int].length > 0
                &&& entry_records(e, e.midi_map as int, player.midi_map@[e.midi_map as int])
            },
        forall|j1: int, j2: int|
            0 <= j1 < j2 < c.seqs@.len() ==> (#[trigger] c.seqs@[j1]).midi_map < (
            #[trigger] c.seqs@[j2]).midi_map,
        forall|k: int|
            0 <= k < POOL_SIZE && (#[trigger] player.midi_map@[k]).length > 0 ==> exists|j: int|
                0 <= j < c.seqs@.len() && (#[trigger] c.seqs@[j]).midi_map == k,
{
    let mut seqs: Vec<SeqConfig> = Vec::new();
    let mut k: usize = 0;
    while k < POOL_SIZE
        invariant
            player.wf(),
            k <= POOL_SIZE,
            forall|j: int|
                0 <= j < seqs@.len() ==> {
                    let e = #[trigger] seqs@[j];
                    &&& 0 <= e.midi_map < k
                    &&& player.midi_map@[e.midi_map as int].length > 0
                    &&& entry_records(e, e.midi_map as int, player.midi_map@[e.midi_map as int])
                },
            forall|j1: int, j2: int|
                0 <= j1 < j2 < seqs@.len() ==> (#[trigger] seqs@[j1]).midi_map < (
                #[trigger] seqs@[j2]).midi_map,
            forall|m: int|
                0 <= m < k && (#[trigger] player.midi_map@[m]).length > 0 ==> exists|j: int|
                    0 <= j < seqs@.len() && (#[trigger] seqs@[j]).midi_map == m,
        decreases POOL_SIZE - k,
    {
        let ghost prev = seqs@;
        let s = &player.midi_map[k];
        if s.length > 0 {
            let e = seq_to_config(k, s);
            seqs.push(e);
        }
        proof {
            assert forall|m: int|
                0 <= m < k + 1 && (#[trigger] player.midi_map@[m]).length > 0 implies exists|
                j: int,
            | 0 <= j < seqs@.len() && (#[trigger] seqs@[j]).midi_map == m by {
                if m < k {
                    let j = choose|j: int| 0 <= j < prev.len() && (#[trigger] prev[j]).midi_map == m;
                    assert(seqs@[j].midi_map == m);
                } else {
                    assert(seqs@[seqs@.len() - 1].midi_map == m);
                }
            }
        }
        k = k + 1;
    }
    Config { in_ports, out_ports, seqs }
}

} // verus!
