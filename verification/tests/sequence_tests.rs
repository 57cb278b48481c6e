use stepseq::out_port::OutCmd;
use stepseq::sequence::{PlayState, Sequence, Step, Trigger, SEQ_MAX};

fn on_cmd(port: usize, channel: u8, note: u8, velocity: u8) -> OutCmd {
    OutCmd { note_on: true, port, channel, note, velocity }
}

fn off_cmd(port: usize, channel: u8, note: u8) -> OutCmd {
    OutCmd { note_on: false, port, channel, note, velocity: 127 }
}

#[test]
fn blank_sequence_is_at_rest() {
    let s = Sequence::blank();
    assert!(s.is_blank());
    assert_eq!(s.length, 0);
    assert_eq!(s.ticks_per_step, 6);
    assert_eq!(s.position, 0);
    assert_eq!(s.edit_step, 0);
    assert_eq!(s.channel, 0);
    assert_eq!(s.port, 0);
    assert_eq!(s.state, PlayState::Off);
    assert_eq!(s.note_on, None);
    assert!(!s.hold);
    assert_eq!(s.steps.len(), SEQ_MAX);
    for st in s.steps.iter() {
        assert_eq!(*st, Step { trig: Trigger::Off, hold: false });
    }
}

#[test]
fn four_step_pattern_plays_and_releases() {
    // Pattern [On(60,100), Off, On(64,100), Off], one tick per step.
    let mut s = Sequence::blank();
    s.length = 4;
    s.ticks_per_step = 1;
    s.steps[0] = Step { trig: Trigger::On(60, 100), hold: false };
    s.steps[2] = Step { trig: Trigger::On(64, 100), hold: false };
    s.state = PlayState::Playing;

    let mut out: Vec<OutCmd> = Vec::new();
    s.start(&mut out);
    s.tick(&mut out);
    s.tick(&mut out);
    s.tick(&mut out);

    assert_eq!(s.position, 3);
    assert_eq!(
        out,
        vec![
            on_cmd(0, 0, 60, 100),
            off_cmd(0, 0, 60),
            on_cmd(0, 0, 64, 100),
            off_cmd(0, 0, 64),
        ]
    );
}

#[test]
fn tick_respects_divisor() {
    let mut s = Sequence::blank();
    s.length = 2;
    s.ticks_per_step = 3;
    s.state = PlayState::Playing;
    let mut out: Vec<OutCmd> = Vec::new();
    s.tick(&mut out);
    assert_eq!((s.position, s.tick_accum), (0, 1));
    s.tick(&mut out);
    assert_eq!((s.position, s.tick_accum), (0, 2));
    s.tick(&mut out);
    assert_eq!((s.position, s.tick_accum), (1, 0));
    assert!(out.is_empty());
}

#[test]
fn position_wraps_at_length() {
    let mut s = Sequence::blank();
    s.length = 3;
    s.ticks_per_step = 1;
    s.state = PlayState::Playing;
    let mut out: Vec<OutCmd> = Vec::new();
    s.tick(&mut out);
    s.tick(&mut out);
    assert_eq!(s.position, 2);
    s.tick(&mut out);
    assert_eq!(s.position, 0);
}

#[test]
fn hold_step_blips_its_note() {
    // A hold step with a note triggers it and releases it on the same
    // tick; the sounding bookkeeping ends empty.
    let mut s = Sequence::blank();
    s.length = 2;
    s.ticks_per_step = 1;
    s.steps[1] = Step { trig: Trigger::On(62, 90), hold: true };
    s.state = PlayState::Playing;
    let mut out: Vec<OutCmd> = Vec::new();
    s.tick(&mut out);
    assert_eq!(out, vec![on_cmd(0, 0, 62, 90), off_cmd(0, 0, 62)]);
    assert_eq!(s.note_on, None);
}

#[test]
fn hold_step_without_note_is_silent() {
    let mut s = Sequence::blank();
    s.length = 2;
    s.ticks_per_step = 1;
    s.steps[1] = Step { trig: Trigger::Off, hold: true };
    s.state = PlayState::Playing;
    s.note_on = Some(50);
    let mut out: Vec<OutCmd> = Vec::new();
    s.tick(&mut out);
    assert!(out.is_empty());
    assert_eq!(s.note_on, Some(50));
}

#[test]
fn start_triggers_first_step() {
    let mut s = Sequence::blank();
    s.length = 2;
    s.steps[0] = Step { trig: Trigger::On(48, 80), hold: false };
    s.state = PlayState::Starting;
    s.position = 1;
    s.tick_accum = 3;
    let mut out: Vec<OutCmd> = Vec::new();
    s.start(&mut out);
    assert_eq!(out, vec![on_cmd(0, 0, 48, 80)]);
    assert_eq!((s.position, s.tick_accum), (0, 0));
    assert_eq!(s.note_on, Some(48));
}

#[test]
fn stop_releases_sounding_note_once() {
    // Two stops in a row emit at most one note-off.
    let mut s = Sequence::blank();
    s.length = 1;
    s.state = PlayState::Playing;
    s.note_on = Some(60);
    s.position = 0;
    let mut out: Vec<OutCmd> = Vec::new();
    s.stop(&mut out);
    assert_eq!(out, vec![off_cmd(0, 0, 60)]);
    assert_eq!(s.note_on, None);
    s.stop(&mut out);
    assert_eq!(out.len(), 1);
}

#[test]
fn stop_on_silent_sequence_emits_nothing() {
    let mut s = Sequence::blank();
    s.length = 1;
    let mut out: Vec<OutCmd> = Vec::new();
    s.stop(&mut out);
    assert!(out.is_empty());
}

#[test]
fn grow_saturates_at_capacity() {
    let mut s = Sequence::blank();
    s.length = SEQ_MAX;
    s.add_step();
    assert_eq!(s.length, SEQ_MAX);
    s.length = SEQ_MAX - 1;
    s.add_step();
    assert_eq!(s.length, SEQ_MAX);
}

#[test]
fn shrink_saturates_at_zero() {
    let mut s = Sequence::blank();
    s.drop_step();
    assert_eq!(s.length, 0);
    s.length = 2;
    s.drop_step();
    assert_eq!(s.length, 1);
}

#[test]
fn clamp_pulls_stale_cursors_back() {
    // Shrinking past the cursors leaves them stale; the clamp pulls
    // both back to the last active step.
    let mut s = Sequence::blank();
    s.length = 4;
    s.position = 3;
    s.edit_step = 3;
    s.drop_step();
    assert_eq!(s.length, 3);
    s.clamp_cursors();
    assert_eq!(s.position, 2);
    assert_eq!(s.edit_step, 2);

    // Cursors already inside the pattern are left alone.
    s.position = 0;
    s.edit_step = 1;
    s.clamp_cursors();
    assert_eq!((s.position, s.edit_step), (0, 1));
}

#[test]
fn clamp_on_blank_returns_cursors_to_zero() {
    let mut s = Sequence::blank();
    s.length = 1;
    s.position = 0;
    s.edit_step = 0;
    s.drop_step();
    s.clamp_cursors();
    assert_eq!((s.length, s.position, s.edit_step), (0, 0, 0));
}

#[test]
fn edit_cursor_moves_and_saturates() {
    let mut s = Sequence::blank();
    s.length = 4;
    s.edit_step_down();
    assert_eq!(s.edit_step, 0);
    s.edit_step_up();
    assert_eq!(s.edit_step, 1);
    s.edit_step = 3;
    s.edit_step_up();
    assert_eq!(s.edit_step, 3);
}

#[test]
fn edit_cursor_wraps() {
    let mut s = Sequence::blank();
    s.length = 4;
    s.edit_step_down_wrap();
    assert_eq!(s.edit_step, 3);
    s.edit_step_up_wrap();
    assert_eq!(s.edit_step, 0);
    s.edit_step = 2;
    s.edit_step_up_wrap();
    assert_eq!(s.edit_step, 3);
}

#[test]
fn edit_cursor_wrap_on_blank_is_a_no_op() {
    let mut s = Sequence::blank();
    s.edit_step_up_wrap();
    assert_eq!(s.edit_step, 0);
    s.edit_step_down_wrap();
    assert_eq!(s.edit_step, 0);
}

#[test]
fn bar_moves_stay_inside_pattern() {
    let mut s = Sequence::blank();
    s.length = 40;
    s.bar_up(16);
    assert_eq!(s.edit_step, 16);
    s.bar_up(16);
    assert_eq!(s.edit_step, 32);
    s.bar_up(16);
    assert_eq!(s.edit_step, 32);
    s.bar_down(16);
    assert_eq!(s.edit_step, 16);
    s.bar_down(32);
    assert_eq!(s.edit_step, 16);
}

#[test]
fn step_edits_write_under_cursor() {
    let mut s = Sequence::blank();
    s.length = 4;
    s.edit_step = 2;
    s.set_step_note(71, 88);
    assert_eq!(s.steps[2].trig, Trigger::On(71, 88));
    s.toggle_step_hold();
    assert!(s.steps[2].hold);
    s.toggle_step_hold();
    assert!(!s.steps[2].hold);
    s.set_step_off();
    assert_eq!(s.steps[2].trig, Trigger::Off);
}

#[test]
fn step_on_and_off_clamp_to_capacity() {
    let mut s = Sequence::blank();
    s.step_on(3, 60);
    assert_eq!(s.steps[3].trig, Trigger::On(60, 127));
    s.step_on(SEQ_MAX + 10, 61);
    assert_eq!(s.steps[SEQ_MAX - 1].trig, Trigger::On(61, 127));
    s.step_off(3);
    assert_eq!(s.steps[3].trig, Trigger::Off);
    s.step_off(SEQ_MAX + 10);
    assert_eq!(s.steps[SEQ_MAX - 1].trig, Trigger::Off);
}

#[test]
fn tick_rate_clamps_to_its_range() {
    let mut s = Sequence::blank();
    s.ticks_per_step = 1;
    s.down_tick_rate();
    assert_eq!(s.ticks_per_step, 1);
    s.up_tick_rate();
    assert_eq!(s.ticks_per_step, 2);
    s.ticks_per_step = 192;
    s.up_tick_rate();
    assert_eq!(s.ticks_per_step, 192);
    s.down_tick_rate();
    assert_eq!(s.ticks_per_step, 191);
}

#[test]
fn channel_clamps_to_sixteen() {
    let mut s = Sequence::blank();
    s.down_channel();
    assert_eq!(s.channel, 0);
    s.up_channel();
    assert_eq!(s.channel, 1);
    s.channel = 15;
    s.up_channel();
    assert_eq!(s.channel, 15);
}

#[test]
fn port_clamps_to_given_maximum() {
    let mut s = Sequence::blank();
    s.down_port();
    assert_eq!(s.port, 0);
    s.up_port(2);
    assert_eq!(s.port, 1);
    s.up_port(2);
    assert_eq!(s.port, 2);
    s.up_port(2);
    assert_eq!(s.port, 2);
    s.down_port();
    assert_eq!(s.port, 1);
}

#[test]
fn commands_carry_channel_and_port() {
    let mut s = Sequence::blank();
    s.length = 1;
    s.channel = 5;
    s.port = 2;
    s.steps[0] = Step { trig: Trigger::On(33, 44), hold: false };
    s.state = PlayState::Starting;
    let mut out: Vec<OutCmd> = Vec::new();
    s.start(&mut out);
    assert_eq!(out, vec![on_cmd(2, 5, 33, 44)]);
}
