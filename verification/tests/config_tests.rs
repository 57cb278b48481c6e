use stepseq::config_file::{
    apply_config, seq_to_config, to_config, usize_to_string, ConfError, Config, MidiInConfig,
    NoteConfig, SeqConfig, StepConfig,
};
use stepseq::sequence::Trigger;
use stepseq::sequence_player::Player;

fn entry(midi_map: usize) -> SeqConfig {
    SeqConfig {
        midi_map,
        channel: 3,
        tick_rate: 12,
        port: Some(1),
        steps: vec![
            StepConfig { note: Some(NoteConfig { nn: 60, vel: 100 }), hold: false },
            StepConfig { note: None, hold: true },
        ],
        hold: true,
    }
}

fn config_of(seqs: Vec<SeqConfig>) -> Config {
    Config { in_ports: vec![], out_ports: vec![], seqs }
}

#[test]
fn usize_renders_in_decimal() {
    assert_eq!(usize_to_string(0), "0");
    assert_eq!(usize_to_string(7), "7");
    assert_eq!(usize_to_string(10), "10");
    assert_eq!(usize_to_string(123), "123");
    assert_eq!(usize_to_string(6400), "6400");
}

#[test]
fn conf_error_keeps_its_message() {
    let e = ConfError::new(String::from("something went wrong"));
    assert_eq!(e.message(), "something went wrong");
}

#[test]
fn valid_config_is_applied() {
    let mut p = Player::blank();
    let conf = config_of(vec![entry(5)]);
    assert!(apply_config(&mut p, &conf).is_ok());

    let s = &p.midi_map[5];
    assert_eq!(s.length, 2);
    assert_eq!(s.channel, 3);
    assert_eq!(s.ticks_per_step, 12);
    assert_eq!(s.port, 1);
    assert!(s.hold);
    assert_eq!(s.steps[0].trig, Trigger::On(60, 100));
    assert!(!s.steps[0].hold);
    assert_eq!(s.steps[1].trig, Trigger::Off);
    assert!(s.steps[1].hold);
    // Other slots stay blank.
    assert!(p.midi_map[4].is_blank());
    assert!(p.midi_map[6].is_blank());
}

#[test]
fn entry_without_port_keeps_the_old_one() {
    let mut p = Player::blank();
    let mut e = entry(9);
    e.port = None;
    assert!(apply_config(&mut p, &config_of(vec![e])).is_ok());
    assert_eq!(p.midi_map[9].port, 0);
}

#[test]
fn out_of_range_slot_is_rejected() {
    let mut p = Player::blank();
    let conf = config_of(vec![entry(128)]);
    let err = apply_config(&mut p, &conf).unwrap_err();
    assert_eq!(err.message(), "sequence 0 has out of range midi_map");
}

#[test]
fn out_of_range_channel_is_rejected() {
    let mut p = Player::blank();
    let mut bad = entry(4);
    bad.channel = 16;
    let conf = config_of(vec![entry(2), bad]);
    let err = apply_config(&mut p, &conf).unwrap_err();
    assert_eq!(err.message(), "sequence 1 has out of range channel");
}

#[test]
fn too_long_pattern_is_rejected() {
    let mut p = Player::blank();
    let mut bad = entry(4);
    bad.steps = vec![StepConfig { note: None, hold: false }; 65];
    let conf = config_of(vec![bad]);
    let err = apply_config(&mut p, &conf).unwrap_err();
    assert_eq!(err.message(), "sequence 0 has too long a sequence");
}

#[test]
fn out_of_range_tick_rate_is_rejected() {
    let mut p = Player::blank();
    let mut bad = entry(4);
    bad.tick_rate = 0;
    let err = apply_config(&mut p, &config_of(vec![bad])).unwrap_err();
    assert_eq!(err.message(), "sequence 0 has out of range tick_rate");

    let mut bad = entry(4);
    bad.tick_rate = 193;
    let err = apply_config(&mut p, &config_of(vec![bad])).unwrap_err();
    assert_eq!(err.message(), "sequence 0 has out of range tick_rate");
}

#[test]
fn bad_config_is_not_partially_applied() {
    // The first entry is fine, the second is not: nothing may be
    // written.
    let mut p = Player::blank();
    let mut bad = entry(7);
    bad.midi_map = 500;
    let conf = config_of(vec![entry(5), bad]);
    assert!(apply_config(&mut p, &conf).is_err());
    assert!(p.midi_map[5].is_blank());
    assert_eq!(p.midi_map[5].channel, 0);
}

#[test]
fn sequence_reads_back_as_an_entry() {
    let mut p = Player::blank();
    assert!(apply_config(&mut p, &config_of(vec![entry(5)])).is_ok());
    let e = seq_to_config(5, &p.midi_map[5]);
    assert_eq!(e.midi_map, 5);
    assert_eq!(e.channel, 3);
    assert_eq!(e.tick_rate, 12);
    assert_eq!(e.port, Some(1));
    assert!(e.hold);
    assert_eq!(e.steps.len(), 2);
    assert_eq!(e.steps[0].note, Some(NoteConfig { nn: 60, vel: 100 }));
    assert!(!e.steps[0].hold);
    assert_eq!(e.steps[1].note, None);
    assert!(e.steps[1].hold);
}

#[test]
fn player_reads_back_as_a_config() {
    let mut p = Player::blank();
    let conf = config_of(vec![entry(5), entry(100)]);
    assert!(apply_config(&mut p, &conf).is_ok());

    let in_ports = vec![MidiInConfig { port_num: 1, ticks: true }];
    let saved = to_config(&p, vec![0, 3], in_ports.clone());
    assert_eq!(saved.out_ports, vec![0, 3]);
    assert_eq!(saved.in_ports, in_ports);
    assert_eq!(saved.seqs.len(), 2);
    assert_eq!(saved.seqs[0].midi_map, 5);
    assert_eq!(saved.seqs[1].midi_map, 100);
    assert_eq!(saved.seqs[0].steps.len(), 2);
}

#[test]
fn later_entry_for_same_slot_wins() {
    let mut p = Player::blank();
    let mut second = entry(5);
    second.channel = 7;
    second.steps = vec![StepConfig { note: Some(NoteConfig { nn: 40, vel: 50 }), hold: false }];
    let conf = config_of(vec![entry(5), second]);
    assert!(apply_config(&mut p, &conf).is_ok());
    assert_eq!(p.midi_map[5].channel, 7);
    assert_eq!(p.midi_map[5].length, 1);
    assert_eq!(p.midi_map[5].steps[0].trig, Trigger::On(40, 50));
}

#[test]
fn later_entry_without_port_keeps_the_earlier_port() {
    // The last entry for a slot decides its fields, but a port it does
    // not name stays as the earlier entry set it.
    let mut p = Player::blank();
    let mut second = entry(5);
    second.port = None;
    second.tick_rate = 24;
    let conf = config_of(vec![entry(5), second]);
    assert!(apply_config(&mut p, &conf).is_ok());
    assert_eq!(p.midi_map[5].port, 1);
    assert_eq!(p.midi_map[5].ticks_per_step, 24);
}
