use stepseq::midi_msg::{parse, MidiMessage};
use stepseq::out_port::{note_off, note_on, OutCmd};

#[test]
fn note_on_composes_status_and_data() {
    assert_eq!(note_on(1, 60, 100), vec![0x91, 60, 100]);
    assert_eq!(note_on(0, 0, 0), vec![0x90, 0, 0]);
    assert_eq!(note_on(15, 127, 127), vec![0x9F, 127, 127]);
}

#[test]
fn note_off_composes_status_and_data() {
    assert_eq!(note_off(0, 60, 127), vec![0x80, 60, 127]);
    assert_eq!(note_off(5, 33, 64), vec![0x85, 33, 64]);
}

#[test]
fn command_bytes_match_its_fields() {
    let on = OutCmd { note_on: true, port: 3, channel: 2, note: 70, velocity: 90 };
    assert_eq!(on.to_bytes(), vec![0x92, 70, 90]);
    let off = OutCmd { note_on: false, port: 3, channel: 2, note: 70, velocity: 127 };
    assert_eq!(off.to_bytes(), vec![0x82, 70, 127]);
}

#[test]
fn gateway_bytes_decode_back() {
    // What the gateway sends, the decoder reads back as the same note
    // event; the port index never reaches the wire.
    let on = OutCmd { note_on: true, port: 9, channel: 4, note: 65, velocity: 101 };
    assert_eq!(parse(&on.to_bytes()), MidiMessage::NoteOn(4, 65, 101));
    let off = OutCmd { note_on: false, port: 9, channel: 4, note: 65, velocity: 127 };
    assert_eq!(parse(&off.to_bytes()), MidiMessage::NoteOff(4, 65, 127));
}
