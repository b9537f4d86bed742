use atom_sampler::atom_event::{AtomEvent, Type};
use atom_sampler::error::Error;
use atom_sampler::jackmidi::{MidiMsgBase, MidiMsgGeneric, MAX_MIDI};
use atom_sampler::text::{bool_string, byte_list_string, decimal_string};

#[test]
fn decimal_matches_display() {
    for n in [0u64, 7, 9, 10, 11, 99, 100, 1234567890, u64::MAX] {
        assert_eq!(decimal_string(n), format!("{}", n));
    }
}

#[test]
fn decimal_exact_values() {
    assert_eq!(decimal_string(0), "0");
    assert_eq!(decimal_string(42), "42");
    assert_eq!(decimal_string(18446744073709551615), "18446744073709551615");
}

#[test]
fn bool_matches_display() {
    assert_eq!(bool_string(true), "true");
    assert_eq!(bool_string(false), "false");
}

#[test]
fn byte_list_matches_debug() {
    assert_eq!(byte_list_string(&[]), "[]");
    assert_eq!(byte_list_string(&[5]), "[5]");
    assert_eq!(byte_list_string(&[144, 60, 100]), "[144, 60, 100]");
    let bytes = [0u8, 255, 17, 3];
    assert_eq!(byte_list_string(&bytes), format!("{:?}", &bytes[..]));
}

#[test]
fn type_debug_matches_derive() {
    let types = [
        Type::Recording(true),
        Type::Recording(false),
        Type::ChangeStartAdress(0),
        Type::ChangeEndAdress(192000),
        Type::Playback(true),
        Type::Playback(false),
    ];
    for t in types {
        assert_eq!(t.debug_text(), format!("{:?}", t));
    }
}

#[test]
fn event_debug_matches_derive() {
    let e = AtomEvent { channel: 3, event_type: Type::Playback(true), start: true };
    assert_eq!(e.debug_text(), format!("{:?}", e));
    assert_eq!(
        e.debug_text(),
        "AtomEvent { channel: 3, event_type: Playback(true), start: true }"
    );
}

#[test]
fn error_text_is_variant_name() {
    let all = [Error::HoundError, Error::IoPathDoesNotExist, Error::IoError, Error::IoWrongDatatyp];
    for e in all {
        assert_eq!(e.to_string(), format!("{:?}", e));
    }
    assert_eq!(Error::IoWrongDatatyp.to_string(), "IoWrongDatatyp");
}

#[test]
fn hound_errors_map_to_hound_error() {
    assert_eq!(Error::from(hound::Error::FormatError("bad")), Error::HoundError);
    assert_eq!(Error::from(hound::Error::Unsupported), Error::HoundError);
    assert_eq!(Error::from(hound::Error::TooWide), Error::HoundError);
}

#[test]
fn io_errors_map_to_io_error() {
    let e = std::io::Error::new(std::io::ErrorKind::NotFound, "missing");
    assert_eq!(Error::from(e), Error::IoError);
    let e = std::io::Error::new(std::io::ErrorKind::Other, "other");
    assert_eq!(Error::from(e), Error::IoError);
}

#[test]
fn midi_from_raw_keeps_three_bytes() {
    let m = MidiMsgGeneric::from_raw(&[144, 60, 100, 9], 7, 1000);
    assert_eq!(m.len, MAX_MIDI);
    assert_eq!(m.data, [144, 60, 100]);
    assert_eq!(m.time, 1007);
    assert_eq!(m.get_data(), vec![144, 60, 100]);
    assert_eq!(m.get_time(), 1007);
    assert_eq!(m.get_id(), u16::MAX);
    assert_eq!(m.get_value(), 0);
    assert_eq!(m.type_of(), "MidiMsgGeneric");
}

#[test]
fn midi_text() {
    let m = MidiMsgGeneric::from_raw(&[144, 60, 100], 7, 1000);
    assert_eq!(m.to_string(), "MidiGeneric: time: 1007, len: 3, data: [144, 60, 100]");
    let short = MidiMsgGeneric { len: 2, data: [1, 2, 3], time: 0 };
    assert_eq!(short.to_string(), "MidiGeneric: time: 0, len: 2, data: [1, 2]");
    let empty = MidiMsgGeneric { len: 0, data: [1, 2, 3], time: 5 };
    assert_eq!(empty.to_string(), "MidiGeneric: time: 5, len: 0, data: []");
    // get_data returns all bytes, whatever the length says
    assert_eq!(short.get_data(), vec![1, 2, 3]);
}
