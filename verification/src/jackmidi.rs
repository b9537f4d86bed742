//! MIDI messages copied out of the real-time audio thread.

use vstd::prelude::*;
use crate::text::{byte_list, byte_list_string, decimal, decimal_string};
use vstd::slice::slice_subrange;

verus! {

/// The number of bytes a MIDI message keeps.
pub const MAX_MIDI: usize = 3;

/// What every MIDI message of the sampler can say about itself.
pub trait MidiMsgBase {
    fn type_of(&self) -> &str;

    fn get_data(&self) -> Vec<u8>;

    fn get_id(&self) -> u16;

    fn get_value(&self) -> u16;

    fn get_time(&self) -> u64;
}

/// A fixed size container to copy MIDI data out of the real-time thread.
#[derive(Copy, Clone)]
pub struct MidiMsgGeneric {
    pub len: usize,
    pub data: [u8; MAX_MIDI],
    pub time: u64,
}

/// The text of a generic MIDI message: its time, its length and the bytes it uses.
pub open spec fn midi_text(m: MidiMsgGeneric) -> Seq<char>
    recommends
        m.len <= MAX_MIDI,
{
    "MidiGeneric: time: "@ + decimal(m.time as nat) + ", len: "@ + decimal(m.len as nat)
        + ", data: "@ + byte_list(m.data@.take(m.len as int))
}

impl MidiMsgBase for MidiMsgGeneric {
    fn type_of(&self) -> (s: &str)
        ensures
            s@ == "MidiMsgGeneric"@,
    {
        "MidiMsgGeneric"
    }

    fn get_data(&self) -> (v: Vec<u8>)
        ensures
            v@ == self.data@,
    {
        let mut v: Vec<u8> = Vec::new();
        for i in 0..MAX_MIDI
            invariant
                v@ == self.data@.take(i as int),
        {
            v.push(self.data[i]);
            assert(self.data@.take(i + 1) =~= self.data@.take(i as int).push(self.data@[i as int]));
        }
        assert(self.data@.take(MAX_MIDI as int) =~= self.data@);
        v
    }

    fn get_id(&self) -> (id: u16)
        ensures
            id == u16::MAX,
    {
        u16::MAX
    }

    fn get_value(&self) -> (value: u16)
        ensures
            value == 0,
    {
        0
    }

    fn get_time(&self) -> (time: u64)
        ensures
            time == self.time,
    {
        self.time
    }
}

impl MidiMsgGeneric {
    /// Builds a message from the bytes of a raw MIDI event, the frame
    /// offset of the event in its process cycle and the audio server's
    /// clock at that cycle: the first `MAX_MIDI` bytes are kept, and the
    /// time is the sum of offset and clock.
    pub fn from_raw(bytes: &[u8], frame_time: u32, now: u64) -> (m: MidiMsgGeneric)
        requires
            bytes@.len() >= MAX_MIDI,
            frame_time + now <= u64::MAX,
        ensures
            m.len == MAX_MIDI,
            m.data@ == bytes@.take(MAX_MIDI as int),
            m.time == frame_time + now,
    {
        let data: [u8; MAX_MIDI] = [bytes[0], bytes[1], bytes[2]];
        assert(data@ =~= bytes@.take(MAX_MIDI as int));
        MidiMsgGeneric { len: MAX_MIDI, data, time: frame_time as u64 + now }
    }

    /// Renders the message as its `Display` and `Debug` forms do:
    /// `MidiGeneric: time: 7, len: 3, data: [144, 60, 100]`.
    pub fn to_string(&self) -> (s: String)
        requires
            self.len <= MAX_MIDI,
        ensures
            s@ == midi_text(*self),
    {
        let mut s = String::from_str("MidiGeneric: time: ");
        let time = decimal_string(self.time);
        s.append(time.as_str());
        s.append(", len: ");
        let len = decimal_string(self.len as u64);
        s.append(len.as_str());
        s.append(", data: ");
        let used = slice_subrange(self.data.as_slice(), 0, self.len);
        let bytes = byte_list_string(used);
        s.append(bytes.as_str());
        s
    }
}

} // verus!
