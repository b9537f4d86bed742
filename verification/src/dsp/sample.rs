//! A stereo sample. Each audio value is held as the IEEE-754 bit pattern of
//! its `f32`, so that it passes through the library unchanged.

use vstd::prelude::*;
use crate::error::{Error, Result};

verus! {

/// The bit pattern of the `f32` value 1.0.
pub const UNITY_BITS: u32 = 0x3f80_0000;

/// The bit pattern of the `f32` value 0.5.
pub const HALF_BITS: u32 = 0x3f00_0000;

/// How a wave file stores its samples.
#[derive(PartialEq, Eq, Structural, Clone, Copy, Debug)]
pub enum SampleFormat {
    /// IEEE floating point samples.
    Float,
    /// Integer samples.
    Int,
}

/// A stereo sample: the left and right channel, and the playback
/// parameters (gain, speed and pan, as `f32` bit patterns).
pub struct Sample {
    pub data_left: Vec<u32>,
    pub data_right: Vec<u32>,
    pub gain: u32,
    pub speed: u32,
    pub pan: u32,
}

impl Sample {
    /// An empty sample with unity gain, unity speed and centre pan.
    pub fn new() -> (s: Sample)
        ensures
            s.data_left@ == Seq::<u32>::empty(),
            s.data_right@ == Seq::<u32>::empty(),
            s.gain == UNITY_BITS,
            s.speed == UNITY_BITS,
            s.pan == HALF_BITS,
    {
        Sample {
            data_left: Vec::new(),
            data_right: Vec::new(),
            gain: UNITY_BITS,
            speed: UNITY_BITS,
            pan: HALF_BITS,
        }
    }

    /// Replaces both channels with the given data; never fails.
    pub fn load_from_data(&mut self, data_left: Vec<u32>, data_right: Vec<u32>) -> (r: Result<()>)
        ensures
            r is Ok,
            final(self).data_left@ == data_left@,
            final(self).data_right@ == data_right@,
            final(self).gain == old(self).gain,
            final(self).speed == old(self).speed,
            final(self).pan == old(self).pan,
    {
        self.data_left = data_left;
        self.data_right = data_right;
        Ok(())
    }

    /// Loads the decoded samples of a wave file: floating point data goes
    /// to both channels; any other format is refused with
    /// `IoWrongDatatyp` and leaves the sample as it was.
    pub fn load_from_wav_data(&mut self, format: SampleFormat, data: Vec<u32>) -> (r: Result<()>)
        ensures
            r is Ok <==> format == SampleFormat::Float,
            r is Err ==> r == Err::<(), Error>(Error::IoWrongDatatyp),
            format == SampleFormat::Float ==> final(self).data_left@ == data@
                && final(self).data_right@ == data@,
            format != SampleFormat::Float ==> final(self).data_left@ == old(self).data_left@
                && final(self).data_right@ == old(self).data_right@,
            final(self).gain == old(self).gain,
            final(self).speed == old(self).speed,
            final(self).pan == old(self).pan,
    {
        match format {
            SampleFormat::Float => {
                self.data_left = data.clone();
                self.data_right = data;
                Ok(())
            },
            _ => Err(Error::IoWrongDatatyp),
        }
    }
}

impl Default for Sample {
    fn default() -> (s: Sample)
        ensures
            s.data_left@ == Seq::<u32>::empty(),
            s.data_right@ == Seq::<u32>::empty(),
            s.gain == UNITY_BITS,
            s.speed == UNITY_BITS,
            s.pan == HALF_BITS,
    {
        Sample::new()
    }
}

} // verus!
