//! The wave handler: which sample is loaded, whether a recording or a
//! playback is running, and which of its worker resources it holds.
//!
//! The handler decides; the caller owns the worker threads and stop
//! channels and does what each method's result asks for.

use vstd::prelude::*;
use crate::dsp::sample::{Sample, HALF_BITS, UNITY_BITS};

verus! {

/// How a recording is started.
#[derive(PartialEq, Eq, Structural, Clone, Copy, Debug)]
pub enum RecordingLaunch {
    /// The recording inputs are missing: nothing is started.
    NotStarted,
    /// Start a recording that also reports its peaks for display.
    WithVisuals,
    /// Start a recording without peak reports.
    WithoutVisuals,
}

/// What the caller found when it looked at the recording worker.
pub enum RecordingPoll {
    /// The worker is still recording.
    Running,
    /// The worker has ended; it handed back the left and right wave, or
    /// nothing when it failed.
    Finished(Option<(Vec<u32>, Vec<u32>)>),
}

/// The state of a wave handler.
pub struct WaveHandler {
    pub sample: Option<Sample>,
    pub start_address: usize,
    pub end_address: usize,
    pub is_loaded: bool,
    pub state_recording: bool,
    pub state_playback: bool,
    pub path: Option<String>,
    /// A recording worker is held.
    pub rec_processing: bool,
    /// A playback worker is held.
    pub play_processing: bool,
    /// A stop channel to the recording worker is held.
    pub tx_stop_rec_bus: bool,
    /// A stop channel to the playback worker is held.
    pub tx_stop_play_bus: bool,
}

/// The sample made from the waves a recording handed back.
pub open spec fn recorded_sample(s: Sample, left: Seq<u32>, right: Seq<u32>) -> bool {
    &&& s.data_left@ == left
    &&& s.data_right@ == right
    &&& s.gain == UNITY_BITS
    &&& s.speed == UNITY_BITS
    &&& s.pan == HALF_BITS
}

/// The handler `new` after `old` looked at its recording worker and found
/// `poll`: when a worker was held and has ended, it is released and
/// recording is over, and the waves it handed back, if any, become the
/// sample; otherwise nothing changes.
pub open spec fn get_recording_post(old: WaveHandler, poll: RecordingPoll, new: WaveHandler) -> bool {
    let ended = old.rec_processing && poll is Finished;
    &&& ended ==> !new.rec_processing && !new.state_recording
    &&& !ended ==> new.rec_processing == old.rec_processing && new.state_recording
        == old.state_recording
    &&& match poll {
        RecordingPoll::Finished(Some(waves)) if old.rec_processing => {
            &&& new.sample is Some
            &&& recorded_sample(new.sample->0, waves.0@, waves.1@)
        },
        _ => new.sample == old.sample,
    }
    &&& new.start_address == old.start_address
    &&& new.end_address == old.end_address
    &&& new.is_loaded == old.is_loaded
    &&& new.state_playback == old.state_playback
    &&& new.path == old.path
    &&& new.play_processing == old.play_processing
    &&& new.tx_stop_rec_bus == old.tx_stop_rec_bus
    &&& new.tx_stop_play_bus == old.tx_stop_play_bus
}

/// The handler `new` and the sample `played` after `old` started
/// playback: the sample always leaves the handler and is played when the
/// outputs are there, in which case a stop channel and a playback worker
/// are held.
pub open spec fn start_playback_post(
    old: WaveHandler,
    outputs_available: bool,
    new: WaveHandler,
    played: Option<Sample>,
) -> bool {
    &&& new.sample is None
    &&& played == (if outputs_available {
        old.sample
    } else {
        None
    })
    &&& played is Some ==> new.tx_stop_play_bus && new.play_processing
    &&& played is None ==> new.tx_stop_play_bus == old.tx_stop_play_bus && new.play_processing
        == old.play_processing
    &&& new.start_address == old.start_address
    &&& new.end_address == old.end_address
    &&& new.is_loaded == old.is_loaded
    &&& new.state_recording == old.state_recording
    &&& new.state_playback == old.state_playback
    &&& new.path == old.path
    &&& new.rec_processing == old.rec_processing
    &&& new.tx_stop_rec_bus == old.tx_stop_rec_bus
}

/// A finished recording is what the next playback plays: when a handler
/// holding a recording worker learns that it ended with the waves `left`
/// and `right`, and playback is then started with its outputs there, the
/// sample played holds exactly those waves.
pub proof fn law_recording_is_played_back(
    h0: WaveHandler,
    h1: WaveHandler,
    h2: WaveHandler,
    left: Vec<u32>,
    right: Vec<u32>,
    played: Option<Sample>,
)
    requires
        h0.rec_processing,
        get_recording_post(h0, RecordingPoll::Finished(Some((left, right))), h1),
        start_playback_post(h1, true, h2, played),
    ensures
        !h1.state_recording,
        played is Some,
        played->0.data_left@ == left@,
        played->0.data_right@ == right@,
        h2.sample is None,
{
}

/// Starting playback a second time plays nothing: the first start took
/// the sample.
pub proof fn law_sample_played_once(
    h0: WaveHandler,
    h1: WaveHandler,
    h2: WaveHandler,
    outputs_first: bool,
    outputs_second: bool,
    first: Option<Sample>,
    second: Option<Sample>,
)
    requires
        start_playback_post(h0, outputs_first, h1, first),
        start_playback_post(h1, outputs_second, h2, second),
    ensures
        second is None,
{
}

impl WaveHandler {
    /// `self` and `other` agree on everything but the sample.
    pub open spec fn same_but_sample(&self, other: &WaveHandler) -> bool {
        &&& self.start_address == other.start_address
        &&& self.end_address == other.end_address
        &&& self.is_loaded == other.is_loaded
        &&& self.state_recording == other.state_recording
        &&& self.state_playback == other.state_playback
        &&& self.path == other.path
        &&& self.rec_processing == other.rec_processing
        &&& self.play_processing == other.play_processing
        &&& self.tx_stop_rec_bus == other.tx_stop_rec_bus
        &&& self.tx_stop_play_bus == other.tx_stop_play_bus
    }

    /// An idle handler: no sample, addresses at zero, nothing running and
    /// no worker resources held.
    pub fn new() -> (h: WaveHandler)
        ensures
            h.sample is None,
            h.start_address == 0,
            h.end_address == 0,
            !h.is_loaded,
            !h.state_recording,
            !h.state_playback,
            h.path is None,
            !h.rec_processing,
            !h.play_processing,
            !h.tx_stop_rec_bus,
            !h.tx_stop_play_bus,
    {
        WaveHandler {
            sample: None,
            start_address: 0,
            end_address: 0,
            is_loaded: false,
            state_recording: false,
            state_playback: false,
            path: None,
            rec_processing: false,
            play_processing: false,
            tx_stop_rec_bus: false,
            tx_stop_play_bus: false,
        }
    }

    /// Starts a recording when both recording inputs are there: the
    /// handler then holds a stop channel and a recording worker and is
    /// recording. The worker reports peaks when both display outputs are
    /// there too. Without the inputs nothing changes.
    pub fn start_recording(&mut self, inputs_available: bool, visuals_available: bool) -> (launch:
        RecordingLaunch)
        ensures
            launch == (if !inputs_available {
                RecordingLaunch::NotStarted
            } else if visuals_available {
                RecordingLaunch::WithVisuals
            } else {
                RecordingLaunch::WithoutVisuals
            }),
            inputs_available ==> {
                &&& final(self).tx_stop_rec_bus
                &&& final(self).rec_processing
                &&& final(self).state_recording
            },
            !inputs_available ==> final(self).tx_stop_rec_bus == old(self).tx_stop_rec_bus
                && final(self).rec_processing == old(self).rec_processing
                && final(self).state_recording == old(self).state_recording,
            final(self).sample == old(self).sample,
            final(self).start_address == old(self).start_address,
            final(self).end_address == old(self).end_address,
            final(self).is_loaded == old(self).is_loaded,
            final(self).state_playback == old(self).state_playback,
            final(self).path == old(self).path,
            final(self).play_processing == old(self).play_processing,
            final(self).tx_stop_play_bus == old(self).tx_stop_play_bus,
    {
        if inputs_available {
            self.tx_stop_rec_bus = true;
            self.rec_processing = true;
            self.state_recording = true;
            if visuals_available {
                RecordingLaunch::WithVisuals
            } else {
                RecordingLaunch::WithoutVisuals
            }
        } else {
            RecordingLaunch::NotStarted
        }
    }

    /// Asks the recording worker to stop: the result says whether a stop
    /// message goes out, which is when a stop channel is held. The state
    /// itself does not change; it does when the worker is seen to end.
    pub fn stop_recording(&self) -> (send: bool)
        ensures
            send == self.tx_stop_rec_bus,
    {
        self.tx_stop_rec_bus
    }

    /// Looks at the recording worker. When one is held and it has ended,
    /// it is released and recording is over; the waves it handed back, if
    /// any, become the sample. Otherwise nothing changes.
    pub fn get_recording(&mut self, poll: RecordingPoll)
        ensures
            get_recording_post(*old(self), poll, *final(self)),
    {
        if self.rec_processing {
            match poll {
                RecordingPoll::Running => {},
                RecordingPoll::Finished(result) => {
                    self.rec_processing = false;
                    if let Some((left_data, right_data)) = result {
                        let mut recording = Sample::new();
                        let _ = recording.load_from_data(left_data, right_data);
                        self.sample = Some(recording);
                    }
                    self.state_recording = false;
                },
            }
        }
    }

    /// Starts playback: the sample always leaves the handler, and is
    /// handed back to be played when both playback outputs are there, in
    /// which case the handler then holds a stop channel and a playback
    /// worker. Whether playback is running is recorded by the caller.
    pub fn start_playback(&mut self, outputs_available: bool) -> (played: Option<Sample>)
        ensures
            start_playback_post(*old(self), outputs_available, *final(self), played),
    {
        let taken = self.sample.take();
        match taken {
            Some(sample) => {
                if outputs_available {
                    self.tx_stop_play_bus = true;
                    self.play_processing = true;
                    Some(sample)
                } else {
                    None
                }
            },
            None => None,
        }
    }

    /// Asks the playback worker to stop: the result says whether a stop
    /// message goes out, which is when a stop channel is held.
    pub fn stop_playback(&self) -> (send: bool)
        ensures
            send == self.tx_stop_play_bus,
    {
        self.tx_stop_play_bus
    }

    /// Looks at the playback worker. When one is held and it has ended, it
    /// is released and playback is over; otherwise nothing changes.
    pub fn get_playback_finished(&mut self, finished: bool)
        ensures
            old(self).play_processing && finished ==> !final(self).play_processing
                && !final(self).state_playback,
            !(old(self).play_processing && finished) ==> final(self).play_processing == old(
                self,
            ).play_processing && final(self).state_playback == old(self).state_playback,
            final(self).sample == old(self).sample,
            final(self).start_address == old(self).start_address,
            final(self).end_address == old(self).end_address,
            final(self).is_loaded == old(self).is_loaded,
            final(self).state_recording == old(self).state_recording,
            final(self).path == old(self).path,
            final(self).rec_processing == old(self).rec_processing,
            final(self).tx_stop_rec_bus == old(self).tx_stop_rec_bus,
            final(self).tx_stop_play_bus == old(self).tx_stop_play_bus,
    {
        if self.play_processing && finished {
            self.play_processing = false;
            self.state_playback = false;
        }
    }

    /// Moves the start address.
    pub fn change_start_address(&mut self, address: usize)
        ensures
            final(self).start_address == address,
            final(self).end_address == old(self).end_address,
            final(self).sample == old(self).sample,
            final(self).is_loaded == old(self).is_loaded,
            final(self).state_recording == old(self).state_recording,
            final(self).state_playback == old(self).state_playback,
            final(self).path == old(self).path,
            final(self).rec_processing == old(self).rec_processing,
            final(self).play_processing == old(self).play_processing,
            final(self).tx_stop_rec_bus == old(self).tx_stop_rec_bus,
            final(self).tx_stop_play_bus == old(self).tx_stop_play_bus,
    {
        self.start_address = address;
    }

    /// Moves the end address.
    pub fn change_end_address(&mut self, address: usize)
        ensures
            final(self).end_address == address,
            final(self).start_address == old(self).start_address,
            final(self).sample == old(self).sample,
            final(self).is_loaded == old(self).is_loaded,
            final(self).state_recording == old(self).state_recording,
            final(self).state_playback == old(self).state_playback,
            final(self).path == old(self).path,
            final(self).rec_processing == old(self).rec_processing,
            final(self).play_processing == old(self).play_processing,
            final(self).tx_stop_rec_bus == old(self).tx_stop_rec_bus,
            final(self).tx_stop_play_bus == old(self).tx_stop_play_bus,
    {
        self.end_address = address;
    }
}

} // verus!
