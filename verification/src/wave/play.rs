//! Playback: the sample is handed to the audio thread chunk by chunk,
//! whenever the audio thread has little left to play.

use vstd::prelude::*;
use crate::dsp::sample::Sample;

verus! {

/// The most values handed over from one channel in one step.
pub const PLAY_CHUNK: usize = 1024;

/// The audio thread is given more values only while it holds fewer than this.
pub const PLAY_LOW_WATER: usize = 2048;

/// What a playback step does.
#[derive(PartialEq, Eq, Structural, Clone, Copy, Debug)]
pub enum PlayStep {
    /// One channel has been played to its end: playback is over.
    Finished,
    /// The audio thread holds enough: wait a little and look again.
    Wait,
    /// Hand over the left values `left_from..left_to` and the right values
    /// `right_from..right_to`.
    Push { left_from: usize, left_to: usize, right_from: usize, right_to: usize },
}

/// How far each channel of a sample has been handed over.
pub struct PlaybackCursor {
    pub left: usize,
    pub right: usize,
    pub running: bool,
}

/// The step of a cursor at `left` and `right` over channels of the given
/// lengths, when the audio thread holds `occupied` values of the left channel.
pub open spec fn play_step(left: int, right: int, len_left: int, len_right: int, occupied: int) -> PlayStep {
    if left >= len_left || right >= len_right {
        PlayStep::Finished
    } else if occupied < PLAY_LOW_WATER {
        let n_left = if len_left - left < PLAY_CHUNK { len_left - left } else { PLAY_CHUNK as int };
        let n_right = if len_right - right < PLAY_CHUNK { len_right - right } else { PLAY_CHUNK as int };
        PlayStep::Push {
            left_from: left as usize,
            left_to: (left + n_left) as usize,
            right_from: right as usize,
            right_to: (right + n_right) as usize,
        }
    } else {
        PlayStep::Wait
    }
}

/// A playback step hands over the next values of each channel: exactly a
/// chunk of each, or all that is left of a channel when less than a chunk
/// is left, never past the end; playback is over
/// exactly when a channel is exhausted, and waits only while the audio
/// thread holds enough.
pub proof fn law_push_within(left: int, right: int, len_left: int, len_right: int, occupied: int)
    requires
        0 <= left,
        0 <= right,
        len_left <= usize::MAX,
        len_right <= usize::MAX,
    ensures
        (play_step(left, right, len_left, len_right, occupied) is Finished) <==> (left >= len_left
            || right >= len_right),
        play_step(left, right, len_left, len_right, occupied) is Wait ==> occupied >= PLAY_LOW_WATER,
        match play_step(left, right, len_left, len_right, occupied) {
            PlayStep::Push { left_from, left_to, right_from, right_to } => {
                &&& left_from == left && left_from < left_to <= len_left
                &&& left_to - left_from == (if len_left - left < PLAY_CHUNK {
                    len_left - left
                } else {
                    PLAY_CHUNK as int
                })
                &&& right_from == right && right_from < right_to <= len_right
                &&& right_to - right_from == (if len_right - right < PLAY_CHUNK {
                    len_right - right
                } else {
                    PLAY_CHUNK as int
                })
                &&& occupied < PLAY_LOW_WATER
            },
            _ => true,
        },
{
}

impl PlaybackCursor {
    /// Neither cursor has passed the end of its channel.
    pub open spec fn within(&self, sample: &Sample) -> bool {
        self.left <= sample.data_left@.len() && self.right <= sample.data_right@.len()
    }

    /// A running playback at the start of both channels.
    pub fn new() -> (c: PlaybackCursor)
        ensures
            c.left == 0,
            c.right == 0,
            c.running,
    {
        PlaybackCursor { left: 0, right: 0, running: true }
    }

    /// Takes note of a message on the stop channel: `Some(true)` ends the
    /// playback, anything else leaves it running.
    pub fn receive_stop(&mut self, message: Option<bool>)
        ensures
            final(self).running == (old(self).running && message != Some(true)),
            final(self).left == old(self).left,
            final(self).right == old(self).right,
    {
        if let Some(is_stop) = message {
            if is_stop {
                self.running = false;
            }
        }
    }

    /// Decides the next step from the number of values the audio thread
    /// still holds of the left channel; an exhausted channel ends playback.
    pub fn plan(&mut self, sample: &Sample, occupied_left: usize) -> (step: PlayStep)
        ensures
            step == play_step(
                old(self).left as int,
                old(self).right as int,
                sample.data_left@.len() as int,
                sample.data_right@.len() as int,
                occupied_left as int,
            ),
            final(self).running == (old(self).running && step != PlayStep::Finished),
            final(self).left == old(self).left,
            final(self).right == old(self).right,
    {
        let len_left = sample.data_left.len();
        let len_right = sample.data_right.len();
        if self.left >= len_left || self.right >= len_right {
            self.running = false;
            PlayStep::Finished
        } else if occupied_left < PLAY_LOW_WATER {
            let n_left = if len_left - self.left < PLAY_CHUNK {
                len_left - self.left
            } else {
                PLAY_CHUNK
            };
            let n_right = if len_right - self.right < PLAY_CHUNK {
                len_right - self.right
            } else {
                PLAY_CHUNK
            };
            PlayStep::Push {
                left_from: self.left,
                left_to: self.left + n_left,
                right_from: self.right,
                right_to: self.right + n_right,
            }
        } else {
            PlayStep::Wait
        }
    }

    /// Moves each cursor on by the number of values the audio thread
    /// accepted from it.
    pub fn advance(&mut self, sample: &Sample, pushed_left: usize, pushed_right: usize)
        requires
            old(self).left + pushed_left <= sample.data_left@.len(),
            old(self).right + pushed_right <= sample.data_right@.len(),
        ensures
            final(self).left == old(self).left + pushed_left,
            final(self).right == old(self).right + pushed_right,
            final(self).running == old(self).running,
            final(self).within(sample),
    {
        let len_left = sample.data_left.len();
        let len_right = sample.data_right.len();
        self.left = self.left + pushed_left;
        self.right = self.right + pushed_right;
    }
}

} // verus!
