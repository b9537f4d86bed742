//! Recording: the wave is filled chunk by chunk from what the audio thread
//! has captured, and the peaks of each chunk are reported for display.
//!
//! An audio value is the bit pattern of an `f32`. Values are compared by
//! `order_key`, which orders bit patterns as `f32::total_cmp` orders the
//! floats they encode.

use vstd::prelude::*;

verus! {

/// The length of the wave a recording fills.
pub const WAVE_SIZE: usize = 192000;

/// The most values taken from one channel in one step.
pub const CHUNK: usize = 1024;

/// The position of an `f32` bit pattern in IEEE-754 total order: positive
/// patterns keep their value, negative ones are mirrored below zero.
pub open spec fn order_key(bits: u32) -> int {
    if bits < 0x8000_0000 {
        bits as int
    } else {
        0x7fff_ffff - bits
    }
}

/// The largest value of `s` by `order_key`, the last of equals; the bit
/// pattern of `0.0` when `s` is empty.
pub open spec fn peak_max(s: Seq<u32>) -> u32
    decreases s.len(),
{
    if s.len() == 0 {
        0
    } else if s.len() == 1 {
        s[0]
    } else {
        let m = peak_max(s.drop_last());
        if order_key(s.last()) >= order_key(m) {
            s.last()
        } else {
            m
        }
    }
}

/// The smallest value of `s` by `order_key`, the first of equals; the bit
/// pattern of `0.0` when `s` is empty.
pub open spec fn peak_min(s: Seq<u32>) -> u32
    decreases s.len(),
{
    if s.len() == 0 {
        0
    } else if s.len() == 1 {
        s[0]
    } else {
        let m = peak_min(s.drop_last());
        if order_key(s.last()) < order_key(m) {
            s.last()
        } else {
            m
        }
    }
}

/// `w` with the `len` values from `at` on replaced by `items`.
pub open spec fn splice(w: Seq<u32>, at: int, len: int, items: Seq<u32>) -> Seq<u32> {
    w.take(at) + items + w.skip(at + len)
}

/// Distinct bit patterns have distinct keys, so a peak is determined by its key.
pub proof fn lemma_order_key_injective(a: u32, b: u32)
    ensures
        order_key(a) == order_key(b) ==> a == b,
{
}

/// The maximum peak is a value of the chunk, and no value of the chunk
/// comes after it in total order.
pub proof fn lemma_peak_max_is_greatest(s: Seq<u32>)
    ensures
        s.len() > 0 ==> s.contains(peak_max(s)),
        forall|i: int| 0 <= i < s.len() ==> order_key(#[trigger] s[i]) <= order_key(peak_max(s)),
    decreases s.len(),
{
    if s.len() > 1 {
        let p = s.drop_last();
        lemma_peak_max_is_greatest(p);
        assert forall|i: int| 0 <= i < s.len() implies order_key(#[trigger] s[i]) <= order_key(
            peak_max(s),
        ) by {
            if i < s.len() - 1 {
                assert(s[i] == p[i]);
            }
        }
        if order_key(s.last()) < order_key(peak_max(p)) {
            let j = choose|j: int| 0 <= j < p.len() && p[j] == peak_max(p);
            assert(s[j] == peak_max(s));
        } else {
            assert(s[s.len() - 1] == peak_max(s));
        }
    } else if s.len() == 1 {
        assert(s[0] == peak_max(s));
    }
}

/// The minimum peak is a value of the chunk, and no value of the chunk
/// comes before it in total order.
pub proof fn lemma_peak_min_is_least(s: Seq<u32>)
    ensures
        s.len() > 0 ==> s.contains(peak_min(s)),
        forall|i: int| 0 <= i < s.len() ==> order_key(peak_min(s)) <= order_key(#[trigger] s[i]),
    decreases s.len(),
{
    if s.len() > 1 {
        let p = s.drop_last();
        lemma_peak_min_is_least(p);
        assert forall|i: int| 0 <= i < s.len() implies order_key(peak_min(s)) <= order_key(
            #[trigger] s[i],
        ) by {
            if i < s.len() - 1 {
                assert(s[i] == p[i]);
            }
        }
        if order_key(s.last()) < order_key(peak_min(p)) {
            assert(s[s.len() - 1] == peak_min(s));
        } else {
            let j = choose|j: int| 0 <= j < p.len() && p[j] == peak_min(p);
            assert(s[j] == peak_min(s));
        }
    } else if s.len() == 1 {
        assert(s[0] == peak_min(s));
    }
}

/// The position of `bits` in total order, computed.
pub fn order_key_of(bits: u32) -> (k: i64)
    ensures
        k == order_key(bits),
{
    if bits < 0x8000_0000 {
        bits as i64
    } else {
        0x7fff_ffff_i64 - bits as i64
    }
}

/// The peaks `(maximum, minimum)` of the values of `wave` from `from` up
/// to `to`, as the recording reports them.
pub fn chunk_peaks(wave: &Vec<u32>, from: usize, to: usize) -> (peaks: (u32, u32))
    requires
        from <= to <= wave@.len(),
    ensures
        peaks == (peak_max(wave@.subrange(from as int, to as int)), peak_min(
            wave@.subrange(from as int, to as int),
        )),
{
    if from == to {
        return (0, 0);
    }
    let mut hi = wave[from];
    let mut lo = wave[from];
    let mut i = from + 1;
    assert(wave@.subrange(from as int, i as int) =~= seq![wave@[from as int]]);
    while i < to
        invariant
            from < i <= to <= wave@.len(),
            hi == peak_max(wave@.subrange(from as int, i as int)),
            lo == peak_min(wave@.subrange(from as int, i as int)),
        decreases to - i,
    {
        let x = wave[i];
        let ghost next = wave@.subrange(from as int, i + 1);
        assert(next.drop_last() =~= wave@.subrange(from as int, i as int));
        assert(next.last() == x);
        if order_key_of(x) >= order_key_of(hi) {
            hi = x;
        }
        if order_key_of(x) < order_key_of(lo) {
            lo = x;
        }
        i = i + 1;
    }
    (hi, lo)
}

/// Writes `items` over the `len` values of `wave` from `at` on, as
/// `Vec::splice` does; the wave grows where `items` is longer than `len`.
pub fn splice_into(wave: &mut Vec<u32>, at: usize, len: usize, items: &Vec<u32>)
    requires
        at + len <= old(wave)@.len(),
        items@.len() >= len,
    ensures
        final(wave)@ == splice(old(wave)@, at as int, len as int, items@),
{
    let ghost w0 = wave@;
    assert(w0.len() == wave.len());
    let mut i: usize = 0;
    while i < len
        invariant
            0 <= i <= len,
            at + len <= w0.len(),
            w0.len() <= usize::MAX,
            items@.len() >= len,
            wave@ == w0.take(at as int) + items@.take(i as int) + w0.skip(at + i),
        decreases len - i,
    {
        proof {
            assert(wave@.len() == w0.len());
        }
        wave.set(at + i, items[i]);
        assert(wave@ =~= w0.take(at as int) + items@.take(i + 1) + w0.skip(at + i + 1));
        i = i + 1;
    }
    let n = items.len();
    let mut k: usize = len;
    while k < n
        invariant
            len <= k <= n,
            n == items@.len(),
            at + len <= w0.len(),
            wave@ == w0.take(at as int) + items@.take(k as int) + w0.skip(at + len),
        decreases n - k,
    {
        assert(wave@.len() == at + k + (w0.len() - at - len));
        assert(wave@.len() == wave.len());
        wave.insert(at + k, items[k]);
        assert(wave@ =~= w0.take(at as int) + items@.take(k + 1) + w0.skip(at + len));
        k = k + 1;
    }
    assert(items@.take(n as int) =~= items@);
}

/// What a recording step does with the values the audio thread holds.
#[derive(PartialEq, Eq, Structural, Clone, Copy, Debug)]
pub enum RecordStep {
    /// Nothing arrived: wait a little and look again.
    Idle,
    /// Take `left` values of the left and `right` values of the right channel.
    Capture { left: usize, right: usize },
    /// The wave has no room for the next chunk: drop what is held and stop.
    Full,
}

/// The peaks of one recorded chunk: its largest and smallest value.
pub type Peaks = (u32, u32);

/// The state of a running recording.
pub struct Recorder {
    pub wave_left: Vec<u32>,
    pub wave_right: Vec<u32>,
    pub pointer_left: usize,
    pub pointer_right: usize,
    pub running: bool,
}

/// The step that a recorder at `pointer_left` and `pointer_right` takes
/// when the audio thread holds the given numbers of values.
pub open spec fn record_step(
    pointer_left: int,
    pointer_right: int,
    occupied_left: int,
    occupied_right: int,
) -> RecordStep {
    let left = if occupied_left < CHUNK { occupied_left } else { CHUNK as int };
    let right = if occupied_right < CHUNK { occupied_right } else { CHUNK as int };
    if left == 0 && right == 0 {
        RecordStep::Idle
    } else if pointer_left + left < WAVE_SIZE && pointer_right + right < WAVE_SIZE {
        RecordStep::Capture { left: left as usize, right: right as usize }
    } else {
        RecordStep::Full
    }
}

/// A capture always fits: of each channel it takes exactly a chunk, or
/// all the audio thread holds when that is less, takes something, and ends
/// before the end of the wave. A recording waits only when nothing
/// arrived, and is full only when a chunk would reach the end of a wave.
pub proof fn law_capture_fits(pointer_left: int, pointer_right: int, occupied_left: int, occupied_right: int)
    requires
        occupied_left >= 0,
        occupied_right >= 0,
    ensures
        match record_step(pointer_left, pointer_right, occupied_left, occupied_right) {
            RecordStep::Capture { left, right } => {
                &&& left == (if occupied_left < CHUNK { occupied_left } else { CHUNK as int })
                &&& right == (if occupied_right < CHUNK { occupied_right } else { CHUNK as int })
                &&& left <= CHUNK && left <= occupied_left
                &&& right <= CHUNK && right <= occupied_right
                &&& left > 0 || right > 0
                &&& pointer_left + left < WAVE_SIZE
                &&& pointer_right + right < WAVE_SIZE
            },
            RecordStep::Idle => occupied_left == 0 && occupied_right == 0,
            RecordStep::Full => {
                ||| pointer_left + (if occupied_left < CHUNK { occupied_left } else { CHUNK as int })
                    >= WAVE_SIZE
                ||| pointer_right + (if occupied_right < CHUNK { occupied_right } else { CHUNK as int })
                    >= WAVE_SIZE
            },
        },
{
}

impl Recorder {
    /// Both waves hold at least `WAVE_SIZE` values and both write pointers
    /// lie inside them.
    pub open spec fn well_formed(&self) -> bool {
        &&& self.wave_left@.len() >= WAVE_SIZE
        &&& self.wave_right@.len() >= WAVE_SIZE
        &&& self.pointer_left < WAVE_SIZE
        &&& self.pointer_right < WAVE_SIZE
    }

    /// A running recording over two silent waves of `WAVE_SIZE` values.
    pub fn new() -> (r: Recorder)
        ensures
            r.well_formed(),
            r.wave_left@ == Seq::new(WAVE_SIZE as nat, |i: int| 0u32),
            r.wave_right@ == Seq::new(WAVE_SIZE as nat, |i: int| 0u32),
            r.pointer_left == 0,
            r.pointer_right == 0,
            r.running,
    {
        let wave_left = vec![0u32; WAVE_SIZE];
        let wave_right = vec![0u32; WAVE_SIZE];
        assert(wave_left@ =~= Seq::new(WAVE_SIZE as nat, |i: int| 0u32));
        assert(wave_right@ =~= Seq::new(WAVE_SIZE as nat, |i: int| 0u32));
        Recorder { wave_left, wave_right, pointer_left: 0, pointer_right: 0, running: true }
    }

    /// Decides the next step from the numbers of values the audio thread
    /// holds for each channel; a full wave ends the recording.
    pub fn plan(&mut self, occupied_left: usize, occupied_right: usize) -> (step: RecordStep)
        ensures
            step == record_step(
                old(self).pointer_left as int,
                old(self).pointer_right as int,
                occupied_left as int,
                occupied_right as int,
            ),
            final(self).running == (old(self).running && step != RecordStep::Full),
            final(self).wave_left == old(self).wave_left,
            final(self).wave_right == old(self).wave_right,
            final(self).pointer_left == old(self).pointer_left,
            final(self).pointer_right == old(self).pointer_right,
    {
        let left = if occupied_left < CHUNK { occupied_left } else { CHUNK };
        let right = if occupied_right < CHUNK { occupied_right } else { CHUNK };
        if left == 0 && right == 0 {
            RecordStep::Idle
        } else if self.pointer_left < WAVE_SIZE && left < WAVE_SIZE - self.pointer_left
            && self.pointer_right < WAVE_SIZE && right < WAVE_SIZE - self.pointer_right {
            RecordStep::Capture { left, right }
        } else {
            self.running = false;
            RecordStep::Full
        }
    }

    /// Stores a captured chunk: `popped_left` (at least `left` values, all
    /// that the audio thread held) replaces the next `left` values of the
    /// left wave, and the pointer moves on by `left`; the same for the right
    /// channel. Returns the peaks of the `left` and `right` values stored.
    pub fn capture(
        &mut self,
        left: usize,
        popped_left: Vec<u32>,
        right: usize,
        popped_right: Vec<u32>,
    ) -> (peaks: (Peaks, Peaks))
        requires
            old(self).well_formed(),
            old(self).pointer_left + left < WAVE_SIZE,
            old(self).pointer_right + right < WAVE_SIZE,
            popped_left@.len() >= left,
            popped_right@.len() >= right,
        ensures
            final(self).well_formed(),
            final(self).wave_left@ == splice(
                old(self).wave_left@,
                old(self).pointer_left as int,
                left as int,
                popped_left@,
            ),
            final(self).wave_right@ == splice(
                old(self).wave_right@,
                old(self).pointer_right as int,
                right as int,
                popped_right@,
            ),
            final(self).pointer_left == old(self).pointer_left + left,
            final(self).pointer_right == old(self).pointer_right + right,
            final(self).running == old(self).running,
            peaks.0 == (
                peak_max(popped_left@.take(left as int)),
                peak_min(popped_left@.take(left as int)),
            ),
            peaks.1 == (
                peak_max(popped_right@.take(right as int)),
                peak_min(popped_right@.take(right as int)),
            ),
    {
        let pl = self.pointer_left;
        let pr = self.pointer_right;
        splice_into(&mut self.wave_left, pl, left, &popped_left);
        let peaks_left = chunk_peaks(&self.wave_left, pl, pl + left);
        assert(self.wave_left@.subrange(pl as int, pl + left) =~= popped_left@.take(left as int));
        splice_into(&mut self.wave_right, pr, right, &popped_right);
        let peaks_right = chunk_peaks(&self.wave_right, pr, pr + right);
        assert(self.wave_right@.subrange(pr as int, pr + right) =~= popped_right@.take(
            right as int,
        ));
        self.pointer_left = pl + left;
        self.pointer_right = pr + right;
        (peaks_left, peaks_right)
    }

    /// Takes note of a message on the stop channel: `Some(true)` ends the
    /// recording, anything else leaves it running.
    pub fn receive_stop(&mut self, message: Option<bool>)
        ensures
            final(self).running == (old(self).running && message != Some(true)),
            final(self).wave_left == old(self).wave_left,
            final(self).wave_right == old(self).wave_right,
            final(self).pointer_left == old(self).pointer_left,
            final(self).pointer_right == old(self).pointer_right,
    {
        if let Some(is_stop) = message {
            if is_stop {
                self.running = false;
            }
        }
    }

    /// The two recorded waves, left first.
    pub fn into_waves(self) -> (waves: (Vec<u32>, Vec<u32>))
        ensures
            waves.0@ == self.wave_left@,
            waves.1@ == self.wave_right@,
    {
        (self.wave_left, self.wave_right)
    }
}

} // verus!
