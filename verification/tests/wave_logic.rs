use atom_sampler::dsp::sample::{Sample, SampleFormat, HALF_BITS, UNITY_BITS};
use atom_sampler::error::Error;
use atom_sampler::wave::play::{PlayStep, PlaybackCursor, PLAY_CHUNK, PLAY_LOW_WATER};
use atom_sampler::wave::record::{chunk_peaks, order_key_of, RecordStep, Recorder, CHUNK, WAVE_SIZE};

fn bits(xs: &[f32]) -> Vec<u32> {
    xs.iter().map(|x| x.to_bits()).collect()
}

#[test]
fn order_key_follows_total_cmp() {
    let values = [
        f32::NEG_INFINITY,
        -3.5,
        -1.0,
        -f32::MIN_POSITIVE,
        -0.0,
        0.0,
        f32::MIN_POSITIVE,
        0.25,
        1.0,
        f32::MAX,
        f32::INFINITY,
        f32::NAN,
        -f32::NAN,
    ];
    for a in values {
        for b in values {
            let by_key = order_key_of(a.to_bits()).cmp(&order_key_of(b.to_bits()));
            assert_eq!(by_key, a.total_cmp(&b), "{} vs {}", a, b);
        }
    }
}

#[test]
fn chunk_peaks_match_total_cmp_max_min() {
    let wave = bits(&[0.5, -0.25, 0.75, -0.9, 0.1, 0.75]);
    let (hi, lo) = chunk_peaks(&wave, 1, 5);
    assert_eq!(f32::from_bits(hi), 0.75);
    assert_eq!(f32::from_bits(lo), -0.9);
    let floats: Vec<f32> = wave.iter().map(|b| f32::from_bits(*b)).collect();
    let max = *floats.iter().max_by(|a, b| a.total_cmp(b)).unwrap();
    let min = *floats.iter().min_by(|a, b| a.total_cmp(b)).unwrap();
    let (hi, lo) = chunk_peaks(&wave, 0, wave.len());
    assert_eq!(f32::from_bits(hi), max);
    assert_eq!(f32::from_bits(lo), min);
}

#[test]
fn chunk_peaks_of_empty_chunk_are_zero() {
    let wave = bits(&[0.5, -0.25]);
    assert_eq!(chunk_peaks(&wave, 1, 1), (0, 0));
}

#[test]
fn chunk_peaks_signed_zero() {
    // total order puts -0.0 below 0.0
    let wave = bits(&[0.0, -0.0]);
    let (hi, lo) = chunk_peaks(&wave, 0, 2);
    assert_eq!(hi, 0.0f32.to_bits());
    assert_eq!(lo, (-0.0f32).to_bits());
}

#[test]
fn recorder_starts_silent() {
    let r = Recorder::new();
    assert_eq!(r.wave_left.len(), WAVE_SIZE);
    assert_eq!(r.wave_right.len(), WAVE_SIZE);
    assert!(r.wave_left.iter().all(|b| *b == 0));
    assert_eq!((r.pointer_left, r.pointer_right), (0, 0));
    assert!(r.running);
}

#[test]
fn recorder_plans() {
    let mut r = Recorder::new();
    assert_eq!(r.plan(0, 0), RecordStep::Idle);
    assert_eq!(r.plan(10, 0), RecordStep::Capture { left: 10, right: 0 });
    assert_eq!(r.plan(5000, 3), RecordStep::Capture { left: CHUNK, right: 3 });
    assert!(r.running);
    r.pointer_left = WAVE_SIZE - 10;
    assert_eq!(r.plan(9, 100), RecordStep::Capture { left: 9, right: 100 });
    assert!(r.running);
    assert_eq!(r.plan(10, 100), RecordStep::Full);
    assert!(!r.running);
}

#[test]
fn recorder_capture_stores_and_reports_peaks() {
    let mut r = Recorder::new();
    let left = bits(&[0.1, 0.9, -0.4]);
    let right = bits(&[-0.2, 0.3]);
    let (pl, pr) = r.capture(3, left.clone(), 2, right.clone());
    assert_eq!(&r.wave_left[0..3], &left[..]);
    assert_eq!(&r.wave_right[0..2], &right[..]);
    assert_eq!(r.pointer_left, 3);
    assert_eq!(r.pointer_right, 2);
    assert_eq!((f32::from_bits(pl.0), f32::from_bits(pl.1)), (0.9, -0.4));
    assert_eq!((f32::from_bits(pr.0), f32::from_bits(pr.1)), (0.3, -0.2));
    assert_eq!(r.wave_left.len(), WAVE_SIZE);
}

#[test]
fn recorder_capture_of_more_than_planned_grows_the_wave() {
    let mut r = Recorder::new();
    let left = bits(&[0.1, 0.2, 0.3]);
    let (pl, _) = r.capture(2, left.clone(), 0, Vec::new());
    assert_eq!(r.wave_left.len(), WAVE_SIZE + 1);
    assert_eq!(&r.wave_left[0..3], &left[..]);
    assert_eq!(r.pointer_left, 2);
    // the peaks cover only the planned values
    assert_eq!(f32::from_bits(pl.0), 0.2);
    assert_eq!(f32::from_bits(pl.1), 0.1);
}

#[test]
fn recorder_stop_message() {
    let mut r = Recorder::new();
    r.receive_stop(None);
    assert!(r.running);
    r.receive_stop(Some(false));
    assert!(r.running);
    r.receive_stop(Some(true));
    assert!(!r.running);
    let (l, rr) = r.into_waves();
    assert_eq!(l.len(), WAVE_SIZE);
    assert_eq!(rr.len(), WAVE_SIZE);
}

fn sample_of(left: usize, right: usize) -> Sample {
    let mut s = Sample::new();
    let _ = s.load_from_data((0..left as u32).collect(), (0..right as u32).collect());
    s
}

#[test]
fn playback_plans_chunks() {
    let s = sample_of(3000, 500);
    let mut c = PlaybackCursor::new();
    assert_eq!(
        c.plan(&s, 0),
        PlayStep::Push { left_from: 0, left_to: PLAY_CHUNK, right_from: 0, right_to: 500 }
    );
    assert_eq!(c.plan(&s, PLAY_LOW_WATER), PlayStep::Wait);
    c.advance(&s, 1000, 500);
    assert_eq!((c.left, c.right), (1000, 500));
    assert_eq!(c.plan(&s, 0), PlayStep::Finished);
    assert!(!c.running);
}

#[test]
fn playback_of_empty_sample_finishes() {
    let s = Sample::new();
    let mut c = PlaybackCursor::new();
    assert_eq!(c.plan(&s, 0), PlayStep::Finished);
}

#[test]
fn playback_stop_message() {
    let mut c = PlaybackCursor::new();
    c.receive_stop(Some(false));
    assert!(c.running);
    c.receive_stop(Some(true));
    assert!(!c.running);
}

#[test]
fn playback_last_short_chunk() {
    let s = sample_of(1100, 1100);
    let mut c = PlaybackCursor::new();
    c.advance(&s, 1024, 1024);
    assert_eq!(
        c.plan(&s, 100),
        PlayStep::Push { left_from: 1024, left_to: 1100, right_from: 1024, right_to: 1100 }
    );
}

#[test]
fn sample_defaults() {
    let s = Sample::default();
    assert!(s.data_left.is_empty() && s.data_right.is_empty());
    assert_eq!(f32::from_bits(s.gain), 1.0);
    assert_eq!(f32::from_bits(s.speed), 1.0);
    assert_eq!(f32::from_bits(s.pan), 0.5);
    assert_eq!(UNITY_BITS, 1.0f32.to_bits());
    assert_eq!(HALF_BITS, 0.5f32.to_bits());
}

#[test]
fn sample_load_from_data() {
    let mut s = Sample::new();
    assert_eq!(s.load_from_data(vec![1, 2], vec![3]), Ok(()));
    assert_eq!(s.data_left, vec![1, 2]);
    assert_eq!(s.data_right, vec![3]);
}

#[test]
fn sample_load_float_wave_fills_both_channels() {
    let mut s = Sample::new();
    assert_eq!(s.load_from_wav_data(SampleFormat::Float, vec![7, 8, 9]), Ok(()));
    assert_eq!(s.data_left, vec![7, 8, 9]);
    assert_eq!(s.data_right, vec![7, 8, 9]);
}

#[test]
fn sample_load_int_wave_is_refused() {
    let mut s = Sample::new();
    let _ = s.load_from_data(vec![1], vec![2]);
    assert_eq!(s.load_from_wav_data(SampleFormat::Int, vec![7]), Err(Error::IoWrongDatatyp));
    assert_eq!(s.data_left, vec![1]);
    assert_eq!(s.data_right, vec![2]);
}
