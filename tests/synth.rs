use tonal::buffer::{FrameBuffer, WaveReceiver, BUFFER_CAPACITY};
use tonal::engine::{EngineEvent, EngineState};
use tonal::table::{CompositeWave, WaveCommand, WaveError};
use tonal::voice::{
    saw_wave, sine_wave, square_wave, wave_at, DynamicWave, WaveUpdate, Waveform, GAIN_ONE,
    HALF_PERIOD, MAX_GAIN, PHASE_PERIOD, WAVE_ONE,
};

fn replace(t: &mut CompositeWave, id: u64, freq: u64, amp: i64, shape: Waveform) {
    let (res, _) = t.generate(Some(WaveCommand::Replace(id, DynamicWave::new(freq, amp, shape))));
    assert_eq!(res, Ok(()));
}

#[test]
fn sine_follows_the_true_sine_closely() {
    let mut p: u64 = 0;
    while p < PHASE_PERIOD {
        let got = sine_wave(p) as f64 / WAVE_ONE as f64;
        let want = (2.0 * std::f64::consts::PI * p as f64 / PHASE_PERIOD as f64).sin();
        assert!((got - want).abs() < 0.002, "phase {}: {} vs {}", p, got, want);
        p += 12345;
    }
}

#[test]
fn sine_key_points_are_exact() {
    assert_eq!(sine_wave(0), 0);
    assert_eq!(sine_wave(HALF_PERIOD / 2), WAVE_ONE);
    assert_eq!(sine_wave(HALF_PERIOD), 0);
    assert_eq!(sine_wave(HALF_PERIOD + HALF_PERIOD / 2), -WAVE_ONE);
}

#[test]
fn square_and_saw_shapes() {
    assert_eq!(square_wave(0), WAVE_ONE);
    assert_eq!(square_wave(HALF_PERIOD - 1), WAVE_ONE);
    assert_eq!(square_wave(HALF_PERIOD), -WAVE_ONE);
    assert_eq!(saw_wave(0), -WAVE_ONE);
    assert_eq!(saw_wave(HALF_PERIOD), 0);
    assert_eq!(saw_wave(PHASE_PERIOD / 4), -WAVE_ONE / 2);
    assert_eq!(wave_at(Waveform::Saw, HALF_PERIOD), 0);
    assert_eq!(wave_at(Waveform::Square, HALF_PERIOD), -WAVE_ONE);
    assert_eq!(wave_at(Waveform::Sine, HALF_PERIOD / 2), WAVE_ONE);
}

#[test]
fn voice_advances_and_wraps_phase() {
    let mut w = DynamicWave::new(12_000_000, GAIN_ONE, Waveform::Square);
    assert_eq!(w.next(), (WAVE_ONE * GAIN_ONE, WAVE_ONE * GAIN_ONE));
    assert_eq!(w.fraction_through, 12_000_000);
    w.next();
    w.next();
    w.next();
    assert_eq!(w.fraction_through, 0);
}

#[test]
fn update_keeps_phase() {
    let mut t = CompositeWave::new();
    replace(&mut t, 3, 440_000, GAIN_ONE, Waveform::Sine);
    for _ in 0..100 {
        t.generate(None);
    }
    let before = t.get(3).unwrap();
    assert_eq!(before.fraction_through, 44_440_000);
    let up = WaveUpdate { freq: 300_000, amp: (GAIN_ONE / 2, GAIN_ONE / 4) };
    assert_eq!(t.update(3, up), Ok(()));
    let after = t.get(3).unwrap();
    assert_eq!(after.fraction_through, before.fraction_through);
    assert_eq!(after.frequency, 300_000);
    assert_eq!(after.step, 300_000);
    assert_eq!((after.lamp, after.ramp), (GAIN_ONE / 2, GAIN_ONE / 4));
}

#[test]
fn empty_table_mixes_to_silence() {
    let mut t = CompositeWave::new();
    for _ in 0..10 {
        assert_eq!(t.next(), (0, 0));
    }
    assert_eq!(t.generate(None), (Ok(()), (0, 0)));
}

#[test]
fn single_sine_voice_reproduces_scaled_sine() {
    let mut t = CompositeWave::new();
    let amp = GAIN_ONE / 5;
    t.replace(1, DynamicWave::new(440_000, amp, Waveform::Sine)).unwrap();
    let mut phase: u64 = 0;
    for _ in 0..2000 {
        let (l, r) = t.next();
        assert_eq!(l, sine_wave(phase) * amp);
        assert_eq!(r, sine_wave(phase) * amp);
        let want = 0.2 * (2.0 * std::f64::consts::PI * phase as f64 / PHASE_PERIOD as f64).sin();
        let got = l as f64 / (WAVE_ONE * GAIN_ONE) as f64;
        assert!((got - want).abs() < 0.001);
        phase = (phase + 440_000) % PHASE_PERIOD;
    }
}

#[test]
fn identical_voices_mix_like_one() {
    let mut one = CompositeWave::new();
    let mut many = CompositeWave::new();
    let voice = DynamicWave::new(523_250, GAIN_ONE / 3, Waveform::Saw);
    assert_eq!(one.replace(1, voice), Ok(()));
    for id in 10..17 {
        assert_eq!(many.replace(id, voice), Ok(()));
    }
    assert_eq!(many.len(), 7);
    for _ in 0..500 {
        assert_eq!(one.next(), many.next());
    }
}

#[test]
fn mean_rounds_toward_zero() {
    let mut t = CompositeWave::new();
    replace(&mut t, 1, 1000, -1, Waveform::Square);
    replace(&mut t, 2, 1000, 0, Waveform::Square);
    replace(&mut t, 3, 1000, 0, Waveform::Square);
    assert_eq!(t.next(), (-10922, -10922));
    let mut u = CompositeWave::new();
    replace(&mut u, 1, 1000, 1, Waveform::Square);
    replace(&mut u, 2, 1000, 0, Waveform::Square);
    replace(&mut u, 3, 1000, 0, Waveform::Square);
    assert_eq!(u.next(), (10922, 10922));
}

#[test]
fn deleted_voice_no_longer_mixes() {
    let mut t = CompositeWave::new();
    replace(&mut t, 1, 440_000, GAIN_ONE, Waveform::Square);
    replace(&mut t, 2, 440_000, 3 * GAIN_ONE, Waveform::Square);
    assert_eq!(t.next(), (2 * WAVE_ONE * GAIN_ONE, 2 * WAVE_ONE * GAIN_ONE));
    let (res, frame) = t.generate(Some(WaveCommand::Delete(2)));
    assert_eq!(res, Ok(()));
    assert_eq!(frame, (WAVE_ONE * GAIN_ONE, WAVE_ONE * GAIN_ONE));
    assert!(!t.contains(2));
    assert!(t.get(2).is_none());
    assert_eq!(t.len(), 1);
    for _ in 0..200 {
        let (l, _) = t.next();
        assert!(l.abs() == WAVE_ONE * GAIN_ONE);
    }
    t.delete(2);
    assert_eq!(t.len(), 1);
}

#[test]
fn replace_overwrites_and_resets_phase() {
    let mut t = CompositeWave::new();
    replace(&mut t, 5, 440_000, GAIN_ONE, Waveform::Sine);
    for _ in 0..10 {
        t.next();
    }
    assert_eq!(t.get(5).unwrap().fraction_through, 4_840_000);
    assert_eq!(t.replace(5, DynamicWave::new(880_000, GAIN_ONE, Waveform::Square)), Ok(()));
    assert_eq!(t.len(), 1);
    let w = t.get(5).unwrap();
    assert_eq!(w.fraction_through, 0);
    assert_eq!(w.func, Waveform::Square);
}

#[test]
fn a_second_of_a440_crosses_zero_880_times() {
    let mut t = CompositeWave::new();
    let amp = GAIN_ONE / 5;
    let cmd = WaveCommand::Replace(1, DynamicWave::new(440_000, amp, Waveform::Sine));
    let mut crossings = 0;
    let (res, first) = t.generate(Some(cmd));
    assert_eq!(res, Ok(()));
    let mut prev = first.0;
    for _ in 1..48000 {
        let (_, (l, _)) = t.generate(None);
        if (prev >= 0) != (l >= 0) {
            crossings += 1;
        }
        prev = l;
    }
    assert!((878..=882).contains(&crossings), "crossings: {}", crossings);
}

#[test]
fn update_of_unknown_voice_is_reported() {
    let mut t = CompositeWave::new();
    replace(&mut t, 1, 440_000, GAIN_ONE, Waveform::Sine);
    let before = t.get(1).unwrap();
    let up = WaveUpdate { freq: 300_000, amp: (GAIN_ONE, GAIN_ONE) };
    let (res, _) = t.generate(Some(WaveCommand::Update(7, up)));
    assert_eq!(res, Err(WaveError::VoiceNotFound));
    assert_eq!(t.len(), 1);
    assert!(!t.contains(7));
    let after = t.get(1).unwrap();
    assert_eq!(after.frequency, before.frequency);
    assert_eq!(after.lamp, before.lamp);
    assert_eq!(after.fraction_through, (before.fraction_through + 440_000) % PHASE_PERIOD);
}

#[test]
fn invalid_parameters_are_rejected() {
    let mut t = CompositeWave::new();
    assert_eq!(
        t.replace(1, DynamicWave::new(0, GAIN_ONE, Waveform::Sine)),
        Err(WaveError::InvalidParameter)
    );
    assert_eq!(
        t.replace(1, DynamicWave::new(440_000, MAX_GAIN + 1, Waveform::Sine)),
        Err(WaveError::InvalidParameter)
    );
    assert_eq!(t.len(), 0);
    replace(&mut t, 1, 440_000, GAIN_ONE, Waveform::Sine);
    let zero = WaveUpdate { freq: 0, amp: (GAIN_ONE, GAIN_ONE) };
    assert_eq!(t.update(1, zero), Err(WaveError::InvalidParameter));
    let loud = WaveUpdate { freq: 100, amp: (GAIN_ONE, -MAX_GAIN - 1) };
    assert_eq!(t.update(1, loud), Err(WaveError::InvalidParameter));
    let (res, _) = t.generate(Some(WaveCommand::Update(9, zero)));
    assert_eq!(res, Err(WaveError::InvalidParameter));
    assert_eq!(t.get(1).unwrap().frequency, 440_000);
}

#[test]
fn buffer_refuses_frames_beyond_capacity() {
    let mut b = FrameBuffer::new(BUFFER_CAPACITY);
    for i in 0..BUFFER_CAPACITY as i64 {
        assert_eq!(b.push((i, -i)), Ok(()));
    }
    assert!(b.is_full());
    assert_eq!(b.push((7, 7)), Err((7, 7)));
    assert_eq!(b.len(), BUFFER_CAPACITY);
    assert_eq!(b.capacity(), BUFFER_CAPACITY);
    assert_eq!(b.pop(), Some((0, 0)));
    assert_eq!(b.pop(), Some((1, -1)));
    assert_eq!(b.len(), BUFFER_CAPACITY - 2);
}

#[test]
fn empty_buffer_yields_nothing() {
    let mut b = FrameBuffer::new(2);
    assert_eq!(b.pop(), None);
    b.push((1, 2)).unwrap();
    assert_eq!(b.pop(), Some((1, 2)));
    assert_eq!(b.pop(), None);
}

#[test]
fn receiver_interleaves_left_then_right() {
    let mut b = FrameBuffer::new(4);
    let mut r = WaveReceiver::new();
    assert_eq!(r.next(&mut b), None);
    b.push((1, 2)).unwrap();
    b.push((3, 4)).unwrap();
    assert_eq!(r.next(&mut b), Some(1));
    assert_eq!(b.len(), 1);
    assert_eq!(r.next(&mut b), Some(2));
    assert_eq!(r.next(&mut b), Some(3));
    assert_eq!(r.next(&mut b), Some(4));
    assert_eq!(r.next(&mut b), None);
    assert_eq!(r.channels(), 2);
    assert_eq!(r.sample_rate(), 48000);
    assert_eq!(r.current_frame_len(), None);
}

#[test]
fn engine_stops_for_good() {
    let s = EngineState::Idle;
    assert!(!s.is_running());
    let s = s.on_event(EngineEvent::Start);
    assert!(s.is_running());
    assert_eq!(s.on_event(EngineEvent::Start), EngineState::Running);
    let s = s.on_event(EngineEvent::ConsumerClosed);
    assert_eq!(s, EngineState::Stopped);
    assert_eq!(s.on_event(EngineEvent::Start), EngineState::Stopped);
    assert_eq!(EngineState::Running.on_event(EngineEvent::SenderClosed), EngineState::Stopped);
    assert_eq!(EngineState::Idle.on_event(EngineEvent::StopRequested), EngineState::Stopped);
}

#[test]
fn validity_checks() {
    assert!(WaveUpdate { freq: 1, amp: (MAX_GAIN, -MAX_GAIN) }.is_valid());
    assert!(!WaveUpdate { freq: 0, amp: (0, 0) }.is_valid());
    assert!(!WaveUpdate { freq: 1, amp: (MAX_GAIN + 1, 0) }.is_valid());
    assert!(DynamicWave::new(440_000, -MAX_GAIN, Waveform::Saw).is_valid());
    assert!(!DynamicWave::new(0, GAIN_ONE, Waveform::Saw).is_valid());
    let mut w = DynamicWave::new(440_000, GAIN_ONE, Waveform::Saw);
    w.fraction_through = PHASE_PERIOD;
    assert!(!w.is_valid());
}

#[test]
fn apply_dispatches_each_command() {
    let mut t = CompositeWave::new();
    let voice = DynamicWave::new(220_000, GAIN_ONE, Waveform::Square);
    assert_eq!(t.apply(WaveCommand::Replace(4, voice)), Ok(()));
    assert!(t.contains(4));
    let up = WaveUpdate { freq: 110_000, amp: (1, 2) };
    assert_eq!(t.apply(WaveCommand::Update(4, up)), Ok(()));
    assert_eq!(t.get(4).unwrap().frequency, 110_000);
    assert_eq!(t.next(), (WAVE_ONE, 2 * WAVE_ONE));
    assert_eq!(t.apply(WaveCommand::Delete(4)), Ok(()));
    assert_eq!(t.apply(WaveCommand::Delete(4)), Ok(()));
    assert_eq!(t.len(), 0);
    assert_eq!(t.apply(WaveCommand::Update(4, up)), Err(WaveError::VoiceNotFound));
}
