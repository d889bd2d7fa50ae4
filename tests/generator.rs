use sine_scope::{phase_add, SampleWindow, SineWave, BUFFER_SIZE, CHANNEL_COUNT, PHASE_PERIOD};
use std::f64::consts::TAU;

fn phase_from_radians(radians: f64) -> u32 {
    let units = (radians / TAU * PHASE_PERIOD as f64).round() as i64;
    units.rem_euclid(PHASE_PERIOD as i64) as u32
}

fn radians_from_phase(phase: u32) -> f64 {
    phase as f64 * TAU / PHASE_PERIOD as f64
}

fn sine(phase: u32) -> f32 {
    radians_from_phase(phase).sin() as f32
}

fn close(a: f32, b: f64) -> bool {
    (a as f64 - b).abs() < 1e-6
}

#[test]
fn first_block_at_speed_two_hundredths() {
    let mut wave = SineWave::new(phase_from_radians(0.02));
    let mut window = SampleWindow::new(4);
    let mut out = [9.0f32; 4];
    wave.advance(&mut out, &mut window, &sine);
    for (i, expected) in [0.0f64, 0.02, 0.04, 0.06].iter().enumerate() {
        assert!(close(out[i], expected.sin()), "sample {i}: {}", out[i]);
    }
    assert!((radians_from_phase(wave.angle()) - 0.08).abs() < 1e-6);
    assert_eq!(window.snapshot(), out.to_vec());
}

#[test]
fn zero_speed_is_silent_in_every_block() {
    let mut wave = SineWave::new(0);
    let mut window = SampleWindow::new(8);
    for _ in 0..5 {
        let mut out = [1.0f32; 8];
        wave.advance(&mut out, &mut window, &sine);
        assert!(out.iter().all(|v| *v == 0.0));
        assert_eq!(wave.angle(), 0);
    }
}

#[test]
fn speed_change_applies_from_next_sample() {
    let mut wave = SineWave::new(phase_from_radians(0.02));
    let mut window = SampleWindow::new(3);
    let mut first = [0.0f32; 3];
    wave.advance(&mut first, &mut window, &sine);
    let kept = first;
    wave.set_speed(phase_from_radians(0.05));
    let mut second = [0.0f32; 3];
    wave.advance(&mut second, &mut window, &sine);
    assert_eq!(first, kept);
    for (i, expected) in [0.06f64, 0.11, 0.16].iter().enumerate() {
        assert!(close(second[i], expected.sin()), "sample {i}: {}", second[i]);
    }
    assert!((radians_from_phase(wave.angle()) - 0.21).abs() < 1e-6);
}

#[test]
fn kth_sample_follows_phase_across_blocks() {
    let speed = phase_from_radians(0.019);
    let mut wave = SineWave::new(speed);
    let mut window = SampleWindow::new(7);
    let mut k: u64 = 0;
    for _ in 0..100 {
        let mut out = [0u32; 7];
        wave.advance(&mut out, &mut window, &|p: u32| p);
        for value in out {
            assert_eq!(value as u64, (k * speed as u64) % PHASE_PERIOD);
            k += 1;
        }
    }
    assert_eq!(wave.angle() as u64, (k * speed as u64) % PHASE_PERIOD);
}

#[test]
fn sine_samples_match_wrapped_angle() {
    let speed = phase_from_radians(0.3);
    let mut wave = SineWave::new(speed);
    let mut window = SampleWindow::new(64);
    for block in 0..10u64 {
        let mut out = [0.0f32; 64];
        wave.advance(&mut out, &mut window, &sine);
        for (i, value) in out.iter().enumerate() {
            let k = block * 64 + i as u64;
            let angle = ((k * speed as u64) % PHASE_PERIOD) as u32;
            assert!(radians_from_phase(angle) < TAU);
            assert!(close(*value, radians_from_phase(angle).sin()));
        }
    }
}

#[test]
fn phase_wraps_by_remainder() {
    assert_eq!(phase_add(u32::MAX, 2), 1);
    assert_eq!(phase_add(0, 0), 0);
    assert_eq!(phase_add(3_000_000_000, 3_000_000_000), 1_705_032_704);
    let mut wave = SineWave::new(u32::MAX);
    let mut window = SampleWindow::new(2);
    let mut out = [0u32; 2];
    wave.advance(&mut out, &mut window, &|p: u32| p);
    assert_eq!(out, [0, u32::MAX]);
    assert_eq!(wave.angle(), u32::MAX - 1);
}

#[test]
fn negative_speed_sweeps_backwards() {
    let mut wave = SineWave::new(phase_from_radians(-0.02));
    let mut window = SampleWindow::new(3);
    let mut out = [0.0f32; 3];
    wave.advance(&mut out, &mut window, &sine);
    for (i, expected) in [0.0f64, -0.02, -0.04].iter().enumerate() {
        assert!(close(out[i], expected.sin()), "sample {i}: {}", out[i]);
    }
}

#[test]
fn set_speed_keeps_angle_between_blocks() {
    let mut wave = SineWave::new(1000);
    let mut window = SampleWindow::new(BUFFER_SIZE * CHANNEL_COUNT);
    let mut out = vec![0u32; BUFFER_SIZE * CHANNEL_COUNT];
    for round in 0..20u32 {
        wave.advance(&mut out, &mut window, &|p: u32| p);
        let before = wave.angle();
        wave.set_speed(round.wrapping_mul(2_654_435_761));
        assert_eq!(wave.angle(), before);
        assert_eq!(wave.speed(), round.wrapping_mul(2_654_435_761));
        assert!((wave.angle() as u64) < PHASE_PERIOD);
    }
}
