use backyard_rain::codec::AdpcmStream;
use backyard_rain::latest::LatestCell;
use backyard_rain::led::led_gamma;
use backyard_rain::mixer::{mix, DACSamplePair, Mixer};
use backyard_rain::output::OutputTracker;
use backyard_rain::signal::InputValue;

/// One compressed block whose header seeds the given predictor and whose data
/// nibbles are all zero, so every sample of the block decodes to `predictor`.
fn constant_block(predictor: i16) -> Vec<u8> {
    let mut block = vec![0u8; 1024];
    let bytes = predictor.to_le_bytes();
    block[0] = bytes[0];
    block[1] = bytes[1];
    block
}

#[test]
fn test_stream_decodes_block_samples() {
    let mut stream = AdpcmStream::new(constant_block(1000), 0);
    for _ in 0..2041 {
        assert_eq!(stream.next_sample(), 1000);
    }
    // the single block cycles
    assert_eq!(stream.next_sample(), 1000);
}

#[test]
fn test_stream_repeats_every_block_count_samples() {
    // two blocks of 2041 samples each: the stream repeats every 2 * 2041
    let mut payload = constant_block(1000);
    payload.extend(constant_block(2000));
    let mut stream = AdpcmStream::new(payload, 0);
    assert_eq!(stream.blocks(), 2);

    let period = 2 * 2041;
    let mut first_cycle = Vec::new();
    for _ in 0..period {
        first_cycle.push(stream.next_sample());
    }
    assert_eq!(first_cycle[0], 1000);
    assert_eq!(first_cycle[2041], 2000);
    for position in 0..period {
        assert_eq!(stream.next_sample(), first_cycle[position]);
    }
}

#[test]
fn test_stream_start_offset() {
    let mut payload = constant_block(1000);
    payload.extend(constant_block(2000));
    // start inside the second block
    let mut stream = AdpcmStream::new(payload, 2041);
    assert_eq!(stream.next_sample(), 2000);
}

#[test]
fn test_mix_end_points() {
    let light = InputValue::new(-500, false);
    let medium = InputValue::new(300, false);
    let heavy = InputValue::new(700, false);

    // intensity zero: pure medium
    let zero = InputValue::new(0, false);
    assert_eq!(mix(light, medium, heavy, zero).to_clamped(), 300);

    // maximum intensity: pure heavy
    let max = InputValue::new(2047, false);
    assert_eq!(mix(light, medium, heavy, max).to_clamped(), 700);

    // minimum intensity: pure light
    let min = InputValue::new(-2048, false);
    assert_eq!(mix(light, medium, heavy, min).to_clamped(), -500);
}

#[test]
fn test_mix_midpoint_crossfade() {
    let light = InputValue::new(-500, false);
    let medium = InputValue::new(300, false);
    let heavy = InputValue::new(700, false);
    let half = InputValue::new(1024, false);
    // medium * (2047 - 1024) / 2047 + heavy * 1024 / 2047, truncating
    let expected = (300 * 1023) / 2047 + (700 * 1024) / 2047;
    assert_eq!(mix(light, medium, heavy, half).to_clamped(), expected);
}

#[test]
fn test_dac_sample_pair_packs_headers() {
    let pair = DACSamplePair::new(0, 0);
    assert_eq!(pair.audio1, 0b0001_0000_0000_0000);
    assert_eq!(pair.audio2, 0b1001_0000_0000_0000);

    let pair = DACSamplePair::new(4095, 2047);
    assert_eq!(pair.audio1, 4095 + 4096);
    assert_eq!(pair.audio2, 2047 + 36864);

    // only the low 12 bits of a sample survive
    let pair = DACSamplePair::new(4096 + 5, 0);
    assert_eq!(pair.audio1, 5 + 4096);
}

#[test]
fn test_mixer_tick_follows_intensity() {
    let mut mixer = Mixer::new(constant_block(160), constant_block(320), constant_block(640));
    let mut intensity = LatestCell::new(1);

    // nothing published yet: pure medium, sawtooth at 8
    let pair = mixer.tick(&mut intensity, 0);
    assert_eq!(pair.audio1, (320 / 16 + 2048) / 2 + 4096);
    assert_eq!(pair.audio2, 8 + 36864);

    // full intensity: pure heavy
    intensity.publish(InputValue::new(2047, false));
    let pair = mixer.tick(&mut intensity, 0);
    assert_eq!(pair.audio1, (640 / 16 + 2048) / 2 + 4096);
    assert_eq!(pair.audio2, 16 + 36864);

    // minimum intensity: pure light
    intensity.publish(InputValue::new(-2048, false));
    let pair = mixer.tick(&mut intensity, 0);
    assert_eq!(pair.audio1, (160 / 16 + 2048) / 2 + 4096);

    // no new publish: the latched intensity stays in force
    let pair = mixer.tick(&mut intensity, 0);
    assert_eq!(pair.audio1, (160 / 16 + 2048) / 2 + 4096);
}

#[test]
fn test_mixer_sawtooth_wraps() {
    let mut mixer = Mixer::new(constant_block(0), constant_block(0), constant_block(0));
    let mut intensity = LatestCell::new(1);
    let mut previous = 0u16;
    for tick in 1..=600 {
        let pair = mixer.tick(&mut intensity, 0);
        let saw = pair.audio2 - 36864;
        if previous + 8 > 2047 {
            assert_eq!(saw, 0, "tick {}", tick);
        } else {
            assert_eq!(saw, previous + 8, "tick {}", tick);
        }
        assert!(saw <= 2047);
        previous = saw;
    }
}

#[test]
fn test_led_gamma_square_law() {
    assert_eq!(led_gamma(0), 0);
    assert_eq!(led_gamma(64), 2);
    assert_eq!(led_gamma(1024), 512);
    assert_eq!(led_gamma(2047) as u32, (2047u32 * 2047) / 2048);
    // saturates at the PWM ceiling
    assert_eq!(led_gamma(65535), 65535);
}

#[test]
fn test_output_tracker_counts_and_publishes() {
    let mut tracker = OutputTracker::new();
    for tick in 1..=32u32 {
        let publish = tracker.begin_tick();
        if tick % 16 == 0 {
            assert_eq!(publish, Some(tick));
        } else {
            assert_eq!(publish, None);
        }
    }
}

#[test]
fn test_output_tracker_rolling_maximum() {
    let mut tracker = OutputTracker::new();
    tracker.begin_tick();
    // a first duration is always a new maximum
    assert_eq!(tracker.finish_tick(5), (Some(5), false));
    // smaller durations are not published
    assert_eq!(tracker.finish_tick(3), (None, false));
    // larger ones grow the maximum
    assert_eq!(tracker.finish_tick(7), (Some(7), false));

    // one second of ticks later, the maximum resets
    for _ in 0..47999u32 {
        tracker.begin_tick();
    }
    let (publish, reset) = tracker.finish_tick(9);
    assert_eq!(publish, Some(9));
    assert!(reset);
    // after the reset any duration is a new maximum again
    tracker.begin_tick();
    assert_eq!(tracker.finish_tick(1), (Some(1), false));
}
