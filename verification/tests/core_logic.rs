use bytebeep::envelope::BeepEnvelope;
use bytebeep::sink::sample_and_hold;
use bytebeep::synth::{should_trigger, Synth, TickAction};
use bytebeep::tracker::RateTracker;

/// Drives the tracker across one bin boundary so the next count lands in a
/// fresh bin.
fn next_bin(t: &mut RateTracker, bin_period: u64) {
    t.advance(bin_period + 1);
    t.rotate_if_due();
}

#[test]
fn fresh_tracker_rate_is_zero() {
    let t = RateTracker::new(44100);
    assert_eq!(t.rate_mhz(), 0);
}

#[test]
fn uniform_window_rate_is_exact() {
    // 5 events in each of the 40 bins: 200 events over the 4 s window,
    // so exactly 50 Hz = 50_000 milli-Hz.
    let mut t = RateTracker::new(44100);
    t.record(5);
    for _ in 0..39 {
        next_bin(&mut t, 44100);
        t.record(5);
    }
    assert_eq!(t.rate_mhz(), 50_000);
}

#[test]
fn near_uniform_window_rate_within_one_bin() {
    // 20 bins of 5 events and 20 bins of 6: the rate lies between the
    // all-5 and all-6 windows.
    let mut t = RateTracker::new(44100);
    t.record(5);
    for i in 1..40 {
        next_bin(&mut t, 44100);
        t.record(if i % 2 == 0 { 5 } else { 6 });
    }
    let r = t.rate_mhz();
    assert!(10_000 * 5 <= r && r <= 10_000 * 6);
    assert_eq!(r, 55_000);
}

#[test]
fn rotation_drops_oldest_bin() {
    let mut t = RateTracker::new(44100);
    t.record(7);
    // 40 rotations push the bin holding the 7 events out of the window.
    for _ in 0..40 {
        next_bin(&mut t, 44100);
    }
    assert_eq!(t.rate_mhz(), 0);
}

#[test]
fn no_rotation_before_boundary() {
    let mut t = RateTracker::new(44100);
    t.record(3);
    t.advance(44100); // exactly one bin period: not yet past the boundary
    t.rotate_if_due();
    assert_eq!(t.rate_mhz(), 3 * 250);
}

#[test]
fn trigger_needs_events() {
    assert!(!should_trigger(0, 1_000_000, None));
    assert!(should_trigger(1, 0, None));
}

#[test]
fn trigger_threshold_is_inclusive() {
    assert!(should_trigger(1, 250, Some(250)));
    assert!(!should_trigger(1, 249, Some(250)));
}

#[test]
fn envelope_arm_sets_not_adds() {
    let mut e = BeepEnvelope::new();
    assert!(!e.is_active());
    e.arm(44100);
    e.decay(2000);
    assert_eq!(e.remaining, 42100);
    e.arm(44100);
    assert_eq!(e.remaining, 44100);
    e.decay(50_000);
    assert_eq!(e.remaining, 0);
    assert!(!e.is_active());
}

#[test]
fn new_rejects_low_sample_rate() {
    assert!(Synth::new(219, None).is_none());
    assert!(Synth::new(220, None).is_some());
}

#[test]
fn five_bytes_in_one_bin_make_one_cycle() {
    // Five byte arrivals within one 0.1 s bin, no threshold: the tick that
    // observes the count arms the envelope and asks for one full 220 Hz
    // cycle of 44100 / 220 = 200 samples.
    let mut s = Synth::new(44100, None).unwrap();
    let action = s.tick(5);
    assert_eq!(action, TickAction::Tone { period_samples: 200 });
    // All five events sit in the newest bin: 5 events / 4 s = 1.25 Hz.
    assert_eq!(s.tracker.rate_mhz(), 1250);
    assert_eq!(s.envelope.remaining, 44100 - 2000);
}

#[test]
fn single_trigger_beeps_for_whole_beep_length() {
    // One trigger, then silence from the network: the tone lasts
    // ceil(44100 / 2000) = 23 cycles — 0.1 s of audio, quantized up to a
    // whole 200-sample cycle — and then reverts to silent ticks for good.
    let mut s = Synth::new(44100, None).unwrap();
    assert_eq!(s.tick(1), TickAction::Tone { period_samples: 200 });
    let mut tone_ticks: u32 = 1;
    loop {
        match s.tick(0) {
            TickAction::Tone { period_samples } => {
                assert_eq!(period_samples, 200);
                tone_ticks += 1;
            }
            TickAction::Silence => break,
        }
    }
    assert_eq!(tone_ticks, 23);
    for _ in 0..100 {
        assert_eq!(s.tick(0), TickAction::Silence);
    }
}

#[test]
fn minimal_sample_rate_beeps() {
    // At the lowest accepted sample rate one cycle is a single sample and
    // the beep is 220 units = 22 cycles long.
    let mut s = Synth::new(220, None).unwrap();
    assert_eq!(s.tick(1), TickAction::Tone { period_samples: 1 });
    let mut tone_ticks: u32 = 1;
    while let TickAction::Tone { .. } = s.tick(0) {
        tone_ticks += 1;
    }
    assert_eq!(tone_ticks, 22);
}

#[test]
fn retrigger_resets_instead_of_accumulating() {
    // Second trigger about 0.05 s after the first: the envelope is reset to
    // one full beep, not extended by one, so the total tone time stays
    // near 0.15 s and never reaches two full beeps (0.2 s).
    let mut s = Synth::new(44100, None).unwrap();
    assert_eq!(s.tick(1), TickAction::Tone { period_samples: 200 });
    let mut tone_ticks: u64 = 1;
    // 10 quiet tone ticks: 11 * 2000 units elapsed since the trigger,
    // about 0.0499 s.
    for _ in 0..10 {
        assert_eq!(s.tick(0), TickAction::Tone { period_samples: 200 });
        tone_ticks += 1;
    }
    assert_eq!(s.tick(1), TickAction::Tone { period_samples: 200 });
    tone_ticks += 1;
    assert_eq!(s.envelope.remaining, 44100 - 2000);
    while let TickAction::Tone { .. } = s.tick(0) {
        tone_ticks += 1;
    }
    // 12 ticks up to the retrigger plus ceil(42100 / 2000) = 22 after it.
    assert_eq!(tone_ticks, 34);
    // Total active time: 34 cycles of 2000 units = 0.1542 s, within one
    // cycle of 0.15 s and far below two beep lengths.
    assert!(tone_ticks * 2000 < 2 * 44100);
}

#[test]
fn threshold_above_steady_rate_never_beeps() {
    // One event per tick with a 1 kHz threshold: the measured rate stays
    // far below it, so the envelope never arms.
    let mut s = Synth::new(44100, Some(1_000_000)).unwrap();
    for _ in 0..200 {
        assert_eq!(s.tick(1), TickAction::Silence);
        assert_eq!(s.envelope.remaining, 0);
    }
}

#[test]
fn threshold_met_beeps() {
    // The very first event already yields 250 milli-Hz over the window, so
    // a threshold of exactly 250 is met (the comparison is inclusive).
    let mut s = Synth::new(44100, Some(250)).unwrap();
    assert_eq!(s.tick(1), TickAction::Tone { period_samples: 200 });
}

#[test]
fn hold_repeats_last_sample_on_underrun() {
    let popped = vec![Some(7), None, None, Some(3), None];
    let out = sample_and_hold(&popped, 1);
    assert_eq!(out, vec![7, 7, 7, 3, 3]);
}

#[test]
fn hold_starts_from_previous_buffer() {
    let popped = vec![None, None];
    let out = sample_and_hold(&popped, 9);
    assert_eq!(out, vec![9, 9]);
}

#[test]
fn hold_passes_samples_through_in_order() {
    let popped = vec![Some(1), Some(2), Some(3)];
    let out = sample_and_hold(&popped, 0);
    assert_eq!(out, vec![1, 2, 3]);
}

#[test]
fn hold_on_empty_buffer_is_empty() {
    let popped: Vec<Option<u32>> = Vec::new();
    let out = sample_and_hold(&popped, 4);
    assert!(out.is_empty());
}

#[test]
fn saturating_bin_never_wraps() {
    let mut t = RateTracker::new(44100);
    t.record(u32::MAX);
    t.record(u32::MAX);
    // The newest bin saturates instead of wrapping.
    assert_eq!(t.rate_mhz(), (u32::MAX as u64) * 250);
}
