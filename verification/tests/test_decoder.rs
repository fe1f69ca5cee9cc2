use engine_core::decoder::DecoderEvent;
use engine_core::missing_tooth::MissingToothDecoder;

#[test]
fn test_60_minus_2_sync() {
    // A 60-2 wheel turning steadily: 1000 us per tooth, so the gap takes
    // three tooth times.
    let mut decoder = MissingToothDecoder::new(60, 2);

    let tooth_time = 1000;
    let mut current_time = 0;

    // The very first edge only starts the clock.
    current_time += tooth_time;
    let evt = decoder.on_edge(current_time);
    assert_eq!(evt, DecoderEvent::NoEvent);

    // Five normal teeth: processed, but no sync yet.
    for _ in 0..5 {
        current_time += tooth_time;
        let evt = decoder.on_edge(current_time);
        assert_eq!(evt, DecoderEvent::ToothProcessed);
        assert_eq!(decoder.is_synced(), false, "no sync expected yet");
    }

    // The gap: three times the normal interval.
    current_time += tooth_time * 3;
    let evt = decoder.on_edge(current_time);

    assert_eq!(evt, DecoderEvent::SyncGained, "the gap should have been detected");
    assert_eq!(decoder.is_synced(), true);
    assert_eq!(decoder.get_angle_millideg(), 0, "right after the gap the angle must be 0");

    // One more normal tooth.
    current_time += tooth_time;
    let evt = decoder.on_edge(current_time);
    assert_eq!(evt, DecoderEvent::ToothProcessed);
    assert_eq!(decoder.get_angle_millideg(), 6000, "tooth 1 must be 6 degrees (360/60)");
}

#[test]
fn test_timer_overflow() {
    let mut decoder = MissingToothDecoder::new(60, 2);

    // Start very close to the end of the 32-bit clock.
    let mut time = u32::MAX - 2500;
    let step = 1000;

    // First pulse: start-up logic only; records last_timestamp.
    decoder.on_edge(time);

    // Second pulse establishes the first valid delta of 1000 us.
    time = time.wrapping_add(step);
    let event_init = decoder.on_edge(time);
    assert_eq!(event_init, DecoderEvent::ToothProcessed);

    // Third pulse: the counter arithmetic must survive the boundary.
    time = time.wrapping_add(step);
    let event_overflow = decoder.on_edge(time);
    assert_eq!(event_overflow, DecoderEvent::ToothProcessed);
}

#[test]
fn test_wrap_around_edge() {
    // An edge stream that actually crosses the 32-bit boundary: the post-wrap
    // edge must look like a normal 1000 us tooth, not a gap or a reset.
    let mut decoder = MissingToothDecoder::new(60, 2);

    let mut time = u32::MAX - 1500;
    decoder.on_edge(time);

    time = time.wrapping_add(1000); // u32::MAX - 500, still before the wrap
    assert_eq!(decoder.on_edge(time), DecoderEvent::ToothProcessed);

    time = time.wrapping_add(1000); // wraps to 499
    assert_eq!(time, 499);
    assert_eq!(decoder.on_edge(time), DecoderEvent::ToothProcessed);
}

#[test]
fn test_wheel_36_minus_1_config() {
    // A 36-1 wheel: the gap lasts twice the normal interval.
    let mut decoder = MissingToothDecoder::new(36, 1);

    // Roughly 1000 RPM: 1666 us per tooth.
    let tooth_time = 1666;
    let mut current_time = 10_000_000;

    decoder.on_edge(current_time);

    for _ in 0..10 {
        current_time += tooth_time;
        decoder.on_edge(current_time);
        assert!(!decoder.is_synced());
    }

    // The gap of a 36-1: duration x2 (one absent tooth plus the current).
    // The decoder compares 3332 against 1666 * 1.5 = 2499.
    current_time += tooth_time * 2;
    let evt = decoder.on_edge(current_time);

    assert_eq!(evt, DecoderEvent::SyncGained, "the 36-1 gap must be detected");
    assert_eq!(decoder.get_angle_millideg(), 0);
}

#[test]
fn test_hard_acceleration_through_gap() {
    let mut decoder = MissingToothDecoder::new(60, 2);

    // Start slow, 2000 us per tooth, accelerating a little on every tooth.
    let mut tooth_duration = 2000;
    let mut current_time = 1000;

    decoder.on_edge(current_time);

    for _ in 0..55 {
        current_time += tooth_duration;
        decoder.on_edge(current_time);
        tooth_duration -= 20;
    }

    let last_normal_duration = tooth_duration;

    // The engine keeps accelerating during the gap, compressing it to about
    // 2.8 times the previous interval; 2.8 > 1.5 must still sync.
    let gap_duration = (last_normal_duration as f32 * 2.8) as u32;

    current_time += gap_duration;
    let evt = decoder.on_edge(current_time);

    assert_eq!(evt, DecoderEvent::SyncGained, "must sync even while accelerating");
}

#[test]
fn test_rpm_calculation_accuracy() {
    let mut decoder = MissingToothDecoder::new(60, 2);

    // 1000 us per tooth on a 60-tooth wheel is exactly 1000 RPM.
    let tooth_time = 1000;
    let mut current_time = 10_000;

    // First pulse initializes; the second establishes the first delta but is
    // tooth 1, which the filter skips; the third is measured.
    decoder.on_edge(current_time);
    current_time += tooth_time;
    decoder.on_edge(current_time);
    current_time += tooth_time;
    decoder.on_edge(current_time);

    let rpm = decoder.get_instant_rpm();
    assert_eq!(rpm, 1000, "1000 us per tooth on a 60-tooth wheel must be 1000 RPM");
}

#[test]
fn test_rpm_filtering_response() {
    let mut decoder = MissingToothDecoder::new(60, 2);

    // Stabilize at 1000 RPM: 1000 us per tooth, enough edges to converge.
    let steady_time = 1000;
    let mut current_time = 1_000_000;

    for _ in 0..1000 {
        current_time += steady_time;
        decoder.on_edge(current_time);
    }

    let rpm = decoder.get_rpm();
    assert!(rpm >= 990 && rpm <= 1010, "the filter stayed too far away: {}", rpm);

    // A spike: the next tooth arrives in half the time (2000 RPM).
    current_time += 500;
    decoder.on_edge(current_time);

    let instant = decoder.get_instant_rpm();
    assert_eq!(instant, 2000, "the instantaneous RPM must react to the spike at once");

    let filtered = decoder.get_rpm();
    assert!(filtered < 1500, "the filter is not smoothing enough: {}", filtered);
    assert!(filtered > 1000, "the filter is not rising at all: {}", filtered);
}

#[test]
fn test_noise_rejection() {
    // After two accepted intervals of 1000 us, a pulse only 100 us later is
    // noise and must not disturb the timing reference.
    let mut decoder = MissingToothDecoder::new(60, 2);

    decoder.on_edge(1000);
    assert_eq!(decoder.on_edge(2000), DecoderEvent::ToothProcessed);
    assert_eq!(decoder.on_edge(3000), DecoderEvent::ToothProcessed);

    let evt = decoder.on_edge(3100);
    assert_eq!(evt, DecoderEvent::Noise);
    assert_eq!(decoder.last_timestamp, 3000, "noise must not move the reference");
    assert_eq!(decoder.last_delta, 1000, "noise must not change the reference interval");

    // The next edge 1000 us after the last accepted one is judged against
    // 1000, not against the noise pulse.
    assert_eq!(decoder.on_edge(4000), DecoderEvent::ToothProcessed);
}

#[test]
fn test_sync_lost_on_overcount() {
    // With no gap in the stream the decoder must declare SyncLost once it
    // has counted more teeth than the wheel physically has.
    let mut decoder = MissingToothDecoder::new(60, 2);

    let mut current_time = 0;
    decoder.on_edge(current_time);

    let mut saw_sync_lost = false;
    for _ in 0..58 {
        current_time += 1000;
        let evt = decoder.on_edge(current_time);
        if evt == DecoderEvent::SyncLost {
            saw_sync_lost = true;
        }
    }
    assert!(saw_sync_lost, "58 gapless teeth on a 60-2 wheel must overflow");
    assert!(!decoder.is_synced());
}

#[test]
fn test_angle_stays_in_range() {
    // The reported angle is always inside [0, 360) degrees, before, during
    // and after synchronization, gaps included.
    let mut decoder = MissingToothDecoder::new(60, 2);

    let mut current_time = 0;
    for rev in 0..4 {
        // 57 normal teeth then the gap.
        for _ in 0..57 {
            current_time += 1000;
            decoder.on_edge(current_time);
            assert!(decoder.get_angle_millideg() < 360_000);
        }
        current_time += 3000;
        decoder.on_edge(current_time);
        assert!(decoder.get_angle_millideg() < 360_000);
        if rev > 0 {
            assert!(decoder.is_synced());
        }
    }
}

#[test]
fn test_stale_edge_resets() {
    // Silence beyond max_tooth_time_us: the next edge is a cold start.
    let mut decoder = MissingToothDecoder::new(60, 2);

    decoder.on_edge(1000);
    decoder.on_edge(2000);
    decoder.on_edge(3000);
    decoder.on_edge(6000);
    assert!(decoder.is_synced());

    // More than 500 ms of silence.
    let evt = decoder.on_edge(6000 + 600_000);
    assert_eq!(evt, DecoderEvent::NoEvent, "the edge after the silence restarts the decoder");
    assert!(!decoder.is_synced());
    assert_eq!(decoder.get_rpm(), 0);
    assert_eq!(decoder.get_angle_millideg(), 0);
}

#[test]
fn test_stall_detection() {
    // After running, silence longer than stall_timeout_us: exactly one
    // check_stall call reports the transition, RPM is forced to zero and
    // sync is dropped.
    let mut decoder = MissingToothDecoder::new(60, 2);

    let mut current_time = 0;
    for _ in 0..6 {
        current_time += 1000;
        decoder.on_edge(current_time);
    }
    assert!(decoder.get_rpm() > 0);

    let first = decoder.check_stall(current_time + 500_001);
    assert!(first, "the first check after the timeout must report the stall");
    assert_eq!(decoder.get_rpm(), 0);
    assert!(!decoder.is_synced());

    let second = decoder.check_stall(current_time + 600_000);
    assert!(!second, "later checks must not report the stall again");
    assert_eq!(decoder.get_rpm(), 0);
}

#[test]
fn test_check_stall_while_running() {
    // While edges keep arriving inside the timeout, check_stall reports
    // nothing and changes nothing.
    let mut decoder = MissingToothDecoder::new(60, 2);

    let mut current_time = 0;
    for _ in 0..6 {
        current_time += 1000;
        decoder.on_edge(current_time);
    }
    let rpm_before = decoder.get_rpm();
    assert!(!decoder.check_stall(current_time + 1000));
    assert_eq!(decoder.get_rpm(), rpm_before);
}

#[test]
fn test_reset_clears_state() {
    let mut decoder = MissingToothDecoder::new(60, 2);

    decoder.on_edge(1000);
    decoder.on_edge(2000);
    decoder.on_edge(3000);
    decoder.on_edge(6000);
    assert!(decoder.is_synced());

    decoder.reset();
    assert!(!decoder.is_synced());
    assert_eq!(decoder.get_rpm(), 0);
    assert_eq!(decoder.get_instant_rpm(), 0);
    assert_eq!(decoder.get_angle_millideg(), 0);

    // The next edge behaves like a very first edge.
    assert_eq!(decoder.on_edge(7000), DecoderEvent::NoEvent);
}
