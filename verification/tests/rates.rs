use fps_ticker::Fps;
use fps_ticker::Rate;

fn hertz(rate: Rate) -> f64 {
    rate.events as f64 / (rate.nanos as f64 / 1e9)
}

#[test]
fn zero_rate_is_no_event_per_nanosecond() {
    assert_eq!(Rate::zero(), Rate { events: 0, nanos: 1 });
    assert_eq!(hertz(Rate::zero()), 0.0);
}

#[test]
fn once_per_is_one_event_in_the_span() {
    assert_eq!(Rate::once_per(250), Rate { events: 1, nanos: 250 });
    assert_eq!(Rate::once_per(0), Rate { events: 1, nanos: 0 });
    assert_eq!(Rate::once_per(u64::MAX), Rate { events: 1, nanos: u64::MAX as u128 });
    assert_eq!(hertz(Rate::once_per(500_000_000)), 2.0);
}

#[test]
fn new_tracker_reports_zero_hertz() {
    let fps = Fps::default();
    assert_eq!(hertz(fps.avg()), 0.0);
    assert_eq!(hertz(fps.min()), 0.0);
    assert_eq!(hertz(fps.max()), 0.0);
}

#[test]
fn single_sample_gives_three_equal_rates() {
    for nanos in [1u128, 16_666_667, 1_000_000_000, u64::MAX as u128] {
        let mut fps = Fps::with_window_len(4);
        fps.record(nanos);
        let expected = Rate { events: 1, nanos };
        assert_eq!(fps.avg(), expected);
        assert_eq!(fps.min(), expected);
        assert_eq!(fps.max(), expected);
    }
    let mut fps = Fps::with_window_len(60);
    fps.record(250_000_000);
    assert_eq!(hertz(fps.avg()), 4.0);
    assert_eq!(hertz(fps.min()), 4.0);
    assert_eq!(hertz(fps.max()), 4.0);
}

#[test]
fn three_frames_of_100_200_and_50_milliseconds() {
    let mut fps = Fps::with_window_len(3);
    fps.record(100_000_000);
    fps.record(200_000_000);
    fps.record(50_000_000);
    assert_eq!(fps.max(), Rate { events: 1, nanos: 50_000_000 });
    assert_eq!(fps.min(), Rate { events: 1, nanos: 200_000_000 });
    assert_eq!(fps.avg(), Rate { events: 3, nanos: 350_000_000 });
    assert_eq!(hertz(fps.max()), 20.0);
    assert_eq!(hertz(fps.min()), 5.0);
    assert!((hertz(fps.avg()) - 1.0 / ((0.1 + 0.2 + 0.05) / 3.0)).abs() < 1e-12);
    assert!((hertz(fps.avg()) - 8.571428571428571).abs() < 1e-12);
}

#[test]
fn mean_is_samples_over_total_time() {
    let mut fps = Fps::with_window_len(5);
    let samples = [7u128, 11, 13, 17, 19];
    let mut total = 0u128;
    for (i, nanos) in samples.iter().enumerate() {
        fps.record(*nanos);
        total += *nanos;
        assert_eq!(fps.avg(), Rate { events: i as u64 + 1, nanos: total });
    }
    assert_eq!(fps.avg(), Rate { events: 5, nanos: 67 });
    assert_eq!(fps.min(), Rate { events: 1, nanos: 19 });
    assert_eq!(fps.max(), Rate { events: 1, nanos: 7 });
}

#[test]
fn mean_lies_between_lowest_and_highest() {
    let samples = [
        16_000_000u128, 17_000_000, 33_000_000, 15_500_000, 0, 16_700_000, 8_000_000, 120_000_000,
    ];
    let mut fps = Fps::with_window_len(4);
    for nanos in samples {
        fps.record(nanos);
        let (min, avg, max) = (fps.min(), fps.avg(), fps.max());
        assert!(min.events as u128 * avg.nanos <= avg.events as u128 * min.nanos);
        assert!(avg.events as u128 * max.nanos <= max.events as u128 * avg.nanos);
        assert!(hertz(min) <= hertz(avg));
        assert!(hertz(avg) <= hertz(max));
    }
}

#[test]
fn equal_samples_give_equal_rates() {
    let mut fps = Fps::with_window_len(3);
    for _ in 0..5 {
        fps.record(20_000_000);
    }
    assert_eq!(fps.min(), Rate { events: 1, nanos: 20_000_000 });
    assert_eq!(fps.max(), Rate { events: 1, nanos: 20_000_000 });
    assert_eq!(fps.avg(), Rate { events: 3, nanos: 60_000_000 });
    assert_eq!(hertz(fps.avg()), 50.0);
}

#[test]
fn frame_of_no_time_is_an_unbounded_rate() {
    let mut fps = Fps::with_window_len(2);
    fps.record(0);
    assert_eq!(fps.avg(), Rate { events: 1, nanos: 0 });
    assert_eq!(fps.min(), Rate { events: 1, nanos: 0 });
    assert_eq!(fps.max(), Rate { events: 1, nanos: 0 });
    assert_eq!(hertz(fps.max()), f64::INFINITY);
    fps.record(4);
    assert_eq!(fps.avg(), Rate { events: 2, nanos: 4 });
    assert_eq!(fps.min(), Rate { events: 1, nanos: 4 });
    assert_eq!(fps.max(), Rate { events: 1, nanos: 0 });
}

#[test]
fn frame_time_saturates_at_u64_max_nanoseconds() {
    let most = u64::MAX as u128;
    let mut fps = Fps::with_window_len(3);
    fps.record(most);
    assert_eq!(fps.max(), Rate { events: 1, nanos: most });
    fps.record(most + 1);
    assert_eq!(fps.max(), Rate { events: 1, nanos: most });
    assert_eq!(fps.min(), Rate { events: 1, nanos: most });
    fps.record(u128::MAX);
    assert_eq!(fps.min(), Rate { events: 1, nanos: most });
    assert_eq!(fps.avg(), Rate { events: 3, nanos: 3 * most });
    fps.record(most - 1);
    assert_eq!(fps.max(), Rate { events: 1, nanos: most - 1 });
    assert_eq!(fps.avg(), Rate { events: 3, nanos: 3 * most - 1 });
}
