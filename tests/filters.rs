use media_key::capsense::CapsenseChannelData;
use media_key::dsp_filter::{Max, MovingAverage};

#[test]
fn moving_average_starts_at_zero() {
    let m = MovingAverage::default();
    assert_eq!(m.latest_filtered_value(), 0);
    assert_eq!(m.latest_raw_value(), 0);
    assert_eq!(m.window(), &[0u16; 16][..]);
}

#[test]
fn moving_average_counts_unwritten_slots_as_zero() {
    let mut m = MovingAverage::new();
    assert_eq!(m.process(160), 10);
    assert_eq!(m.process(15), 10);
    assert_eq!(m.latest_filtered_value(), 10);
}

#[test]
fn moving_average_truncates() {
    let mut m = MovingAverage::new();
    assert_eq!(m.process(15), 0);
    assert_eq!(m.process(1), 1);
}

#[test]
fn moving_average_of_last_sixteen_after_many_pushes() {
    let mut m = MovingAverage::new();
    for v in 0u16..40 {
        m.process(v * 100);
    }
    // last sixteen: 24..=39, times 100
    let expected: u32 = (24u32..40).map(|v| v * 100).sum::<u32>() / 16;
    assert_eq!(m.latest_filtered_value() as u32, expected);
    // the cursor has wrapped back to the oldest sample
    assert_eq!(m.latest_raw_value(), 2400);
}

#[test]
fn moving_average_largest_values_do_not_overflow() {
    let mut m = MovingAverage::new();
    for _ in 0..16 {
        m.process(u16::MAX);
    }
    assert_eq!(m.latest_filtered_value(), u16::MAX);
    assert_eq!(m.process(0), ((15u32 * 65535) / 16) as u16);
}

#[test]
fn window_is_storage_order() {
    let mut m = MovingAverage::new();
    m.process(7);
    m.process(9);
    let w = m.window();
    assert_eq!(w.len(), 16);
    assert_eq!(w[0], 7);
    assert_eq!(w[1], 9);
    assert_eq!(w[2], 0);
}

#[test]
fn max_tracks_largest() {
    let mut m = Max::default();
    assert_eq!(m.current(), 0);
    assert_eq!(m.process(5), 5);
    assert_eq!(m.process(3), 5);
    assert_eq!(m.process(9), 9);
    assert_eq!(m.current(), 9);
}

#[test]
fn channel_mean_is_average_of_last_sixteen() {
    let mut c = CapsenseChannelData::default();
    let pushed: Vec<u16> = (0..20).map(|i| (i * 37 % 101) as u16 + 1000).collect();
    for v in &pushed {
        c.push(*v);
    }
    let last: u32 = pushed[4..].iter().map(|v| *v as u32).sum();
    assert_eq!(c.moving_average() as u32, last / 16);
}

#[test]
fn channel_max_is_monotone_and_largest() {
    let mut c = CapsenseChannelData::new();
    let pushed = [4u16, 10, 2, 10, 7, 30, 1];
    let mut prev = c.max();
    for (i, v) in pushed.iter().enumerate() {
        c.push(*v);
        assert!(c.max() >= prev);
        prev = c.max();
        assert_eq!(c.max(), *pushed[..=i].iter().max().unwrap());
    }
    assert_eq!(c.max(), 30);
}
