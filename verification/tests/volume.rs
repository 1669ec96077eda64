use app_volume::volume::{
    percent_to_vol, vol_to_percent, ChannelVolumes, CHANNELS_MAX, PERCENT_MAX, VOLUME_NORMAL,
};

fn percent_by_floats(average: u32) -> u32 {
    ((average as f64 / 65536.0 * 100.0).round() as u32).min(150)
}

fn volume_by_floats(percent: u32) -> u32 {
    (percent as f64 / 100.0 * 65536.0).round() as u32
}

#[test]
fn reference_volumes_are_exact() {
    assert_eq!(vol_to_percent(0), 0);
    assert_eq!(vol_to_percent(VOLUME_NORMAL), 100);
    assert_eq!(vol_to_percent(32768), 50);
    assert_eq!(percent_to_vol(0, 2).volume, 0);
    assert_eq!(percent_to_vol(100, 2).volume, VOLUME_NORMAL);
    assert_eq!(percent_to_vol(50, 2).volume, 32768);
}

#[test]
fn percentages_round_to_the_nearest() {
    assert_eq!(vol_to_percent(327), 0);
    assert_eq!(vol_to_percent(328), 1);
    assert_eq!(vol_to_percent(45875), 70);
    assert_eq!(percent_to_vol(33, 2).volume, 21627);
    assert_eq!(percent_to_vol(1, 2).volume, 655);
    assert_eq!(percent_to_vol(70, 2).volume, 45875);
}

#[test]
fn halves_round_up() {
    // 8192 of 65536 is 12.5 %.
    assert_eq!(vol_to_percent(8192), 13);
    assert_eq!(vol_to_percent(24576), 38);
}

#[test]
fn percentages_are_capped() {
    assert_eq!(PERCENT_MAX, 150);
    assert_eq!(vol_to_percent(98304), 150);
    assert_eq!(vol_to_percent(98000), 150);
    assert_eq!(vol_to_percent(97900), 149);
    assert_eq!(vol_to_percent(u32::MAX), 150);
}

#[test]
fn large_percentages_saturate() {
    assert_eq!(percent_to_vol(6_553_599, 2).volume, 4_294_966_641);
    assert_eq!(percent_to_vol(6_553_600, 2).volume, u32::MAX);
    assert_eq!(percent_to_vol(u32::MAX, 2).volume, u32::MAX);
}

#[test]
fn requests_name_their_channels() {
    assert_eq!(percent_to_vol(75, 2), ChannelVolumes { channels: 2, volume: 49152 });
    assert_eq!(percent_to_vol(75, CHANNELS_MAX).channels, 32);
}

#[test]
fn integer_rounding_agrees_with_floats() {
    let mut value: u64 = 0;
    while value <= u32::MAX as u64 {
        assert_eq!(vol_to_percent(value as u32), percent_by_floats(value as u32));
        assert_eq!(percent_to_vol(value as u32, 2).volume, volume_by_floats(value as u32));
        value += 3_989;
    }
    for value in 0..200_000u32 {
        assert_eq!(vol_to_percent(value), percent_by_floats(value));
        assert_eq!(percent_to_vol(value, 2).volume, volume_by_floats(value));
    }
}

#[test]
fn percentages_survive_the_round_trip() {
    for percent in 0..=150u32 {
        assert_eq!(vol_to_percent(percent_to_vol(percent, 2).volume), percent);
    }
    assert_eq!(vol_to_percent(percent_to_vol(151, 2).volume), 150);
    assert_eq!(vol_to_percent(percent_to_vol(u32::MAX, 2).volume), 150);
}

#[test]
fn louder_is_never_shown_as_quieter() {
    let mut last = 0;
    for average in 0..110_000u32 {
        let percent = vol_to_percent(average);
        assert!(percent >= last);
        last = percent;
    }
}

#[test]
fn larger_percentages_never_ask_for_less() {
    let mut last = 0;
    for percent in 0..10_000u32 {
        let volume = percent_to_vol(percent, 2).volume;
        assert!(volume >= last);
        last = volume;
    }
}
