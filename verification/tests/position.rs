use frame_snapshot::position::{seek_offset, PlaybackPosition};

#[test]
fn offset_is_percent_of_duration() {
    assert_eq!(seek_offset(1_000, 5), Some(50));
    assert_eq!(seek_offset(1_000, 50), Some(500));
    assert_eq!(seek_offset(60_000_000_000, 5), Some(3_000_000_000));
    assert_eq!(seek_offset(60_000_000_000, 33), Some(19_800_000_000));
}

#[test]
fn offset_is_rounded_down() {
    assert_eq!(seek_offset(999, 1), Some(9));
    assert_eq!(seek_offset(199, 50), Some(99));
    assert_eq!(seek_offset(1, 99), Some(0));
    assert_eq!(seek_offset(3, 34), Some(1));
    assert_eq!(seek_offset(10, 15), Some(1));
}

#[test]
fn no_percent_is_the_start_and_all_is_the_end() {
    assert_eq!(seek_offset(12_345, 0), Some(0));
    assert_eq!(seek_offset(12_345, 100), Some(12_345));
    assert_eq!(seek_offset(u64::MAX, 0), Some(0));
    assert_eq!(seek_offset(u64::MAX, 100), Some(u64::MAX));
}

#[test]
fn offset_within_duration_up_to_the_whole() {
    let durations = [0u64, 1, 2, 99, 100, 101, 12_345, 60_000_000_000, u64::MAX / 100, u64::MAX];
    for duration in durations.iter() {
        for percent in 0u64..=100 {
            let offset = seek_offset(*duration, percent).expect("a percentage up to the whole");
            assert!(offset <= *duration);
            let exact = (*duration as u128) * (percent as u128) / 100;
            assert_eq!(offset as u128, exact);
        }
    }
}

#[test]
fn longest_duration_does_not_overflow() {
    assert_eq!(seek_offset(u64::MAX, 50), Some(u64::MAX / 2));
    assert_eq!(seek_offset(u64::MAX, 99), Some(18_262_276_632_972_456_098));
    assert_eq!(seek_offset(u64::MAX, 1), Some(184_467_440_737_095_516));
}

#[test]
fn more_than_the_whole_goes_past_the_end() {
    assert_eq!(seek_offset(1_000, 150), Some(1_500));
    assert_eq!(seek_offset(10_000_000_000, 150), Some(15_000_000_000));
    assert_eq!(seek_offset(1_000, 101), Some(1_010));
    assert_eq!(seek_offset(1_000, 1_000), Some(10_000));
}

#[test]
fn excess_below_a_nanosecond_stays_at_the_end() {
    assert_eq!(seek_offset(1, 150), Some(1));
    assert_eq!(seek_offset(1, 199), Some(1));
    assert_eq!(seek_offset(1, 200), Some(2));
    assert_eq!(seek_offset(99, 101), Some(99));
    assert_eq!(seek_offset(100, 101), Some(101));
}

#[test]
fn position_beyond_the_clock_is_none() {
    assert_eq!(seek_offset(u64::MAX, 101), None);
    assert_eq!(seek_offset(u64::MAX, 200), None);
    assert_eq!(seek_offset(10_000_000_000, u64::MAX), None);
    assert_eq!(seek_offset(u64::MAX, u64::MAX), None);
    assert_eq!(seek_offset(100, u64::MAX), Some(u64::MAX));
    assert_eq!(seek_offset(101, u64::MAX), None);
}

#[test]
fn no_duration_seeks_to_the_start() {
    assert_eq!(seek_offset(0, 5), Some(0));
    assert_eq!(seek_offset(0, 150), Some(0));
    assert_eq!(seek_offset(0, u64::MAX), Some(0));
}

#[test]
fn unknown_duration_counts_as_none() {
    let start = PlaybackPosition { duration_ns: 0, offset_ns: 0 };
    assert_eq!(PlaybackPosition::locate(None, 5), Some(start));
    assert_eq!(PlaybackPosition::locate(None, 100), Some(start));
    assert_eq!(PlaybackPosition::locate(None, u64::MAX), Some(start));
}

#[test]
fn located_position_keeps_the_duration() {
    assert_eq!(
        PlaybackPosition::locate(Some(60_000_000_000), 5),
        Some(PlaybackPosition { duration_ns: 60_000_000_000, offset_ns: 3_000_000_000 })
    );
    assert_eq!(
        PlaybackPosition::locate(Some(1_000), 150),
        Some(PlaybackPosition { duration_ns: 1_000, offset_ns: 1_500 })
    );
    assert_eq!(PlaybackPosition::locate(Some(u64::MAX), 101), None);
}

#[test]
fn larger_percent_is_never_earlier() {
    let duration = 7_777_777u64;
    let mut before = 0u64;
    for percent in 0u64..=300 {
        let offset = seek_offset(duration, percent).expect("a position that fits");
        assert!(before <= offset);
        before = offset;
    }
}
