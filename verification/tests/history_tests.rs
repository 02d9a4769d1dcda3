use ctasks::history::{SeriesEntry, TimeSeries};

const WINDOW: u64 = 30;

fn entry(remaining_age: u64, value: u64) -> SeriesEntry {
    SeriesEntry { remaining_age, value }
}

#[test]
fn first_record_carries_the_full_window() {
    let mut s = TimeSeries::new();
    s.record(42, 1, WINDOW);
    assert_eq!(s.points, vec![entry(WINDOW, 42)]);
}

#[test]
fn ages_stay_bounded_and_newest_has_the_window() {
    let mut s = TimeSeries::new();
    for v in 0..10u64 {
        s.record(v, 1, WINDOW);
    }
    for e in &s.points {
        assert!(e.remaining_age <= WINDOW);
    }
    assert_eq!(s.points.last().unwrap().remaining_age, WINDOW);
}

#[test]
fn window_plus_one_points_fit_then_the_oldest_falls_out() {
    let mut s = TimeSeries::new();
    // 31 single-tick records: the very first point has just reached age 0
    // and is still retained, so the series holds window + 1 points.
    for v in 1..=31u64 {
        s.record(v, 1, WINDOW);
    }
    assert_eq!(s.points.len(), 31);
    assert_eq!(s.points[0], entry(0, 1));
    // One more record ages the first point below zero and evicts it; the
    // length stays pinned at window + 1.
    s.record(32, 1, WINDOW);
    assert_eq!(s.points.len(), 31);
    assert_eq!(s.points[0], entry(0, 2));
    assert_eq!(s.points.last().unwrap(), &entry(WINDOW, 32));
}

#[test]
fn burst_delta_evicts_like_single_ticks() {
    // Prepare two identical series with a few aged points.
    let mut base = TimeSeries::new();
    for v in [10u64, 20, 30] {
        base.record(v, 1, 4);
    }
    // base now holds ages 2, 3, 4 with window 4.
    assert_eq!(base.points, vec![entry(2, 10), entry(3, 20), entry(4, 30)]);

    let mut burst = base.duplicate();
    let mut single = base.duplicate();

    // One record with tick_delta 3 ...
    burst.record(99, 3, 4);
    // ... against three single-tick records with interleaved values.
    single.record(7, 1, 4);
    single.record(8, 1, 4);
    single.record(99, 1, 4);

    // The surviving old entries agree exactly: age 2 dies (it would turn
    // negative after three ticks), ages 3 and 4 survive aged down by 3.
    assert_eq!(burst.points, vec![entry(0, 20), entry(1, 30), entry(4, 99)]);
    // The single-tick run holds the same survivors at the same ages, plus
    // the interleaved observations on the age ramp.
    assert_eq!(
        single.points,
        vec![entry(0, 20), entry(1, 30), entry(2, 7), entry(3, 8), entry(4, 99)]
    );
}

#[test]
fn a_large_delta_evicts_several_points_in_one_pass() {
    let mut s = TimeSeries::new();
    for v in 1..=5u64 {
        s.record(v, 1, WINDOW);
    }
    assert_eq!(s.points.len(), 5);
    // Ages are 26..30; a stall of 28 ticks evicts the two oldest at once.
    s.record(6, 28, WINDOW);
    assert_eq!(
        s.points,
        vec![entry(0, 3), entry(1, 4), entry(2, 5), entry(WINDOW, 6)]
    );
}

#[test]
fn duplicate_is_a_copy_not_a_borrowed_view() {
    let mut s = TimeSeries::new();
    s.record(5, 1, WINDOW);
    let copy = s.duplicate();
    s.record(6, 1, WINDOW);
    assert_eq!(copy.points.len(), 1);
    assert_eq!(s.points.len(), 2);
}
