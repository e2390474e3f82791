use std::time::{SystemTime, UNIX_EPOCH};

use airs_window::pacing::advance_frame_deadline;

fn now_ns() -> u64 {
    SystemTime::now().duration_since(UNIX_EPOCH).unwrap().as_nanos() as u64
}

#[test]
fn frame_deadline_skips_elapsed_frames_without_drifting() {
    let started_at = now_ns();
    let frame_interval: u64 = 16_666_667;
    let first_deadline = started_at + frame_interval;
    let now = first_deadline + frame_interval + frame_interval / 2;

    let next_deadline = advance_frame_deadline(first_deadline, now, frame_interval);

    assert_eq!(next_deadline, started_at + frame_interval * 3);
    assert!(next_deadline > now);
}

#[test]
fn future_deadline_is_kept() {
    assert_eq!(advance_frame_deadline(100, 99, 10), 100);
    assert_eq!(advance_frame_deadline(100, 0, 10), 100);
}

#[test]
fn deadline_equal_to_now_moves_one_interval() {
    assert_eq!(advance_frame_deadline(100, 100, 10), 110);
}

#[test]
fn deadline_lands_on_grid_after_many_frames() {
    // 100 + 10 * k > 1234 for the first time at k = 114
    assert_eq!(advance_frame_deadline(100, 1234, 10), 1240);
    // exactly on a grid point: that point is not after now, the next one is
    assert_eq!(advance_frame_deadline(100, 1240, 10), 1250);
}

#[test]
fn advancing_twice_changes_nothing() {
    let once = advance_frame_deadline(7, 1000, 3);
    assert_eq!(once, 1003);
    assert_eq!(advance_frame_deadline(once, 1000, 3), once);
}

#[test]
fn advancing_later_stays_on_first_grid() {
    let first = advance_frame_deadline(5, 50, 7);
    let second = advance_frame_deadline(first, 200, 7);
    assert_eq!((first - 5) % 7, 0);
    assert_eq!((second - 5) % 7, 0);
    assert!(second > 200 && second - 7 <= 200);
}

#[test]
fn later_now_never_gives_earlier_deadline() {
    let mut last = 0;
    for now in 0..200u64 {
        let d = advance_frame_deadline(10, now, 9);
        assert!(d >= last);
        assert!(d > now);
        last = d;
    }
}

#[test]
fn deadline_near_the_top_of_the_range() {
    let top = u64::MAX - 5;
    assert_eq!(advance_frame_deadline(top - 10, top - 1, 10), top);
}

#[test]
fn future_deadline_is_kept_with_zero_interval() {
    assert_eq!(advance_frame_deadline(100, 99, 0), 100);
}

#[test]
fn starting_one_grid_point_later_lands_on_same_deadline() {
    for now in 20..120u64 {
        let from_first = advance_frame_deadline(20, now, 7);
        let from_second = advance_frame_deadline(27, now, 7);
        assert_eq!(from_first, from_second);
    }
}
