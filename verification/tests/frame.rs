use binbreak::frame::{
    frame_rest, poll_timeout, FrameTimes, FRAME_WINDOW, TARGET_FRAME, TARGET_FRAME_GAME,
};

const MILLI: u64 = 1_000_000;
const SECOND: u64 = 1_000_000_000;

#[test]
fn targets_are_sixteen_and_thirty_three_milliseconds() {
    assert_eq!(TARGET_FRAME, 16 * MILLI);
    assert_eq!(TARGET_FRAME_GAME, 33 * MILLI);
    assert_eq!(FRAME_WINDOW, 10);
}

#[test]
fn poll_timeout_is_the_shorter_of_step_and_target() {
    assert_eq!(poll_timeout(5 * MILLI, TARGET_FRAME), 5 * MILLI);
    assert_eq!(poll_timeout(40 * MILLI, TARGET_FRAME), 16 * MILLI);
    assert_eq!(poll_timeout(16 * MILLI, TARGET_FRAME), 16 * MILLI);
    assert_eq!(poll_timeout(0, TARGET_FRAME), 0);
    assert_eq!(poll_timeout(u64::MAX, TARGET_FRAME_GAME), 33 * MILLI);
}

#[test]
fn rest_fills_the_frame_up_to_its_target() {
    assert_eq!(frame_rest(5 * MILLI, TARGET_FRAME), 11 * MILLI);
    assert_eq!(frame_rest(0, TARGET_FRAME), 16 * MILLI);
    assert_eq!(frame_rest(16 * MILLI - 1, TARGET_FRAME), 1);
}

#[test]
fn frame_that_ran_over_gets_no_rest() {
    assert_eq!(frame_rest(16 * MILLI, TARGET_FRAME), 0);
    assert_eq!(frame_rest(40 * MILLI, TARGET_FRAME), 0);
    assert_eq!(frame_rest(u64::MAX, TARGET_FRAME), 0);
}

#[test]
fn rate_needs_two_frames_and_time_between_them() {
    let mut times = FrameTimes::new();
    assert_eq!(times.len(), 0);
    assert_eq!(times.rate(), 0);
    times.record(SECOND);
    assert_eq!(times.rate(), 0);
    times.record(SECOND);
    assert_eq!(times.len(), 2);
    assert_eq!(times.rate(), 0);
    let mut backwards = FrameTimes::new();
    backwards.record(2 * SECOND);
    backwards.record(SECOND);
    assert_eq!(backwards.rate(), 0);
}

#[test]
fn rate_is_frames_over_time_in_thousandths() {
    let mut times = FrameTimes::new();
    times.record(0);
    times.record(20 * MILLI);
    // One frame in 20 ms: 50 frames a second.
    assert_eq!(times.rate(), 50_000);
    times.record(40 * MILLI);
    times.record(60 * MILLI);
    assert_eq!(times.rate(), 50_000);
    times.record(90 * MILLI);
    // Four frames in 90 ms: 44.444 frames a second.
    assert_eq!(times.rate(), 44_444);
    let mut slow = FrameTimes::new();
    slow.record(0);
    slow.record(3 * SECOND);
    assert_eq!(slow.rate(), 333);
}

#[test]
fn window_holds_eleven_frames_at_most() {
    let mut times = FrameTimes::new();
    for i in 0..11u64 {
        times.record(i * 10 * MILLI);
        assert_eq!(times.len() as u64, i + 1);
    }
    // Ten frames in 100 ms.
    assert_eq!(times.rate(), 100_000);
    for i in 11..40u64 {
        times.record(i * 20 * MILLI);
        assert_eq!(times.len(), 11);
    }
    // The window now holds the frames 29 to 39, 20 ms apart.
    assert_eq!(times.rate(), 50_000);
}

#[test]
fn oldest_frame_leaves_the_window_first() {
    let mut times = FrameTimes::new();
    times.record(0);
    for _ in 0..10 {
        times.record(SECOND);
    }
    // Eleven frames from 0 to 1 s.
    assert_eq!(times.rate(), 10_000);
    times.record(SECOND + MILLI);
    // The frame at 0 is gone: ten frames in one millisecond.
    assert_eq!(times.len(), 11);
    assert_eq!(times.rate(), 10_000_000);
}
