use lianli_lcd::pacing::{frame_wait, pace_frame};

#[test]
fn waits_for_the_deadline() {
    assert_eq!(frame_wait(1000, 400), 600);
    assert_eq!(frame_wait(1000, 1000), 0);
    assert_eq!(frame_wait(1000, 1500), 0);
}

#[test]
fn deadlines_are_one_interval_apart() {
    let mut deadline: u64 = 1000;
    pace_frame(&mut deadline, 100, 1010, 1011);
    assert_eq!(deadline, 1100);
    pace_frame(&mut deadline, 100, 1200, 1201);
    assert_eq!(deadline, 1200);
}

#[test]
fn missed_frames_are_not_made_up_for() {
    let mut deadline: u64 = 1000;
    pace_frame(&mut deadline, 100, 5000, 5003);
    assert_eq!(deadline, 5103);
}
