use darc_renderer::runtime::stat::{ClockError, PerformanceStat};

#[test]
fn the_first_tick_counts_from_the_start() {
    let mut stat = PerformanceStat::new(1_000_000);
    assert_eq!(stat, PerformanceStat { current_frame: 0, last_frame_time: 1_000_000 });
    assert_eq!(stat.tick(Ok(1_016_667)), Ok(16_667));
    assert_eq!(stat, PerformanceStat { current_frame: 1, last_frame_time: 1_016_667 });
}

#[test]
fn each_tick_reports_the_time_since_the_one_before() {
    let mut stat = PerformanceStat::new(0);
    assert_eq!(stat.tick(Ok(10)), Ok(10));
    assert_eq!(stat.tick(Ok(10)), Ok(0));
    assert_eq!(stat.tick(Ok(35)), Ok(25));
    assert_eq!(stat.tick(Ok(u64::MAX)), Ok(u64::MAX - 35));
    assert_eq!(stat.current_frame, 4);
}

#[test]
fn a_clock_that_went_backwards_reports_zero() {
    let mut stat = PerformanceStat::new(500);
    assert_eq!(stat.tick(Ok(400)), Ok(0));
    assert_eq!(stat.last_frame_time, 400);
    assert_eq!(stat.tick(Ok(450)), Ok(50));
}

#[test]
fn a_clock_error_is_handed_back_and_the_tick_still_counts() {
    let mut stat = PerformanceStat::new(500);
    assert_eq!(stat.tick(Err(ClockError)), Err(ClockError));
    assert_eq!(stat, PerformanceStat { current_frame: 1, last_frame_time: 500 });
    assert_eq!(stat.tick(Ok(650)), Ok(150));
    assert_eq!(stat.current_frame, 2);
}
