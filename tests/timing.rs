use ytesrev::timer::{FpsReport, TimeManager};

#[test]
fn dt_is_time_since_previous_call() {
    let mut tm = TimeManager::new(1_000);
    assert_eq!(tm.dt(1_500), (500, None));
    assert_eq!(tm.dt(1_500), (0, None));
    assert_eq!(tm.dt(4_000), (2_500, None));
}

#[test]
fn clock_going_back_counts_as_no_time() {
    let mut tm = TimeManager::new(1_000);
    assert_eq!(tm.dt(900).0, 0);
    assert_eq!(tm.dt(1_100).0, 100);
}

#[test]
fn durations_add_up_to_the_span() {
    let mut tm = TimeManager::new(0);
    let stamps = [3u64, 17, 17, 250, 1_000, 1_001];
    let mut sum = 0;
    for t in stamps {
        sum += tm.dt(t).0;
    }
    assert_eq!(sum, 1_001);
}

#[test]
fn fps_report_after_interval() {
    let mut tm = TimeManager::new(0);
    assert_eq!(tm.dt(1_000_000), (1_000_000, None));
    assert_eq!(tm.dt(5_000_000), (4_000_000, None));
    assert_eq!(
        tm.dt(6_000_000),
        (1_000_000, Some(FpsReport { frames: 3, mean_us: 2_000_000 }))
    );
    assert_eq!(tm.dt(6_000_100), (100, None));
    assert_eq!(
        tm.dt(11_000_101),
        (5_000_001, Some(FpsReport { frames: 2, mean_us: 2_500_050 }))
    );
}
