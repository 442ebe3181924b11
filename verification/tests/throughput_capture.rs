use netwatch::capture::CaptureController;
use netwatch::capture::CaptureState;
use netwatch::throughput::NetworkStats;

#[test]
fn forward_counter_yields_delta_rate() {
    let mut ns = NetworkStats::new(String::from("eth0"), 0);
    ns.sample(1000, 1000, 2000);
    assert_eq!(ns.rx_speed, 1000);
    assert_eq!(ns.tx_speed, 2000);
    ns.sample(2000, 1500, 2000);
    assert_eq!(ns.rx_speed, 500);
    assert_eq!(ns.tx_speed, 0);
    assert_eq!(ns.rx_bytes, 1500);
    assert_eq!(ns.last_update, 2000);
}

#[test]
fn counter_reset_uses_the_new_reading() {
    let mut ns = NetworkStats::new(String::from("eth0"), 0);
    ns.sample(1000, 1000, 1000);
    ns.sample(2000, 200, 300);
    assert_eq!(ns.rx_speed, 200);
    assert_eq!(ns.tx_speed, 300);
}

#[test]
fn no_elapsed_time_leaves_rates_unchanged() {
    let mut ns = NetworkStats::new(String::from("eth0"), 0);
    ns.sample(1000, 1000, 1000);
    ns.sample(1000, 9999, 9999);
    assert_eq!(ns.rx_speed, 1000);
    assert_eq!(ns.tx_speed, 1000);
    // The raw counters and timestamp are stored regardless.
    assert_eq!(ns.rx_bytes, 9999);
    assert_eq!(ns.last_update, 1000);
}

#[test]
fn sub_second_intervals_scale_up() {
    let mut ns = NetworkStats::new(String::from("eth0"), 0);
    ns.sample(500, 1000, 0);
    assert_eq!(ns.rx_speed, 2000);
}

#[test]
fn controller_runs_until_the_signal() {
    let mut c = CaptureController::new();
    assert_eq!(c.state(), CaptureState::Running);
    assert!(c.observe_signal(false));
    assert!(c.observe_signal(false));
    assert_eq!(c.state(), CaptureState::Running);
    assert!(!c.observe_signal(true));
    assert_eq!(c.state(), CaptureState::Stopping);
    c.finish();
    assert_eq!(c.state(), CaptureState::Stopped);
}

#[test]
fn read_errors_back_off_and_log_sparsely() {
    let mut c = CaptureController::new();
    assert!(!c.should_log_error());
    assert_eq!(c.on_read_error(), 10);
    assert!(c.should_log_error());
    assert_eq!(c.on_read_error(), 10);
    assert!(!c.should_log_error());
    for _ in 0..97 {
        c.on_read_error();
    }
    assert!(!c.should_log_error());
    c.on_read_error();
    assert!(c.should_log_error());
}

#[test]
fn a_good_frame_ends_the_error_streak() {
    let mut c = CaptureController::new();
    c.on_read_error();
    c.on_frame_ok();
    assert!(!c.should_log_error());
    c.on_read_error();
    assert!(c.should_log_error());
}
