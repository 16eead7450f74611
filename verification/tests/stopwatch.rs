use analog_clock::stopwatch::Stopwatch;

#[test]
fn init_is_halted_and_zero() {
    let sw = Stopwatch::init();
    assert_eq!(sw, Stopwatch::Halted { accumulated: 0 });
    assert!(!sw.running());
    assert_eq!(sw.time(123_456), 0);
}

#[test]
fn toggle_starts_and_measures() {
    let mut sw = Stopwatch::init();
    sw.toggle(0);
    assert!(sw.running());
    assert_eq!(sw, Stopwatch::Running { accumulated: 0, start_mark: 0 });
    assert_eq!(sw.time(0), 0);
    assert_eq!(sw.time(5_000), 5_000);
    sw.toggle(5_000);
    assert!(!sw.running());
    assert_eq!(sw.time(100_000), 5_000);
    assert_eq!(sw.time(2_000_000), 5_000);
}

#[test]
fn carry_across_runs() {
    let mut sw = Stopwatch::init();
    sw.toggle(0);
    assert_eq!(sw.time(5_000), 5_000);
    sw.toggle(5_000);
    assert_eq!(sw.time(100_000), 5_000);
    sw.toggle(100_000);
    assert_eq!(sw, Stopwatch::Running { accumulated: 5_000, start_mark: 100_000 });
    assert_eq!(sw.time(102_000), 7_000);
}

#[test]
fn reset_from_running_reads_zero() {
    let mut sw = Stopwatch::init();
    sw.toggle(1_000);
    assert!(sw.running());
    sw.reset();
    assert!(!sw.running());
    assert_eq!(sw, Stopwatch::Halted { accumulated: 0 });
    assert_eq!(sw.time(1_000), 0);
    assert_eq!(sw.time(999_999_999), 0);
}

#[test]
fn reset_from_halted_reads_zero() {
    let mut sw = Stopwatch::Halted { accumulated: 777 };
    sw.reset();
    assert_eq!(sw.time(42), 0);
}

#[test]
fn elapsed_query_is_stable() {
    let sw = Stopwatch::Running { accumulated: 250, start_mark: 100 };
    let first = sw.time(600);
    let second = sw.time(600);
    let third = sw.time(600);
    assert_eq!(first, 750);
    assert_eq!(first, second);
    assert_eq!(second, third);
    assert_eq!(sw, Stopwatch::Running { accumulated: 250, start_mark: 100 });
}

#[test]
fn clock_anomaly_is_clamped() {
    let sw = Stopwatch::Running { accumulated: 300, start_mark: 1_000 };
    assert_eq!(sw.time(500), 300);
    assert_eq!(sw.time(1_000), 300);
}

#[test]
fn start_is_noop_while_running() {
    let mut sw = Stopwatch::Running { accumulated: 10, start_mark: 20 };
    sw.start(99);
    assert_eq!(sw, Stopwatch::Running { accumulated: 10, start_mark: 20 });
}

#[test]
fn stop_is_noop_while_halted() {
    let mut sw = Stopwatch::Halted { accumulated: 10 };
    sw.stop(99);
    assert_eq!(sw, Stopwatch::Halted { accumulated: 10 });
}

#[test]
fn start_and_stop_fold_the_run() {
    let mut sw = Stopwatch::init();
    sw.start(100);
    assert_eq!(sw, Stopwatch::Running { accumulated: 0, start_mark: 100 });
    sw.stop(350);
    assert_eq!(sw, Stopwatch::Halted { accumulated: 250 });
}
