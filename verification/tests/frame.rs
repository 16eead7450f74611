use analog_clock::face::{DrawCommand, Region};
use analog_clock::frame::{compose_frame, toggle_button_label};
use analog_clock::reading::HOUR_HAND_PERIOD_NS;
use analog_clock::stopwatch::Stopwatch;

#[test]
fn one_repaint_mid_afternoon() {
    let live = Region { x: 0, y: 0, width: 300, height: 300 };
    let elapsed = Region { x: 0, y: 320, width: 300, height: 300 };
    let sw = Stopwatch::Halted { accumulated: 5_000 };
    let frame = compose_frame(live, elapsed, 15, 15, 30, 0, &sw, 42);
    assert_eq!(frame.heading, "15:15:30");
    assert_eq!(frame.elapsed_label, "00:05.000");
    assert_eq!(frame.live_face.len(), 16);
    assert_eq!(frame.elapsed_face.len(), 16);
    // three in the afternoon wraps onto the twelve-hour dial
    match frame.live_face[15] {
        DrawCommand::Radial { angle, .. } => {
            assert_eq!(angle.num, 11_730_000_000_000);
            assert_eq!(angle.den, HOUR_HAND_PERIOD_NS);
        }
        _ => panic!("expected the hour hand last"),
    }
}

#[test]
fn repaint_while_running_reads_the_open_run() {
    let live = Region { x: 0, y: 0, width: 100, height: 100 };
    let elapsed = Region { x: 0, y: 100, width: 100, height: 100 };
    let sw = Stopwatch::Running { accumulated: 1_000, start_mark: 500 };
    let frame = compose_frame(live, elapsed, 0, 0, 0, 0, &sw, 2_500);
    assert_eq!(frame.elapsed_label, "00:03.000");
}

#[test]
fn button_label_names_the_transition() {
    assert_eq!(toggle_button_label(true), "halt");
    assert_eq!(toggle_button_label(false), "start");
}
