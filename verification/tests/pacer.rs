use drive_loop::pacer::{ClockTick, FramePacer, CYCLE_DELAY_MS};
use drive_loop::panel::{
    is_on_panel, BATCH_HEIGHT, DRAW_BUFFER_PIXELS, PANEL_HEIGHT, PANEL_WIDTH,
};

#[test]
fn tick_is_the_time_between_begin_and_finish() {
    let mut p = FramePacer::new();
    assert_eq!(p.start_time(), None);
    p.begin(1_000);
    assert_eq!(p.start_time(), Some(1_000));
    let tick = p.finish(26_500);
    assert_eq!(tick, ClockTick { micros: 25_500 });
    assert_eq!(tick.millis(), 25);
    assert_eq!(p.start_time(), None);
}

#[test]
fn tick_is_zero_when_the_clock_reads_earlier() {
    let mut p = FramePacer::new();
    p.begin(500);
    assert_eq!(p.finish(499).micros, 0);
}

#[test]
fn tick_is_zero_without_a_start() {
    let mut p = FramePacer::new();
    assert_eq!(p.finish(123_456).micros, 0);
}

#[test]
fn tick_spans_the_whole_clock() {
    let mut p = FramePacer::new();
    p.begin(0);
    assert_eq!(p.finish(u64::MAX).micros, u64::MAX);
}

#[test]
fn delay_is_twenty_milliseconds() {
    assert_eq!(CYCLE_DELAY_MS, 20);
    assert_eq!(FramePacer::new().delay_ms(), 20);
}

#[test]
fn millis_round_down() {
    assert_eq!(ClockTick { micros: 999 }.millis(), 0);
    assert_eq!(ClockTick { micros: 1_000 }.millis(), 1);
    assert_eq!(ClockTick { micros: 20_999 }.millis(), 20);
}

#[test]
fn panel_geometry() {
    assert_eq!(PANEL_WIDTH, 800);
    assert_eq!(PANEL_HEIGHT, 480);
    assert_eq!(BATCH_HEIGHT, 12);
    assert_eq!(DRAW_BUFFER_PIXELS, PANEL_WIDTH * BATCH_HEIGHT);
    assert!(is_on_panel(0, 0));
    assert!(is_on_panel(799, 479));
    assert!(!is_on_panel(800, 479));
    assert!(!is_on_panel(799, 480));
    assert!(!is_on_panel(-1, 0));
    assert!(!is_on_panel(0, -1));
}
