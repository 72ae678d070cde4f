use drive_loop::animation::Direction;
use drive_loop::fault::{BusFault, Fault, PanelFault};
use drive_loop::flush::DisplayFlushAdapter;
use drive_loop::region::{Color, DisplayRegion};
use drive_loop::pacer::ClockTick;
use drive_loop::scheduler::{Action, Event, Phase, RenderScheduler};
use drive_loop::touch::{PointerEvent, TouchSample};

/// Runs one cycle, answering each request as asked, and gives what was
/// asked for after each of the five events.
fn cycle(
    s: &mut RenderScheduler,
    started_at: u64,
    polled: Result<Option<TouchSample>, BusFault>,
    redrawn: Result<(), PanelFault>,
    finished_at: u64,
) -> Vec<Action> {
    vec![
        s.step(Event::Started { now: started_at }),
        s.step(Event::TouchPolled { polled }),
        s.step(Event::Forwarded),
        s.step(Event::Redrawn { outcome: redrawn, now: finished_at }),
        s.step(Event::Paced),
    ]
}

fn forwarded(actions: &[Action]) -> Vec<PointerEvent> {
    actions
        .iter()
        .filter_map(|a| match a {
            Action::Forward { event } => Some(*event),
            _ => None,
        })
        .collect()
}

#[test]
fn starts_by_asking_for_the_time() {
    let s = RenderScheduler::start(Ok(()));
    assert!(s.is_running());
    assert_eq!(s.fault(), None);
    assert_eq!(s.phase(), Phase::AwaitStart);
    assert_eq!(s.pending(), Action::BeginCycle);
    assert_eq!(s.animation().angle(), 0);
}

#[test]
fn failed_reset_stops_the_loop_before_it_starts() {
    let mut s = RenderScheduler::start(Err(BusFault { code: -1 }));
    assert!(!s.is_running());
    assert_eq!(s.fault(), Some(Fault::Bus(BusFault { code: -1 })));
    assert_eq!(s.pending(), Action::Halt { fault: Fault::Bus(BusFault { code: -1 }) });
    assert_eq!(
        s.step(Event::Started { now: 0 }),
        Action::Halt { fault: Fault::Bus(BusFault { code: -1 }) }
    );
}

#[test]
fn one_cycle_in_order() {
    let mut s = RenderScheduler::start(Ok(()));
    let press = TouchSample { x: 400, y: 240, pressed: true };
    let actions = cycle(&mut s, 1_000, Ok(Some(press)), Ok(()), 4_500);
    assert_eq!(
        actions,
        vec![
            Action::PollTouch,
            Action::Forward { event: PointerEvent::Pressed { x: 400, y: 240 } },
            Action::Redraw { angle: 1 },
            Action::Pace { tick: ClockTick { micros: 3_500 }, delay_ms: 20, diagnostics: false },
            Action::BeginCycle,
        ]
    );
    assert_eq!(s.phase(), Phase::AwaitStart);
}

#[test]
fn hundred_polls_without_touch() {
    let mut s = RenderScheduler::start(Ok(()));
    let mut events = Vec::new();
    for n in 1..=100u16 {
        let actions = cycle(&mut s, 0, Ok(None), Ok(()), 0);
        events.extend(forwarded(&actions));
        assert_eq!(s.animation().angle(), n);
    }
    assert_eq!(events, vec![PointerEvent::Released { x: 0, y: 0 }; 100]);
    assert!(s.is_running());
}

#[test]
fn five_polls_with_touch() {
    let mut s = RenderScheduler::start(Ok(()));
    let press = TouchSample { x: 400, y: 240, pressed: true };
    let mut events = Vec::new();
    for _ in 0..5 {
        let actions = cycle(&mut s, 10, Ok(Some(press)), Ok(()), 20);
        assert_eq!(forwarded(&actions).len(), 1);
        events.extend(forwarded(&actions));
    }
    assert_eq!(events, vec![PointerEvent::Pressed { x: 400, y: 240 }; 5]);
}

#[test]
fn unpressed_sample_is_a_release_at_origin() {
    let mut s = RenderScheduler::start(Ok(()));
    let idle = TouchSample { x: 123, y: 45, pressed: false };
    let actions = cycle(&mut s, 0, Ok(Some(idle)), Ok(()), 0);
    assert_eq!(forwarded(&actions), vec![PointerEvent::Released { x: 0, y: 0 }]);
}

#[test]
fn touch_has_no_bearing_on_the_angle() {
    let mut quiet = RenderScheduler::start(Ok(()));
    let mut busy = RenderScheduler::start(Ok(()));
    let press = TouchSample { x: 1, y: 2, pressed: true };
    for _ in 0..600 {
        cycle(&mut quiet, 0, Ok(None), Ok(()), 0);
        cycle(&mut busy, 0, Ok(Some(press)), Ok(()), 0);
        assert_eq!(quiet.animation().angle(), busy.animation().angle());
        assert_eq!(quiet.animation().direction(), busy.animation().direction());
    }
}

#[test]
fn direction_flips_after_271_cycles() {
    let mut s = RenderScheduler::start(Ok(()));
    let mut angles = Vec::new();
    let mut diagnostics = Vec::new();
    for _ in 0..271 {
        let actions = cycle(&mut s, 0, Ok(None), Ok(()), 0);
        if let Action::Redraw { angle } = actions[2] {
            angles.push(angle);
        }
        if let Action::Pace { diagnostics: d, .. } = actions[3] {
            diagnostics.push(d);
        }
    }
    assert_eq!(angles.len(), 271);
    assert_eq!(angles[269], 270);
    assert_eq!(angles[270], 269);
    assert_eq!(s.animation().direction(), Direction::Backward);
    assert_eq!(s.animation().counter(), 1);
    assert_eq!(s.animation().angle(), 269);
    assert_eq!(diagnostics.iter().filter(|d| **d).count(), 1);
    assert!(diagnostics[270]);
}

#[test]
fn panel_fault_ends_the_loop_in_its_cycle() {
    let mut s = RenderScheduler::start(Ok(()));
    for _ in 0..3 {
        cycle(&mut s, 0, Ok(None), Ok(()), 0);
    }
    let fault = Fault::Panel(PanelFault { code: 0x107 });
    let actions = cycle(&mut s, 0, Ok(None), Err(PanelFault { code: 0x107 }), 0);
    assert_eq!(
        actions,
        vec![
            Action::PollTouch,
            Action::Forward { event: PointerEvent::Released { x: 0, y: 0 } },
            Action::Redraw { angle: 4 },
            Action::Halt { fault },
            Action::Halt { fault },
        ]
    );
    assert!(!s.is_running());
    assert_eq!(s.fault(), Some(fault));
    let later = cycle(&mut s, 0, Ok(None), Ok(()), 0);
    assert_eq!(later, vec![Action::Halt { fault }; 5]);
    assert_eq!(s.animation().angle(), 4);
    assert_eq!(s.fault(), Some(fault));
}

#[test]
fn bus_fault_ends_the_loop_at_the_poll() {
    let mut s = RenderScheduler::start(Ok(()));
    cycle(&mut s, 0, Ok(None), Ok(()), 0);
    let fault = Fault::Bus(BusFault { code: -2 });
    let actions = cycle(&mut s, 0, Err(BusFault { code: -2 }), Ok(()), 0);
    assert_eq!(actions[0], Action::PollTouch);
    assert_eq!(actions[1..].to_vec(), vec![Action::Halt { fault }; 4]);
    assert!(forwarded(&actions).is_empty());
    assert_eq!(s.animation().angle(), 1);
    assert_eq!(s.fault(), Some(fault));
    assert_eq!(fault.code(), -2);
    assert!(fault.is_bus());
}

#[test]
fn fault_codes() {
    let f = Fault::Panel(PanelFault { code: 77 });
    assert_eq!(f.code(), 77);
    assert!(!f.is_bus());
}

#[test]
fn events_out_of_turn_change_nothing() {
    let mut s = RenderScheduler::start(Ok(()));
    assert_eq!(s.step(Event::Forwarded), Action::BeginCycle);
    assert_eq!(s.step(Event::Paced), Action::BeginCycle);
    assert_eq!(s.step(Event::TouchPolled { polled: Err(BusFault { code: 3 }) }), Action::BeginCycle);
    assert_eq!(
        s.step(Event::Redrawn { outcome: Err(PanelFault { code: 3 }), now: 9 }),
        Action::BeginCycle
    );
    assert!(s.is_running());
    assert_eq!(s.step(Event::Started { now: 50 }), Action::PollTouch);
    assert_eq!(s.step(Event::Started { now: 90 }), Action::PollTouch);
    assert_eq!(s.step(Event::TouchPolled { polled: Ok(None) }), Action::Forward {
        event: PointerEvent::Released { x: 0, y: 0 }
    });
    assert_eq!(s.step(Event::TouchPolled { polled: Ok(None) }), Action::Forward {
        event: PointerEvent::Released { x: 0, y: 0 }
    });
    assert_eq!(s.step(Event::Forwarded), Action::Redraw { angle: 1 });
    assert_eq!(s.step(Event::Forwarded), Action::Redraw { angle: 1 });
    assert_eq!(
        s.step(Event::Redrawn { outcome: Ok(()), now: 75 }),
        Action::Pace { tick: ClockTick { micros: 25 }, delay_ms: 20, diagnostics: false }
    );
    assert_eq!(s.animation().angle(), 1);
}

#[test]
fn tick_is_zero_when_the_clock_ran_backward() {
    let mut s = RenderScheduler::start(Ok(()));
    let actions = cycle(&mut s, 900, Ok(None), Ok(()), 100);
    assert_eq!(
        actions[3],
        Action::Pace { tick: ClockTick { micros: 0 }, delay_ms: 20, diagnostics: false }
    );
}

#[test]
fn redraw_report_carries_the_adapters_outcome() {
    let mut flush = DisplayFlushAdapter::new();
    assert!(matches!(
        Event::redrawn(&flush, 42),
        Event::Redrawn { outcome: Ok(()), now: 42 }
    ));
    let pixels = vec![Color { red: 9, green: 9, blue: 9 }; 26];
    flush.submit(&DisplayRegion::new(0, 0, 2, 13, pixels).unwrap());
    flush.complete(Ok(()));
    flush.complete(Err(PanelFault { code: 5 }));
    assert!(matches!(
        Event::redrawn(&flush, 43),
        Event::Redrawn { outcome: Err(PanelFault { code: 5 }), now: 43 }
    ));
    let mut s = RenderScheduler::start(Ok(()));
    s.step(Event::Started { now: 0 });
    s.step(Event::TouchPolled { polled: Ok(None) });
    s.step(Event::Forwarded);
    let action = s.step(Event::redrawn(&flush, 43));
    assert_eq!(action, Action::Halt { fault: Fault::Panel(PanelFault { code: 5 }) });
}
