use drive_loop::animation::{AnimationState, Direction, ARC_START, SWEEP};

#[test]
fn starts_at_zero_walking_forward() {
    let a = AnimationState::new();
    assert_eq!(a.angle(), 0);
    assert_eq!(a.direction(), Direction::Forward);
    assert_eq!(a.counter(), 0);
}

#[test]
fn sweep_is_270() {
    assert_eq!(SWEEP, 270);
}

#[test]
fn first_step_moves_angle_to_one() {
    let mut a = AnimationState::new();
    let turned = a.advance();
    assert!(!turned);
    assert_eq!(a.angle(), 1);
    assert_eq!(a.counter(), 1);
    assert_eq!(a.direction(), Direction::Forward);
}

#[test]
fn reaches_the_top_after_270_steps() {
    let mut a = AnimationState::new();
    for step in 1..=270u16 {
        let turned = a.advance();
        assert!(!turned);
        assert_eq!(a.angle(), step);
        assert_eq!(a.counter(), step);
    }
    assert_eq!(a.angle(), 270);
    assert_eq!(a.direction(), Direction::Forward);
}

#[test]
fn turns_round_on_step_271() {
    let mut a = AnimationState::new();
    let mut top = 0u16;
    for _ in 0..270 {
        a.advance();
        if a.angle() > top {
            top = a.angle();
        }
    }
    assert_eq!(top, 270);
    let turned = a.advance();
    assert!(turned);
    assert_eq!(a.direction(), Direction::Backward);
    assert_eq!(a.counter(), 1);
    assert_eq!(a.angle(), 269);
}

#[test]
fn walks_back_down_to_zero_and_turns_again() {
    let mut a = AnimationState::new();
    for _ in 0..271 {
        a.advance();
    }
    for step in 2..=270u16 {
        let turned = a.advance();
        assert!(!turned);
        assert_eq!(a.direction(), Direction::Backward);
        assert_eq!(a.counter(), step);
        assert_eq!(a.angle(), 270 - step);
    }
    assert_eq!(a.angle(), 0);
    let turned = a.advance();
    assert!(turned);
    assert_eq!(a.direction(), Direction::Forward);
    assert_eq!(a.counter(), 1);
    assert_eq!(a.angle(), 1);
}

#[test]
fn angle_stays_within_the_sweep_and_moves_by_one() {
    let mut a = AnimationState::new();
    let mut turns = 0;
    for _ in 0..2000 {
        let before = a.angle();
        let was = a.direction();
        let counted = a.counter();
        let turned = a.advance();
        assert!(a.angle() <= 270);
        match a.direction() {
            Direction::Forward => assert_eq!(a.angle(), before + 1),
            Direction::Backward => assert_eq!(a.angle(), before - 1),
        }
        assert_eq!(turned, counted + 1 > 270);
        assert_eq!(turned, a.direction() != was);
        if turned {
            assert_eq!(a.counter(), 1);
            turns += 1;
        } else {
            assert_eq!(a.counter(), counted + 1);
        }
    }
    assert_eq!(turns, 7);
}

#[test]
fn reversed_swaps_the_directions() {
    assert_eq!(Direction::Forward.reversed(), Direction::Backward);
    assert_eq!(Direction::Backward.reversed(), Direction::Forward);
}

#[test]
fn arc_ends_at_the_angle_counted_from_its_start() {
    assert_eq!(ARC_START, 135);
    let mut a = AnimationState::new();
    assert_eq!(a.arc_end(), 135);
    a.advance();
    assert_eq!(a.arc_end(), 136);
    for _ in 1..270 {
        a.advance();
    }
    assert_eq!(a.arc_end(), 405);
}
