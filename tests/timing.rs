use mo::engine::{ControlEvent, SessionError, SharedState, TimingState};
use mo::morse::MorseSymbol;
use mo::pipeline::{clock_step, dispatch_input, ClockAction, InputAction, InputEvent};

fn ticks(t: &mut TimingState, s: &mut SharedState, k: usize) {
    for _ in 0..k {
        t.handle(s, ControlEvent::Tick);
    }
}

fn press_for(t: &mut TimingState, s: &mut SharedState, k: usize) {
    t.handle(s, ControlEvent::Press);
    ticks(t, s, k);
    t.handle(s, ControlEvent::Release);
}

fn session(width: usize) -> (TimingState, SharedState) {
    (TimingState::new(), SharedState::new(width).unwrap())
}

#[test]
fn six_ticks_is_a_dit() {
    let (mut t, mut s) = session(20);
    press_for(&mut t, &mut s, 6);
    ticks(&mut t, &mut s, 1);
    assert_eq!(t.partial, vec![MorseSymbol::Dit]);
    assert_eq!(t.pressed_ticks, 0);
}

#[test]
fn seven_ticks_is_a_dah() {
    let (mut t, mut s) = session(20);
    press_for(&mut t, &mut s, 7);
    ticks(&mut t, &mut s, 1);
    assert_eq!(t.partial, vec![MorseSymbol::Dah]);
}

#[test]
fn single_dit_decodes_to_e() {
    let (mut t, mut s) = session(20);
    press_for(&mut t, &mut s, 1);
    ticks(&mut t, &mut s, 11);
    assert!(t.partial.is_empty());
    assert_eq!(s.snapshot().1, "e");
}

#[test]
fn dit_then_dah_decodes_to_et() {
    let (mut t, mut s) = session(20);
    press_for(&mut t, &mut s, 1);
    ticks(&mut t, &mut s, 11);
    press_for(&mut t, &mut s, 7);
    ticks(&mut t, &mut s, 11);
    assert_eq!(s.snapshot().1, "et");
}

#[test]
fn letter_needs_more_than_ten_idle_ticks() {
    let (mut t, mut s) = session(20);
    press_for(&mut t, &mut s, 2);
    ticks(&mut t, &mut s, 10);
    assert_eq!(s.snapshot().1, "");
    assert_eq!(t.partial, vec![MorseSymbol::Dit]);
    ticks(&mut t, &mut s, 1);
    assert_eq!(s.snapshot().1, "e");
}

#[test]
fn unknown_sequence_is_dropped() {
    let (mut t, mut s) = session(20);
    for _ in 0..4 {
        press_for(&mut t, &mut s, 8);
        ticks(&mut t, &mut s, 2);
    }
    assert_eq!(t.partial.len(), 4);
    ticks(&mut t, &mut s, 12);
    assert!(t.partial.is_empty());
    assert_eq!(s.snapshot().1, "");
}

#[test]
fn clear_empties_the_message() {
    let (mut t, mut s) = session(20);
    press_for(&mut t, &mut s, 1);
    ticks(&mut t, &mut s, 13);
    assert_eq!(s.snapshot().1, "e");
    t.handle(&mut s, ControlEvent::ClearMessage);
    assert_eq!(s.snapshot().1, "");
}

#[test]
fn pause_keeps_the_press_count() {
    let (mut t, mut s) = session(20);
    t.handle(&mut s, ControlEvent::Press);
    ticks(&mut t, &mut s, 3);
    // paused: the clock posts no tick
    assert_eq!(clock_step(false, true), ClockAction::Idle);
    ticks(&mut t, &mut s, 4);
    assert_eq!(t.pressed_ticks, 7);
    t.handle(&mut s, ControlEvent::Release);
    ticks(&mut t, &mut s, 1);
    assert_eq!(t.partial, vec![MorseSymbol::Dah]);
}

#[test]
fn shutdown_stops_the_clock() {
    assert_eq!(clock_step(true, false), ClockAction::Stop);
    assert_eq!(clock_step(true, true), ClockAction::Stop);
    assert_eq!(clock_step(false, false), ClockAction::Emit);
    assert_eq!(dispatch_input(InputEvent::Key('q')), InputAction::Shutdown);
}

#[test]
fn input_bindings() {
    assert_eq!(dispatch_input(InputEvent::Key('c')), InputAction::Post(ControlEvent::ClearMessage));
    assert_eq!(dispatch_input(InputEvent::Key(' ')), InputAction::TogglePause);
    assert_eq!(dispatch_input(InputEvent::PointerDown), InputAction::Post(ControlEvent::Press));
    assert_eq!(dispatch_input(InputEvent::PointerUp), InputAction::Post(ControlEvent::Release));
    assert_eq!(dispatch_input(InputEvent::Key('x')), InputAction::Ignore);
    assert_eq!(dispatch_input(InputEvent::Other), InputAction::Ignore);
}

#[test]
fn zero_width_is_refused() {
    assert!(matches!(SharedState::new(0), Err(SessionError::ZeroWidth)));
}

#[test]
fn snapshot_shows_the_trace() {
    let (mut t, mut s) = session(6);
    press_for(&mut t, &mut s, 2);
    ticks(&mut t, &mut s, 1);
    let (w, m) = s.snapshot();
    assert_eq!(w, vec![false, false, true, true, false]);
    assert_eq!(m, "");
}
