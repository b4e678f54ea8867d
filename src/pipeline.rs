use vstd::prelude::*;

use crate::engine::{run_events, ControlEvent, EngineView};

verus! {

/// What the sampling clock does in one period.
#[derive(Debug, Clone, Copy, PartialEq, Eq, Structural)]
pub enum ClockAction {
    /// Shutdown was requested: the clock ends.
    Stop,
    /// Post a tick and sleep one period.
    Emit,
    /// Paused: post nothing, sleep one period.
    Idle,
}

/// What the sampling clock does in a period in which it reads these flags.
pub open spec fn clock_action(shutdown: bool, paused: bool) -> ClockAction {
    if shutdown {
        ClockAction::Stop
    } else if paused {
        ClockAction::Idle
    } else {
        ClockAction::Emit
    }
}

/// The sampling clock's decision, from the two flags it reads each period.
pub fn clock_step(shutdown: bool, paused: bool) -> (r: ClockAction)
    ensures
        r == clock_action(shutdown, paused),
{
    if shutdown {
        ClockAction::Stop
    } else if paused {
        ClockAction::Idle
    } else {
        ClockAction::Emit
    }
}

/// Raw input, as the input reader hands it over.
#[derive(Debug, Clone, Copy, PartialEq, Eq, Structural)]
pub enum InputEvent {
    /// A key was pressed.
    Key(char),
    /// The left pointer button went down.
    PointerDown,
    /// The left pointer button went up.
    PointerUp,
    /// Anything else.
    Other,
}

/// What the input reader does with one input.
#[derive(Debug, Clone, Copy, PartialEq, Eq, Structural)]
pub enum InputAction {
    /// Request shutdown and stop reading.
    Shutdown,
    /// Flip the pause flag.
    TogglePause,
    /// Post an event on the engine's queue.
    Post(ControlEvent),
    /// Nothing.
    Ignore,
}

/// The input dispatcher: `q` quits, `c` clears the message, space pauses or
/// resumes sampling, and the pointer button keys the morse key.
pub fn dispatch_input(e: InputEvent) -> (r: InputAction)
    ensures
        r == match e {
            InputEvent::Key('q') => InputAction::Shutdown,
            InputEvent::Key('c') => InputAction::Post(ControlEvent::ClearMessage),
            InputEvent::Key(' ') => InputAction::TogglePause,
            InputEvent::PointerDown => InputAction::Post(ControlEvent::Press),
            InputEvent::PointerUp => InputAction::Post(ControlEvent::Release),
            _ => InputAction::Ignore,
        },
{
    match e {
        InputEvent::Key(c) => {
            if c == 'q' {
                InputAction::Shutdown
            } else if c == 'c' {
                InputAction::Post(ControlEvent::ClearMessage)
            } else if c == ' ' {
                InputAction::TogglePause
            } else {
                InputAction::Ignore
            }
        },
        InputEvent::PointerDown => InputAction::Post(ControlEvent::Press),
        InputEvent::PointerUp => InputAction::Post(ControlEvent::Release),
        InputEvent::Other => InputAction::Ignore,
    }
}

/// A run of `k` ticks.
pub open spec fn ticks(k: nat) -> Seq<ControlEvent> {
    Seq::new(k, |i: int| ControlEvent::Tick)
}

/// While the key stays down, each tick adds one to the press counter and the
/// key stays down.
pub proof fn lemma_ticks_while_down(v: EngineView, k: nat)
    requires
        v.key_down,
        v.pressed_ticks + k <= u64::MAX,
    ensures
        run_events(v, ticks(k)).key_down,
        run_events(v, ticks(k)).pressed_ticks == v.pressed_ticks + k,
    decreases k,
{
    if k > 0 {
        assert(ticks(k).drop_last() =~= ticks((k - 1) as nat));
        lemma_ticks_while_down(v, (k - 1) as nat);
    }
}

/// A pause posts no tick, so a press held across it counts the ticks before
/// the pause and after it: the counter is never reset by pausing.
pub proof fn lemma_pause_keeps_press_count(v: EngineView, before: nat, after: nat)
    requires
        v.key_down,
        v.pressed_ticks + before + after <= u64::MAX,
    ensures
        clock_action(false, true) == ClockAction::Idle,
        run_events(run_events(v, ticks(before)), ticks(after)).pressed_ticks == v.pressed_ticks
            + before + after,
{
    lemma_ticks_while_down(v, before);
    lemma_ticks_while_down(run_events(v, ticks(before)), after);
}

/// Once the clock has seen the shutdown flag it posts nothing more, and with
/// no event left the engine's state stays as it is.
pub proof fn lemma_quiet_after_shutdown(v: EngineView, paused: bool)
    ensures
        clock_action(true, paused) == ClockAction::Stop,
        run_events(v, Seq::empty()) == v,
{
}

} // verus!
