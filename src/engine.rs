use vstd::prelude::*;

use crate::morse::{decode_symbols, letter_of, MorseSymbol};
use crate::ring::{shift_in, RingBuffer};
use crate::text::push_char;

verus! {

/// A press of this many ticks or more is a dah; a shorter one is a dit.
pub const DAH_TICKS: u64 = 7;

/// After more than this many idle ticks the symbols keyed so far are decoded.
pub const LETTER_GAP_TICKS: u64 = 10;

/// An event on the decode engine's queue.
#[derive(Debug, Clone, Copy, PartialEq, Eq, Structural)]
pub enum ControlEvent {
    Tick,
    Press,
    Release,
    ClearMessage,
}

/// Why a session could not start.
#[derive(Debug, Clone, Copy, PartialEq, Eq, Structural)]
pub enum SessionError {
    /// The sample buffer would have no slot.
    ZeroWidth,
}

/// The symbol for a press run of `ticks` ticks.
pub open spec fn classify(ticks: int) -> MorseSymbol {
    if ticks < DAH_TICKS {
        MorseSymbol::Dit
    } else {
        MorseSymbol::Dah
    }
}

/// One more tick on a counter that stops at the top of its range.
pub open spec fn bump(x: nat) -> nat {
    if x < u64::MAX {
        x + 1
    } else {
        x
    }
}

/// Everything the decode engine's behaviour depends on: its timing record and
/// the shared state it writes.
pub struct EngineView {
    pub key_down: bool,
    pub pressed_ticks: nat,
    pub unpressed_ticks: nat,
    pub partial: Seq<MorseSymbol>,
    pub window: Seq<bool>,
    pub message: Seq<char>,
}

/// What one tick does: sample the key, count, and classify a finished press.
pub open spec fn tick(v: EngineView) -> EngineView {
    let window = shift_in(v.window, v.key_down);
    if v.key_down {
        EngineView {
            pressed_ticks: bump(v.pressed_ticks),
            unpressed_ticks: 0,
            window,
            ..v
        }
    } else {
        let unpressed = bump(v.unpressed_ticks);
        if v.pressed_ticks > 0 {
            EngineView {
                pressed_ticks: 0,
                unpressed_ticks: unpressed,
                partial: v.partial.push(classify(v.pressed_ticks as int)),
                window,
                ..v
            }
        } else if unpressed > LETTER_GAP_TICKS {
            EngineView {
                unpressed_ticks: unpressed,
                partial: Seq::empty(),
                window,
                message: match letter_of(v.partial) {
                    Some(c) => v.message.push(c),
                    None => v.message,
                },
                ..v
            }
        } else {
            EngineView { unpressed_ticks: unpressed, window, ..v }
        }
    }
}

/// What one event does.
pub open spec fn step(v: EngineView, e: ControlEvent) -> EngineView {
    match e {
        ControlEvent::Tick => tick(v),
        ControlEvent::Press => EngineView { key_down: true, ..v },
        ControlEvent::Release => EngineView { key_down: false, ..v },
        ControlEvent::ClearMessage => EngineView { message: Seq::empty(), ..v },
    }
}

/// What a run of events does, applied in order.
pub open spec fn run_events(v: EngineView, es: Seq<ControlEvent>) -> EngineView
    decreases es.len(),
{
    if es.len() == 0 {
        v
    } else {
        step(run_events(v, es.drop_last()), es.last())
    }
}

/// The state shared by the decode engine, its only writer, and the readers that
/// display it: the sample buffer and the decoded message.
pub struct SharedState {
    buf: RingBuffer,
    message: String,
}

impl SharedState {
    /// The sample buffer is well formed.
    pub closed spec fn wf(self) -> bool {
        self.buf.wf()
    }

    /// Number of slots of the sample buffer.
    pub closed spec fn capacity(self) -> nat {
        self.buf.capacity()
    }

    /// The readable window of the sample buffer, oldest first.
    pub closed spec fn window(self) -> Seq<bool> {
        self.buf.visible()
    }

    /// The decoded message.
    pub closed spec fn message(self) -> Seq<char> {
        self.message@
    }

    /// The state of a session on a display `width` columns wide: an empty
    /// buffer of that many slots and an empty message.
    pub fn new(width: usize) -> (r: Result<SharedState, SessionError>)
        ensures
            width == 0 <==> r is Err,
            r is Err ==> r == Err::<SharedState, SessionError>(SessionError::ZeroWidth),
            r is Ok ==> {
                let s = r->Ok_0;
                &&& s.wf()
                &&& s.capacity() == width
                &&& s.window() == Seq::new((width - 1) as nat, |i: int| false)
                &&& s.message() == Seq::<char>::empty()
            },
    {
        if width == 0 {
            return Err(SessionError::ZeroWidth);
        }
        Ok(SharedState { buf: RingBuffer::new(width), message: String::new() })
    }

    /// A copy of the window and of the message, for display.
    pub fn snapshot(&self) -> (r: (Vec<bool>, String))
        requires
            self.wf(),
        ensures
            r.0@ == self.window(),
            r.1@ == self.message(),
    {
        let mut out: Vec<bool> = Vec::new();
        let mut it = self.buf.iter();
        loop
            invariant
                it.wf(),
                out@ + it@ == self.window(),
            ensures
                out@ == self.window(),
            decreases it@.len(),
        {
            let ghost before = it@;
            match it.next() {
                Some(x) => {
                    out.push(x);
                    assert(out@ + it@ =~= self.window()) by {
                        assert(before =~= seq![x] + it@);
                    }
                },
                None => {
                    assert(out@ =~= self.window());
                    break ;
                },
            }
        }
        (out, self.message.clone())
    }
}

/// The decode engine's own record: whether the key is down, how long it has
/// been down or up, and the symbols keyed for the current letter.
pub struct TimingState {
    pub key_down: bool,
    pub pressed_ticks: u64,
    pub unpressed_ticks: u64,
    pub partial: Vec<MorseSymbol>,
}

/// The engine's view of its record and of the shared state.
pub open spec fn engine_view(t: TimingState, s: SharedState) -> EngineView {
    EngineView {
        key_down: t.key_down,
        pressed_ticks: t.pressed_ticks as nat,
        unpressed_ticks: t.unpressed_ticks as nat,
        partial: t.partial@,
        window: s.window(),
        message: s.message(),
    }
}

impl TimingState {
    /// Key up, both counters at zero, no symbol keyed.
    pub fn new() -> (r: TimingState)
        ensures
            r.key_down == false,
            r.pressed_ticks == 0,
            r.unpressed_ticks == 0,
            r.partial@ == Seq::<MorseSymbol>::empty(),
    {
        TimingState { key_down: false, pressed_ticks: 0, unpressed_ticks: 0, partial: Vec::new() }
    }

    /// Applies one event to the record and to the shared state.
    pub fn handle(&mut self, shared: &mut SharedState, event: ControlEvent)
        requires
            old(shared).wf(),
        ensures
            final(shared).wf(),
            final(shared).capacity() == old(shared).capacity(),
            engine_view(*final(self), *final(shared)) == step(
                engine_view(*old(self), *old(shared)),
                event,
            ),
    {
        match event {
            ControlEvent::Tick => self.tick(shared),
            ControlEvent::Press => {
                self.key_down = true;
            },
            ControlEvent::Release => {
                self.key_down = false;
            },
            ControlEvent::ClearMessage => {
                shared.message = String::new();
            },
        }
    }

    fn tick(&mut self, shared: &mut SharedState)
        requires
            old(shared).wf(),
        ensures
            final(shared).wf(),
            final(shared).capacity() == old(shared).capacity(),
            engine_view(*final(self), *final(shared)) == tick(
                engine_view(*old(self), *old(shared)),
            ),
    {
        shared.buf.sample(self.key_down);
        if self.key_down {
            if self.pressed_ticks < u64::MAX {
                self.pressed_ticks = self.pressed_ticks + 1;
            }
            self.unpressed_ticks = 0;
        } else {
            if self.unpressed_ticks < u64::MAX {
                self.unpressed_ticks = self.unpressed_ticks + 1;
            }
            if self.pressed_ticks > 0 {
                let symbol = if self.pressed_ticks < DAH_TICKS {
                    MorseSymbol::Dit
                } else {
                    MorseSymbol::Dah
                };
                self.partial.push(symbol);
            } else if self.unpressed_ticks > LETTER_GAP_TICKS {
                let decoded = decode_symbols(&self.partial);
                self.partial = Vec::new();
                match decoded {
                    Some(c) => push_char(&mut shared.message, c),
                    None => {},
                }
            }
            self.pressed_ticks = 0;
        }
    }
}

} // verus!
