//! Events and the event source. An [`Event`] is what the background producer
//! emits: input, a timer firing, or a lifecycle signal. [`EventSource`] is the
//! producer's state machine: each iteration of the producer waits on four
//! sources at once (cancellation, the two timers, the input reader) and hands
//! whichever arm won to [`EventSource::step`], which decides what to emit and
//! whether the producer ends. Cancellation is one arm of the same wait, never
//! a separately checked flag, so a stop request cannot be missed.

use vstd::prelude::*;

use crate::keys::KeyEvent;
use crate::keys::KeyMods;

verus! {

/// A mouse button.
#[derive(Clone, Copy, Debug, PartialEq, Eq, Structural)]
pub enum MouseButton {
    Left,
    Right,
    Middle,
}

/// What a mouse event reports.
#[derive(Clone, Copy, Debug, PartialEq, Eq, Structural)]
pub enum MouseKind {
    Down(MouseButton),
    Up(MouseButton),
    Drag(MouseButton),
    Moved,
    ScrollUp,
    ScrollDown,
}

/// A mouse event: what happened and where.
#[derive(Clone, Copy, Debug, PartialEq, Eq, Structural)]
pub struct MouseEvent {
    pub kind: MouseKind,
    pub column: u16,
    pub row: u16,
    pub mods: KeyMods,
}

/// Whether a key event is a press, a repeat, or a release. Only presses are
/// forwarded; repeats and releases are filtered out.
#[derive(Clone, Copy, Debug, PartialEq, Eq, Structural)]
pub enum KeyPressKind {
    Press,
    Repeat,
    Release,
}

/// A raw key event from the input reader, before filtering.
#[derive(Clone, Copy, Debug, PartialEq, Eq, Structural)]
pub struct KeyPress {
    pub event: KeyEvent,
    pub kind: KeyPressKind,
}

/// One raw input item from the terminal's input stream.
#[derive(Debug, PartialEq, Eq)]
pub enum InputEvent {
    Key(KeyPress),
    Mouse(MouseEvent),
    Resize(u16, u16),
    FocusGained,
    FocusLost,
    Paste(String),
}

/// What one wait of the producer yielded: the cancellation arm, one of the
/// two timer arms, or the input arm (an item, a read failure, or the end of
/// the stream).
#[derive(Debug, PartialEq, Eq)]
pub enum Polled {
    Cancelled,
    AppTick,
    RenderTick,
    Input(InputEvent),
    InputError,
    InputClosed,
}

/// An event emitted by the event source; immutable once emitted.
#[derive(Debug, PartialEq, Eq)]
pub enum Event {
    Init,
    Quit,
    Error,
    Closed,
    Tick,
    Render,
    FocusGained,
    FocusLost,
    Paste(String),
    Key(KeyEvent),
    Mouse(MouseEvent),
    Resize(u16, u16),
}

/// The mathematical value of an [`InputEvent`].
pub ghost enum InputEventV {
    Key(KeyPress),
    Mouse(MouseEvent),
    Resize(u16, u16),
    FocusGained,
    FocusLost,
    Paste(Seq<char>),
}

/// The mathematical value of a [`Polled`].
pub ghost enum PolledV {
    Cancelled,
    AppTick,
    RenderTick,
    Input(InputEventV),
    InputError,
    InputClosed,
}

/// The mathematical value of an [`Event`].
pub ghost enum EventV {
    Init,
    Quit,
    Error,
    Closed,
    Tick,
    Render,
    FocusGained,
    FocusLost,
    Paste(Seq<char>),
    Key(KeyEvent),
    Mouse(MouseEvent),
    Resize(u16, u16),
}

impl View for InputEvent {
    type V = InputEventV;

    open spec fn view(&self) -> InputEventV {
        match self {
            InputEvent::Key(k) => InputEventV::Key(*k),
            InputEvent::Mouse(m) => InputEventV::Mouse(*m),
            InputEvent::Resize(x, y) => InputEventV::Resize(*x, *y),
            InputEvent::FocusGained => InputEventV::FocusGained,
            InputEvent::FocusLost => InputEventV::FocusLost,
            InputEvent::Paste(s) => InputEventV::Paste(s@),
        }
    }
}

impl View for Polled {
    type V = PolledV;

    open spec fn view(&self) -> PolledV {
        match self {
            Polled::Cancelled => PolledV::Cancelled,
            Polled::AppTick => PolledV::AppTick,
            Polled::RenderTick => PolledV::RenderTick,
            Polled::Input(e) => PolledV::Input(e@),
            Polled::InputError => PolledV::InputError,
            Polled::InputClosed => PolledV::InputClosed,
        }
    }
}

impl View for Event {
    type V = EventV;

    open spec fn view(&self) -> EventV {
        match self {
            Event::Init => EventV::Init,
            Event::Quit => EventV::Quit,
            Event::Error => EventV::Error,
            Event::Closed => EventV::Closed,
            Event::Tick => EventV::Tick,
            Event::Render => EventV::Render,
            Event::FocusGained => EventV::FocusGained,
            Event::FocusLost => EventV::FocusLost,
            Event::Paste(s) => EventV::Paste(s@),
            Event::Key(k) => EventV::Key(*k),
            Event::Mouse(m) => EventV::Mouse(*m),
            Event::Resize(x, y) => EventV::Resize(*x, *y),
        }
    }
}

/// The life of an event source: not yet started, producing, or torn down.
#[derive(Clone, Copy, Debug, PartialEq, Eq, Structural)]
pub enum SourceState {
    Idle,
    Running,
    Stopped,
}

/// The event source's own state: its lifecycle plus the configuration the
/// producer filters by. The channels and the task that carry the emitted
/// events live outside; every decision the producer takes goes through
/// [`EventSource::step`].
#[derive(Clone, Copy, Debug, PartialEq, Eq, Structural)]
pub struct EventSource {
    pub state: SourceState,
    pub app_tick_ms: u64,
    pub render_tick_ms: u64,
    pub mouse: bool,
    pub paste: bool,
}

/// The source with its lifecycle forced to `Stopped`; what [`EventSource::stop`]
/// leaves behind.
pub open spec fn stopped_of(s: EventSource) -> EventSource {
    EventSource { state: SourceState::Stopped, ..s }
}

/// The source's lifecycle after one producer wait: cancellation and the end
/// of the input stream end the producer; everything else keeps it running.
pub open spec fn step_state(s: EventSource, p: PolledV) -> EventSource {
    match p {
        PolledV::Cancelled => stopped_of(s),
        PolledV::InputClosed => stopped_of(s),
        _ => s,
    }
}

/// What one producer wait emits: ticks for the timers, the filtered input
/// events (key presses only; mouse and paste only when captured), an error
/// event for a failed read, and nothing once the source stops.
pub open spec fn step_emit(s: EventSource, p: PolledV) -> Option<EventV> {
    match p {
        PolledV::Cancelled => None,
        PolledV::AppTick => Some(EventV::Tick),
        PolledV::RenderTick => Some(EventV::Render),
        PolledV::Input(e) => match e {
            InputEventV::Key(k) => if k.kind == KeyPressKind::Press {
                Some(EventV::Key(k.event))
            } else {
                None
            },
            InputEventV::Mouse(m) => if s.mouse {
                Some(EventV::Mouse(m))
            } else {
                None
            },
            InputEventV::Resize(x, y) => Some(EventV::Resize(x, y)),
            InputEventV::FocusGained => Some(EventV::FocusGained),
            InputEventV::FocusLost => Some(EventV::FocusLost),
            InputEventV::Paste(t) => if s.paste {
                Some(EventV::Paste(t))
            } else {
                None
            },
        },
        PolledV::InputError => Some(EventV::Error),
        PolledV::InputClosed => None,
    }
}

impl EventSource {
    /// A source configured with the two tick intervals (milliseconds) and the
    /// capture switches, not yet started.
    pub fn new(app_tick_ms: u64, render_tick_ms: u64, mouse: bool, paste: bool) -> (r: EventSource)
        ensures
            r == (EventSource { state: SourceState::Idle, app_tick_ms, render_tick_ms, mouse, paste }),
    {
        EventSource { state: SourceState::Idle, app_tick_ms, render_tick_ms, mouse, paste }
    }

    /// Starts (or restarts) the producer: the source is now running.
    pub fn start(&mut self)
        ensures
            *final(self) == (EventSource { state: SourceState::Running, ..*old(self) }),
    {
        self.state = SourceState::Running;
    }

    /// One iteration of the producer: decides what the polled arm emits and
    /// whether the producer ends. No event is ever emitted for the
    /// cancellation arm or after the input stream closes.
    pub fn step(&mut self, p: &Polled) -> (r: Option<Event>)
        requires
            old(self).state == SourceState::Running,
        ensures
            *final(self) == step_state(*old(self), p@),
            match r {
                Some(e) => step_emit(*old(self), p@) == Some(e@),
                None => step_emit(*old(self), p@) is None,
            },
    {
        match p {
            Polled::Cancelled => {
                self.state = SourceState::Stopped;
                None
            },
            Polled::AppTick => Some(Event::Tick),
            Polled::RenderTick => Some(Event::Render),
            Polled::Input(e) => match e {
                InputEvent::Key(k) => {
                    if k.kind == KeyPressKind::Press {
                        Some(Event::Key(k.event))
                    } else {
                        None
                    }
                },
                InputEvent::Mouse(m) => {
                    if self.mouse {
                        Some(Event::Mouse(*m))
                    } else {
                        None
                    }
                },
                InputEvent::Resize(x, y) => Some(Event::Resize(*x, *y)),
                InputEvent::FocusGained => Some(Event::FocusGained),
                InputEvent::FocusLost => Some(Event::FocusLost),
                InputEvent::Paste(t) => {
                    if self.paste {
                        Some(Event::Paste(t.clone()))
                    } else {
                        None
                    }
                },
            },
            Polled::InputError => Some(Event::Error),
            Polled::InputClosed => {
                self.state = SourceState::Stopped;
                None
            },
        }
    }

    /// Requests the producer to end. Stopping an already-stopped source
    /// succeeds and changes nothing.
    pub fn stop(&mut self)
        ensures
            *final(self) == stopped_of(*old(self)),
            old(self).state == SourceState::Stopped ==> *final(self) == *old(self),
    {
        self.state = SourceState::Stopped;
    }

    /// Whether the producer has ended.
    pub fn is_stopped(&self) -> (r: bool)
        ensures
            r == (self.state == SourceState::Stopped),
    {
        match self.state {
            SourceState::Stopped => true,
            _ => false,
        }
    }
}

/// Stopping is idempotent: a second stop leaves exactly the state the first
/// one left, and stopping an already-stopped source is a no-op.
pub proof fn lemma_stop_idempotent(s: EventSource)
    ensures
        stopped_of(stopped_of(s)) == stopped_of(s),
        s.state == SourceState::Stopped ==> stopped_of(s) == s,
{
}


/// How many times a periodic timer of interval `interval_ms` milliseconds
/// fires within a window of `window_ms` milliseconds, when nothing delays
/// it: once per full interval.
pub open spec fn ideal_tick_count(interval_ms: u64, window_ms: u64) -> int
    recommends
        interval_ms > 0,
{
    window_ms as int / interval_ms as int
}

/// The ideal firing count, computed.
pub fn ticks_in_window(interval_ms: u64, window_ms: u64) -> (r: u64)
    requires
        interval_ms > 0,
    ensures
        r == ideal_tick_count(interval_ms, window_ms),
{
    window_ms / interval_ms
}

/// With a 250 ms app tick and a 50 ms render tick, one second of quiet
/// running yields at least 3 tick events, and a render count within twenty
/// percent of 19.
pub proof fn lemma_default_interval_counts()
    ensures
        ideal_tick_count(250, 1000) >= 3,
        5 * (ideal_tick_count(50, 1000) - 19) <= 19,
        5 * (19 - ideal_tick_count(50, 1000)) <= 19,
{
}

} // verus!
