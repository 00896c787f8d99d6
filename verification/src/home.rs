//! The counter component: the concrete application state this runtime
//! drives. It owns a counter, two tick counters, an input line, a mode and a
//! key-binding table. Key events are answered with actions; actions are
//! applied by the update step; mouse events drive the two on-screen buttons.
//! Every step is a pure function of the component's value, stated by the
//! `home_*` spec functions. Scheduled increments and decrements are returned
//! as [`DelayedJob`] values for a background task to perform; the component
//! never touches shared state itself.

use vstd::prelude::*;

use crate::action::acts_view;
use crate::action::Action;
use crate::action::ActionV;
use crate::action::copy_chars;
use crate::action::DelayedJob;
use crate::action::JobV;
use crate::config::KeyMap;
use crate::event::MouseButton;
use crate::event::MouseEvent;
use crate::event::MouseKind;
use crate::keys::KeyCode;
use crate::keys::KeyEvent;

verus! {

/// The component's input mode.
#[derive(Clone, Copy, Debug, PartialEq, Eq, Structural)]
pub enum Mode {
    Normal,
    Insert,
    Processing,
}

/// How one of the on-screen buttons is currently drawn.
#[derive(Clone, Copy, Debug, PartialEq, Eq, Structural)]
pub enum ButtonState {
    Normal,
    Hover,
    Clicked,
}

/// A rectangular screen region, as the rendering layer lays it out.
#[derive(Clone, Copy, Debug, PartialEq, Eq, Structural)]
pub struct Rect {
    pub x: u16,
    pub y: u16,
    pub width: u16,
    pub height: u16,
}

/// Whether a cell lies in `r`, both edges inclusive.
pub open spec fn in_rect(r: Rect, column: u16, row: u16) -> bool {
    r.x <= column && column <= r.x + r.width && r.y <= row && row <= r.y + r.height
}

/// The counter component.
pub struct Home {
    pub show_help: bool,
    pub counter: usize,
    pub app_ticker: usize,
    pub render_ticker: usize,
    pub mode: Mode,
    pub input: Vec<char>,
    pub keymap: KeyMap,
    pub text: Vec<Vec<char>>,
    pub increment_rect: Rect,
    pub decrement_rect: Rect,
    pub increment_btn: ButtonState,
    pub decrement_btn: ButtonState,
}

/// The mathematical value of a [`Home`].
pub ghost struct HomeV {
    pub show_help: bool,
    pub counter: usize,
    pub app_ticker: usize,
    pub render_ticker: usize,
    pub mode: Mode,
    pub input: Seq<char>,
    pub keymap: Map<KeyEvent, ActionV>,
    pub text: Seq<Seq<char>>,
    pub increment_rect: Rect,
    pub decrement_rect: Rect,
    pub increment_btn: ButtonState,
    pub decrement_btn: ButtonState,
}

impl View for Home {
    type V = HomeV;

    open spec fn view(&self) -> HomeV {
        HomeV {
            show_help: self.show_help,
            counter: self.counter,
            app_ticker: self.app_ticker,
            render_ticker: self.render_ticker,
            mode: self.mode,
            input: self.input@,
            keymap: self.keymap@,
            text: self.text@.map_values(|l: Vec<char>| l@),
            increment_rect: self.increment_rect,
            decrement_rect: self.decrement_rect,
            increment_btn: self.increment_btn,
            decrement_btn: self.decrement_btn,
        }
    }
}

/// The freshly constructed component: everything zero, normal mode, no
/// bindings.
pub open spec fn home_init(keymap: Map<KeyEvent, ActionV>) -> HomeV {
    HomeV {
        show_help: false,
        counter: 0,
        app_ticker: 0,
        render_ticker: 0,
        mode: Mode::Normal,
        input: Seq::empty(),
        keymap,
        text: Seq::empty(),
        increment_rect: Rect { x: 0, y: 0, width: 0, height: 0 },
        decrement_rect: Rect { x: 0, y: 0, width: 0, height: 0 },
        increment_btn: ButtonState::Normal,
        decrement_btn: ButtonState::Normal,
    }
}

/// What a key event does to the component, and which actions it answers
/// with. Outside insert mode the key is looked up in the binding table and
/// the component itself does not change; a key with no binding produces
/// nothing. In insert mode escape and enter leave the mode (enter first
/// completing the typed line) and any other key edits the input line.
pub open spec fn home_key_result(h: HomeV, key: KeyEvent) -> (HomeV, Seq<ActionV>) {
    if h.mode == Mode::Insert {
        if key.code == KeyCode::Esc {
            (h, seq![ActionV::EnterNormal])
        } else if key.code == KeyCode::Enter {
            (h, seq![ActionV::CompleteInput(h.input), ActionV::EnterNormal])
        } else {
            match key.code {
                KeyCode::Char(c) => (HomeV { input: h.input.push(c), ..h }, seq![ActionV::Update]),
                KeyCode::Backspace => (
                    HomeV {
                        input: if h.input.len() > 0 {
                            h.input.drop_last()
                        } else {
                            h.input
                        },
                        ..h
                    },
                    seq![ActionV::Update],
                ),
                _ => (h, seq![ActionV::Update]),
            }
        }
    } else {
        if h.keymap.contains_key(key) {
            (h, seq![h.keymap[key]])
        } else {
            (h, Seq::empty())
        }
    }
}

/// The job a scheduled increment hands to a background task: announce
/// processing at once, and after one second deliver the increment and leave
/// processing mode.
pub open spec fn increment_job(i: usize) -> JobV {
    JobV {
        immediate: ActionV::EnterProcessing,
        delay_ms: 1000,
        delayed: seq![ActionV::Increment(i), ActionV::ExitProcessing],
    }
}

/// The mirror job for a scheduled decrement.
pub open spec fn decrement_job(i: usize) -> JobV {
    JobV {
        immediate: ActionV::EnterProcessing,
        delay_ms: 1000,
        delayed: seq![ActionV::Decrement(i), ActionV::ExitProcessing],
    }
}

/// What an action does to the component's state: ticks count saturating,
/// increments and decrements saturate, a completed line is appended to the
/// text, and the mode-entering actions switch the mode.
pub open spec fn home_update_state(h: HomeV, a: ActionV) -> HomeV {
    match a {
        ActionV::Tick => HomeV { app_ticker: h.app_ticker.saturating_add(1), ..h },
        ActionV::Render => HomeV { render_ticker: h.render_ticker.saturating_add(1), ..h },
        ActionV::ToggleShowHelp => HomeV { show_help: !h.show_help, ..h },
        ActionV::Increment(i) => HomeV { counter: h.counter.saturating_add(i), ..h },
        ActionV::Decrement(i) => HomeV { counter: h.counter.saturating_sub(i), ..h },
        ActionV::CompleteInput(s) => HomeV { text: h.text.push(s), ..h },
        ActionV::EnterNormal => HomeV { mode: Mode::Normal, ..h },
        ActionV::EnterInsert => HomeV { mode: Mode::Insert, ..h },
        ActionV::EnterProcessing => HomeV { mode: Mode::Processing, ..h },
        ActionV::ExitProcessing => HomeV { mode: Mode::Normal, ..h },
        _ => h,
    }
}

/// Which background job an action asks for: only the two schedule actions do.
pub open spec fn home_update_job(a: ActionV) -> Option<JobV> {
    match a {
        ActionV::ScheduleIncrement => Some(increment_job(1)),
        ActionV::ScheduleDecrement => Some(decrement_job(1)),
        _ => None,
    }
}

/// What a mouse event does: the two buttons are reset, the button under the
/// pointer follows the pointer (hover on movement, clicked on a left press,
/// hover again on release), and a left press on a button schedules its
/// counter change. The increment button is examined first; a click on it
/// answers at once.
pub open spec fn home_mouse_result(h: HomeV, m: MouseEvent) -> (HomeV, Seq<ActionV>) {
    let h0 = HomeV { increment_btn: ButtonState::Normal, decrement_btn: ButtonState::Normal, ..h };
    let inc_in = in_rect(h.increment_rect, m.column, m.row);
    let h1 = if inc_in && m.kind == MouseKind::Moved {
        HomeV { increment_btn: ButtonState::Hover, ..h0 }
    } else if inc_in && m.kind == MouseKind::Down(MouseButton::Left) {
        HomeV { increment_btn: ButtonState::Clicked, ..h0 }
    } else if inc_in && m.kind == MouseKind::Up(MouseButton::Left) {
        HomeV { increment_btn: ButtonState::Hover, ..h0 }
    } else {
        h0
    };
    if inc_in && m.kind == MouseKind::Down(MouseButton::Left) {
        (h1, seq![ActionV::ScheduleIncrement])
    } else {
        let dec_in = in_rect(h.decrement_rect, m.column, m.row);
        let h2 = if dec_in && m.kind == MouseKind::Moved {
            HomeV { decrement_btn: ButtonState::Hover, ..h1 }
        } else if dec_in && m.kind == MouseKind::Down(MouseButton::Left) {
            HomeV { decrement_btn: ButtonState::Clicked, ..h1 }
        } else if dec_in && m.kind == MouseKind::Up(MouseButton::Left) {
            HomeV { decrement_btn: ButtonState::Hover, ..h1 }
        } else {
            h1
        };
        if dec_in && m.kind == MouseKind::Down(MouseButton::Left) {
            (h2, seq![ActionV::ScheduleDecrement])
        } else {
            (h2, Seq::empty())
        }
    }
}

impl Home {
    /// A fresh component with no bindings.
    pub fn new() -> (r: Home)
        ensures
            r@ == home_init(Map::<KeyEvent, ActionV>::empty()),
    {
        let r = Home {
            show_help: false,
            counter: 0,
            app_ticker: 0,
            render_ticker: 0,
            mode: Mode::Normal,
            input: Vec::new(),
            keymap: KeyMap::new(),
            text: Vec::new(),
            increment_rect: Rect { x: 0, y: 0, width: 0, height: 0 },
            decrement_rect: Rect { x: 0, y: 0, width: 0, height: 0 },
            increment_btn: ButtonState::Normal,
            decrement_btn: ButtonState::Normal,
        };
        proof {
            assert(r@.text =~= Seq::<Seq<char>>::empty());
            assert(r@ =~= home_init(Map::<KeyEvent, ActionV>::empty()));
        }
        r
    }

    /// Replaces the binding table; everything else is kept.
    pub fn keymap(self, keymap: KeyMap) -> (r: Home)
        ensures
            r@ == (HomeV { keymap: keymap@, ..self@ }),
    {
        Home { keymap, ..self }
    }

    /// One application tick: the tick counter grows, saturating.
    pub fn tick(&mut self)
        ensures
            final(self)@ == (HomeV { app_ticker: old(self).app_ticker.saturating_add(1), ..old(self)@ }),
    {
        self.app_ticker = self.app_ticker.saturating_add(1);
    }

    /// One render tick: the render counter grows, saturating.
    pub fn render_tick(&mut self)
        ensures
            final(self)@ == (HomeV {
                render_ticker: old(self).render_ticker.saturating_add(1),
                ..old(self)@
            }),
    {
        self.render_ticker = self.render_ticker.saturating_add(1);
    }

    /// Appends a completed line to the displayed text.
    pub fn add(&mut self, s: Vec<char>)
        ensures
            final(self)@ == (HomeV { text: old(self)@.text.push(s@), ..old(self)@ }),
    {
        let ghost old_text = self.text@.map_values(|l: Vec<char>| l@);
        self.text.push(s);
        proof {
            assert(self.text@.map_values(|l: Vec<char>| l@) =~= old_text.push(
                self.text@.last()@,
            ));
        }
    }

    /// Adds `i` to the counter, saturating at the top.
    pub fn increment(&mut self, i: usize)
        ensures
            final(self)@ == (HomeV { counter: old(self).counter.saturating_add(i), ..old(self)@ }),
    {
        self.counter = self.counter.saturating_add(i);
    }

    /// Subtracts `i` from the counter, saturating at zero.
    pub fn decrement(&mut self, i: usize)
        ensures
            final(self)@ == (HomeV { counter: old(self).counter.saturating_sub(i), ..old(self)@ }),
    {
        self.counter = self.counter.saturating_sub(i);
    }

    /// The background job for an increment of `i`: the component itself does
    /// not change; the work is described, not performed.
    pub fn schedule_increment(&self, i: usize) -> (job: DelayedJob)
        ensures
            job@ == increment_job(i),
    {
        let job = DelayedJob {
            immediate: Action::EnterProcessing,
            delay_ms: 1000,
            delayed: vec![Action::Increment(i), Action::ExitProcessing],
        };
        proof {
            assert(job@.delayed =~= increment_job(i).delayed);
        }
        job
    }

    /// The background job for a decrement of `i`.
    pub fn schedule_decrement(&self, i: usize) -> (job: DelayedJob)
        ensures
            job@ == decrement_job(i),
    {
        let job = DelayedJob {
            immediate: Action::EnterProcessing,
            delay_ms: 1000,
            delayed: vec![Action::Decrement(i), Action::ExitProcessing],
        };
        proof {
            assert(job@.delayed =~= decrement_job(i).delayed);
        }
        job
    }

    /// Answers a key event with the actions to enqueue, exactly as
    /// [`home_key_result`] describes.
    pub fn handle_key_events(&mut self, key: KeyEvent) -> (r: Vec<Action>)
        ensures
            final(self)@ == home_key_result(old(self)@, key).0,
            acts_view(r@) == home_key_result(old(self)@, key).1,
    {
        let mut r: Vec<Action> = Vec::new();
        match self.mode {
            Mode::Insert => {
                match key.code {
                    KeyCode::Esc => {
                        r.push(Action::EnterNormal);
                    },
                    KeyCode::Enter => {
                        r.push(Action::CompleteInput(copy_chars(&self.input)));
                        r.push(Action::EnterNormal);
                    },
                    KeyCode::Char(c) => {
                        self.input.push(c);
                        r.push(Action::Update);
                    },
                    KeyCode::Backspace => {
                        if self.input.len() > 0 {
                            let _ = self.input.pop();
                        }
                        r.push(Action::Update);
                    },
                    _ => {
                        r.push(Action::Update);
                    },
                }
            },
            _ => {
                match self.keymap.get(&key) {
                    Some(a) => {
                        r.push(a);
                    },
                    None => {},
                }
            },
        }
        proof {
            assert(acts_view(r@) =~= home_key_result(old(self)@, key).1);
        }
        r
    }

    /// Applies one action, exactly as [`home_update_state`] describes; the
    /// two schedule actions additionally describe their background job. A
    /// follow-up action is never produced.
    pub fn update(&mut self, action: &Action) -> (r: (Option<Action>, Option<DelayedJob>))
        ensures
            final(self)@ == home_update_state(old(self)@, action@),
            r.0 is None,
            match r.1 {
                Some(j) => home_update_job(action@) == Some(j@),
                None => home_update_job(action@) is None,
            },
    {
        let mut job: Option<DelayedJob> = None;
        match action {
            Action::Tick => self.tick(),
            Action::Render => self.render_tick(),
            Action::ToggleShowHelp => {
                self.show_help = !self.show_help;
            },
            Action::ScheduleIncrement => {
                job = Some(self.schedule_increment(1));
            },
            Action::ScheduleDecrement => {
                job = Some(self.schedule_decrement(1));
            },
            Action::Increment(i) => self.increment(*i),
            Action::Decrement(i) => self.decrement(*i),
            Action::CompleteInput(s) => {
                let line = copy_chars(s);
                self.add(line);
            },
            Action::EnterNormal => {
                self.mode = Mode::Normal;
            },
            Action::EnterInsert => {
                self.mode = Mode::Insert;
            },
            Action::EnterProcessing => {
                self.mode = Mode::Processing;
            },
            Action::ExitProcessing => {
                self.mode = Mode::Normal;
            },
            _ => {},
        }
        (None, job)
    }

    /// Answers a mouse event, exactly as [`home_mouse_result`] describes.
    pub fn handle_mouse_events(&mut self, m: MouseEvent) -> (r: Vec<Action>)
        ensures
            final(self)@ == home_mouse_result(old(self)@, m).0,
            acts_view(r@) == home_mouse_result(old(self)@, m).1,
    {
        let mut r: Vec<Action> = Vec::new();
        self.increment_btn = ButtonState::Normal;
        self.decrement_btn = ButtonState::Normal;
        let inc_in = Self::hit(&self.increment_rect, m.column, m.row);
        if inc_in {
            if m.kind == MouseKind::Moved {
                self.increment_btn = ButtonState::Hover;
            } else if m.kind == MouseKind::Down(MouseButton::Left) {
                self.increment_btn = ButtonState::Clicked;
                r.push(Action::ScheduleIncrement);
                proof {
                    assert(acts_view(r@) =~= home_mouse_result(old(self)@, m).1);
                }
                return r;
            } else if m.kind == MouseKind::Up(MouseButton::Left) {
                self.increment_btn = ButtonState::Hover;
            }
        }
        let dec_in = Self::hit(&self.decrement_rect, m.column, m.row);
        if dec_in {
            if m.kind == MouseKind::Moved {
                self.decrement_btn = ButtonState::Hover;
            } else if m.kind == MouseKind::Down(MouseButton::Left) {
                self.decrement_btn = ButtonState::Clicked;
                r.push(Action::ScheduleDecrement);
                proof {
                    assert(acts_view(r@) =~= home_mouse_result(old(self)@, m).1);
                }
                return r;
            } else if m.kind == MouseKind::Up(MouseButton::Left) {
                self.decrement_btn = ButtonState::Hover;
            }
        }
        proof {
            assert(acts_view(r@) =~= home_mouse_result(old(self)@, m).1);
        }
        r
    }

    /// Records where the rendering layer placed the two buttons.
    pub fn set_button_rects(&mut self, increment: Rect, decrement: Rect)
        ensures
            final(self)@ == (HomeV {
                increment_rect: increment,
                decrement_rect: decrement,
                ..old(self)@
            }),
    {
        self.increment_rect = increment;
        self.decrement_rect = decrement;
    }

    /// Whether a cell lies in `r`, both edges inclusive.
    fn hit(r: &Rect, column: u16, row: u16) -> (b: bool)
        ensures
            b == in_rect(*r, column, row),
    {
        column >= r.x && (column as u32) <= (r.x as u32) + (r.width as u32) && row >= r.y && (
        row as u32) <= (r.y as u32) + (r.height as u32)
    }
}

} // verus!
