use tui_runtime::action::Action;
use tui_runtime::config::KeyMap;
use tui_runtime::event::ticks_in_window;
use tui_runtime::event::Event;
use tui_runtime::event::EventSource;
use tui_runtime::event::InputEvent;
use tui_runtime::event::KeyPress;
use tui_runtime::event::KeyPressKind;
use tui_runtime::event::MouseButton;
use tui_runtime::event::MouseEvent;
use tui_runtime::event::MouseKind;
use tui_runtime::event::Polled;
use tui_runtime::event::SourceState;
use tui_runtime::home::Home;
use tui_runtime::home::Mode;
use tui_runtime::home::Rect;
use tui_runtime::keys::KeyCode;
use tui_runtime::keys::KeyEvent;
use tui_runtime::keys::KeyMods;
use tui_runtime::runner::Directive;
use tui_runtime::runner::Effect;
use tui_runtime::runner::Runner;
use tui_runtime::terminal::Session;
use tui_runtime::terminal::TermOp;

fn key(c: char) -> KeyEvent {
    KeyEvent::new(KeyCode::Char(c), KeyMods::empty())
}

fn demo_runner() -> Runner {
    let mut km = KeyMap::new();
    km.insert(key('q'), Action::Quit);
    km.insert(key('j'), Action::ScheduleIncrement);
    km.insert(key('k'), Action::ScheduleDecrement);
    km.insert(key('?'), Action::ToggleShowHelp);
    km.insert(key('/'), Action::EnterInsert);
    let mut runner = Runner::new(250, 50, false, false);
    runner.register_component(Home::new().keymap(km));
    runner
}

/// A host terminal's toggles, driven by the control operations the session
/// hands out.
#[derive(Clone, Copy, Debug, PartialEq, Eq, Default)]
struct Flags {
    raw: bool,
    alt: bool,
    hidden: bool,
    mouse: bool,
    paste: bool,
}

fn apply(mut f: Flags, ops: &[TermOp]) -> Flags {
    for op in ops {
        match op {
            TermOp::EnableRawMode => f.raw = true,
            TermOp::DisableRawMode => f.raw = false,
            TermOp::EnterAlternateScreen => f.alt = true,
            TermOp::LeaveAlternateScreen => f.alt = false,
            TermOp::HideCursor => f.hidden = true,
            TermOp::ShowCursor => f.hidden = false,
            TermOp::EnableMouseCapture => f.mouse = true,
            TermOp::DisableMouseCapture => f.mouse = false,
            TermOp::EnableBracketedPaste => f.paste = true,
            TermOp::DisableBracketedPaste => f.paste = false,
        }
    }
    f
}

#[test]
fn session_enter_exit_round_trip() {
    // raw-mode/alternate-screen flags return to their pre-enter values
    let mut s = Session::new(true, true);
    let cooked = Flags::default();
    let entered = apply(cooked, &s.enter());
    assert!(entered.raw && entered.alt && entered.hidden && entered.mouse && entered.paste);
    let restored = apply(entered, &s.exit());
    assert_eq!(restored, cooked);
}

#[test]
fn session_exit_tolerates_restored_terminal() {
    let mut s = Session::new(false, false);
    // not entered: exit is a no-op and hands out no operations
    assert!(s.exit().is_empty());
    let _ = s.enter();
    assert!(!s.exit().is_empty());
    assert!(s.exit().is_empty());
}

#[test]
fn source_lifecycle_and_stop_idempotence() {
    let mut src = EventSource::new(250, 50, false, false);
    assert_eq!(src.state, SourceState::Idle);
    src.start();
    assert_eq!(src.state, SourceState::Running);
    src.stop();
    assert_eq!(src.state, SourceState::Stopped);
    let before = src;
    src.stop();
    // stopping an already-stopped source succeeds and is a no-op
    assert_eq!(src, before);
    assert!(src.is_stopped());
}

#[test]
fn source_emits_ticks_and_filters_input() {
    let mut src = EventSource::new(250, 50, false, false);
    src.start();
    assert_eq!(src.step(&Polled::AppTick), Some(Event::Tick));
    assert_eq!(src.step(&Polled::RenderTick), Some(Event::Render));
    let press = InputEvent::Key(KeyPress { event: key('x'), kind: KeyPressKind::Press });
    assert_eq!(src.step(&Polled::Input(press)), Some(Event::Key(key('x'))));
    let release = InputEvent::Key(KeyPress { event: key('x'), kind: KeyPressKind::Release });
    assert_eq!(src.step(&Polled::Input(release)), None);
    // mouse capture is off, so mouse input is dropped
    let mouse = InputEvent::Mouse(MouseEvent {
        kind: MouseKind::Moved,
        column: 1,
        row: 1,
        mods: KeyMods::empty(),
    });
    assert_eq!(src.step(&Polled::Input(mouse)), None);
    assert_eq!(src.step(&Polled::Input(InputEvent::Resize(80, 24))), Some(Event::Resize(80, 24)));
    // a single read failure emits an error and the producer continues
    assert_eq!(src.step(&Polled::InputError), Some(Event::Error));
    assert_eq!(src.state, SourceState::Running);
    // the end of the input stream ends the producer silently
    assert_eq!(src.step(&Polled::InputClosed), None);
    assert_eq!(src.state, SourceState::Stopped);
}

#[test]
fn source_cancellation_ends_producer() {
    let mut src = EventSource::new(250, 50, true, true);
    src.start();
    assert_eq!(src.step(&Polled::Cancelled), None);
    assert_eq!(src.state, SourceState::Stopped);
}

#[test]
fn unbound_key_changes_nothing() {
    // a key event with no matching binding enqueues nothing and leaves the
    // component untouched
    let mut runner = demo_runner();
    let before_counter = runner.components[0].counter;
    let before_ticker = runner.components[0].app_ticker;
    runner.handle_event(&Event::Key(key('x')));
    let effects = runner.drain();
    assert!(effects.is_empty());
    assert_eq!(runner.directive(), Directive::Continue);
    assert_eq!(runner.components[0].counter, before_counter);
    assert_eq!(runner.components[0].app_ticker, before_ticker);
}

#[test]
fn tick_event_updates_ticker() {
    let mut runner = demo_runner();
    runner.handle_event(&Event::Tick);
    runner.handle_event(&Event::Tick);
    let _ = runner.drain();
    assert_eq!(runner.components[0].app_ticker, 2);
}

#[test]
fn render_event_draws_once() {
    let mut runner = demo_runner();
    runner.handle_event(&Event::Render);
    let effects = runner.drain();
    assert_eq!(effects, vec![Effect::Render]);
    assert_eq!(runner.components[0].render_ticker, 1);
}

#[test]
fn actions_before_suspend_are_drained_first() {
    // ordering: everything enqueued before the suspend action is applied
    // before the suspend directive is taken
    let mut runner = demo_runner();
    runner.enqueue(Action::Increment(5));
    runner.enqueue(Action::Suspend);
    runner.enqueue(Action::Increment(7));
    let _ = runner.drain();
    assert_eq!(runner.components[0].counter, 12);
    assert_eq!(runner.directive(), Directive::SuspendNow);
}

#[test]
fn resume_is_processed_before_later_actions() {
    let mut runner = demo_runner();
    runner.enqueue(Action::Suspend);
    let _ = runner.drain();
    assert_eq!(runner.directive(), Directive::SuspendNow);
    let _ = runner.start();
    let release = runner.stop_and_release();
    assert!(!release.is_empty());
    let reenter = runner.resume_after_suspend();
    assert!(!reenter.is_empty());
    // the synthesized resume action stands first in the queue; an action a
    // background task delivers afterwards comes later
    runner.enqueue(Action::Increment(1));
    let _ = runner.drain();
    assert_eq!(runner.directive(), Directive::Continue);
    assert_eq!(runner.components[0].counter, 1);
}

#[test]
fn quit_action_ends_loop_with_cooked_terminal() {
    let mut runner = demo_runner();
    let enter_ops = runner.start();
    let mut flags = apply(Flags::default(), &enter_ops);
    assert!(flags.raw && flags.alt);
    runner.handle_event(&Event::Key(key('q')));
    let _ = runner.drain();
    assert_eq!(runner.directive(), Directive::QuitNow);
    let exit_ops = runner.stop_and_release();
    flags = apply(flags, &exit_ops);
    assert_eq!(flags, Flags::default());
    assert_eq!(runner.source.state, SourceState::Stopped);
    assert!(!runner.session.entered);
}

#[test]
fn scheduled_increment_runs_as_background_job() {
    let mut runner = demo_runner();
    runner.handle_event(&Event::Key(key('j')));
    let effects = runner.drain();
    assert_eq!(effects.len(), 1);
    match &effects[0] {
        Effect::Spawn(job) => {
            assert_eq!(job.immediate, Action::EnterProcessing);
            assert_eq!(job.delay_ms, 1000);
            assert_eq!(job.delayed, vec![Action::Increment(1), Action::ExitProcessing]);
            // what the background task would deliver, in its order
            runner.enqueue(Action::EnterProcessing);
        },
        other => panic!("expected a spawned job, got {:?}", other),
    }
    let _ = runner.drain();
    assert_eq!(runner.components[0].mode, Mode::Processing);
    runner.enqueue(Action::Increment(1));
    runner.enqueue(Action::ExitProcessing);
    let _ = runner.drain();
    assert_eq!(runner.components[0].counter, 1);
    assert_eq!(runner.components[0].mode, Mode::Normal);
}

#[test]
fn insert_mode_collects_text() {
    let mut runner = demo_runner();
    runner.handle_event(&Event::Key(key('/')));
    let _ = runner.drain();
    assert_eq!(runner.components[0].mode, Mode::Insert);
    runner.handle_event(&Event::Key(key('h')));
    runner.handle_event(&Event::Key(key('i')));
    runner.handle_event(&Event::Key(KeyEvent::new(KeyCode::Enter, KeyMods::empty())));
    let _ = runner.drain();
    assert_eq!(runner.components[0].mode, Mode::Normal);
    assert_eq!(runner.components[0].text, vec![vec!['h', 'i']]);
    // escape leaves insert mode without completing a line
    runner.handle_event(&Event::Key(key('/')));
    let _ = runner.drain();
    runner.handle_event(&Event::Key(KeyEvent::new(KeyCode::Esc, KeyMods::empty())));
    let _ = runner.drain();
    assert_eq!(runner.components[0].mode, Mode::Normal);
    assert_eq!(runner.components[0].text.len(), 1);
}

#[test]
fn backspace_edits_input_line() {
    let mut home = Home::new();
    let _ = home.update(&Action::EnterInsert);
    let _ = home.handle_key_events(key('a'));
    let _ = home.handle_key_events(key('b'));
    let _ = home.handle_key_events(KeyEvent::new(KeyCode::Backspace, KeyMods::empty()));
    assert_eq!(home.input, vec!['a']);
    // backspace on an empty line is harmless
    let _ = home.handle_key_events(KeyEvent::new(KeyCode::Backspace, KeyMods::empty()));
    let _ = home.handle_key_events(KeyEvent::new(KeyCode::Backspace, KeyMods::empty()));
    assert_eq!(home.input, Vec::<char>::new());
}

#[test]
fn counter_saturates_at_both_ends() {
    let mut home = Home::new();
    home.decrement(5);
    assert_eq!(home.counter, 0);
    home.increment(usize::MAX);
    home.increment(10);
    assert_eq!(home.counter, usize::MAX);
}

#[test]
fn mouse_click_schedules_counter_change() {
    let mut runner = Runner::new(250, 50, true, false);
    runner.register_component(Home::new());
    let inc = Rect { x: 0, y: 0, width: 10, height: 2 };
    let dec = Rect { x: 20, y: 0, width: 10, height: 2 };
    runner.components[0].set_button_rects(inc, dec);
    let click = MouseEvent {
        kind: MouseKind::Down(MouseButton::Left),
        column: 5,
        row: 1,
        mods: KeyMods::empty(),
    };
    runner.handle_event(&Event::Mouse(click));
    let effects = runner.drain();
    assert_eq!(effects.len(), 1);
    assert!(matches!(effects[0], Effect::Spawn(_)));
    let hover = MouseEvent {
        kind: MouseKind::Moved,
        column: 25,
        row: 1,
        mods: KeyMods::empty(),
    };
    runner.handle_event(&Event::Mouse(hover));
    let effects = runner.drain();
    assert!(effects.is_empty());
}

#[test]
fn ideal_timer_counts_over_one_second() {
    // 250 ms app ticks and 50 ms render ticks over one quiet second
    assert_eq!(ticks_in_window(250, 1000), 4);
    assert!(ticks_in_window(250, 1000) >= 3);
    let renders = ticks_in_window(50, 1000);
    assert_eq!(renders, 20);
    // within twenty percent of 19
    assert!(5 * (renders as i64 - 19) <= 19 && 5 * (19 - renders as i64) <= 19);
}

#[test]
fn first_component_wins_key_offer() {
    // two registered components: the first answers, the second is not offered
    let mut km = KeyMap::new();
    km.insert(key('t'), Action::Tick);
    let mut runner = Runner::new(250, 50, false, false);
    runner.register_component(Home::new().keymap(km));
    let mut km2 = KeyMap::new();
    km2.insert(key('t'), Action::ToggleShowHelp);
    runner.register_component(Home::new().keymap(km2));
    runner.handle_event(&Event::Key(key('t')));
    let _ = runner.drain();
    // the first component's binding (a tick) ran: both tickers grew, but
    // nobody toggled the help
    assert_eq!(runner.components[0].app_ticker, 1);
    assert_eq!(runner.components[1].app_ticker, 1);
    assert!(!runner.components[0].show_help);
    assert!(!runner.components[1].show_help);
}
