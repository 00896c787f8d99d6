//! The terminal session: exclusive owner of the host terminal's raw-mode and
//! alternate-screen state. The session itself is a state machine; entering
//! and exiting produce the exact sequence of control operations to run
//! against the host terminal, and the specs below say what those sequences do
//! to the terminal's toggles. Enter and exit must alternate strictly; exit
//! tolerates an already-restored session so that an abnormal-termination
//! handler can always call it.

use vstd::prelude::*;

verus! {

/// The host terminal's observable toggles.
#[derive(Clone, Copy, Debug, PartialEq, Eq, Structural)]
pub struct TermFlags {
    pub raw_mode: bool,
    pub alternate_screen: bool,
    pub cursor_hidden: bool,
    pub mouse_capture: bool,
    pub paste_capture: bool,
}

/// The original cooked state: every toggle off.
pub open spec fn cooked_flags() -> TermFlags {
    TermFlags {
        raw_mode: false,
        alternate_screen: false,
        cursor_hidden: false,
        mouse_capture: false,
        paste_capture: false,
    }
}

/// One control operation against the host terminal.
#[derive(Clone, Copy, Debug, PartialEq, Eq, Structural)]
pub enum TermOp {
    EnableRawMode,
    DisableRawMode,
    EnterAlternateScreen,
    LeaveAlternateScreen,
    HideCursor,
    ShowCursor,
    EnableMouseCapture,
    DisableMouseCapture,
    EnableBracketedPaste,
    DisableBracketedPaste,
}

/// What one control operation does to the terminal's toggles.
pub open spec fn apply_op(f: TermFlags, op: TermOp) -> TermFlags {
    match op {
        TermOp::EnableRawMode => TermFlags { raw_mode: true, ..f },
        TermOp::DisableRawMode => TermFlags { raw_mode: false, ..f },
        TermOp::EnterAlternateScreen => TermFlags { alternate_screen: true, ..f },
        TermOp::LeaveAlternateScreen => TermFlags { alternate_screen: false, ..f },
        TermOp::HideCursor => TermFlags { cursor_hidden: true, ..f },
        TermOp::ShowCursor => TermFlags { cursor_hidden: false, ..f },
        TermOp::EnableMouseCapture => TermFlags { mouse_capture: true, ..f },
        TermOp::DisableMouseCapture => TermFlags { mouse_capture: false, ..f },
        TermOp::EnableBracketedPaste => TermFlags { paste_capture: true, ..f },
        TermOp::DisableBracketedPaste => TermFlags { paste_capture: false, ..f },
    }
}

/// What a sequence of control operations does, applied left to right.
pub open spec fn apply_ops(f: TermFlags, ops: Seq<TermOp>) -> TermFlags
    decreases ops.len(),
{
    if ops.len() == 0 {
        f
    } else {
        apply_ops(apply_op(f, ops.first()), ops.drop_first())
    }
}

/// The operations that enter a session: raw mode, alternate screen, hidden
/// cursor, then the configured captures.
pub open spec fn enter_ops_spec(mouse: bool, paste: bool) -> Seq<TermOp> {
    if mouse && paste {
        seq![
            TermOp::EnableRawMode,
            TermOp::EnterAlternateScreen,
            TermOp::HideCursor,
            TermOp::EnableMouseCapture,
            TermOp::EnableBracketedPaste,
        ]
    } else if mouse {
        seq![
            TermOp::EnableRawMode,
            TermOp::EnterAlternateScreen,
            TermOp::HideCursor,
            TermOp::EnableMouseCapture,
        ]
    } else if paste {
        seq![
            TermOp::EnableRawMode,
            TermOp::EnterAlternateScreen,
            TermOp::HideCursor,
            TermOp::EnableBracketedPaste,
        ]
    } else {
        seq![TermOp::EnableRawMode, TermOp::EnterAlternateScreen, TermOp::HideCursor]
    }
}

/// The operations that exit a session: the captures in reverse, then leave
/// the alternate screen, show the cursor, disable raw mode.
pub open spec fn exit_ops_spec(mouse: bool, paste: bool) -> Seq<TermOp> {
    if mouse && paste {
        seq![
            TermOp::DisableBracketedPaste,
            TermOp::DisableMouseCapture,
            TermOp::LeaveAlternateScreen,
            TermOp::ShowCursor,
            TermOp::DisableRawMode,
        ]
    } else if mouse {
        seq![
            TermOp::DisableMouseCapture,
            TermOp::LeaveAlternateScreen,
            TermOp::ShowCursor,
            TermOp::DisableRawMode,
        ]
    } else if paste {
        seq![
            TermOp::DisableBracketedPaste,
            TermOp::LeaveAlternateScreen,
            TermOp::ShowCursor,
            TermOp::DisableRawMode,
        ]
    } else {
        seq![TermOp::LeaveAlternateScreen, TermOp::ShowCursor, TermOp::DisableRawMode]
    }
}

/// The single owned handle on the display. `entered` records whether the
/// session currently holds the terminal in raw mode on the alternate screen;
/// the two switches say which captures the session was configured with.
#[derive(Clone, Copy, Debug, PartialEq, Eq, Structural)]
pub struct Session {
    pub entered: bool,
    pub mouse: bool,
    pub paste: bool,
}

impl Session {
    /// A fresh session with the chosen captures; the terminal is untouched.
    pub fn new(mouse: bool, paste: bool) -> (r: Session)
        ensures
            r == (Session { entered: false, mouse, paste }),
    {
        Session { entered: false, mouse, paste }
    }

    /// Switches the session into raw mode plus alternate screen: returns the
    /// control operations to run against the host terminal, in order. Must
    /// not be called on an entered session.
    pub fn enter(&mut self) -> (ops: Vec<TermOp>)
        requires
            !old(self).entered,
        ensures
            *final(self) == (Session { entered: true, ..*old(self) }),
            ops@ == enter_ops_spec(old(self).mouse, old(self).paste),
    {
        self.entered = true;
        let mut ops: Vec<TermOp> = Vec::new();
        ops.push(TermOp::EnableRawMode);
        ops.push(TermOp::EnterAlternateScreen);
        ops.push(TermOp::HideCursor);
        if self.mouse {
            ops.push(TermOp::EnableMouseCapture);
        }
        if self.paste {
            ops.push(TermOp::EnableBracketedPaste);
        }
        proof {
            assert(ops@ =~= enter_ops_spec(self.mouse, self.paste));
        }
        ops
    }

    /// Reverses every toggle of `enter`. Safe to call on a session that is
    /// already restored: it then returns no operations and changes nothing.
    pub fn exit(&mut self) -> (ops: Vec<TermOp>)
        ensures
            *final(self) == (Session { entered: false, ..*old(self) }),
            ops@ == if old(self).entered {
                exit_ops_spec(old(self).mouse, old(self).paste)
            } else {
                Seq::<TermOp>::empty()
            },
    {
        let mut ops: Vec<TermOp> = Vec::new();
        if !self.entered {
            proof {
                assert(ops@ =~= Seq::<TermOp>::empty());
            }
            return ops;
        }
        self.entered = false;
        if self.paste {
            ops.push(TermOp::DisableBracketedPaste);
        }
        if self.mouse {
            ops.push(TermOp::DisableMouseCapture);
        }
        ops.push(TermOp::LeaveAlternateScreen);
        ops.push(TermOp::ShowCursor);
        ops.push(TermOp::DisableRawMode);
        proof {
            assert(ops@ =~= exit_ops_spec(self.mouse, self.paste));
        }
        ops
    }

    /// Releases the display before the process suspends itself: the same
    /// restoration as `exit`. The caller runs the returned operations and
    /// only then raises the process-level suspend signal.
    pub fn suspend(&mut self) -> (ops: Vec<TermOp>)
        ensures
            *final(self) == (Session { entered: false, ..*old(self) }),
            ops@ == if old(self).entered {
                exit_ops_spec(old(self).mouse, old(self).paste)
            } else {
                Seq::<TermOp>::empty()
            },
    {
        self.exit()
    }

    /// Takes the display back after an external resume: the same switch as
    /// `enter`.
    pub fn resume(&mut self) -> (ops: Vec<TermOp>)
        requires
            !old(self).entered,
        ensures
            *final(self) == (Session { entered: true, ..*old(self) }),
            ops@ == enter_ops_spec(old(self).mouse, old(self).paste),
    {
        self.enter()
    }

    /// Whether the session currently holds the terminal.
    pub fn is_entered(&self) -> (r: bool)
        ensures
            r == self.entered,
    {
        self.entered
    }
}

/// Entering leaves the terminal in raw mode on the alternate screen,
/// whatever state it started in.
pub proof fn lemma_enter_takes_terminal(f: TermFlags, mouse: bool, paste: bool)
    ensures
        apply_ops(f, enter_ops_spec(mouse, paste)).raw_mode,
        apply_ops(f, enter_ops_spec(mouse, paste)).alternate_screen,
{
    reveal_with_fuel(apply_ops, 7);
}

/// Round trip: entering and then immediately exiting restores every toggle
/// to its value before the enter; in particular, starting from the original
/// cooked state the terminal comes back to exactly that state, and raw mode
/// and the alternate screen are off afterwards whatever the starting state.
pub proof fn lemma_enter_exit_round_trip(f: TermFlags, mouse: bool, paste: bool)
    ensures
        !apply_ops(apply_ops(f, enter_ops_spec(mouse, paste)), exit_ops_spec(mouse, paste)).raw_mode,
        !apply_ops(
            apply_ops(f, enter_ops_spec(mouse, paste)),
            exit_ops_spec(mouse, paste),
        ).alternate_screen,
        f == cooked_flags() ==> apply_ops(
            apply_ops(f, enter_ops_spec(mouse, paste)),
            exit_ops_spec(mouse, paste),
        ) == f,
{
    reveal_with_fuel(apply_ops, 12);
}

} // verus!
