//! The decisions of the dashboard's loop.
//!
//! The loop sets the terminal up, then draws and waits for a key in turn
//! until the quit key comes or something fails, and then puts the terminal
//! back as it was before it exits. Touching the terminal is the caller's
//! work: it performs the action that the monitor asks for, tells the monitor
//! how that went, and is given the next action.

use vstd::prelude::*;

verus! {

/// How long one wait for a key may last, in milliseconds.
pub const POLL_TIMEOUT_MS: u64 = 100;

/// The key that ends the dashboard.
pub const QUIT_KEY: char = 'q';

/// What the monitor asks its caller to do next.
#[derive(Debug, Clone, Copy, PartialEq, Eq, Structural)]
pub enum Action {
    /// Switch the terminal's input to raw mode.
    EnableRawMode,
    /// Switch to the alternate screen.
    EnterAlternateScreen,
    /// Open the drawing surface on the terminal.
    OpenTerminal,
    /// Take a snapshot of the table, let go of the table, and draw the snapshot.
    Draw,
    /// Wait for a key, no longer than `POLL_TIMEOUT_MS`.
    AwaitInput,
    /// Switch the terminal's input back from raw mode.
    DisableRawMode,
    /// Leave the alternate screen.
    LeaveAlternateScreen,
    /// Make the cursor visible again.
    ShowCursor,
    /// Leave the loop; `Monitor::exit_code` is the status to exit with.
    Exit,
}

/// How the action that was asked for went.
#[derive(Debug, Clone, Copy, PartialEq, Eq, Structural)]
pub enum Outcome {
    /// The terminal refused the action.
    Failed,
    /// The action was done; a wait ended without a character key.
    Done,
    /// A wait ended with this character key.
    Key(char),
}

/// The state of the loop: the action that its caller is performing, and
/// whether any action has failed so far.
#[derive(Debug, Clone, Copy, PartialEq, Eq, Structural)]
pub struct Monitor {
    pub awaiting: Action,
    pub failed: bool,
}

/// How far along an action is: setting up comes before the loop of drawing
/// and waiting, that before each step of restoring, and leaving comes last.
pub open spec fn stage(action: Action) -> nat {
    match action {
        Action::EnableRawMode => 0,
        Action::EnterAlternateScreen => 1,
        Action::OpenTerminal => 2,
        Action::Draw => 3,
        Action::AwaitInput => 3,
        Action::DisableRawMode => 4,
        Action::LeaveAlternateScreen => 5,
        Action::ShowCursor => 6,
        Action::Exit => 7,
    }
}

/// The three actions that put the terminal back.
pub open spec fn restores(action: Action) -> bool {
    action == Action::DisableRawMode || action == Action::LeaveAlternateScreen || action
        == Action::ShowCursor
}

/// The action that follows `awaiting` once its outcome is known.
///
/// While setting up, a failure before raw mode is on leads straight out, and
/// a later one to restoring. In the loop a drawn frame is followed by a wait,
/// and a wait by the next frame, unless the quit key came or the wait failed.
/// Restoring goes through its three steps whatever their outcomes are.
pub open spec fn action_after(awaiting: Action, outcome: Outcome) -> Action {
    match awaiting {
        Action::EnableRawMode => if outcome is Failed {
            Action::Exit
        } else {
            Action::EnterAlternateScreen
        },
        Action::EnterAlternateScreen => if outcome is Failed {
            Action::DisableRawMode
        } else {
            Action::OpenTerminal
        },
        Action::OpenTerminal => if outcome is Failed {
            Action::DisableRawMode
        } else {
            Action::Draw
        },
        Action::Draw => if outcome is Failed {
            Action::DisableRawMode
        } else {
            Action::AwaitInput
        },
        Action::AwaitInput => if outcome is Failed || outcome == Outcome::Key(QUIT_KEY) {
            Action::DisableRawMode
        } else {
            Action::Draw
        },
        Action::DisableRawMode => Action::LeaveAlternateScreen,
        Action::LeaveAlternateScreen => Action::ShowCursor,
        Action::ShowCursor => Action::Exit,
        Action::Exit => Action::Exit,
    }
}

impl Monitor {
    /// The monitor before anything was done.
    pub open spec fn initial() -> Monitor {
        Monitor { awaiting: Action::EnableRawMode, failed: false }
    }

    /// The monitor after one outcome. A failure is remembered, except after
    /// leaving, when nothing is awaited any more.
    pub open spec fn after(self, outcome: Outcome) -> Monitor {
        Monitor {
            awaiting: action_after(self.awaiting, outcome),
            failed: self.failed || (outcome is Failed && self.awaiting != Action::Exit),
        }
    }

    /// The monitor after a run of outcomes, in the order given.
    pub open spec fn after_all(self, outcomes: Seq<Outcome>) -> Monitor
        decreases outcomes.len(),
    {
        if outcomes.len() == 0 {
            self
        } else {
            self.after_all(outcomes.drop_last()).after(outcomes.last())
        }
    }

    /// The status to exit with: 0 after a clean run, 1 after a failure.
    pub open spec fn spec_exit_code(self) -> i32 {
        if self.failed {
            1
        } else {
            0
        }
    }

    /// Starts the loop: the first action asked for is `EnableRawMode`.
    pub fn start() -> (monitor: Monitor)
        ensures
            monitor == Monitor::initial(),
    {
        Monitor { awaiting: Action::EnableRawMode, failed: false }
    }

    /// Takes the outcome of the action that was asked for and asks for the
    /// next one, which is `awaiting` of the monitor returned.
    pub fn step(self, outcome: Outcome) -> (next: Monitor)
        ensures
            next == self.after(outcome),
    {
        let failure = match outcome {
            Outcome::Failed => true,
            _ => false,
        };
        let quit = match outcome {
            Outcome::Key(c) => c == QUIT_KEY,
            _ => false,
        };
        let awaiting = match self.awaiting {
            Action::EnableRawMode => if failure {
                Action::Exit
            } else {
                Action::EnterAlternateScreen
            },
            Action::EnterAlternateScreen => if failure {
                Action::DisableRawMode
            } else {
                Action::OpenTerminal
            },
            Action::OpenTerminal => if failure {
                Action::DisableRawMode
            } else {
                Action::Draw
            },
            Action::Draw => if failure {
                Action::DisableRawMode
            } else {
                Action::AwaitInput
            },
            Action::AwaitInput => if failure || quit {
                Action::DisableRawMode
            } else {
                Action::Draw
            },
            Action::DisableRawMode => Action::LeaveAlternateScreen,
            Action::LeaveAlternateScreen => Action::ShowCursor,
            Action::ShowCursor => Action::Exit,
            Action::Exit => Action::Exit,
        };
        let left = match self.awaiting {
            Action::Exit => true,
            _ => false,
        };
        Monitor { awaiting, failed: self.failed || (failure && !left) }
    }

    /// Whether the loop is over.
    pub fn is_over(&self) -> (over: bool)
        ensures
            over == (self.awaiting == Action::Exit),
    {
        match self.awaiting {
            Action::Exit => true,
            _ => false,
        }
    }

    /// The status to exit with: 0 after a clean run, 1 after a failure.
    pub fn exit_code(&self) -> (code: i32)
        ensures
            code == self.spec_exit_code(),
            code == 0 <==> !self.failed,
    {
        if self.failed {
            1
        } else {
            0
        }
    }
}

/// The quit key, seen while waiting, starts the restoring; its three steps are
/// asked for in order, each once, whatever their outcomes; then the loop is
/// left, with status 0 exactly when nothing has failed.
pub proof fn lemma_quit_restores_then_exits(
    monitor: Monitor,
    first: Outcome,
    second: Outcome,
    third: Outcome,
)
    requires
        monitor.awaiting == Action::AwaitInput,
    ensures
        ({
            let quitting = monitor.after(Outcome::Key(QUIT_KEY));
            let left = quitting.after(first).after(second).after(third);
            &&& quitting.awaiting == Action::DisableRawMode
            &&& quitting.after(first).awaiting == Action::LeaveAlternateScreen
            &&& quitting.after(first).after(second).awaiting == Action::ShowCursor
            &&& left.awaiting == Action::Exit
            &&& left.spec_exit_code() == 0 <==> !monitor.failed && !(first is Failed) && !(
            second is Failed) && !(third is Failed)
        }),
{
}

/// A wait that ends with any other key, or with none, is followed by the next frame.
pub proof fn lemma_other_keys_redraw(monitor: Monitor, outcome: Outcome)
    requires
        monitor.awaiting == Action::AwaitInput,
        !(outcome is Failed),
        outcome != Outcome::Key(QUIT_KEY),
    ensures
        monitor.after(outcome).awaiting == Action::Draw,
        monitor.after(outcome).failed == monitor.failed,
{
}

/// The loop never goes back: whatever the outcomes, the action awaited after
/// them is no earlier a stage than the one awaited before, and a failure once
/// seen stays seen.
pub proof fn lemma_never_goes_back(monitor: Monitor, outcomes: Seq<Outcome>)
    ensures
        stage(monitor.after_all(outcomes).awaiting) >= stage(monitor.awaiting),
        monitor.failed ==> monitor.after_all(outcomes).failed,
    decreases outcomes.len(),
{
    if outcomes.len() > 0 {
        lemma_never_goes_back(monitor, outcomes.drop_last());
    }
}

/// No step of restoring is asked for twice: once one is awaited, every later
/// action is of a later stage.
pub proof fn lemma_restores_once(monitor: Monitor, outcomes: Seq<Outcome>)
    requires
        restores(monitor.awaiting),
        outcomes.len() > 0,
    ensures
        stage(monitor.after_all(outcomes).awaiting) > stage(monitor.awaiting),
    decreases outcomes.len(),
{
    let before = monitor.after_all(outcomes.drop_last());
    if outcomes.len() > 1 {
        lemma_restores_once(monitor, outcomes.drop_last());
    } else {
        assert(before == monitor);
    }
    assert(stage(before.after(outcomes.last()).awaiting) >= stage(before.awaiting));
}

/// The loop is left only after restoring, or before raw mode was ever on: the
/// action before `Exit` is `ShowCursor`, or `EnableRawMode` that failed.
pub proof fn lemma_exit_follows_restoring(monitor: Monitor, outcome: Outcome)
    requires
        monitor.awaiting != Action::Exit,
        monitor.after(outcome).awaiting == Action::Exit,
    ensures
        monitor.awaiting == Action::ShowCursor || (monitor.awaiting == Action::EnableRawMode
            && outcome is Failed),
{
}

/// After leaving, the monitor asks for nothing more and its status stays.
pub proof fn lemma_exit_is_final(monitor: Monitor, outcomes: Seq<Outcome>)
    requires
        monitor.awaiting == Action::Exit,
    ensures
        monitor.after_all(outcomes) == monitor,
    decreases outcomes.len(),
{
    if outcomes.len() > 0 {
        lemma_exit_is_final(monitor, outcomes.drop_last());
    }
}

} // verus!
