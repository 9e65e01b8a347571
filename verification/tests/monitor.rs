use interface_monitor::monitor::{Action, Monitor, Outcome, POLL_TIMEOUT_MS, QUIT_KEY};

fn run(outcomes: &[Outcome]) -> (Vec<Action>, Monitor) {
    let mut monitor = Monitor::start();
    let mut asked = vec![monitor.awaiting];
    for outcome in outcomes {
        monitor = monitor.step(*outcome);
        asked.push(monitor.awaiting);
    }
    (asked, monitor)
}

#[test]
fn constants() {
    assert_eq!(POLL_TIMEOUT_MS, 100);
    assert_eq!(QUIT_KEY, 'q');
}

#[test]
fn starts_with_raw_mode() {
    let monitor = Monitor::start();
    assert_eq!(monitor.awaiting, Action::EnableRawMode);
    assert!(!monitor.failed);
    assert!(!monitor.is_over());
}

#[test]
fn quit_key_restores_once_and_exits_clean() {
    let (asked, monitor) = run(&[
        Outcome::Done,
        Outcome::Done,
        Outcome::Done,
        Outcome::Done,
        Outcome::Key('q'),
        Outcome::Done,
        Outcome::Done,
        Outcome::Done,
    ]);
    assert_eq!(
        asked,
        vec![
            Action::EnableRawMode,
            Action::EnterAlternateScreen,
            Action::OpenTerminal,
            Action::Draw,
            Action::AwaitInput,
            Action::DisableRawMode,
            Action::LeaveAlternateScreen,
            Action::ShowCursor,
            Action::Exit,
        ]
    );
    assert!(monitor.is_over());
    assert_eq!(monitor.exit_code(), 0);
    for restoring in [Action::DisableRawMode, Action::LeaveAlternateScreen, Action::ShowCursor] {
        assert_eq!(asked.iter().filter(|a| **a == restoring).count(), 1);
    }
}

#[test]
fn other_keys_and_timeouts_redraw() {
    let (asked, monitor) = run(&[
        Outcome::Done,
        Outcome::Done,
        Outcome::Done,
        Outcome::Done,
        Outcome::Done,
        Outcome::Done,
        Outcome::Key('x'),
        Outcome::Done,
        Outcome::Key('Q'),
        Outcome::Done,
    ]);
    assert_eq!(
        asked[3..].to_vec(),
        vec![
            Action::Draw,
            Action::AwaitInput,
            Action::Draw,
            Action::AwaitInput,
            Action::Draw,
            Action::AwaitInput,
            Action::Draw,
            Action::AwaitInput,
        ]
    );
    assert!(!monitor.is_over());
    assert!(!monitor.failed);
}

#[test]
fn key_outside_a_wait_counts_as_done() {
    let (asked, _) = run(&[Outcome::Key('q'), Outcome::Key('q'), Outcome::Key('q'), Outcome::Key('q')]);
    assert_eq!(
        asked,
        vec![
            Action::EnableRawMode,
            Action::EnterAlternateScreen,
            Action::OpenTerminal,
            Action::Draw,
            Action::AwaitInput,
        ]
    );
}

#[test]
fn raw_mode_failure_exits_at_once() {
    let (asked, monitor) = run(&[Outcome::Failed]);
    assert_eq!(asked, vec![Action::EnableRawMode, Action::Exit]);
    assert!(monitor.is_over());
    assert_eq!(monitor.exit_code(), 1);
}

#[test]
fn setup_failure_after_raw_mode_restores() {
    let (asked, monitor) =
        run(&[Outcome::Done, Outcome::Failed, Outcome::Done, Outcome::Done, Outcome::Done]);
    assert_eq!(
        asked,
        vec![
            Action::EnableRawMode,
            Action::EnterAlternateScreen,
            Action::DisableRawMode,
            Action::LeaveAlternateScreen,
            Action::ShowCursor,
            Action::Exit,
        ]
    );
    assert_eq!(monitor.exit_code(), 1);
    let (asked, monitor) = run(&[
        Outcome::Done,
        Outcome::Done,
        Outcome::Failed,
        Outcome::Done,
        Outcome::Done,
        Outcome::Done,
    ]);
    assert_eq!(asked[3], Action::DisableRawMode);
    assert_eq!(asked[6], Action::Exit);
    assert_eq!(monitor.exit_code(), 1);
}

#[test]
fn draw_failure_restores_and_fails() {
    let (asked, monitor) = run(&[
        Outcome::Done,
        Outcome::Done,
        Outcome::Done,
        Outcome::Failed,
        Outcome::Done,
        Outcome::Done,
        Outcome::Done,
    ]);
    assert_eq!(
        asked[4..].to_vec(),
        vec![
            Action::DisableRawMode,
            Action::LeaveAlternateScreen,
            Action::ShowCursor,
            Action::Exit,
        ]
    );
    assert_eq!(monitor.exit_code(), 1);
}

#[test]
fn input_failure_restores_and_fails() {
    let (asked, monitor) = run(&[
        Outcome::Done,
        Outcome::Done,
        Outcome::Done,
        Outcome::Done,
        Outcome::Failed,
        Outcome::Done,
        Outcome::Done,
        Outcome::Done,
    ]);
    assert_eq!(asked[5], Action::DisableRawMode);
    assert_eq!(asked[8], Action::Exit);
    assert_eq!(monitor.exit_code(), 1);
}

#[test]
fn restore_goes_on_after_a_failed_step() {
    let (asked, monitor) = run(&[
        Outcome::Done,
        Outcome::Done,
        Outcome::Done,
        Outcome::Done,
        Outcome::Key('q'),
        Outcome::Failed,
        Outcome::Failed,
        Outcome::Done,
    ]);
    assert_eq!(
        asked[5..].to_vec(),
        vec![
            Action::DisableRawMode,
            Action::LeaveAlternateScreen,
            Action::ShowCursor,
            Action::Exit,
        ]
    );
    assert_eq!(monitor.exit_code(), 1);
}

#[test]
fn exit_is_final() {
    let (_, monitor) = run(&[Outcome::Failed]);
    let later = monitor.step(Outcome::Done).step(Outcome::Key('q'));
    assert_eq!(later, monitor);
    let (_, clean) = run(&[
        Outcome::Done,
        Outcome::Done,
        Outcome::Done,
        Outcome::Done,
        Outcome::Key('q'),
        Outcome::Done,
        Outcome::Done,
        Outcome::Done,
    ]);
    let later = clean.step(Outcome::Failed);
    assert_eq!(later, clean);
    assert_eq!(later.exit_code(), 0);
}
