use yamc::terminal::{shutdown_steps, startup_steps, TerminalStep};

#[test]
fn startup_switches_the_panel_modes_on() {
    assert_eq!(
        startup_steps(),
        vec![
            TerminalStep::HideCursor,
            TerminalStep::EnterAlternateScreen,
            TerminalStep::EnableMouseCapture,
            TerminalStep::DisableLineWrap,
            TerminalStep::EnableRawMode,
        ]
    );
}

#[test]
fn shutdown_switches_them_back() {
    assert_eq!(
        shutdown_steps(),
        vec![
            TerminalStep::DisableMouseCapture,
            TerminalStep::EnableLineWrap,
            TerminalStep::LeaveAlternateScreen,
            TerminalStep::ShowCursor,
            TerminalStep::DisableRawMode,
        ]
    );
}

#[test]
fn shutdown_undoes_every_startup_step() {
    let down = shutdown_steps();
    for step in startup_steps() {
        assert!(down.contains(&step.inverse()));
        assert!(!down.contains(&step));
    }
    assert_eq!(down.len(), startup_steps().len());
}

#[test]
fn inverse_is_its_own_inverse() {
    let all = [
        TerminalStep::HideCursor,
        TerminalStep::ShowCursor,
        TerminalStep::EnterAlternateScreen,
        TerminalStep::LeaveAlternateScreen,
        TerminalStep::EnableMouseCapture,
        TerminalStep::DisableMouseCapture,
        TerminalStep::DisableLineWrap,
        TerminalStep::EnableLineWrap,
        TerminalStep::EnableRawMode,
        TerminalStep::DisableRawMode,
    ];
    for step in all {
        assert_ne!(step.inverse(), step);
        assert_eq!(step.inverse().inverse(), step);
    }
    assert_eq!(TerminalStep::HideCursor.inverse(), TerminalStep::ShowCursor);
    assert_eq!(TerminalStep::EnableRawMode.inverse(), TerminalStep::DisableRawMode);
}
