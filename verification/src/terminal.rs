//! The terminal's modes: what is switched on when the panel starts and switched
//! back when it ends.
//!
//! The sequences are data. The front end carries them out, and has to carry out
//! the shutdown sequence on every exit path.

use vstd::prelude::*;

verus! {

/// One switch of a terminal mode.
#[derive(Clone, Copy, Debug, PartialEq, Eq)]
pub enum TerminalStep {
    HideCursor,
    ShowCursor,
    EnterAlternateScreen,
    LeaveAlternateScreen,
    EnableMouseCapture,
    DisableMouseCapture,
    DisableLineWrap,
    EnableLineWrap,
    EnableRawMode,
    DisableRawMode,
}

impl TerminalStep {
    /// The step that switches the same mode the other way.
    pub open spec fn spec_inverse(self) -> TerminalStep {
        match self {
            TerminalStep::HideCursor => TerminalStep::ShowCursor,
            TerminalStep::ShowCursor => TerminalStep::HideCursor,
            TerminalStep::EnterAlternateScreen => TerminalStep::LeaveAlternateScreen,
            TerminalStep::LeaveAlternateScreen => TerminalStep::EnterAlternateScreen,
            TerminalStep::EnableMouseCapture => TerminalStep::DisableMouseCapture,
            TerminalStep::DisableMouseCapture => TerminalStep::EnableMouseCapture,
            TerminalStep::DisableLineWrap => TerminalStep::EnableLineWrap,
            TerminalStep::EnableLineWrap => TerminalStep::DisableLineWrap,
            TerminalStep::EnableRawMode => TerminalStep::DisableRawMode,
            TerminalStep::DisableRawMode => TerminalStep::EnableRawMode,
        }
    }

    /// The step that switches the same mode the other way.
    pub fn inverse(self) -> (other: TerminalStep)
        ensures
            other == self.spec_inverse(),
            other.spec_inverse() == self,
            other != self,
    {
        match self {
            TerminalStep::HideCursor => TerminalStep::ShowCursor,
            TerminalStep::ShowCursor => TerminalStep::HideCursor,
            TerminalStep::EnterAlternateScreen => TerminalStep::LeaveAlternateScreen,
            TerminalStep::LeaveAlternateScreen => TerminalStep::EnterAlternateScreen,
            TerminalStep::EnableMouseCapture => TerminalStep::DisableMouseCapture,
            TerminalStep::DisableMouseCapture => TerminalStep::EnableMouseCapture,
            TerminalStep::DisableLineWrap => TerminalStep::EnableLineWrap,
            TerminalStep::EnableLineWrap => TerminalStep::DisableLineWrap,
            TerminalStep::EnableRawMode => TerminalStep::DisableRawMode,
            TerminalStep::DisableRawMode => TerminalStep::EnableRawMode,
        }
    }
}

/// What happens to the terminal when the panel starts, in order.
pub open spec fn startup_sequence() -> Seq<TerminalStep> {
    seq![
        TerminalStep::HideCursor,
        TerminalStep::EnterAlternateScreen,
        TerminalStep::EnableMouseCapture,
        TerminalStep::DisableLineWrap,
        TerminalStep::EnableRawMode,
    ]
}

/// What happens to the terminal when the panel ends, in order.
pub open spec fn shutdown_sequence() -> Seq<TerminalStep> {
    seq![
        TerminalStep::DisableMouseCapture,
        TerminalStep::EnableLineWrap,
        TerminalStep::LeaveAlternateScreen,
        TerminalStep::ShowCursor,
        TerminalStep::DisableRawMode,
    ]
}

/// The steps to take when the panel starts.
pub fn startup_steps() -> (steps: Vec<TerminalStep>)
    ensures
        steps@ == startup_sequence(),
{
    let mut steps: Vec<TerminalStep> = Vec::new();
    steps.push(TerminalStep::HideCursor);
    steps.push(TerminalStep::EnterAlternateScreen);
    steps.push(TerminalStep::EnableMouseCapture);
    steps.push(TerminalStep::DisableLineWrap);
    steps.push(TerminalStep::EnableRawMode);
    assert(steps@ =~= startup_sequence());
    steps
}

/// The steps to take when the panel ends, whatever ended it.
pub fn shutdown_steps() -> (steps: Vec<TerminalStep>)
    ensures
        steps@ == shutdown_sequence(),
{
    let mut steps: Vec<TerminalStep> = Vec::new();
    steps.push(TerminalStep::DisableMouseCapture);
    steps.push(TerminalStep::EnableLineWrap);
    steps.push(TerminalStep::LeaveAlternateScreen);
    steps.push(TerminalStep::ShowCursor);
    steps.push(TerminalStep::DisableRawMode);
    assert(steps@ =~= shutdown_sequence());
    steps
}

/// The shutdown restores what the startup changed and nothing else: every step
/// of the startup has its inverse in the shutdown, every step of the shutdown is
/// the inverse of a step of the startup, and no mode is switched twice.
pub proof fn lemma_shutdown_undoes_startup()
    ensures
        startup_sequence().len() == shutdown_sequence().len(),
        forall|i: int|
            0 <= i < startup_sequence().len() ==> shutdown_sequence().contains(
                #[trigger] startup_sequence()[i].spec_inverse(),
            ),
        forall|i: int|
            0 <= i < shutdown_sequence().len() ==> startup_sequence().contains(
                #[trigger] shutdown_sequence()[i].spec_inverse(),
            ),
        startup_sequence().no_duplicates(),
        shutdown_sequence().no_duplicates(),
{
    let up = startup_sequence();
    let down = shutdown_sequence();
    assert(down[0] == up[2].spec_inverse());
    assert(down[1] == up[3].spec_inverse());
    assert(down[2] == up[1].spec_inverse());
    assert(down[3] == up[0].spec_inverse());
    assert(down[4] == up[4].spec_inverse());
    assert(up[0] == down[3].spec_inverse());
    assert(up[1] == down[2].spec_inverse());
    assert(up[2] == down[0].spec_inverse());
    assert(up[3] == down[1].spec_inverse());
    assert(up[4] == down[4].spec_inverse());
}

} // verus!
