//! The event core: the decisions of the event loop, as a state machine.
//!
//! The front end owns the loop. It waits for whichever comes first, the refresh
//! timer or the next input item, hands the event to [`step`], and carries out the
//! action it gets back. The machine never blocks and never touches the terminal.
//!
//! Redraws are serialized: at most one render pass is in flight. A request that
//! arrives while a pass is running is remembered, replacing any request already
//! waiting, and is started when the running pass reports back. So the pass issued
//! last is also the last to write. Front ends that start a pass for every tick
//! without waiting do not get this guarantee.

use vstd::prelude::*;
use crate::geometry::Geometry;
use crate::input::{
    command_for, dispatch, Command, InputEvent, Key, Transport,
};

verus! {

/// Whether a render pass is running, and whether another is waiting for it.
#[derive(Clone, Copy, Debug, PartialEq, Eq)]
pub enum RedrawSlot {
    /// No pass is running.
    Idle,
    /// One pass is running and nothing waits.
    InFlight,
    /// One pass is running and one request waits for it to finish.
    Superseded { clear_screen: bool },
}

/// The state of the event loop.
#[derive(Clone, Copy, Debug, PartialEq, Eq)]
pub enum CoreState {
    Running { redraw: RedrawSlot },
    /// The loop has ended. Nothing leads out of this state.
    Terminating,
}

/// What the loop can be woken by.
#[derive(Clone, Copy, Debug, PartialEq, Eq)]
pub enum LoopEvent {
    /// The refresh timer fired.
    Tick,
    /// The input stream delivered an item.
    Input(InputEvent),
    /// Reading the input stream failed.
    InputFailed,
    /// The input stream ended.
    InputClosed,
    /// The render pass that was started last has finished.
    RedrawFinished,
}

/// Why the loop ends.
#[derive(Clone, Copy, Debug, PartialEq, Eq)]
pub enum ShutdownReason {
    Quit,
    InputClosed,
    InputFailed,
}

/// What the front end is to do after an event.
#[derive(Clone, Copy, Debug, PartialEq, Eq)]
pub enum Action {
    Nothing,
    /// Fetch a fresh snapshot and run a full render pass, after clearing the whole
    /// screen where `clear_screen` is set; report `RedrawFinished` when it is done.
    Redraw { clear_screen: bool },
    /// Send a command to the player and do not wait for it.
    Send(Transport),
    /// Restore the terminal and leave the loop.
    Shutdown(ShutdownReason),
}

/// What a redraw request does to the slot: it starts a pass where none is running,
/// and otherwise waits, taking the place of a request that was waiting already. A
/// waiting request keeps in mind that the screen is to be cleared.
pub open spec fn request_of(slot: RedrawSlot, clear_screen: bool) -> (RedrawSlot, Action) {
    match slot {
        RedrawSlot::Idle => (RedrawSlot::InFlight, Action::Redraw { clear_screen }),
        RedrawSlot::InFlight => (RedrawSlot::Superseded { clear_screen }, Action::Nothing),
        RedrawSlot::Superseded { clear_screen: waiting } => (
            RedrawSlot::Superseded { clear_screen: waiting || clear_screen },
            Action::Nothing,
        ),
    }
}

/// What the end of a pass does to the slot: the waiting request, if there is one,
/// is started.
pub open spec fn finish_of(slot: RedrawSlot) -> (RedrawSlot, Action) {
    match slot {
        RedrawSlot::Idle => (RedrawSlot::Idle, Action::Nothing),
        RedrawSlot::InFlight => (RedrawSlot::Idle, Action::Nothing),
        RedrawSlot::Superseded { clear_screen } => (
            RedrawSlot::InFlight,
            Action::Redraw { clear_screen },
        ),
    }
}

/// The transition function: the state after an event and the action it calls for.
pub open spec fn step_of(state: CoreState, event: LoopEvent, geometry: Geometry) -> (
    CoreState,
    Action,
) {
    match state {
        CoreState::Terminating => (CoreState::Terminating, Action::Nothing),
        CoreState::Running { redraw } => match event {
            LoopEvent::Tick => {
                let (slot, action) = request_of(redraw, false);
                (CoreState::Running { redraw: slot }, action)
            },
            LoopEvent::RedrawFinished => {
                let (slot, action) = finish_of(redraw);
                (CoreState::Running { redraw: slot }, action)
            },
            LoopEvent::InputClosed => (
                CoreState::Terminating,
                Action::Shutdown(ShutdownReason::InputClosed),
            ),
            LoopEvent::InputFailed => (
                CoreState::Terminating,
                Action::Shutdown(ShutdownReason::InputFailed),
            ),
            LoopEvent::Input(input) => match command_for(input, geometry) {
                None => (state, Action::Nothing),
                Some(Command::Quit) => (
                    CoreState::Terminating,
                    Action::Shutdown(ShutdownReason::Quit),
                ),
                Some(Command::ForceRefresh) => {
                    let (slot, action) = request_of(redraw, true);
                    (CoreState::Running { redraw: slot }, action)
                },
                Some(Command::Previous) => (state, Action::Send(Transport::Previous)),
                Some(Command::PlayPause) => (state, Action::Send(Transport::PlayPause)),
                Some(Command::Next) => (state, Action::Send(Transport::Next)),
            },
        },
    }
}

/// The state and the actions after a sequence of events, taken in order.
pub open spec fn run_of(state: CoreState, events: Seq<LoopEvent>, geometry: Geometry) -> (
    CoreState,
    Seq<Action>,
)
    decreases events.len(),
{
    if events.len() == 0 {
        (state, Seq::empty())
    } else {
        let before = run_of(state, events.drop_last(), geometry);
        let last = step_of(before.0, events.last(), geometry);
        (last.0, before.1.push(last.1))
    }
}

/// How many of the actions are shutdowns.
pub open spec fn shutdowns_in(actions: Seq<Action>) -> nat
    decreases actions.len(),
{
    if actions.len() == 0 {
        0
    } else {
        shutdowns_in(actions.drop_last()) + if actions.last() is Shutdown {
            1nat
        } else {
            0nat
        }
    }
}

/// How many of the actions start a render pass.
pub open spec fn redraws_in(actions: Seq<Action>) -> nat
    decreases actions.len(),
{
    if actions.len() == 0 {
        0
    } else {
        redraws_in(actions.drop_last()) + if actions.last() is Redraw {
            1nat
        } else {
            0nat
        }
    }
}

/// How many of the events report the end of a render pass.
pub open spec fn finished_in(events: Seq<LoopEvent>) -> nat
    decreases events.len(),
{
    if events.len() == 0 {
        0
    } else {
        finished_in(events.drop_last()) + if events.last() is RedrawFinished {
            1nat
        } else {
            0nat
        }
    }
}

/// Whether a render pass is running in a state.
pub open spec fn pass_running(state: CoreState) -> bool {
    state matches CoreState::Running { redraw } && !(redraw is Idle)
}

/// Whether every `RedrawFinished` among the events arrives while the loop runs
/// and a pass is in flight, as it does when the front end reports each pass once.
pub open spec fn reports_are_timely(
    state: CoreState,
    events: Seq<LoopEvent>,
    geometry: Geometry,
) -> bool
    decreases events.len(),
{
    events.len() > 0 ==> {
        &&& reports_are_timely(state, events.drop_last(), geometry)
        &&& events.last() is RedrawFinished ==> pass_running(
            run_of(state, events.drop_last(), geometry).0,
        )
    }
}

impl CoreState {
    /// The state in which the loop begins, and the action that draws the panel
    /// for the first time.
    pub fn start() -> (begin: (CoreState, Action))
        ensures
            begin.0 == (CoreState::Running { redraw: RedrawSlot::InFlight }),
            begin.1 == (Action::Redraw { clear_screen: false }),
    {
        (CoreState::Running { redraw: RedrawSlot::InFlight }, Action::Redraw { clear_screen: false })
    }

    /// Whether the loop has ended.
    pub fn is_terminating(&self) -> (ended: bool)
        ensures
            ended == (*self is Terminating),
    {
        match self {
            CoreState::Terminating => true,
            CoreState::Running { .. } => false,
        }
    }
}

/// Lodges a redraw request with the slot.
pub fn request_redraw(slot: RedrawSlot, clear_screen: bool) -> (next: (RedrawSlot, Action))
    ensures
        next == request_of(slot, clear_screen),
{
    match slot {
        RedrawSlot::Idle => (RedrawSlot::InFlight, Action::Redraw { clear_screen }),
        RedrawSlot::InFlight => (RedrawSlot::Superseded { clear_screen }, Action::Nothing),
        RedrawSlot::Superseded { clear_screen: waiting } => (
            RedrawSlot::Superseded { clear_screen: waiting || clear_screen },
            Action::Nothing,
        ),
    }
}

/// Records the end of the running pass.
pub fn finish_redraw(slot: RedrawSlot) -> (next: (RedrawSlot, Action))
    ensures
        next == finish_of(slot),
{
    match slot {
        RedrawSlot::Idle => (RedrawSlot::Idle, Action::Nothing),
        RedrawSlot::InFlight => (RedrawSlot::Idle, Action::Nothing),
        RedrawSlot::Superseded { clear_screen } => (
            RedrawSlot::InFlight,
            Action::Redraw { clear_screen },
        ),
    }
}

/// Takes one event: returns the next state and what the front end is to do.
pub fn step(state: CoreState, event: &LoopEvent, geometry: &Geometry) -> (next: (
    CoreState,
    Action,
))
    ensures
        next == step_of(state, *event, *geometry),
{
    let redraw = match state {
        CoreState::Terminating => {
            return (CoreState::Terminating, Action::Nothing);
        },
        CoreState::Running { redraw } => redraw,
    };
    match event {
        LoopEvent::Tick => {
            let (slot, action) = request_redraw(redraw, false);
            (CoreState::Running { redraw: slot }, action)
        },
        LoopEvent::RedrawFinished => {
            let (slot, action) = finish_redraw(redraw);
            (CoreState::Running { redraw: slot }, action)
        },
        LoopEvent::InputClosed => (
            CoreState::Terminating,
            Action::Shutdown(ShutdownReason::InputClosed),
        ),
        LoopEvent::InputFailed => (
            CoreState::Terminating,
            Action::Shutdown(ShutdownReason::InputFailed),
        ),
        LoopEvent::Input(input) => match dispatch(input, geometry) {
            None => (state, Action::Nothing),
            Some(Command::Quit) => (CoreState::Terminating, Action::Shutdown(ShutdownReason::Quit)),
            Some(Command::ForceRefresh) => {
                let (slot, action) = request_redraw(redraw, true);
                (CoreState::Running { redraw: slot }, action)
            },
            Some(Command::Previous) => (state, Action::Send(Transport::Previous)),
            Some(Command::PlayPause) => (state, Action::Send(Transport::PlayPause)),
            Some(Command::Next) => (state, Action::Send(Transport::Next)),
        },
    }
}

/// A quit key ends the loop from every running state, whatever is being redrawn:
/// the next state is `Terminating` and the action is the shutdown.
pub proof fn lemma_quit_key_terminates(redraw: RedrawSlot, key: Key, geometry: Geometry)
    requires
        key == Key::Esc || key == Key::Char('q'),
    ensures
        step_of(CoreState::Running { redraw }, LoopEvent::Input(InputEvent::Key(key)), geometry)
            == (CoreState::Terminating, Action::Shutdown(ShutdownReason::Quit)),
{
}

/// The loop ends on a quit command, on the end of the input stream and on a read
/// error, and on nothing else; and the shutdown is ordered exactly in the step
/// that ends it.
pub proof fn lemma_loop_ends_only_on_shutdown(
    state: CoreState,
    event: LoopEvent,
    geometry: Geometry,
)
    requires
        state is Running,
    ensures
        step_of(state, event, geometry).0 is Terminating <==> step_of(
            state,
            event,
            geometry,
        ).1 is Shutdown,
        step_of(state, event, geometry).1 is Shutdown <==> (event is InputClosed
            || event is InputFailed || (event matches LoopEvent::Input(input) && command_for(
            input,
            geometry,
        ) == Some(Command::Quit))),
{
}

/// `Terminating` is final: whatever events still arrive, the state stays and no
/// action is ordered.
pub proof fn lemma_terminating_is_final(events: Seq<LoopEvent>, geometry: Geometry)
    ensures
        run_of(CoreState::Terminating, events, geometry).0 is Terminating,
        run_of(CoreState::Terminating, events, geometry).1.len() == events.len(),
        forall|i: int|
            0 <= i < events.len() ==> #[trigger] run_of(
                CoreState::Terminating,
                events,
                geometry,
            ).1[i] == Action::Nothing,
        shutdowns_in(run_of(CoreState::Terminating, events, geometry).1) == 0,
        redraws_in(run_of(CoreState::Terminating, events, geometry).1) == 0,
    decreases events.len(),
{
    if events.len() > 0 {
        lemma_terminating_is_final(events.drop_last(), geometry);
        let before = run_of(CoreState::Terminating, events.drop_last(), geometry);
        let after = run_of(CoreState::Terminating, events, geometry);
        assert(after.1.drop_last() =~= before.1);
    }
}

/// The terminal is restored exactly once. Over any sequence of events, a loop that
/// was running orders one shutdown if it has ended and none if it still runs.
pub proof fn lemma_shutdown_exactly_once(
    state: CoreState,
    events: Seq<LoopEvent>,
    geometry: Geometry,
)
    requires
        state is Running,
    ensures
        run_of(state, events, geometry).1.len() == events.len(),
        shutdowns_in(run_of(state, events, geometry).1) == (if run_of(
            state,
            events,
            geometry,
        ).0 is Terminating {
            1nat
        } else {
            0nat
        }),
    decreases events.len(),
{
    if events.len() > 0 {
        lemma_shutdown_exactly_once(state, events.drop_last(), geometry);
        let before = run_of(state, events.drop_last(), geometry);
        let after = run_of(state, events, geometry);
        assert(after.1.drop_last() =~= before.1);
        if before.0 is Running {
            lemma_loop_ends_only_on_shutdown(before.0, events.last(), geometry);
        }
    }
}

/// A render pass is started only when none is running: either the slot was idle,
/// or the running pass has just reported back and a request was waiting. After
/// the step exactly that one pass is in flight.
pub proof fn lemma_redraw_starts_only_when_free(
    state: CoreState,
    event: LoopEvent,
    geometry: Geometry,
)
    ensures
        step_of(state, event, geometry).1 is Redraw ==> {
            &&& state matches CoreState::Running { redraw }
            &&& redraw is Idle || (redraw is Superseded && event is RedrawFinished)
            &&& step_of(state, event, geometry).0 == (CoreState::Running {
                redraw: RedrawSlot::InFlight,
            })
        },
{
}

/// No request is lost and none is queued twice. A tick or a forced refresh that
/// finds a pass running leaves exactly one request waiting; it asks for a cleared
/// screen if the new request or the one it replaces did; and when the running
/// pass reports back, that request is started.
pub proof fn lemma_waiting_request_is_served(
    redraw: RedrawSlot,
    clear_screen: bool,
    geometry: Geometry,
)
    requires
        !(redraw is Idle),
    ensures
        request_of(redraw, clear_screen).1 == Action::Nothing,
        request_of(redraw, clear_screen).0 == (RedrawSlot::Superseded {
            clear_screen: clear_screen || redraw == (RedrawSlot::Superseded { clear_screen: true }),
        }),
        step_of(
            CoreState::Running { redraw: request_of(redraw, clear_screen).0 },
            LoopEvent::RedrawFinished,
            geometry,
        ) == (
            CoreState::Running { redraw: RedrawSlot::InFlight },
            Action::Redraw {
                clear_screen: clear_screen || redraw == (RedrawSlot::Superseded {
                    clear_screen: true,
                }),
            },
        ),
{
}

/// Render passes never overlap. Start with no pass running and let every pass be
/// reported once it is done: then, as long as the loop runs, the passes started
/// so far are the passes finished so far, plus one exactly when a pass is running.
pub proof fn lemma_passes_never_overlap(events: Seq<LoopEvent>, geometry: Geometry)
    requires
        reports_are_timely(CoreState::Running { redraw: RedrawSlot::Idle }, events, geometry),
        run_of(CoreState::Running { redraw: RedrawSlot::Idle }, events, geometry).0 is Running,
    ensures
        redraws_in(run_of(CoreState::Running { redraw: RedrawSlot::Idle }, events, geometry).1)
            == finished_in(events) + (if pass_running(
            run_of(CoreState::Running { redraw: RedrawSlot::Idle }, events, geometry).0,
        ) {
            1nat
        } else {
            0nat
        }),
    decreases events.len(),
{
    let begin = CoreState::Running { redraw: RedrawSlot::Idle };
    if events.len() > 0 {
        let before = run_of(begin, events.drop_last(), geometry);
        let after = run_of(begin, events, geometry);
        assert(after.1.drop_last() =~= before.1);
        if before.0 is Terminating {
            assert(after.0 is Terminating);
        } else {
            lemma_passes_never_overlap(events.drop_last(), geometry);
        }
    }
}

} // verus!
