//! What the renderer does with each event of the window's event loop.
//!
//! The event loop belongs to the caller.  For every event it gets, the caller
//! asks [`RunState::on_event`] what to do and does it: render one frame, shut
//! down, or nothing.
use vstd::prelude::*;

verus! {

/// The events that matter to the renderer.
#[derive(Clone, Copy, Debug, PartialEq, Eq, Structural)]
pub enum LoopEvent {
    /// All pending window events were handled: time for a frame.
    Idle,
    /// The user asked to close the window.
    CloseRequested,
    /// Any other event.
    Other,
}

/// What the caller does in answer to an event.
#[derive(Clone, Copy, Debug, PartialEq, Eq, Structural)]
pub enum LoopAction {
    /// Render and present one frame.
    Render,
    /// Leave the event loop, wait until the device is idle, then destroy
    /// everything in teardown order.
    Shutdown,
    /// Do nothing.
    Nothing,
}

/// Whether the shutdown has begun.
#[derive(Clone, Copy, Debug, PartialEq, Eq, Structural)]
pub struct RunState {
    pub destroying: bool,
}

/// The answer to one event: the state after it and the action to take.
pub open spec fn spec_on_event(state: RunState, event: LoopEvent) -> (RunState, LoopAction) {
    match event {
        LoopEvent::Idle => if state.destroying {
            (state, LoopAction::Nothing)
        } else {
            (state, LoopAction::Render)
        },
        LoopEvent::CloseRequested => if state.destroying {
            (state, LoopAction::Nothing)
        } else {
            (RunState { destroying: true }, LoopAction::Shutdown)
        },
        LoopEvent::Other => (state, LoopAction::Nothing),
    }
}

/// The actions that a run of events brings about, one for each event.
pub open spec fn spec_actions(state: RunState, events: Seq<LoopEvent>) -> Seq<LoopAction>
    decreases events.len(),
{
    if events.len() == 0 {
        seq![]
    } else {
        let (next, action) = spec_on_event(state, events[0]);
        seq![action] + spec_actions(next, events.drop_first())
    }
}

impl RunState {
    /// The state in which the event loop starts: rendering, not shutting down.
    pub fn new() -> (r: RunState)
        ensures
            r == (RunState { destroying: false }),
    {
        RunState { destroying: false }
    }

    /// Takes one event and says what to do.
    ///
    /// An idle tick renders a frame unless the shutdown has begun.  The first
    /// close request begins the shutdown; later ones, and all other events,
    /// do nothing.
    pub fn on_event(&mut self, event: LoopEvent) -> (action: LoopAction)
        ensures
            (*final(self), action) == spec_on_event(*old(self), event),
    {
        match event {
            LoopEvent::Idle => {
                if self.destroying {
                    LoopAction::Nothing
                } else {
                    LoopAction::Render
                }
            },
            LoopEvent::CloseRequested => {
                if self.destroying {
                    LoopAction::Nothing
                } else {
                    self.destroying = true;
                    LoopAction::Shutdown
                }
            },
            LoopEvent::Other => LoopAction::Nothing,
        }
    }
}

/// One action comes about for each event.
pub proof fn lemma_one_action_per_event(state: RunState, events: Seq<LoopEvent>)
    ensures
        spec_actions(state, events).len() == events.len(),
    decreases events.len(),
{
    if events.len() > 0 {
        lemma_one_action_per_event(spec_on_event(state, events[0]).0, events.drop_first());
    }
}

/// Once the shutdown has begun, no event brings about anything.
pub proof fn lemma_nothing_while_destroying(state: RunState, events: Seq<LoopEvent>, i: int)
    requires
        state.destroying,
        0 <= i < events.len(),
    ensures
        spec_actions(state, events).len() == events.len(),
        spec_actions(state, events)[i] == LoopAction::Nothing,
    decreases events.len(),
{
    lemma_one_action_per_event(state, events);
    let next = spec_on_event(state, events[0]).0;
    lemma_one_action_per_event(next, events.drop_first());
    if i > 0 {
        lemma_nothing_while_destroying(next, events.drop_first(), i - 1);
    }
}

/// Whatever the events, the shutdown happens at most once and no frame is
/// rendered after it: every action that follows a `Shutdown` is `Nothing`.
pub proof fn lemma_nothing_follows_shutdown(
    state: RunState,
    events: Seq<LoopEvent>,
    i: int,
    j: int,
)
    requires
        0 <= i < j < events.len(),
        spec_actions(state, events)[i] == LoopAction::Shutdown,
    ensures
        spec_actions(state, events).len() == events.len(),
        spec_actions(state, events)[j] == LoopAction::Nothing,
    decreases events.len(),
{
    lemma_one_action_per_event(state, events);
    let (next, action) = spec_on_event(state, events[0]);
    let rest = events.drop_first();
    lemma_one_action_per_event(next, rest);
    if i == 0 {
        assert(action == LoopAction::Shutdown);
        lemma_nothing_while_destroying(next, rest, j - 1);
    } else {
        lemma_nothing_follows_shutdown(next, rest, i - 1, j - 1);
    }
}

/// A frame is rendered only in answer to an idle tick, and only while the
/// shutdown has not begun.
pub proof fn lemma_render_only_on_idle(state: RunState, event: LoopEvent)
    ensures
        spec_on_event(state, event).1 == LoopAction::Render <==> (event == LoopEvent::Idle
            && !state.destroying),
        spec_on_event(state, event).1 == LoopAction::Shutdown <==> (event
            == LoopEvent::CloseRequested && !state.destroying),
        state.destroying ==> spec_on_event(state, event).0.destroying,
{
}

} // verus!
