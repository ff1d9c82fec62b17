use vstd::prelude::*;

verus! {

/// Life cycle of the engine: it starts once and, once stopped, stays stopped.
#[derive(Clone, Copy, Debug, PartialEq, Eq, Structural)]
pub enum EngineState {
    Idle,
    Running,
    Stopped,
}

/// What the engine's driver observes between ticks.
#[derive(Clone, Copy, Debug, PartialEq, Eq, Structural)]
pub enum EngineEvent {
    /// The generator and the output stream were started.
    Start,
    /// The owner asked the engine to stop.
    StopRequested,
    /// Every command sender has gone away.
    SenderClosed,
    /// The consumer of generated frames has gone away.
    ConsumerClosed,
}

/// The state after `e` in state `s`: a stopped engine never runs again, a
/// start from idle runs, and any stop or disconnection stops.
pub open spec fn state_after(s: EngineState, e: EngineEvent) -> EngineState {
    match s {
        EngineState::Stopped => EngineState::Stopped,
        _ => match e {
            EngineEvent::Start => EngineState::Running,
            _ => EngineState::Stopped,
        },
    }
}

impl EngineState {
    /// The state that follows `e`.
    pub fn on_event(self, e: EngineEvent) -> (r: EngineState)
        ensures
            r == state_after(self, e),
    {
        match self {
            EngineState::Stopped => EngineState::Stopped,
            _ => match e {
                EngineEvent::Start => EngineState::Running,
                _ => EngineState::Stopped,
            },
        }
    }

    /// Whether the generator should produce another frame.
    pub fn is_running(&self) -> (r: bool)
        ensures
            r == (*self == EngineState::Running),
    {
        match self {
            EngineState::Running => true,
            _ => false,
        }
    }
}

} // verus!
