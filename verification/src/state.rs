use vstd::prelude::*;

verus! {

/// What an `AgentState` stands for: the Weir generation the cursor belongs
/// to, and the id of the last event forwarded within that generation.
pub struct AgentStateView {
    pub generation: Seq<char>,
    pub cursor: u64,
}

/// Persisted agent progress. `cursor` is the id of the last event
/// successfully forwarded within `generation`; both reset together when
/// Weir restarts (a new generation), since Weir's event ids restart at 1
/// in each process.
#[derive(Debug, Clone, PartialEq, Eq)]
pub struct AgentState {
    pub generation: String,
    pub cursor: u64,
}

impl View for AgentState {
    type V = AgentStateView;

    open spec fn view(&self) -> AgentStateView {
        AgentStateView { generation: self.generation@, cursor: self.cursor }
    }
}

/// The state of an agent that has forwarded nothing yet: an unknown (empty)
/// generation and cursor 0.
pub open spec fn initial_state() -> AgentStateView {
    AgentStateView { generation: Seq::empty(), cursor: 0 }
}

impl Default for AgentState {
    fn default() -> (s: AgentState)
        ensures
            s@ == initial_state(),
    {
        AgentState { generation: String::new(), cursor: 0 }
    }
}

} // verus!
