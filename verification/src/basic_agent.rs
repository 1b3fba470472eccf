//! The attributes that every role agent has.

use vstd::prelude::*;
use crate::llm::{conversation_view, Message, MessageView};

verus! {

/// Where an agent stands in its work.
#[derive(Clone, Copy, Debug, PartialEq, Eq, Structural)]
pub enum AgentState {
    /// The agent gathers what it needs.
    Discovery,
    /// The agent produces its output.
    Working,
    /// The agent tests what it produced.
    UnitTesting,
    /// The agent is done. This state is terminal.
    Finished,
}

/// The base attributes of a role agent.
#[derive(Debug, PartialEq, Eq)]
pub struct BasicAgent {
    /// What the agent is there for.
    pub objective: String,
    /// The role label of the agent.
    pub position: String,
    /// Where the agent stands in its work.
    pub state: AgentState,
    /// The conversation log of the agent. It only grows.
    pub memory: Vec<Message>,
}

/// The base attributes as a mathematical record.
pub struct BasicAgentView {
    pub objective: Seq<char>,
    pub position: Seq<char>,
    pub state: AgentState,
    pub memory: Seq<MessageView>,
}

impl View for BasicAgent {
    type V = BasicAgentView;

    open spec fn view(&self) -> BasicAgentView {
        BasicAgentView {
            objective: self.objective@,
            position: self.position@,
            state: self.state,
            memory: conversation_view(self.memory@),
        }
    }
}

impl BasicAgentView {
    /// These attributes in another state.
    pub open spec fn in_state(self, state: AgentState) -> BasicAgentView {
        BasicAgentView { state, ..self }
    }
}

impl BasicAgent {
    /// An agent at the start of its work: in `Discovery`, with an empty log.
    pub fn new(objective: String, position: String) -> (agent: BasicAgent)
        ensures
            agent@ == (BasicAgentView {
                objective: objective@,
                position: position@,
                state: AgentState::Discovery,
                memory: Seq::empty(),
            }),
    {
        let agent = BasicAgent {
            objective,
            position,
            state: AgentState::Discovery,
            memory: Vec::new(),
        };
        assert(conversation_view(agent.memory@) =~= Seq::empty());
        agent
    }

    /// Moves the agent to `new_state` and changes nothing else.
    pub fn update_state(&mut self, new_state: AgentState)
        ensures
            final(self)@ == old(self)@.in_state(new_state),
    {
        self.state = new_state;
    }

    pub fn get_objective(&self) -> (objective: &String)
        ensures
            objective@ == self@.objective,
    {
        &self.objective
    }

    pub fn get_position(&self) -> (position: &String)
        ensures
            position@ == self@.position,
    {
        &self.position
    }

    pub fn get_state(&self) -> (state: &AgentState)
        ensures
            *state == self@.state,
    {
        &self.state
    }

    pub fn get_memory(&self) -> (memory: &Vec<Message>)
        ensures
            conversation_view(memory@) == self@.memory,
    {
        &self.memory
    }
}

} // verus!
