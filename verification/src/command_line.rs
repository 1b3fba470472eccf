//! What an agent tells the people who watch it work.

use vstd::prelude::*;

verus! {

/// The category of a progress notification.
#[derive(Clone, Copy, Debug, PartialEq, Eq, Structural)]
pub enum PrintCommand {
    /// The language model is about to be called.
    AICall,
    /// Generated work is about to be tested.
    UnitTest,
    /// Something went wrong.
    Issue,
}

/// A progress notification for the diagnostic sink.
#[derive(Debug, PartialEq, Eq)]
pub struct Notice {
    /// The category of the notification.
    pub category: PrintCommand,
    /// The position of the agent that speaks.
    pub position: String,
    /// What the agent is doing.
    pub statement: String,
}

/// A notification as a mathematical record.
pub struct NoticeView {
    pub category: PrintCommand,
    pub position: Seq<char>,
    pub statement: Seq<char>,
}

impl View for Notice {
    type V = NoticeView;

    open spec fn view(&self) -> NoticeView {
        NoticeView {
            category: self.category,
            position: self.position@,
            statement: self.statement@,
        }
    }
}

impl PrintCommand {
    /// A notification of this category.
    pub fn print_agent_message(&self, agent_pos: &str, agent_statement: &str) -> (notice: Notice)
        ensures
            notice@ == (NoticeView {
                category: *self,
                position: agent_pos@,
                statement: agent_statement@,
            }),
    {
        Notice {
            category: *self,
            position: agent_pos.to_owned(),
            statement: agent_statement.to_owned(),
        }
    }
}

} // verus!
