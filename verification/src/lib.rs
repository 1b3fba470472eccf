//! An orchestration engine that turns one product request into generated
//! backend source code.
//!
//! Role agents are resumable state machines. An agent never performs outside
//! work itself: each call of `execute` takes the answer to the request it
//! made last and returns the next request, so that a driver performs the
//! request (a completion by the language model, a reachability probe, a
//! build) and hands the answer back. Every decision taken between two requests
//! is verified.

pub mod ai_functions;
pub mod command_line;
pub mod llm;
pub mod basic_agent;
pub mod agent_traits;
pub mod factsheet_text;
pub mod generals;
pub mod agent_architect;
pub mod agent_backend;
pub mod managing_agent;
