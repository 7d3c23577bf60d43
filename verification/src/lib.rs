//! Lifecycle reports to Herdr, a terminal multiplexer for coding agents.
//!
//! An agent that runs in a pane of Herdr tells it, over a local socket, whether
//! it is idle, working, blocked or done, and under which id its session can be
//! resumed. This library decides what is reported, to which pane and socket,
//! and in which bytes. It holds no socket and reads no variable: the caller
//! hands over the environment, and writes what comes out.

pub mod environment;
pub mod laws;
pub mod lifecycle;
pub mod registry;
pub mod state;
pub mod text;
pub mod wire;

pub use crate::lifecycle::{
    on_session_end, on_session_start, on_turn_end, on_turn_start, report_session_for_session,
    report_state_for_session,
};
pub use crate::registry::{enabled_for_session, register_session, unregister_session};
pub use crate::state::State;
