//! Ground-station relay core: a broadcast hub for telemetry samples, a bounded
//! command funnel, and the per-viewer session state machine that multiplexes
//! both directions over one connection.
use vstd::prelude::*;

pub mod funnel;
pub mod hub;
pub mod protocol;
pub mod session;

pub use funnel::{CommandFunnel, CommandOutlet, Intake, Submission, MAX_QUEUE};
pub use hub::{BroadcastHub, Delivery, Subscription, MAX_BACKLOG};
pub use protocol::Cmds;
pub use session::{Action, Event, Frame, Phase, Session, SessionMachine};

verus! {

/// Backlog of each subscription in the relay's standard setup.
pub const TELEMETRY_BACKLOG: usize = 100;

/// Queue size of the command funnel in the relay's standard setup.
pub const COMMAND_QUEUE: usize = 32;

} // verus!
