//! Channel lifecycle controller of a lightning node: the state machine that
//! takes one payment channel from its proposal to normal operation, and the
//! dispatcher that feeds it protocol messages and control requests.

pub mod channel;
pub mod lifecycle;
pub mod rpc;
pub mod runtime;
pub mod state_machine;
pub mod state_machines;

pub use channel::{ActiveChannelId, ChannelError, ChannelExtension};
pub use lifecycle::Lifecycle;
pub use rpc::{Endpoints, Request, Rpc, ServiceId};
pub use runtime::Runtime;
pub use state_machines::channel_propose::ChannelPropose;
pub use state_machines::{ChannelStateMachine, Error};
