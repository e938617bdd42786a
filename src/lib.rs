//! Client for the local rich-presence IPC protocol: frame codec, wire text,
//! activity model, handler registry and the connection state machine.

pub mod codec;
pub mod json;
pub mod activity;
pub mod protocol;
pub mod registry;
pub mod utils;
pub mod client;

pub use activity::{Activity, ActivityButton, Assets, Party, Timestamps};
pub use client::{Client, ClientError};
pub use codec::{Message, OpCode};
pub use protocol::{Command, Event, EventContext};
