//! Background capture orchestrator: a command/event protocol, the state
//! machine that tracks the download in flight, and the task that carries one
//! download from resolution to its completion notice.

pub mod channel;
pub mod item;
pub mod model;
pub mod orchestrator;
pub mod protocol;
pub mod system;
pub mod task;
