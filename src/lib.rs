//! Command dispatch for a ClearCore motion/IO controller: request framing,
//! device handles, the controller registry and the connection actor's rules.

pub mod frame;
pub mod link;
pub mod handles;
pub mod controller;
pub mod actor;

pub use actor::{ActorAction, ActorEvent, ConnectionActor, Phase};
pub use controller::{Controller, MotorBuilder};
pub use handles::{decode_ack, AnalogInput, ClearCoreMotor, Input, MotorStatus, Output};
pub use link::{command_queue, submit_outcome, CommandError, Message, Settlement};
