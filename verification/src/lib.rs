//! Flashing lights: five lights with on/off states, a nanosecond clock model,
//! flashers that toggle lights on a schedule (polled or sleeping), and the log
//! and input handling of the terminal light simulator.
pub mod display;
pub mod input;
pub mod lights;
pub mod log;
pub mod many_poll;

pub mod order;
pub mod polled;
pub mod sleep;

pub mod text;
pub mod time;
pub mod visitor;

pub use display::{light_states, DisplayColor};
pub use input::{should_quit, Key, KeyInput};
pub use lights::{LightId, Lights, OnOff, TuiLights};
pub use log::{LogBuffer, LogEntry, LogLevel};
pub use many_poll::{ManyPoll, ManyPollBuilder};

pub use polled::FlashPolled;
pub use sleep::{FlashSleep, SleepSchedule};

pub use time::{Duration, TimeAdd, TimeError, WrappedInstant};
pub use visitor::MessageVisitor;
