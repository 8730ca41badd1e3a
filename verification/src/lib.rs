//! The core of a sensor logger for a board with two cores: producer tasks
//! sample their sensors while a recording flag is up, a bounded queue carries
//! the readings to one sink task, which writes one line per reading, and a
//! control task, driven by a button, decides when to record.
//!
//! The library holds what the tasks decide and compute, each as a function
//! from plain values to plain values with its contract. Waiting, the clock,
//! the pins, the bus and the transport are the caller's.
//!
//! - [`sample`]: a reading as the sensor gives it, and its canonical form.
//! - [`wire`], [`line`]: the text of a canonical reading.
//! - [`mailbox`]: the single slot that keeps the latest value.
//! - [`queue`]: the bounded queue that holds senders up and drops nothing.
//! - [`bus`]: the guard of a bus that several producers share.
//! - [`flags`]: the recording and ready flags.
//! - [`button`], [`led`], [`display`]: what goes to and comes from the user.
//! - [`control`]: the state machine of the control task.
//! - [`producer`], [`sink`], [`pipeline`]: the tasks of the data path.
//! - [`schedule`]: which task runs on which core.

pub mod bus;
pub mod button;
pub mod control;
pub mod display;
pub mod flags;
pub mod led;
pub mod line;
pub mod mailbox;
pub mod pipeline;
pub mod producer;
pub mod queue;
pub mod sample;
pub mod schedule;
pub mod sink;
pub mod wire;
