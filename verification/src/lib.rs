//! Reconnect logic for `Stream`/`Sink` wrappers that recover from disconnections.
//!
//! The library holds what the reconnecting wrapper decides: how it is configured
//! ([`config`]), how its initial connection attempts proceed ([`initial`]), the state
//! machine it runs once a connection exists ([`machine`]), how each whole poll
//! combines the machine's steps ([`poll`]), and the retry schedule used when none is
//! given ([`strategies`]). The laws that relate these decisions over whole runs are in
//! [`laws`].

pub mod config;
pub mod initial;
pub mod laws;
pub mod machine;
pub mod poll;
pub mod strategies;

pub use crate::config::{DefaultRetries, NoCallback, OptionsView, ReconnectOptions};
pub use crate::initial::{initial_connect_step, InitialStep};
pub use crate::machine::{
    AttemptVerdict, Callback, DisconnectOutcome, Operation, Plan, Progress, ReadOutcome,
    ReadVerdict, ReconnectMachine, Status, Wakeups, WriteOutcome, WriteVerdict,
};
pub use crate::strategies::ExpBackoffStrategy;
pub use crate::poll::{Answer, Effect, PollOutcome, Polled};
