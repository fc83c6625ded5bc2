//! The core of an asynchronous structured-logging pipeline.
//!
//! Callers hand a [`Logger`] values to log at a severity. A record that
//! passes the level filter is offered to a bounded channel without waiting;
//! a background worker gathers records into batches and flushes a batch when
//! it is full, when its deadline passes, or at shutdown. Each record becomes
//! one line of JSON text.
//!
//! This crate holds what is decided and computed on that way, with its
//! proofs:
//!
//! - [`format`]: the line that a record and a [`format::FormatState`] give,
//!   and the text of a whole batch; [`format_laws`] states what holds of
//!   every line.
//! - [`worker`]: the batching state machine as a function from an event to
//!   what is to be done; [`worker_laws`] states what holds of every run:
//!   nothing is lost, nothing is written twice, order is kept.
//! - [`logger`]: the producer side, with the fallback for a channel that is
//!   full or closed.
//! - [`options`], [`context`], [`globals`], [`shutdown`]: configuration, the
//!   context store with its reserved names, the once-filled registry and the
//!   shutdown coordinator.
//!
//! The crate reads no clock, asks no terminal and writes to no sink: the
//! capture instant and whether the sink is a terminal come in as plain
//! values, and the text to write goes out as a `String`. Running the worker
//! loop, waiting on the channel and writing are left to the program that
//! uses the crate.
//!
//! What is taken on trust from other crates is marked where it stands: the
//! colouring of text ([`ansi`]), the quoting and pretty-printing of JSON
//! ([`json`]), the rendering of timestamps ([`clock`]), and the non-blocking
//! send and receive ([`channel`]).

pub mod ansi;
pub mod channel;
pub mod clock;
pub mod colors;
pub mod constants;
pub mod context;
pub mod format;
pub mod format_laws;
pub mod globals;
pub mod json;
pub mod levels;
pub mod logger;
pub mod options;
pub mod payload;
pub mod record;
pub mod shutdown;
mod support;
pub mod worker;
pub mod worker_laws;

pub use colors::{ColorSettings, RGB};
pub use globals::{get_global_logger, shutdown_global_logger, LoggerRegistry};
pub use levels::LogLevel;
pub use logger::Logger;
pub use options::LoggerOptions;
