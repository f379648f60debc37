//! Session management for relaying a transcoder's output to one client.
//!
//! The crate holds the decisions of a transcoding relay and none of its
//! input or output: which message a reader emits for each outcome of the
//! process it drives, in what order a session hands those messages to its
//! owner, and what a network adapter does with them on each timer tick.
//! Threads, processes and sockets belong to the program around it.
//!
//! - [`response`]: the messages from the reader to the owner.
//! - [`channel`]: the queue that carries them, first in, first out.
//! - [`command`]: how the transcoding process is invoked.
//! - [`reader`]: the reader's phases, requests and events.
//! - [`session`]: the session, with its lifecycle and its running flag.
//! - [`laws`]: what holds of every run of a session.
//! - [`query`]: the source locator in a connection's resource path.
//! - [`relay`]: the network adapter's decisions.

pub mod channel;
pub mod command;
pub mod laws;
pub mod query;
pub mod reader;
pub mod relay;
pub mod response;
pub mod session;
