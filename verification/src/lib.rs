//! Supervision core for a long-lived worker process: key provisioning,
//! runtime and script discovery, process lifecycle and a line-framed
//! request/response channel.
//!
//! The library decides; the host acts. Nothing here touches the file
//! system, the secret store or a process. Where such work is needed a
//! function says what is to be done, the host does it and reports what
//! happened, and the next function says how to go on:
//!
//! - [`key`] decides which store to try for the cache key, what to make of
//!   what a store holds, and creates a key where none is found;
//! - [`locate`] runs the searches for the runtime and the entry script as a
//!   sequence of probes;
//! - [`supervisor`] keeps the worker's state through the steps of a start
//!   and numbers the requests;
//! - [`rpc`] frames requests and reads responses;
//! - [`commands`] puts together the request of each operation that the user
//!   interface offers.

pub mod commands;
pub mod encoding;
pub mod json;
pub mod key;
pub mod locate;
pub mod rpc;
pub mod supervisor;
pub mod text;
