//! A transport-agnostic protocol engine for driving MicroPython and upyOS
//! devices over a byte stream.
//!
//! The engine owns no port, no clock and no terminal. Every operation is a
//! small state machine: it hands its host one request at a time (write
//! these bytes, read once, pause), takes the host's reply together with the
//! time, and says what comes next. What each machine does is stated over
//! its mathematical state, and that is what is proved of it.

pub mod base64;
pub mod bridge;
pub mod detect;
pub mod device;
pub mod error;
pub mod exec;
pub mod files;
pub mod frame;
pub mod keys;
pub mod link;
pub mod mode;
pub mod reset;
pub mod search;
pub mod send;
pub mod shell;
pub mod text;
