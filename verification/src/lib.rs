//! An active-mode FTP client protocol engine.
//!
//! The library holds the pure protocol logic: classifying server
//! responses against a command's acceptable status codes, encoding a
//! local address for the PORT command, building the command lines the
//! client sends, and the bookkeeping of a data-channel drain loop.
//! The sockets themselves live outside the library.

pub mod codec;
pub mod commands;
pub mod data_channel;
pub mod dispatch;
pub mod matcher;
pub mod session;
