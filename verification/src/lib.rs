//! Authentication and token lifecycle of a command-line logging assistant:
//! the one-time-passcode negotiation with the identity provider, the local
//! credential store, offline validation of bearer tokens against a cached key
//! set, and the bounded recovery cascade behind every authenticated command.
//!
//! The library never touches the network or the disk. Whatever needs them is
//! described as a value (a call to make, a file to write) and the answer is
//! handed back as a value.

pub mod auth;
pub mod commands;
pub mod meta;
