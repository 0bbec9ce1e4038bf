//! What the commands decide, without what they do: each command is told
//! what it needs to know and answers with what is to be done.

pub mod process;
pub mod uninstall;
pub mod shell;
pub mod login;
pub mod logout;
pub mod update;
pub mod log;
pub mod view;
pub mod plan;
pub mod confirm;
