pub mod command;
pub mod daemon;
pub mod error;
pub mod pidfile;
