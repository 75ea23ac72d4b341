//! Event-loop and component-dispatch engine of a terminal application shell.

pub mod action;
pub mod event;
pub mod feeds;
pub mod mode;
pub mod pump;
pub mod router;
pub mod session;
pub mod shutdown;
pub mod text;
