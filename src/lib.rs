//! Terminal session management: a registry of pseudo-terminal sessions,
//! optionally backed by persistent tmux sessions, with the shell and tmux
//! commands that create them and the decisions of their background loops.

pub mod models;
pub mod pty;
pub mod pump;
pub mod security;
pub mod shell;
pub mod text;
pub mod tmux;
